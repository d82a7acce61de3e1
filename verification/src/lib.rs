//! The rules of a binding between a host program and a WebAssembly engine,
//! stated over plain values and proved: how typed values cross the native
//! call boundary, how guest memory is reached through checked ranges, how
//! host functions are described, called and answered, how a module keeps its
//! exports and its host data, and how the engine's results are read.
//!
//! Nothing here touches the engine. A caller that does hands these
//! functions what the engine gave it and carries out what they decide.

pub mod config;
pub mod error;
pub mod executor;
pub mod function;
pub mod memory;
pub mod module;
pub mod plugin;
pub mod sdk;
pub mod types;
