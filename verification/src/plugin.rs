//! What the descriptor of a plugin states in numbers.

use vstd::prelude::*;

verus! {

/// The kinds of value that an option of a plugin can hold, as the loader
/// numbers them.
#[derive(Debug, Clone, Copy, PartialEq, Eq, Structural)]
pub enum OptionKind {
    Toggle,
    Int8,
    Int16,
    Int32,
    Int64,
    UInt8,
    UInt16,
    UInt32,
    UInt64,
    Float,
    Double,
    Text,
}

impl OptionKind {
    /// The loader's number for this kind.
    pub open spec fn spec_code(self) -> u32 {
        match self {
            OptionKind::Toggle => 1,
            OptionKind::Int8 => 2,
            OptionKind::Int16 => 3,
            OptionKind::Int32 => 4,
            OptionKind::Int64 => 5,
            OptionKind::UInt8 => 6,
            OptionKind::UInt16 => 7,
            OptionKind::UInt32 => 8,
            OptionKind::UInt64 => 9,
            OptionKind::Float => 10,
            OptionKind::Double => 11,
            OptionKind::Text => 12,
        }
    }
}

/// The loader's number for a kind of option value.
pub fn select_type(kind: OptionKind) -> (code: u32)
    ensures
        code == kind.spec_code(),
        1 <= code <= 12,
{
    match kind {
        OptionKind::Toggle => 1,
        OptionKind::Int8 => 2,
        OptionKind::Int16 => 3,
        OptionKind::Int32 => 4,
        OptionKind::Int64 => 5,
        OptionKind::UInt8 => 6,
        OptionKind::UInt16 => 7,
        OptionKind::UInt32 => 8,
        OptionKind::UInt64 => 9,
        OptionKind::Float => 10,
        OptionKind::Double => 11,
        OptionKind::Text => 12,
    }
}

/// No two kinds share a number.
pub proof fn lemma_option_codes_differ(a: OptionKind, b: OptionKind)
    requires
        a.spec_code() == b.spec_code(),
    ensures
        a == b,
{
}

/// The number of names in a list of fixed length, as the descriptor of a
/// plugin states it: the low 32 bits of the length.
pub fn count<const N: usize>(names: &[&str; N]) -> (n: u32)
    ensures
        n == N as u32,
{
    N as u32
}

} // verus!
