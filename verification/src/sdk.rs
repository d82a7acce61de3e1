//! What a plugin author works with: modules of host functions, the bridge
//! that the engine calls them through, and instances that are called by
//! name.

use crate::error::{
    lemma_wire_round_trip,
    CoreCommonError,
    CoreError,
    InstanceError,
    RawResult,
};
use crate::executor::{
    call_outcome,
    decode_all,
    decode_values,
    encode_all,
    lemma_lists_round_trip,
    Executor,
    Invocation,
};
use crate::function::{as_declared, same_function, FuncRef, Function};
use crate::memory::Memory;
use crate::module::{is_first_index, is_insert, refers_to, ImportModule, InnerInstance};
use crate::types::{has_nul, is_first_nul, text_bytes, RawValue, ValType, WasmEdgeString, WasmVal};
use vstd::prelude::*;

verus! {

/// Why a call by name failed.
#[derive(Clone, Debug, PartialEq, Eq)]
pub enum CallError {
    InstanceError(InstanceError),
    RuntimeError(CoreError),
}

/// Why a host function could not be registered.
#[derive(Debug, Clone, Copy, PartialEq, Eq, Structural)]
pub enum AddFuncError {
    /// The name holds a zero byte, at the given position.
    NameError(usize),
    IllegalName,
    FunctionCreate,
}

/// The key that binds a host function to the host data of its own module.
pub const MODULE_DATA: usize = 0;

/// What the bridge hands back for what a host function returned. A failure
/// goes out in its wire form and the result slots stay as they were. On a
/// success the values fill the slots from the first on and the result
/// reports success; values that do not fit into the slots are a fault of
/// the host function, reported as the generic runtime failure with the
/// slots untouched.
pub open spec fn encodes(
    outcome: Result<Vec<WasmVal>, CoreError>,
    before: Seq<RawValue>,
    after: Seq<RawValue>,
    r: RawResult,
) -> bool {
    match outcome {
        Err(e) => after == before && r == (RawResult {
            category: e.spec_category(),
            code: e.spec_code(),
        }),
        Ok(vals) => if vals@.len() > before.len() {
            after == before && r == (RawResult {
                category: CoreError::Common(CoreCommonError::RuntimeError).spec_category(),
                code: CoreError::Common(CoreCommonError::RuntimeError).spec_code(),
            })
        } else {
            after == encode_all(vals@) + before.subrange(vals@.len() as int, before.len() as int)
                && r == (RawResult { category: crate::error::ERR_CATEGORY_WASM, code: 0 })
        },
    }
}

/// The last step of the bridge: writes what the host function returned into
/// the result slots and gives the result that the engine is to see.
pub fn encode_outcome(outcome: Result<Vec<WasmVal>, CoreError>, slots: &mut Vec<RawValue>) -> (r:
    RawResult)
    ensures
        encodes(outcome, old(slots)@, final(slots)@, r),
        final(slots)@.len() == old(slots)@.len(),
{
    match outcome {
        Err(e) => e.to_raw(),
        Ok(v) => {
            if v.len() > slots.len() {
                return CoreError::runtime().to_raw();
            }
            let ghost before = slots@;
            let mut idx: usize = 0;
            while idx < v.len()
                invariant
                    idx <= v@.len(),
                    v@.len() <= before.len(),
                    slots@.len() == before.len(),
                    slots@ == encode_all(v@.subrange(0, idx as int)) + before.subrange(
                        idx as int,
                        before.len() as int,
                    ),
                decreases v@.len() - idx,
            {
                let raw = RawValue::from(v[idx]);
                slots.set(idx, raw);
                idx += 1;
                assert(slots@ =~= encode_all(v@.subrange(0, idx as int)) + before.subrange(
                    idx as int,
                    before.len() as int,
                ));
            }
            assert(v@.subrange(0, idx as int) =~= v@);
            RawResult::success()
        },
    }
}

/// What a host function returns is what its caller gets. Where the host
/// function returns as many values as there are result slots, all carried
/// by value, a caller that reads the bridge's answer gets exactly those
/// values.
pub proof fn lemma_results_reach_the_caller(
    vals: Vec<WasmVal>,
    before: Seq<RawValue>,
    after: Seq<RawValue>,
    raw: RawResult,
    returns_len: usize,
    got: Result<Vec<WasmVal>, CoreError>,
)
    requires
        vals@.len() == before.len(),
        returns_len == before.len(),
        forall|i: int| 0 <= i < vals@.len() ==> (#[trigger] vals@[i]).spec_is_numeric(),
        encodes(Ok(vals), before, after, raw),
        call_outcome(returns_len, raw, after, got),
    ensures
        got matches Ok(seen) && seen@ == vals@,
{
    lemma_lists_round_trip(vals@);
    assert(after =~= encode_all(vals@));
}

/// A failure of a host function reaches its caller untouched. The one
/// exception is the regular termination, which a caller counts as success.
pub proof fn lemma_failures_reach_the_caller(
    e: CoreError,
    before: Seq<RawValue>,
    after: Seq<RawValue>,
    raw: RawResult,
    returns_len: usize,
    got: Result<Vec<WasmVal>, CoreError>,
)
    requires
        e != CoreError::Common(CoreCommonError::Terminated),
        encodes(Err(e), before, after, raw),
        call_outcome(returns_len, raw, after, got),
    ensures
        got == Err::<Vec<WasmVal>, CoreError>(e),
        after == before,
{
    if let Err(x) = got {
        lemma_wire_round_trip(e, Err(x));
    } else {
        lemma_wire_round_trip(e, Ok(()));
    }
}

/// What a call by name gives. A name that cannot be a name at all, or
/// that stands for no exported function, is reported as a function that was
/// not found. Otherwise the function that the name stands for is called as
/// `Executor::run_func_ref` calls it.
pub open spec fn calls_by_name<E: FnOnce(Invocation) -> (RawResult, Vec<RawValue>)>(
    inst: InnerInstance,
    executor: Executor,
    name: Seq<char>,
    args: Seq<WasmVal>,
    invoke: E,
    r: Result<Vec<WasmVal>, CoreError>,
) -> bool {
    if has_nul(text_bytes(name)) || !inst.spec_funcs().spec_names().contains(name) {
        r == Err::<Vec<WasmVal>, CoreError>(CoreError::Common(CoreCommonError::FuncNotFound))
    } else {
        exists|i: int|
            {
                &&& #[trigger] is_first_index(inst.spec_funcs().spec_names(), name, i)
                &&& executor.spec_runs(&inst.spec_funcs().spec_items()[i], args, invoke, r)
                &&& r matches Ok(vals) ==> inst.spec_funcs().spec_items()[i].spec_return_size()
                    == Some(vals@.len())
            }
    }
}

/// The instance that a host function is called from, together with the
/// environment in which it can call back into that instance.
#[derive(Debug)]
pub struct SyncInstanceRef {
    inst: InnerInstance,
    executor: Executor,
}

impl SyncInstanceRef {
    /// The exports of the instance.
    pub closed spec fn spec_inst(&self) -> InnerInstance {
        self.inst
    }

    /// The environment of the instance.
    pub closed spec fn spec_executor(&self) -> Executor {
        self.executor
    }

    /// The instance with these exports in this environment.
    pub fn from_raw(inst: InnerInstance, executor: Executor) -> (r: Self)
        ensures
            r.spec_inst() == inst,
            r.spec_executor() == executor,
    {
        SyncInstanceRef { inst, executor }
    }

    /// The exports of the instance, for reading.
    pub fn instance(&self) -> (inst: &InnerInstance)
        ensures
            *inst == self.spec_inst(),
    {
        &self.inst
    }

    /// Calls the exported function of that name. A name that stands for no
    /// exported function, or that cannot be a name at all, is reported as a
    /// function that was not found; `invoke` is the engine's part of the
    /// call.
    pub fn call<E: FnOnce(Invocation) -> (RawResult, Vec<RawValue>)>(
        &mut self,
        name: &str,
        args: Vec<WasmVal>,
        invoke: E,
    ) -> (r: Result<Vec<WasmVal>, CoreError>)
        requires
            forall|inv: Invocation| call_requires(invoke, (inv,)),
        ensures
            final(self).spec_inst() == old(self).spec_inst(),
            final(self).spec_executor() == old(self).spec_executor(),
            calls_by_name(
                old(self).spec_inst(),
                old(self).spec_executor(),
                name@,
                args@,
                invoke,
                r,
            ),
    {
        let func = match self.inst.get_func(name) {
            Ok(f) => f,
            Err(_) => {
                return Err(CoreError::Common(CoreCommonError::FuncNotFound));
            },
        };
        let result = self.executor.run_func_ref(&func, args.as_slice(), invoke);
        proof {
            let i = choose|i: int| #[trigger]
                is_first_index(self.inst.spec_funcs().spec_names(), name@, i) && same_function(
                    func,
                    self.inst.spec_funcs().spec_items()[i],
                );
            let registered = self.inst.spec_funcs().spec_items()[i];
            if func.spec_ty() is Some {
                let (inv, out) = choose|inv: Invocation, out: (RawResult, Vec<RawValue>)|
                    {
                        &&& self.executor.spec_asks(&func, args@, inv)
                        &&& #[trigger] call_ensures(invoke, (inv,), out)
                        &&& call_outcome(inv.returns_len, out.0, out.1@, result)
                    };
                assert(self.executor.spec_asks(&registered, args@, inv));
            }
            assert(self.executor.spec_runs(&registered, args@, invoke, result));
        }
        result
    }
}

/// An instance of a guest module, ready to be called by name.
#[derive(Debug)]
pub struct SyncInstance {
    inst_ref: SyncInstanceRef,
}

impl SyncInstance {
    /// The instance and its environment.
    pub closed spec fn spec_inst_ref(&self) -> SyncInstanceRef {
        self.inst_ref
    }

    /// The instance with these exports in this environment.
    pub fn from_raw(inst: InnerInstance, executor: Executor) -> (r: Self)
        ensures
            r.spec_inst_ref().spec_inst() == inst,
            r.spec_inst_ref().spec_executor() == executor,
    {
        SyncInstance { inst_ref: SyncInstanceRef::from_raw(inst, executor) }
    }

    /// The exports of the instance, for reading.
    pub fn instance(&self) -> (inst: &InnerInstance)
        ensures
            *inst == self.spec_inst_ref().spec_inst(),
    {
        self.inst_ref.instance()
    }

    /// Calls the exported function of that name; see `SyncInstanceRef::call`.
    pub fn call<E: FnOnce(Invocation) -> (RawResult, Vec<RawValue>)>(
        &mut self,
        name: &str,
        args: Vec<WasmVal>,
        invoke: E,
    ) -> (r: Result<Vec<WasmVal>, CoreError>)
        requires
            forall|inv: Invocation| call_requires(invoke, (inv,)),
        ensures
            final(self).spec_inst_ref().spec_inst() == old(self).spec_inst_ref().spec_inst(),
            final(self).spec_inst_ref().spec_executor() == old(self).spec_inst_ref().spec_executor(),
            calls_by_name(
                old(self).spec_inst_ref().spec_inst(),
                old(self).spec_inst_ref().spec_executor(),
                name@,
                args@,
                invoke,
                r,
            ),
    {
        self.inst_ref.call(name, args, invoke)
    }
}

/// The bridge between the engine and a host function. The engine hands in
/// the arguments in wire form and the slots for the results. The bridge
/// decodes every argument and calls `real_fn` with the calling instance, its
/// main memory, the host data and the decoded arguments; what `real_fn` does
/// to the three is all that happens to them. What `real_fn` returns is
/// encoded as `encode_outcome` says, and the slots are as many after the
/// call as before.
pub fn wrapper_sync_fn<T: Sized + Send, F>(
    real_fn: F,
    inst: &mut SyncInstanceRef,
    mem: &mut Memory,
    data: &mut T,
    params: &[RawValue],
    slots: &mut Vec<RawValue>,
) -> (r: RawResult) where
    F: FnOnce(&mut SyncInstanceRef, &mut Memory, &mut T, Vec<WasmVal>) -> Result<
        Vec<WasmVal>,
        CoreError,
    >,

    requires
        forall|a: (&mut SyncInstanceRef, &mut Memory, &mut T, Vec<WasmVal>)|
            call_requires(real_fn, a),
    ensures
        exists|
            args: (&mut SyncInstanceRef, &mut Memory, &mut T, Vec<WasmVal>),
            outcome: Result<Vec<WasmVal>, CoreError>,
        |
            {
                &&& #[trigger] call_ensures(real_fn, args, outcome)
                &&& *args.0 == *old(inst) && *final(args.0) == *final(inst)
                &&& *args.1 == *old(mem) && *final(args.1) == *final(mem)
                &&& *args.2 == *old(data) && *final(args.2) == *final(data)
                &&& args.3@ == decode_all(params@)
                &&& encodes(outcome, old(slots)@, final(slots)@, r)
            },
        final(slots)@.len() == old(slots)@.len(),
{
    let input = decode_values(params);
    let outcome = real_fn(inst, mem, data, input);
    let ghost seen = outcome;
    let r = encode_outcome(outcome, slots);
    assert(encodes(seen, old(slots)@, slots@, r));
    r
}

/// A module of host functions that a plugin offers.
#[derive(Debug)]
pub struct PluginModule<T: Send + Sized> {
    inner: ImportModule<T>,
}

impl<T: Send + Sized> PluginModule<T> {
    /// The module underneath.
    pub closed spec fn spec_inner(&self) -> ImportModule<T> {
        self.inner
    }

    /// The exported functions of the module.
    pub open spec fn spec_funcs(&self) -> crate::module::ExportTable<FuncRef> {
        self.spec_inner().spec_inner().spec_funcs()
    }

    /// The module of that name, without exports, owning `data`. A name
    /// that holds a zero byte is refused.
    pub fn create(name: &str, data: T) -> (r: Result<Self, InstanceError>)
        ensures
            r is Ok <==> !has_nul(text_bytes(name@)),
            r matches Ok(m) ==> {
                &&& m.spec_inner().spec_name() == name@
                &&& m.spec_inner().spec_data() == data
                &&& m.spec_funcs().spec_names().len() == 0
            },
            r matches Err(e) ==> (e matches InstanceError::FoundNulByte(at) && is_first_nul(
                text_bytes(name@),
                at as int,
            )),
    {
        match ImportModule::create(name, data) {
            Ok(inner) => Ok(PluginModule { inner }),
            Err(e) => Err(e),
        }
    }

    /// The module underneath, for reading.
    pub fn as_import(&self) -> (m: &ImportModule<T>)
        ensures
            *m == self.spec_inner(),
    {
        &self.inner
    }

    /// The module underneath, for reading and writing.
    pub fn as_import_mut(&mut self) -> (m: &mut ImportModule<T>)
        ensures
            *m == old(self).spec_inner(),
            final(self).spec_inner() == *final(m),
    {
        &mut self.inner
    }

    /// Ends the module and hands the module underneath out.
    pub fn into_import(self) -> (m: ImportModule<T>)
        ensures
            m == self.spec_inner(),
    {
        self.inner
    }

    /// What registering a function does to a module. The name must hold no
    /// zero byte and the signature must be one that can be made; then the
    /// module takes a binding of the entry point `real_fn` and the host
    /// data `data` with that signature, and exports the function under the
    /// name. Nothing else changes, and nothing at all on a failure.
    pub open spec fn registers(
        before: &Self,
        after: &Self,
        name: Seq<char>,
        ty: (Vec<ValType>, Vec<ValType>),
        real_fn: usize,
        data: usize,
        r: Result<(), AddFuncError>,
    ) -> bool {
        &&& after.spec_inner().spec_name() == before.spec_inner().spec_name()
        &&& after.spec_inner().spec_data() == before.spec_inner().spec_data()
        &&& after.spec_inner().spec_inner().spec_mems()
            == before.spec_inner().spec_inner().spec_mems()
        &&& after.spec_inner().spec_inner().spec_globals()
            == before.spec_inner().spec_inner().spec_globals()
        &&& if has_nul(text_bytes(name)) {
            &&& r matches Err(AddFuncError::NameError(at)) && is_first_nul(
                text_bytes(name),
                at as int,
            )
            &&& after.spec_inner() == before.spec_inner()
        } else if ty.0@.len() > u32::MAX || ty.1@.len() > u32::MAX {
            &&& r == Err::<(), AddFuncError>(AddFuncError::FunctionCreate)
            &&& after.spec_inner() == before.spec_inner()
        } else {
            &&& r is Ok
            &&& exists|func: Function, f: FuncRef|
                {
                    &&& #[trigger] is_insert(
                        before.spec_inner().spec_bindings(),
                        after.spec_inner().spec_bindings(),
                        name,
                        func,
                    )
                    &&& #[trigger] is_insert(before.spec_funcs(), after.spec_funcs(), name, f)
                    &&& refers_to(f, func)
                    &&& func.spec_real_fn() == real_fn
                    &&& func.spec_data() == data
                    &&& func.spec_ty().spec_params() == as_declared(ty.0@)
                    &&& func.spec_ty().spec_returns() == as_declared(ty.1@)
                }
        }
    }

    /// Registers a host function under `name`, with a signature, the key of
    /// its entry point and the key of the host data that it is bound to.
    pub fn add_custom_func(
        &mut self,
        name: &str,
        ty: (Vec<ValType>, Vec<ValType>),
        real_fn: usize,
        data: usize,
    ) -> (r: Result<(), AddFuncError>)
        ensures
            Self::registers(old(self), final(self), name@, ty, real_fn, data, r),
    {
        let func_name = match WasmEdgeString::new(name) {
            Ok(n) => n,
            Err(at) => {
                return Err(AddFuncError::NameError(at));
            },
        };
        let func = match Function::custom_create(ty, real_fn, data) {
            Some(f) => f,
            None => {
                return Err(AddFuncError::FunctionCreate);
            },
        };
        let ghost bound = func;
        self.inner.bind(&func_name, func);
        proof {
            let f = choose|f: FuncRef|
                {
                    &&& #[trigger] is_insert(
                        old(self).spec_funcs(),
                        self.spec_funcs(),
                        name@,
                        f,
                    )
                    &&& refers_to(f, bound)
                };
            assert(is_insert(
                old(self).spec_inner().spec_bindings(),
                self.spec_inner().spec_bindings(),
                name@,
                bound,
            ));
            assert(is_insert(old(self).spec_funcs(), self.spec_funcs(), name@, f));
        }
        Ok(())
    }

    /// Registers a host function under `name`, bound to the host data of
    /// this module.
    pub fn add_func(&mut self, name: &str, ty: (Vec<ValType>, Vec<ValType>), real_fn: usize) -> (r:
        Result<(), AddFuncError>)
        ensures
            Self::registers(old(self), final(self), name@, ty, real_fn, MODULE_DATA, r),
    {
        self.add_custom_func(name, ty, real_fn, MODULE_DATA)
    }
}

} // verus!
