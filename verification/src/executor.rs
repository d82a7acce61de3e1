//! Calling a function reference: what the engine is asked and how its
//! answer is read.

use crate::error::{check, check_outcome, CoreCommonError, CoreError, CoreExecutionError, RawResult};
use crate::function::FuncRef;
use crate::types::{lemma_codec_round_trip, RawValue, WasmVal};
use vstd::prelude::*;

verus! {

/// The wire forms of a list of values, one by one.
pub open spec fn encode_all(vals: Seq<WasmVal>) -> Seq<RawValue> {
    Seq::new(vals.len(), |i: int| vals[i].spec_encode())
}

/// The typed readings of a list of wire values, one by one.
pub open spec fn decode_all(raws: Seq<RawValue>) -> Seq<WasmVal> {
    Seq::new(raws.len(), |i: int| WasmVal::spec_decode(raws[i]))
}

/// Values that are carried by value survive the wire as a list: decoding
/// what was encoded gives the list back.
pub proof fn lemma_lists_round_trip(vals: Seq<WasmVal>)
    requires
        forall|i: int| 0 <= i < vals.len() ==> (#[trigger] vals[i]).spec_is_numeric(),
    ensures
        decode_all(encode_all(vals)) == vals,
{
    assert forall|i: int| 0 <= i < vals.len() implies WasmVal::spec_decode(
        #[trigger] vals[i].spec_encode(),
    ) == vals[i] by {
        lemma_codec_round_trip(vals[i]);
    }
    assert(decode_all(encode_all(vals)) =~= vals);
}

/// Writes each value in its wire form.
pub fn encode_values(vals: &[WasmVal]) -> (raws: Vec<RawValue>)
    ensures
        raws@ == encode_all(vals@),
{
    let mut raws: Vec<RawValue> = Vec::with_capacity(vals.len());
    let mut i: usize = 0;
    while i < vals.len()
        invariant
            i <= vals@.len(),
            raws@ == encode_all(vals@.subrange(0, i as int)),
        decreases vals@.len() - i,
    {
        let raw = RawValue::from(vals[i]);
        raws.push(raw);
        i += 1;
        assert(raws@ =~= encode_all(vals@.subrange(0, i as int)));
    }
    assert(vals@.subrange(0, i as int) =~= vals@);
    raws
}

/// Reads each wire value under the type that its code names.
pub fn decode_values(raws: &[RawValue]) -> (vals: Vec<WasmVal>)
    ensures
        vals@ == decode_all(raws@),
{
    let mut vals: Vec<WasmVal> = Vec::with_capacity(raws.len());
    let mut i: usize = 0;
    while i < raws.len()
        invariant
            i <= raws@.len(),
            vals@ == decode_all(raws@.subrange(0, i as int)),
        decreases raws@.len() - i,
    {
        let val = WasmVal::from(raws[i]);
        vals.push(val);
        i += 1;
        assert(vals@ =~= decode_all(raws@.subrange(0, i as int)));
    }
    assert(raws@.subrange(0, i as int) =~= raws@);
    vals
}

/// What the engine is asked to do for one call: which function to run in
/// which environment, the arguments in wire form, and how many result slots
/// to fill.
#[derive(Debug)]
pub struct Invocation {
    pub executor: usize,
    pub func: usize,
    pub params: Vec<RawValue>,
    pub returns_len: usize,
}

/// The store that an environment registers its modules in, known by the
/// engine's handle.
#[derive(Debug)]
pub struct InnerStore(pub usize);

/// An execution environment, known by the engine's handle. It keeps nothing
/// from one call to the next.
#[derive(Debug)]
pub struct Executor {
    handle: usize,
}

/// What a caller gets for the engine's answer to a call that asked for
/// `returns_len` results: on a failure the failure itself; on a success
/// every slot decoded, provided the engine handed back exactly the slots it
/// was asked for, and the generic runtime failure otherwise.
pub open spec fn call_outcome(
    returns_len: usize,
    result: RawResult,
    slots: Seq<RawValue>,
    r: Result<Vec<WasmVal>, CoreError>,
) -> bool {
    if !result.spec_is_ok() {
        r matches Err(e) && check_outcome(result, Err::<(), CoreError>(e))
    } else if slots.len() != returns_len {
        r matches Err(e) && e == CoreError::Common(CoreCommonError::RuntimeError)
    } else {
        r matches Ok(vals) && vals@ == decode_all(slots)
    }
}

impl Executor {
    /// The handle by which the engine knows the environment.
    pub closed spec fn spec_handle(&self) -> usize {
        self.handle
    }

    /// The environment behind `handle`.
    pub fn from_raw(handle: usize) -> (e: Self)
        ensures
            e.spec_handle() == handle,
    {
        Executor { handle }
    }

    /// The handle by which the engine knows the environment.
    pub fn handle(&self) -> (h: usize)
        ensures
            h == self.spec_handle(),
    {
        self.handle
    }

    /// What `prepare_call` asks of the engine for a call of `func` with
    /// `params`.
    pub open spec fn spec_asks(&self, func: &FuncRef, params: Seq<WasmVal>, inv: Invocation) -> bool {
        &&& func.spec_ty() is Some
        &&& inv.executor == self.spec_handle()
        &&& inv.func == func.spec_handle()
        &&& inv.params@ == encode_all(params)
        &&& inv.returns_len == func.spec_ty().unwrap().spec_returns().len()
    }

    /// The first half of a call: encodes the arguments and sizes the result
    /// slots by the callee's signature. A callee whose signature is unknown
    /// cannot be called.
    pub fn prepare_call(&self, func: &FuncRef, params: &[WasmVal]) -> (r: Result<
        Invocation,
        CoreError,
    >)
        ensures
            r is Ok <==> func.spec_ty() is Some,
            r matches Ok(inv) ==> self.spec_asks(func, params@, inv),
            r matches Err(e) ==> e == CoreError::Execution(CoreExecutionError::FuncTypeMismatch),
    {
        let raw_params = encode_values(params);
        match func.func_return_size() {
            None => Err(CoreError::Execution(CoreExecutionError::FuncTypeMismatch)),
            Some(returns_len) => Ok(
                Invocation {
                    executor: self.handle,
                    func: func.handle(),
                    params: raw_params,
                    returns_len,
                },
            ),
        }
    }

    /// The second half of a call: reads the engine's answer. A failure is
    /// handed on as it is; a success gives every result slot decoded, never
    /// a part of them.
    pub fn complete_call(returns_len: usize, result: RawResult, slots: &[RawValue]) -> (r: Result<
        Vec<WasmVal>,
        CoreError,
    >)
        ensures
            call_outcome(returns_len, result, slots@, r),
            r matches Ok(vals) ==> vals@.len() == returns_len,
    {
        match check(result) {
            Err(e) => Err(e),
            Ok(()) => {
                if slots.len() != returns_len {
                    Err(CoreError::runtime())
                } else {
                    Ok(decode_values(slots))
                }
            },
        }
    }

    /// What a call of `func` with `params` gives when `invoke` is the
    /// engine's part. A callee whose signature is unknown is not called: the
    /// call fails as a mismatch of function types. Otherwise `invoke` is
    /// handed what `prepare_call` asks, and its answer is read as
    /// `complete_call` reads it.
    pub open spec fn spec_runs<E: FnOnce(Invocation) -> (RawResult, Vec<RawValue>)>(
        &self,
        func: &FuncRef,
        params: Seq<WasmVal>,
        invoke: E,
        r: Result<Vec<WasmVal>, CoreError>,
    ) -> bool {
        if func.spec_ty() is None {
            r == Err::<Vec<WasmVal>, CoreError>(
                CoreError::Execution(CoreExecutionError::FuncTypeMismatch),
            )
        } else {
            exists|inv: Invocation, out: (RawResult, Vec<RawValue>)|
                {
                    &&& self.spec_asks(func, params, inv)
                    &&& #[trigger] call_ensures(invoke, (inv,), out)
                    &&& call_outcome(inv.returns_len, out.0, out.1@, r)
                }
        }
    }

    /// Calls `func` with `params`. The engine's part is `invoke`: it is
    /// handed what `prepare_call` asks and answers with its result and the
    /// result slots. The caller gets as many values as the callee's
    /// signature has results, or a failure.
    pub fn run_func_ref<E: FnOnce(Invocation) -> (RawResult, Vec<RawValue>)>(
        &self,
        func: &FuncRef,
        params: &[WasmVal],
        invoke: E,
    ) -> (r: Result<Vec<WasmVal>, CoreError>)
        requires
            forall|inv: Invocation|
                self.spec_asks(func, params@, inv) ==> call_requires(invoke, (inv,)),
        ensures
            self.spec_runs(func, params@, invoke, r),
            r matches Ok(vals) ==> func.spec_return_size() == Some(vals@.len()),
    {
        match self.prepare_call(func, params) {
            Err(e) => Err(e),
            Ok(inv) => {
                let ghost asked = inv;
                let returns_len = inv.returns_len;
                let out = invoke(inv);
                let r = Self::complete_call(returns_len, out.0, out.1.as_slice());
                assert(call_ensures(invoke, (asked,), out));
                r
            },
        }
    }
}

impl FuncRef {
    /// Calls this function in the environment `engine`; see
    /// `Executor::run_func_ref`.
    pub fn call<E: FnOnce(Invocation) -> (RawResult, Vec<RawValue>)>(
        &self,
        engine: &Executor,
        args: &[WasmVal],
        invoke: E,
    ) -> (r: Result<Vec<WasmVal>, CoreError>)
        requires
            forall|inv: Invocation|
                engine.spec_asks(self, args@, inv) ==> call_requires(invoke, (inv,)),
        ensures
            engine.spec_runs(self, args@, invoke, r),
            r matches Ok(vals) ==> self.spec_return_size() == Some(vals@.len()),
    {
        engine.run_func_ref(self, args, invoke)
    }
}

} // verus!
