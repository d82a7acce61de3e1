//! Signatures, host function bindings and function references.

use crate::types::ValType;
use vstd::prelude::*;

verus! {

/// The types that a list of wire codes names, one by one.
pub open spec fn types_of_codes(codes: Seq<u32>) -> Seq<ValType> {
    Seq::new(codes.len(), |i: int| ValType::spec_from_code(codes[i]))
}

/// The wire codes of a list of types, one by one.
pub open spec fn codes_of_types(types: Seq<ValType>) -> Seq<u32> {
    Seq::new(types.len(), |i: int| types[i].spec_code())
}

/// The list of types as it reads after a trip through the wire: a reference
/// that the wire cannot name comes back as an external reference, every
/// other type as itself.
pub open spec fn as_declared(types: Seq<ValType>) -> Seq<ValType> {
    types_of_codes(codes_of_types(types))
}

/// Writes a list of types as wire codes.
pub fn encode_types(types: &Vec<ValType>) -> (codes: Vec<u32>)
    ensures
        codes@ == codes_of_types(types@),
{
    let mut codes: Vec<u32> = Vec::with_capacity(types.len());
    let mut i: usize = 0;
    while i < types.len()
        invariant
            i <= types@.len(),
            codes@ == codes_of_types(types@.subrange(0, i as int)),
        decreases types@.len() - i,
    {
        let code: u32 = u32::from(types[i]);
        codes.push(code);
        i += 1;
        assert(codes@ =~= codes_of_types(types@.subrange(0, i as int)));
    }
    assert(types@.subrange(0, i as int) =~= types@);
    codes
}

/// Reads a list of wire codes as types.
pub fn decode_types(codes: &Vec<u32>) -> (types: Vec<ValType>)
    ensures
        types@ == types_of_codes(codes@),
{
    let mut types: Vec<ValType> = Vec::with_capacity(codes.len());
    let mut i: usize = 0;
    while i < codes.len()
        invariant
            i <= codes@.len(),
            types@ == types_of_codes(codes@.subrange(0, i as int)),
        decreases codes@.len() - i,
    {
        let ty = ValType::from(codes[i]);
        types.push(ty);
        i += 1;
        assert(types@ =~= types_of_codes(codes@.subrange(0, i as int)));
    }
    assert(codes@.subrange(0, i as int) =~= codes@);
    types
}

/// The signature of a function: the types of its parameters and of its
/// results, in order, held as wire codes. Neither list is longer than the
/// wire can count.
#[derive(Debug)]
pub struct FuncType {
    params: Vec<u32>,
    results: Vec<u32>,
}

impl FuncType {
    #[verifier::type_invariant]
    spec fn inv(&self) -> bool {
        self.params@.len() <= u32::MAX && self.results@.len() <= u32::MAX
    }

    /// The types of the parameters, in order.
    pub closed spec fn spec_params(&self) -> Seq<ValType> {
        types_of_codes(self.params@)
    }

    /// The types of the results, in order.
    pub closed spec fn spec_returns(&self) -> Seq<ValType> {
        types_of_codes(self.results@)
    }

    /// The signature with the given parameter and result types. There is
    /// none where a list is longer than the wire can count.
    pub fn create(args: Vec<ValType>, results: Vec<ValType>) -> (r: Option<Self>)
        ensures
            r is Some <==> args@.len() <= u32::MAX && results@.len() <= u32::MAX,
            r matches Some(ty) ==> ty.spec_params() == as_declared(args@) && ty.spec_returns()
                == as_declared(results@),
    {
        if args.len() > u32::MAX as usize || results.len() > u32::MAX as usize {
            return None;
        }
        let param_tys = encode_types(&args);
        let ret_tys = encode_types(&results);
        Some(FuncType { params: param_tys, results: ret_tys })
    }

    /// The number of parameters.
    pub fn params_len(&self) -> (n: u32)
        ensures
            n == self.spec_params().len(),
    {
        proof {
            use_type_invariant(self);
        }
        self.params.len() as u32
    }

    /// The types of the parameters, in order.
    pub fn params_type_iter(&self) -> (types: Vec<ValType>)
        ensures
            types@ == self.spec_params(),
    {
        decode_types(&self.params)
    }

    /// The number of results.
    pub fn returns_len(&self) -> (n: u32)
        ensures
            n == self.spec_returns().len(),
    {
        proof {
            use_type_invariant(self);
        }
        self.results.len() as u32
    }

    /// The types of the results, in order.
    pub fn returns_type_iter(&self) -> (types: Vec<ValType>)
        ensures
            types@ == self.spec_returns(),
    {
        decode_types(&self.results)
    }

    /// A second signature with the same lists.
    pub fn duplicate(&self) -> (ty: FuncType)
        ensures
            ty.spec_params() == self.spec_params(),
            ty.spec_returns() == self.spec_returns(),
    {
        proof {
            use_type_invariant(self);
        }
        let params = self.params.clone();
        let results = self.results.clone();
        assert(params@ =~= self.params@);
        assert(results@ =~= self.results@);
        FuncType { params, results }
    }
}

/// A types list that holds no reference which the wire cannot name reads
/// after the trip as it was written.
pub proof fn lemma_declared_types_are_kept(types: Seq<ValType>)
    requires
        forall|i: int| 0 <= i < types.len() ==> !(#[trigger] types[i] is UnsupportedRef),
    ensures
        as_declared(types) == types,
{
    assert(as_declared(types) =~= types);
}

/// Whether two references stand for the same function: the same handle,
/// and the same signature where one is known.
pub open spec fn same_function(a: FuncRef, b: FuncRef) -> bool {
    &&& a.spec_handle() == b.spec_handle()
    &&& a.spec_ty() is Some <==> b.spec_ty() is Some
    &&& a.spec_ty() is Some ==> {
        &&& a.spec_ty().unwrap().spec_params() == b.spec_ty().unwrap().spec_params()
        &&& a.spec_ty().unwrap().spec_returns() == b.spec_ty().unwrap().spec_returns()
    }
}

/// A host function as the engine is told of it: its signature, the key under
/// which the native entry point is found again, and the key of the host data
/// that it works on. Both keys are opaque to this layer.
#[derive(Debug)]
pub struct Function {
    ty: FuncType,
    real_fn: usize,
    data: usize,
}

impl Function {
    /// The signature that the function was bound with.
    pub closed spec fn spec_ty(&self) -> FuncType {
        self.ty
    }

    /// The key of the native entry point.
    pub closed spec fn spec_real_fn(&self) -> usize {
        self.real_fn
    }

    /// The key of the host data.
    pub closed spec fn spec_data(&self) -> usize {
        self.data
    }

    /// Binds an entry point and its host data to a signature. The binding
    /// only describes the function: nothing is called. There is none where
    /// the signature cannot be made.
    pub fn custom_create(ty: (Vec<ValType>, Vec<ValType>), real_fn: usize, data: usize) -> (r:
        Option<Self>)
        ensures
            r is Some <==> ty.0@.len() <= u32::MAX && ty.1@.len() <= u32::MAX,
            r matches Some(f) ==> {
                &&& f.spec_ty().spec_params() == as_declared(ty.0@)
                &&& f.spec_ty().spec_returns() == as_declared(ty.1@)
                &&& f.spec_real_fn() == real_fn
                &&& f.spec_data() == data
            },
    {
        match FuncType::create(ty.0, ty.1) {
            Some(ty) => Some(Function { ty, real_fn, data }),
            None => None,
        }
    }

    /// The types of the parameters and of the results.
    pub fn func_type(&self) -> (r: Option<(Vec<ValType>, Vec<ValType>)>)
        ensures
            r matches Some(lists) && lists.0@ == self.spec_ty().spec_params() && lists.1@
                == self.spec_ty().spec_returns(),
    {
        Some((self.ty.params_type_iter(), self.ty.returns_type_iter()))
    }

    /// The number of parameters.
    pub fn func_param_size(&self) -> (r: Option<usize>)
        ensures
            r == Some(self.spec_ty().spec_params().len() as usize),
    {
        Some(self.ty.params_len() as usize)
    }

    /// The number of results.
    pub fn func_return_size(&self) -> (r: Option<usize>)
        ensures
            r == Some(self.spec_ty().spec_returns().len() as usize),
    {
        Some(self.ty.returns_len() as usize)
    }

    /// The key of the native entry point.
    pub fn real_fn(&self) -> (key: usize)
        ensures
            key == self.spec_real_fn(),
    {
        self.real_fn
    }

    /// The key of the host data.
    pub fn data(&self) -> (key: usize)
        ensures
            key == self.spec_data(),
    {
        self.data
    }

    /// A reference by which the function can be called.
    pub fn as_func_ref(&self, handle: usize) -> (f: FuncRef)
        ensures
            f.spec_handle() == handle,
            f.spec_ty() matches Some(ty) && ty.spec_params() == self.spec_ty().spec_params()
                && ty.spec_returns() == self.spec_ty().spec_returns(),
    {
        FuncRef::from_raw(handle, Some(self.ty.duplicate()))
    }
}

/// A reference to a function that can be called: the handle by which the
/// engine knows it, and its signature where the engine could tell it.
#[derive(Debug)]
pub struct FuncRef {
    handle: usize,
    ty: Option<FuncType>,
}

impl FuncRef {
    /// The handle by which the engine knows the function.
    pub closed spec fn spec_handle(&self) -> usize {
        self.handle
    }

    /// The signature, where it is known.
    pub closed spec fn spec_ty(&self) -> Option<FuncType> {
        self.ty
    }

    /// The number of results, where the signature is known.
    pub open spec fn spec_return_size(&self) -> Option<nat> {
        match self.spec_ty() {
            Some(ty) => Some(ty.spec_returns().len()),
            None => None,
        }
    }

    /// The reference to the function behind `handle`.
    pub fn from_raw(handle: usize, ty: Option<FuncType>) -> (f: Self)
        ensures
            f.spec_handle() == handle,
            f.spec_ty() == ty,
    {
        FuncRef { handle, ty }
    }

    /// The handle by which the engine knows the function.
    pub fn handle(&self) -> (h: usize)
        ensures
            h == self.spec_handle(),
    {
        self.handle
    }

    /// The types of the parameters and of the results, where the signature
    /// is known.
    pub fn func_type(&self) -> (r: Option<(Vec<ValType>, Vec<ValType>)>)
        ensures
            r is Some <==> self.spec_ty() is Some,
            r matches Some(lists) ==> lists.0@ == self.spec_ty().unwrap().spec_params()
                && lists.1@ == self.spec_ty().unwrap().spec_returns(),
    {
        match &self.ty {
            None => None,
            Some(ty) => Some((ty.params_type_iter(), ty.returns_type_iter())),
        }
    }

    /// The number of parameters, where the signature is known.
    pub fn func_param_size(&self) -> (r: Option<usize>)
        ensures
            r is Some <==> self.spec_ty() is Some,
            r matches Some(n) ==> n == self.spec_ty().unwrap().spec_params().len(),
    {
        match &self.ty {
            None => None,
            Some(ty) => Some(ty.params_len() as usize),
        }
    }

    /// The number of results, where the signature is known.
    pub fn func_return_size(&self) -> (r: Option<usize>)
        ensures
            r is Some <==> self.spec_ty() is Some,
            r matches Some(n) ==> n == self.spec_ty().unwrap().spec_returns().len(),
    {
        match &self.ty {
            None => None,
            Some(ty) => Some(ty.returns_len() as usize),
        }
    }

    /// A second reference to the same function.
    pub fn duplicate(&self) -> (f: FuncRef)
        ensures
            same_function(f, *self),
    {
        match &self.ty {
            None => FuncRef { handle: self.handle, ty: None },
            Some(ty) => FuncRef { handle: self.handle, ty: Some(ty.duplicate()) },
        }
    }
}

} // verus!
