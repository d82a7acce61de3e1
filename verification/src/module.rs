//! Module instances: their exports by name and the host data of an import
//! module.

use crate::error::InstanceError;
use crate::function::FuncRef;
use crate::memory::Memory;
use crate::function::{same_function, Function};
use crate::types::{has_nul, is_first_nul, text_bytes, WasmEdgeString, WasmVal};
use vstd::prelude::*;

verus! {

/// An exported global that cannot be written.
#[derive(Debug, Clone)]
pub struct ConstGlobal {
    pub name: String,
    pub val: WasmVal,
}

/// An exported global that can be written.
#[derive(Debug, Clone)]
pub struct MutGlobal {
    pub name: String,
    pub val: WasmVal,
}

/// An exported global.
#[derive(Debug, Clone)]
pub enum Global {
    Const(ConstGlobal),
    Mut(MutGlobal),
}

impl Global {
    /// The name under which the global is exported.
    pub open spec fn spec_name(self) -> Seq<char> {
        match self {
            Global::Const(g) => g.name@,
            Global::Mut(g) => g.name@,
        }
    }

    /// The value that the global holds.
    pub open spec fn spec_val(self) -> WasmVal {
        match self {
            Global::Const(g) => g.val,
            Global::Mut(g) => g.val,
        }
    }
}

/// Whether `i` is the first position at which `names` holds `name`.
pub open spec fn is_first_index(names: Seq<Seq<char>>, name: Seq<char>, i: int) -> bool {
    &&& 0 <= i < names.len()
    &&& names[i] == name
    &&& forall|j: int| 0 <= j < i ==> names[j] != name
}

/// Whether `after` is `before` with `item` registered under `name`: a name
/// that `before` holds keeps its first position and stands for `item`; a
/// new name goes to the end.
pub open spec fn is_insert<V>(
    before: ExportTable<V>,
    after: ExportTable<V>,
    name: Seq<char>,
    item: V,
) -> bool {
    if before.spec_names().contains(name) {
        &&& after.spec_names() == before.spec_names()
        &&& exists|i: int| #[trigger]
            is_first_index(before.spec_names(), name, i) && after.spec_items()
                == before.spec_items().update(i, item)
    } else {
        &&& after.spec_names() == before.spec_names().push(name)
        &&& after.spec_items() == before.spec_items().push(item)
    }
}

/// What is registered under a name is what the name stands for afterwards.
pub proof fn lemma_insert_then_find<V>(
    before: ExportTable<V>,
    after: ExportTable<V>,
    name: Seq<char>,
    item: V,
)
    requires
        is_insert(before, after, name, item),
    ensures
        after.spec_names().contains(name),
        forall|i: int| #[trigger]
            is_first_index(after.spec_names(), name, i) ==> after.spec_items()[i] == item,
{
    before.lemma_one_item_per_name();
    after.lemma_one_item_per_name();
    if before.spec_names().contains(name) {
        let k = choose|k: int| #[trigger]
            is_first_index(before.spec_names(), name, k) && after.spec_items()
                == before.spec_items().update(k, item);
        assert(after.spec_names()[k] == name);
        assert forall|i: int| #[trigger]
            is_first_index(after.spec_names(), name, i) implies after.spec_items()[i] == item by {
            assert(i == k);
        }
    } else {
        let n = before.spec_names().len() as int;
        assert(after.spec_names()[n] == name);
        assert forall|i: int| #[trigger]
            is_first_index(after.spec_names(), name, i) implies after.spec_items()[i] == item by {
            if i < n {
                assert(before.spec_names()[i] == name);
                assert(before.spec_names().contains(name));
            }
        }
    }
}

/// Registering under one name leaves every other name standing for what it
/// stood for.
pub proof fn lemma_insert_keeps_others<V>(
    before: ExportTable<V>,
    after: ExportTable<V>,
    name: Seq<char>,
    item: V,
    other: Seq<char>,
)
    requires
        is_insert(before, after, name, item),
        other != name,
    ensures
        after.spec_names().contains(other) <==> before.spec_names().contains(other),
        forall|i: int| #[trigger]
            is_first_index(after.spec_names(), other, i) ==> is_first_index(
                before.spec_names(),
                other,
                i,
            ) && after.spec_items()[i] == before.spec_items()[i],
{
    before.lemma_one_item_per_name();
    after.lemma_one_item_per_name();
    let n = before.spec_names().len() as int;
    if !before.spec_names().contains(name) {
        if before.spec_names().contains(other) {
            let j = choose|j: int| 0 <= j < n && before.spec_names()[j] == other;
            assert(after.spec_names()[j] == other);
        }
        if after.spec_names().contains(other) {
            let j = choose|j: int|
                0 <= j < after.spec_names().len() && after.spec_names()[j] == other;
            assert(j < n);
            assert(before.spec_names()[j] == other);
        }
        assert forall|i: int| #[trigger]
            is_first_index(after.spec_names(), other, i) implies is_first_index(
            before.spec_names(),
            other,
            i,
        ) && after.spec_items()[i] == before.spec_items()[i] by {
            assert(i < n);
            assert forall|j: int| 0 <= j < i implies before.spec_names()[j] != other by {
                assert(after.spec_names()[j] != other);
            }
        }
    } else {
        let k = choose|k: int| #[trigger]
            is_first_index(before.spec_names(), name, k) && after.spec_items()
                == before.spec_items().update(k, item);
        assert forall|i: int| #[trigger]
            is_first_index(after.spec_names(), other, i) implies is_first_index(
            before.spec_names(),
            other,
            i,
        ) && after.spec_items()[i] == before.spec_items()[i] by {
            assert(i != k);
        }
    }
}

/// The exports of one kind of a module instance: names and what they stand
/// for, in the order in which the names were first registered. A name is
/// looked up at the first position that holds it.
#[derive(Debug)]
pub struct ExportTable<V> {
    entries: Vec<(String, V)>,
}

impl<V> ExportTable<V> {
    /// The names, in order.
    pub closed spec fn spec_names(&self) -> Seq<Seq<char>> {
        Seq::new(self.entries@.len(), |i: int| self.entries@[i].0@)
    }

    /// What the names stand for, in the same order.
    pub closed spec fn spec_items(&self) -> Seq<V> {
        Seq::new(self.entries@.len(), |i: int| self.entries@[i].1)
    }

    /// Every name stands for one item: the two lists are as long.
    pub proof fn lemma_one_item_per_name(&self)
        ensures
            self.spec_names().len() == self.spec_items().len(),
    {
    }

    /// The table without exports.
    pub fn new() -> (t: Self)
        ensures
            t.spec_names().len() == 0,
            t.spec_items().len() == 0,
    {
        ExportTable { entries: Vec::new() }
    }

    /// The number of exports.
    pub fn len(&self) -> (n: usize)
        ensures
            n == self.spec_names().len(),
            n == self.spec_items().len(),
    {
        self.entries.len()
    }

    /// The first position that holds `name`, if any does.
    pub fn find(&self, name: &str) -> (r: Option<usize>)
        ensures
            r is Some <==> self.spec_names().contains(name@),
            r matches Some(i) ==> is_first_index(self.spec_names(), name@, i as int) && i
                < self.spec_items().len(),
    {
        let key: String = name.to_owned();
        let mut i: usize = 0;
        while i < self.entries.len()
            invariant
                i <= self.entries@.len(),
                key@ == name@,
                forall|j: int| 0 <= j < i ==> self.spec_names()[j] != name@,
            decreases self.entries@.len() - i,
        {
            if self.entries[i].0 == key {
                assert(self.spec_names()[i as int] == name@);
                return Some(i);
            }
            i += 1;
        }
        None
    }

    /// The name at position `i`.
    pub fn name(&self, i: usize) -> (s: &String)
        requires
            i < self.spec_names().len(),
        ensures
            s@ == self.spec_names()[i as int],
    {
        &self.entries[i].0
    }

    /// What the name at position `i` stands for.
    pub fn item(&self, i: usize) -> (v: &V)
        requires
            i < self.spec_items().len(),
        ensures
            *v == self.spec_items()[i as int],
    {
        &self.entries[i].1
    }

    /// Puts `item` in place of what the name at position `i` stands for.
    pub fn replace(&mut self, i: usize, item: V)
        requires
            i < old(self).spec_items().len(),
        ensures
            final(self).spec_names() == old(self).spec_names(),
            final(self).spec_items() == old(self).spec_items().update(i as int, item),
    {
        let name = self.entries[i].0.clone();
        self.entries.set(i, (name, item));
        assert(self.spec_names() =~= old(self).spec_names());
        assert(self.spec_items() =~= old(self).spec_items().update(i as int, item));
    }

    /// Registers `item` under `name`. A name that is registered already
    /// keeps its position and stands for `item` from now on; a new name goes
    /// to the end.
    pub fn insert(&mut self, name: &str, item: V)
        ensures
            is_insert(*old(self), *final(self), name@, item),
    {
        match self.find(name) {
            Some(i) => {
                self.replace(i, item);
                assert(is_first_index(old(self).spec_names(), name@, i as int));
            },
            None => {
                self.entries.push((name.to_owned(), item));
                assert(self.spec_names() =~= old(self).spec_names().push(name@));
                assert(self.spec_items() =~= old(self).spec_items().push(item));
            },
        }
    }

    /// The names, in order.
    pub fn names(&self) -> (v: Vec<String>)
        ensures
            v@.len() == self.spec_names().len(),
            forall|i: int| 0 <= i < v@.len() ==> (#[trigger] v@[i])@ == self.spec_names()[i],
    {
        let mut v: Vec<String> = Vec::with_capacity(self.entries.len());
        let mut i: usize = 0;
        while i < self.entries.len()
            invariant
                i <= self.entries@.len(),
                v@.len() == i,
                forall|j: int| 0 <= j < i ==> (#[trigger] v@[j])@ == self.spec_names()[j],
            decreases self.entries@.len() - i,
        {
            v.push(self.entries[i].0.clone());
            i += 1;
        }
        v
    }
}

/// What an instance keeps of one exported global.
#[derive(Debug, Clone, Copy)]
pub struct GlobalCell {
    pub mutable: bool,
    pub val: WasmVal,
}

/// A module instance as this layer knows it: its exported functions,
/// memories and globals, each kind in the order of registration.
#[derive(Debug)]
pub struct InnerInstance {
    funcs: ExportTable<FuncRef>,
    mems: ExportTable<Memory>,
    globals: ExportTable<GlobalCell>,
}

/// What a lookup of `name` answers before it looks: the failure that names
/// the first zero byte, where there is one.
pub open spec fn name_is_refused<V>(name: Seq<char>, r: Result<V, InstanceError>) -> bool {
    r matches Err(InstanceError::FoundNulByte(at)) && is_first_nul(text_bytes(name), at as int)
}

impl InnerInstance {
    /// The exported functions.
    pub closed spec fn spec_funcs(&self) -> ExportTable<FuncRef> {
        self.funcs
    }

    /// The exported memories.
    pub closed spec fn spec_mems(&self) -> ExportTable<Memory> {
        self.mems
    }

    /// The exported globals.
    pub closed spec fn spec_globals(&self) -> ExportTable<GlobalCell> {
        self.globals
    }

    /// The instance without exports.
    pub fn new() -> (inst: Self)
        ensures
            inst.spec_funcs().spec_names().len() == 0,
            inst.spec_mems().spec_names().len() == 0,
            inst.spec_globals().spec_names().len() == 0,
    {
        InnerInstance { funcs: ExportTable::new(), mems: ExportTable::new(), globals: ExportTable::new() }
    }

    /// Exports `func` under `name`; see `ExportTable::insert` for a name
    /// that is exported already.
    pub fn add_function(&mut self, name: &WasmEdgeString, func: FuncRef)
        ensures
            final(self).spec_mems() == old(self).spec_mems(),
            final(self).spec_globals() == old(self).spec_globals(),
            is_insert(old(self).spec_funcs(), final(self).spec_funcs(), name@, func),
    {
        self.funcs.insert(name.as_str(), func);
    }

    /// Exports `mem` under `name`; see `ExportTable::insert` for a name that
    /// is exported already.
    pub fn add_memory(&mut self, name: &WasmEdgeString, mem: Memory)
        ensures
            final(self).spec_funcs() == old(self).spec_funcs(),
            final(self).spec_globals() == old(self).spec_globals(),
            is_insert(old(self).spec_mems(), final(self).spec_mems(), name@, mem),
    {
        self.mems.insert(name.as_str(), mem);
    }

    /// Exports a global under `name`; see `ExportTable::insert` for a name
    /// that is exported already.
    pub fn add_global(&mut self, name: &WasmEdgeString, cell: GlobalCell)
        ensures
            final(self).spec_funcs() == old(self).spec_funcs(),
            final(self).spec_mems() == old(self).spec_mems(),
            is_insert(old(self).spec_globals(), final(self).spec_globals(), name@, cell),
    {
        self.globals.insert(name.as_str(), cell);
    }

    /// The exported function of that name.
    pub fn get_func(&self, name: &str) -> (r: Result<FuncRef, InstanceError>)
        ensures
            has_nul(text_bytes(name@)) ==> name_is_refused(name@, r),
            !has_nul(text_bytes(name@)) ==> {
                &&& r is Ok <==> self.spec_funcs().spec_names().contains(name@)
                &&& r matches Ok(f) ==> exists|i: int| #[trigger]
                    is_first_index(self.spec_funcs().spec_names(), name@, i) && same_function(
                        f,
                        self.spec_funcs().spec_items()[i],
                    )
                &&& r matches Err(e) ==> (e matches InstanceError::NotFoundFunc(s) && s@ == name@)
            },
    {
        let func_name = match WasmEdgeString::new(name) {
            Ok(n) => n,
            Err(at) => {
                return Err(InstanceError::FoundNulByte(at));
            },
        };
        match self.funcs.find(func_name.as_str()) {
            None => Err(InstanceError::NotFoundFunc(func_name.into_string())),
            Some(i) => {
                assert(is_first_index(self.spec_funcs().spec_names(), name@, i as int));
                Ok(self.funcs.item(i).duplicate())
            },
        }
    }

    /// The number of exported functions.
    pub fn func_len(&self) -> (n: u32)
        ensures
            self.spec_funcs().spec_names().len() <= u32::MAX ==> n
                == self.spec_funcs().spec_names().len(),
            self.spec_funcs().spec_names().len() > u32::MAX ==> n == u32::MAX,
    {
        let n = self.funcs.len();
        if n > u32::MAX as usize {
            u32::MAX
        } else {
            n as u32
        }
    }

    /// The names of the exported functions in order, or nothing where there
    /// is no exported function.
    pub fn func_names(&self) -> (r: Option<Vec<String>>)
        ensures
            r is Some <==> self.spec_funcs().spec_names().len() > 0,
            r matches Some(v) ==> {
                &&& v@.len() == self.spec_funcs().spec_names().len()
                &&& forall|i: int|
                    0 <= i < v@.len() ==> (#[trigger] v@[i])@ == self.spec_funcs().spec_names()[i]
            },
    {
        if self.funcs.len() > 0 {
            Some(self.funcs.names())
        } else {
            None
        }
    }

    /// The exported memory of that name.
    pub fn get_memory(&self, name: &str) -> (r: Result<&Memory, InstanceError>)
        ensures
            has_nul(text_bytes(name@)) ==> name_is_refused(name@, r),
            !has_nul(text_bytes(name@)) ==> {
                &&& r is Ok <==> self.spec_mems().spec_names().contains(name@)
                &&& r matches Ok(m) ==> exists|i: int| #[trigger]
                    is_first_index(self.spec_mems().spec_names(), name@, i) && *m
                        == self.spec_mems().spec_items()[i]
                &&& r matches Err(e) ==> (e matches InstanceError::NotFoundMem(s) && s@ == name@)
            },
    {
        let mem_name = match WasmEdgeString::new(name) {
            Ok(n) => n,
            Err(at) => {
                return Err(InstanceError::FoundNulByte(at));
            },
        };
        match self.mems.find(mem_name.as_str()) {
            None => Err(InstanceError::NotFoundMem(mem_name.into_string())),
            Some(i) => {
                assert(is_first_index(self.spec_mems().spec_names(), name@, i as int));
                Ok(self.mems.item(i))
            },
        }
    }

    /// Every exported memory with its name, in order.
    pub fn get_all_exports_memories(&self) -> (v: Vec<(String, &Memory)>)
        ensures
            v@.len() == self.spec_mems().spec_names().len(),
            forall|i: int|
                0 <= i < v@.len() ==> (#[trigger] v@[i]).0@ == self.spec_mems().spec_names()[i]
                    && *v@[i].1 == self.spec_mems().spec_items()[i],
    {
        let mut v: Vec<(String, &Memory)> = Vec::new();
        let mut i: usize = 0;
        while i < self.mems.len()
            invariant
                i <= self.mems.spec_names().len(),
                v@.len() == i,
                forall|j: int|
                    0 <= j < i ==> (#[trigger] v@[j]).0@ == self.mems.spec_names()[j] && *v@[j].1
                        == self.mems.spec_items()[j],
            decreases self.mems.spec_names().len() - i,
        {
            v.push((self.mems.name(i).clone(), self.mems.item(i)));
            i += 1;
        }
        v
    }

    /// The number of exported memories.
    pub fn mem_len(&self) -> (n: u32)
        ensures
            self.spec_mems().spec_names().len() <= u32::MAX ==> n
                == self.spec_mems().spec_names().len(),
            self.spec_mems().spec_names().len() > u32::MAX ==> n == u32::MAX,
    {
        let n = self.mems.len();
        if n > u32::MAX as usize {
            u32::MAX
        } else {
            n as u32
        }
    }

    /// The names of the exported memories in order, or nothing where there
    /// is no exported memory.
    pub fn mem_names(&self) -> (r: Option<Vec<String>>)
        ensures
            r is Some <==> self.spec_mems().spec_names().len() > 0,
            r matches Some(v) ==> {
                &&& v@.len() == self.spec_mems().spec_names().len()
                &&& forall|i: int|
                    0 <= i < v@.len() ==> (#[trigger] v@[i])@ == self.spec_mems().spec_names()[i]
            },
    {
        if self.mems.len() > 0 {
            Some(self.mems.names())
        } else {
            None
        }
    }

    /// Every exported global with its name and value, in order.
    pub fn get_all_exports_globals(&self) -> (v: Vec<Global>)
        ensures
            v@.len() == self.spec_globals().spec_names().len(),
            forall|i: int|
                0 <= i < v@.len() ==> {
                    &&& (#[trigger] v@[i]).spec_name() == self.spec_globals().spec_names()[i]
                    &&& v@[i].spec_val() == self.spec_globals().spec_items()[i].val
                    &&& v@[i] is Mut <==> self.spec_globals().spec_items()[i].mutable
                },
    {
        let mut v: Vec<Global> = Vec::new();
        let mut i: usize = 0;
        while i < self.globals.len()
            invariant
                i <= self.globals.spec_names().len(),
                v@.len() == i,
                forall|j: int|
                    0 <= j < i ==> {
                        &&& (#[trigger] v@[j]).spec_name() == self.globals.spec_names()[j]
                        &&& v@[j].spec_val() == self.globals.spec_items()[j].val
                        &&& v@[j] is Mut <==> self.globals.spec_items()[j].mutable
                    },
            decreases self.globals.spec_names().len() - i,
        {
            let name = self.globals.name(i).clone();
            let cell = *self.globals.item(i);
            if cell.mutable {
                v.push(Global::Mut(MutGlobal { name, val: cell.val }));
            } else {
                v.push(Global::Const(ConstGlobal { name, val: cell.val }));
            }
            i += 1;
        }
        v
    }

    /// Gives the exported global of that name a new value. Only a global
    /// that exists and can be written takes it; otherwise nothing changes.
    pub fn set_global(&mut self, global: MutGlobal) -> (r: Result<(), InstanceError>)
        ensures
            final(self).spec_funcs() == old(self).spec_funcs(),
            final(self).spec_mems() == old(self).spec_mems(),
            final(self).spec_globals().spec_names() == old(self).spec_globals().spec_names(),
            has_nul(text_bytes(global.name@)) ==> name_is_refused(global.name@, r),
            r is Ok ==> exists|i: int| #[trigger]
                is_first_index(old(self).spec_globals().spec_names(), global.name@, i) && old(self).spec_globals().spec_items()[i].mutable && final(self).spec_globals().spec_items()
                    == old(self).spec_globals().spec_items().update(
                    i,
                    (GlobalCell { mutable: true, val: global.val }),
                ),
            r is Err ==> final(self).spec_globals() == old(self).spec_globals(),
            !has_nul(text_bytes(global.name@)) ==> {
                &&& r is Ok <==> exists|i: int| #[trigger]
                    is_first_index(old(self).spec_globals().spec_names(), global.name@, i) && old(self).spec_globals().spec_items()[i].mutable
                &&& r matches Err(e) ==> (e matches InstanceError::NotFoundMutGlobal(s) && s@
                    == global.name@)
            },
    {
        let MutGlobal { name, val } = global;
        let wasmedge_name = match WasmEdgeString::new(name.as_str()) {
            Ok(n) => n,
            Err(at) => {
                return Err(InstanceError::FoundNulByte(at));
            },
        };
        match self.globals.find(wasmedge_name.as_str()) {
            None => Err(InstanceError::NotFoundMutGlobal(name)),
            Some(i) => {
                let cell = *self.globals.item(i);
                if !cell.mutable {
                    return Err(InstanceError::NotFoundMutGlobal(name));
                }
                self.globals.replace(i, GlobalCell { mutable: true, val });
                assert(is_first_index(old(self).spec_globals().spec_names(), name@, i as int));
                Ok(())
            },
        }
    }
}

/// A module that the host writes and offers to guests: its exports, the
/// bindings of its host functions, and the host data that belongs to it
/// alone. The module owns the bindings and the data from its creation to
/// its end.
#[derive(Debug)]
pub struct ImportModule<T: Sized + Send> {
    inner: InnerInstance,
    name: WasmEdgeString,
    data: T,
    bindings: ExportTable<Function>,
}

/// Whether `f` is a reference to the host function that `func` binds: its
/// handle is the key of the entry point, its signature the bound one.
pub open spec fn refers_to(f: FuncRef, func: Function) -> bool {
    &&& f.spec_handle() == func.spec_real_fn()
    &&& f.spec_ty() is Some
    &&& f.spec_ty().unwrap().spec_params() == func.spec_ty().spec_params()
    &&& f.spec_ty().unwrap().spec_returns() == func.spec_ty().spec_returns()
}

impl<T: Sized + Send> ImportModule<T> {
    /// The name of the module.
    pub closed spec fn spec_name(&self) -> Seq<char> {
        self.name@
    }

    /// The host data of the module.
    pub closed spec fn spec_data(&self) -> T {
        self.data
    }

    /// The exports of the module.
    pub closed spec fn spec_inner(&self) -> InnerInstance {
        self.inner
    }

    /// The bindings of the host functions of the module, by name.
    pub closed spec fn spec_bindings(&self) -> ExportTable<Function> {
        self.bindings
    }

    /// The module of that name, without exports, owning `data`. A name
    /// that holds a zero byte is refused, and `data` ends with the call.
    pub fn create(name: &str, data: T) -> (r: Result<Self, InstanceError>)
        ensures
            r is Ok <==> !has_nul(text_bytes(name@)),
            r matches Ok(m) ==> {
                &&& m.spec_name() == name@
                &&& m.spec_data() == data
                &&& m.spec_inner().spec_funcs().spec_names().len() == 0
                &&& m.spec_inner().spec_mems().spec_names().len() == 0
                &&& m.spec_inner().spec_globals().spec_names().len() == 0
                &&& m.spec_bindings().spec_names().len() == 0
            },
            r is Err ==> name_is_refused(name@, r),
    {
        match WasmEdgeString::new(name) {
            Err(at) => Err(InstanceError::FoundNulByte(at)),
            Ok(raw_name) => Ok(
                ImportModule {
                    inner: InnerInstance::new(),
                    name: raw_name,
                    data,
                    bindings: ExportTable::new(),
                },
            ),
        }
    }

    /// Takes the binding of a host function into the module and exports the
    /// function under `name`; see `ExportTable::insert` for a name that is
    /// in use already.
    pub fn bind(&mut self, name: &WasmEdgeString, func: Function)
        ensures
            final(self).spec_name() == old(self).spec_name(),
            final(self).spec_data() == old(self).spec_data(),
            final(self).spec_inner().spec_mems() == old(self).spec_inner().spec_mems(),
            final(self).spec_inner().spec_globals() == old(self).spec_inner().spec_globals(),
            is_insert(old(self).spec_bindings(), final(self).spec_bindings(), name@, func),
            exists|f: FuncRef|
                {
                    &&& #[trigger] is_insert(
                        old(self).spec_inner().spec_funcs(),
                        final(self).spec_inner().spec_funcs(),
                        name@,
                        f,
                    )
                    &&& refers_to(f, func)
                },
    {
        let func_ref = func.as_func_ref(func.real_fn());
        let ghost exported = func_ref;
        self.inner.add_function(name, func_ref);
        self.bindings.insert(name.as_str(), func);
        assert(is_insert(
            old(self).spec_inner().spec_funcs(),
            self.spec_inner().spec_funcs(),
            name@,
            exported,
        ));
    }

    /// The binding of the host function of that name, if the module has
    /// one.
    pub fn binding(&self, name: &str) -> (r: Option<&Function>)
        ensures
            r is Some <==> self.spec_bindings().spec_names().contains(name@),
            r matches Some(func) ==> exists|i: int| #[trigger]
                is_first_index(self.spec_bindings().spec_names(), name@, i) && *func
                    == self.spec_bindings().spec_items()[i],
    {
        match self.bindings.find(name) {
            None => None,
            Some(i) => {
                assert(is_first_index(self.spec_bindings().spec_names(), name@, i as int));
                Some(self.bindings.item(i))
            },
        }
    }

    /// The name of the module.
    pub fn name(&self) -> (s: &str)
        ensures
            s@ == self.spec_name(),
    {
        self.name.as_str()
    }

    /// The exports of the module, for reading.
    pub fn instance(&self) -> (inst: &InnerInstance)
        ensures
            *inst == self.spec_inner(),
    {
        &self.inner
    }

    /// The exports of the module, for registering more. What the caller
    /// does to them is all that changes.
    pub fn instance_mut(&mut self) -> (inst: &mut InnerInstance)
        ensures
            *inst == old(self).spec_inner(),
            final(self).spec_inner() == *final(inst),
            final(self).spec_data() == old(self).spec_data(),
            final(self).spec_name() == old(self).spec_name(),
            final(self).spec_bindings() == old(self).spec_bindings(),
    {
        &mut self.inner
    }

    /// The host data, for reading and writing. What the caller does to it
    /// is all that changes.
    pub fn data_mut(&mut self) -> (d: &mut T)
        ensures
            *d == old(self).spec_data(),
            final(self).spec_data() == *final(d),
            final(self).spec_inner() == old(self).spec_inner(),
            final(self).spec_name() == old(self).spec_name(),
            final(self).spec_bindings() == old(self).spec_bindings(),
    {
        &mut self.data
    }

    /// The host data, for reading.
    pub fn data(&self) -> (d: &T)
        ensures
            *d == self.spec_data(),
    {
        &self.data
    }

    /// Puts `data` in place of the host data and hands the former data out.
    pub fn replace_data(&mut self, data: T) -> (former: T)
        ensures
            former == old(self).spec_data(),
            final(self).spec_data() == data,
            final(self).spec_name() == old(self).spec_name(),
            final(self).spec_inner() == old(self).spec_inner(),
            final(self).spec_bindings() == old(self).spec_bindings(),
    {
        let mut data = data;
        core::mem::swap(&mut self.data, &mut data);
        data
    }

    /// Ends the module and hands its host data out. The module is gone with
    /// the call, so neither it nor its exports can be reached again, and the
    /// data has one owner left to release it.
    pub fn destroy(self) -> (data: T)
        ensures
            data == self.spec_data(),
    {
        self.data
    }
}

} // verus!
