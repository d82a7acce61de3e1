use std::sync::atomic::{AtomicUsize, Ordering};
use std::sync::Arc;
use wasmedge_plugin_sdk::error::InstanceError;
use wasmedge_plugin_sdk::function::{FuncRef, FuncType};
use wasmedge_plugin_sdk::memory::Memory;
use wasmedge_plugin_sdk::module::{
    ExportTable, Global, GlobalCell, ImportModule, InnerInstance, MutGlobal,
};
use wasmedge_plugin_sdk::types::{ValType, WasmEdgeString, WasmVal};

fn name(s: &str) -> WasmEdgeString {
    WasmEdgeString::new(s).unwrap()
}

fn func(handle: usize, results: usize) -> FuncRef {
    FuncRef::from_raw(handle, FuncType::create(vec![], vec![ValType::I32; results]))
}

#[test]
fn export_table_keeps_registration_order() {
    let mut t: ExportTable<u32> = ExportTable::new();
    assert_eq!(t.len(), 0);
    assert_eq!(t.find("a"), None);
    t.insert("a", 1);
    t.insert("b", 2);
    t.insert("c", 3);
    assert_eq!(t.len(), 3);
    assert_eq!(t.find("a"), Some(0));
    assert_eq!(t.find("c"), Some(2));
    assert_eq!(t.find("d"), None);
    assert_eq!(*t.item(1), 2);
    assert_eq!(t.name(1), "b");
    assert_eq!(t.names(), vec!["a".to_string(), "b".to_string(), "c".to_string()]);
}

#[test]
fn a_name_registered_again_keeps_its_place() {
    let mut t: ExportTable<u32> = ExportTable::new();
    t.insert("a", 1);
    t.insert("b", 2);
    t.insert("a", 10);
    assert_eq!(t.len(), 2);
    assert_eq!(t.find("a"), Some(0));
    assert_eq!(*t.item(0), 10);
    assert_eq!(*t.item(1), 2);
    t.replace(1, 20);
    assert_eq!(*t.item(1), 20);
    assert_eq!(t.names(), vec!["a".to_string(), "b".to_string()]);
}

#[test]
fn function_lookup() {
    let mut inst = InnerInstance::new();
    assert_eq!(inst.func_len(), 0);
    assert_eq!(inst.func_names(), None);
    inst.add_function(&name("first"), func(1, 1));
    inst.add_function(&name("second"), func(2, 3));
    assert_eq!(inst.func_len(), 2);
    assert_eq!(inst.func_names(), Some(vec!["first".to_string(), "second".to_string()]));
    let f = inst.get_func("second").unwrap();
    assert_eq!(f.handle(), 2);
    assert_eq!(f.func_return_size(), Some(3));
    assert_eq!(
        inst.get_func("third").err(),
        Some(InstanceError::NotFoundFunc("third".to_string()))
    );
    assert_eq!(inst.get_func("se\0cond").err(), Some(InstanceError::FoundNulByte(2)));
    inst.add_function(&name("first"), func(9, 0));
    assert_eq!(inst.func_len(), 2);
    assert_eq!(inst.get_func("first").unwrap().handle(), 9);
}

#[test]
fn memory_lookup() {
    let mut inst = InnerInstance::new();
    assert_eq!(inst.mem_len(), 0);
    assert_eq!(inst.mem_names(), None);
    assert!(inst.get_all_exports_memories().is_empty());
    inst.add_memory(&name("memory"), Memory::from_raw(vec![1, 2, 3]));
    inst.add_memory(&name("scratch"), Memory::from_raw(vec![4]));
    assert_eq!(inst.mem_len(), 2);
    assert_eq!(inst.mem_names(), Some(vec!["memory".to_string(), "scratch".to_string()]));
    assert_eq!(inst.get_memory("memory").unwrap().read_bytes(0, 3), Ok(vec![1, 2, 3]));
    assert_eq!(inst.get_memory("scratch").unwrap().read_bytes(0, 1), Ok(vec![4]));
    assert_eq!(
        inst.get_memory("none").err(),
        Some(InstanceError::NotFoundMem("none".to_string()))
    );
    assert_eq!(inst.get_memory("\0").err(), Some(InstanceError::FoundNulByte(0)));
    let all = inst.get_all_exports_memories();
    assert_eq!(all.len(), 2);
    assert_eq!(all[0].0, "memory");
    assert_eq!(all[0].1.read_bytes(1, 1), Ok(vec![2]));
    assert_eq!(all[1].0, "scratch");
}

#[test]
fn globals_are_listed_and_set() {
    let mut inst = InnerInstance::new();
    assert!(inst.get_all_exports_globals().is_empty());
    inst.add_global(&name("limit"), GlobalCell { mutable: false, val: WasmVal::I32(10) });
    inst.add_global(&name("counter"), GlobalCell { mutable: true, val: WasmVal::I64(0) });
    let all = inst.get_all_exports_globals();
    assert_eq!(all.len(), 2);
    match &all[0] {
        Global::Const(g) => {
            assert_eq!(g.name, "limit");
            assert_eq!(g.val, WasmVal::I32(10));
        }
        Global::Mut(_) => panic!("limit is constant"),
    }
    match &all[1] {
        Global::Mut(g) => {
            assert_eq!(g.name, "counter");
            assert_eq!(g.val, WasmVal::I64(0));
        }
        Global::Const(_) => panic!("counter is mutable"),
    }
    assert_eq!(
        inst.set_global(MutGlobal { name: "counter".to_string(), val: WasmVal::I64(5) }),
        Ok(())
    );
    match &inst.get_all_exports_globals()[1] {
        Global::Mut(g) => assert_eq!(g.val, WasmVal::I64(5)),
        Global::Const(_) => panic!("counter is mutable"),
    }
    // a constant cannot be set, and it keeps its value
    assert_eq!(
        inst.set_global(MutGlobal { name: "limit".to_string(), val: WasmVal::I32(11) }),
        Err(InstanceError::NotFoundMutGlobal("limit".to_string()))
    );
    match &inst.get_all_exports_globals()[0] {
        Global::Const(g) => assert_eq!(g.val, WasmVal::I32(10)),
        Global::Mut(_) => panic!("limit is constant"),
    }
    assert_eq!(
        inst.set_global(MutGlobal { name: "absent".to_string(), val: WasmVal::I32(1) }),
        Err(InstanceError::NotFoundMutGlobal("absent".to_string()))
    );
    assert_eq!(
        inst.set_global(MutGlobal { name: "a\0".to_string(), val: WasmVal::I32(1) }),
        Err(InstanceError::FoundNulByte(1))
    );
}

#[test]
fn import_module_owns_its_data() {
    let mut m = ImportModule::create("stateful_module", (0i32, 0i32)).unwrap();
    assert_eq!(m.name(), "stateful_module");
    assert_eq!(*m.data(), (0, 0));
    m.data_mut().0 = 4;
    assert_eq!(*m.data(), (4, 0));
    assert_eq!(m.replace_data((7, 8)), (4, 0));
    assert_eq!(m.instance().func_len(), 0);
    m.instance_mut().add_function(&name("f"), func(1, 0));
    assert_eq!(m.instance().func_len(), 1);
    assert_eq!(m.destroy(), (7, 8));
    assert_eq!(
        ImportModule::create("bad\0name", ()).err(),
        Some(InstanceError::FoundNulByte(3))
    );
}

struct Observed {
    drops: Arc<AtomicUsize>,
}

impl Drop for Observed {
    fn drop(&mut self) {
        self.drops.fetch_add(1, Ordering::SeqCst);
    }
}

#[test]
fn host_data_is_released_exactly_once() {
    let drops = Arc::new(AtomicUsize::new(0));
    let module = ImportModule::create("counted", Observed { drops: drops.clone() }).unwrap();
    assert_eq!(drops.load(Ordering::SeqCst), 0);
    let data = module.destroy();
    assert_eq!(drops.load(Ordering::SeqCst), 0);
    drop(data);
    assert_eq!(drops.load(Ordering::SeqCst), 1);

    // a module that simply goes out of scope releases its data once, too
    let drops = Arc::new(AtomicUsize::new(0));
    {
        let _module = ImportModule::create("scoped", Observed { drops: drops.clone() }).unwrap();
        assert_eq!(drops.load(Ordering::SeqCst), 0);
    }
    assert_eq!(drops.load(Ordering::SeqCst), 1);

    // a refused creation releases the data that it was handed
    let drops = Arc::new(AtomicUsize::new(0));
    assert!(ImportModule::create("no\0", Observed { drops: drops.clone() }).is_err());
    assert_eq!(drops.load(Ordering::SeqCst), 1);
}

#[test]
fn a_destroyed_module_cannot_be_reached_again() {
    // `destroy` takes the module by value: a second `destroy`, or a lookup
    // after it, is not a program. What is left to check is that the first
    // one ran the release once and that a new module of the same name starts
    // empty.
    let drops = Arc::new(AtomicUsize::new(0));
    let mut module = ImportModule::create("m", Observed { drops: drops.clone() }).unwrap();
    module.instance_mut().add_function(&name("f"), func(1, 1));
    assert!(module.instance().get_func("f").is_ok());
    drop(module.destroy());
    assert_eq!(drops.load(Ordering::SeqCst), 1);
    let again = ImportModule::create("m", Observed { drops: drops.clone() }).unwrap();
    assert_eq!(
        again.instance().get_func("f").err(),
        Some(InstanceError::NotFoundFunc("f".to_string()))
    );
    drop(again);
    assert_eq!(drops.load(Ordering::SeqCst), 2);
}
