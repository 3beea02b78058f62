use wasix_core::dl::DlState;
use wasix_core::dlopen::{
    dlclose, dlerror, dlopen, dlsym, ActiveInstance, CtorScope, DlOpenAction, DlOpenPhase,
    DL_FLAG_LAZY, DL_FLAG_NOW,
};
use wasix_core::errno::Errno;
use wasix_core::module::{CompiledModule, GlobalValue, InstanceInfo};

fn side_module_instance() -> InstanceInfo {
    InstanceInfo {
        globals: vec![(b"g".to_vec(), GlobalValue::I32 { bits: 64 })],
        has_start: false,
        has_initialize: false,
        has_ctors: true,
        has_dtors: false,
    }
}

/// Writes `s` into memory at `at` and returns (ptr, len) for the guest.
fn plant(mem: &mut [u8], at: usize, s: &[u8]) -> (u64, u64) {
    mem[at..at + s.len()].copy_from_slice(s);
    (at as u64, s.len() as u64)
}

#[test]
fn dlopen_then_dlsym_resolves_planted_value() {
    // a side module exporting an i32 global g = 64, with memory bytes
    // 64..72 equal to 0x0011223344556677 little-endian
    let mut mem = vec![0u8; 256];
    mem[64..72].copy_from_slice(&[0x77, 0x66, 0x55, 0x44, 0x33, 0x22, 0x11, 0x00]);
    let (path_ptr, path_len) = plant(&mut mem, 100, b"/lib/side.wasm");
    let handle_ptr: u64 = 200;

    let mut dl = DlState::new();
    let (mut session, action) =
        dlopen(&mem, path_ptr, path_len, DL_FLAG_NOW, handle_ptr, Some(1), None);
    let path = match action {
        DlOpenAction::ReadFile { path } => path,
        other => panic!("expected a file read, got {:?}", other),
    };
    assert_eq!(path.as_slice(), b"/lib/side.wasm");

    // the host read the file and compiles it
    let action = session.on_file(Some(vec![0x00, 0x61, 0x73, 0x6D]));
    assert!(matches!(action, DlOpenAction::Compile { .. }));
    let action = session.on_compiled(Some(CompiledModule { id: 11 }));
    match action {
        DlOpenAction::Instantiate { module, shared_memory } => {
            assert_eq!(module, CompiledModule { id: 11 });
            assert_eq!(shared_memory, 1);
        }
        other => panic!("expected instantiation, got {:?}", other),
    }
    let action = session.on_instantiated(&mut dl, Some(side_module_instance()));
    let child = match action {
        DlOpenAction::RunConstructors { child, targets } => {
            assert_eq!(targets, vec![child]);
            child
        }
        other => panic!("expected constructors, got {:?}", other),
    };
    let action = session.on_ctors(&mut mem, true);
    assert!(matches!(action, DlOpenAction::Done { errno: Errno::Success }));

    // the handle was written little-endian at handle_ptr
    let written = u32::from_le_bytes(mem[200..204].try_into().unwrap());
    assert_eq!(written, child);

    // dl_sym(h, "g", &v) writes 0x0011223344556677 and succeeds
    let (sym_ptr, sym_len) = plant(&mut mem, 120, b"g");
    let ret_ptr: u64 = 208;
    let e = dlsym(&dl, &mut mem, child, sym_ptr, sym_len, ret_ptr);
    assert_eq!(e, Errno::Success);
    let v = u64::from_le_bytes(mem[208..216].try_into().unwrap());
    assert_eq!(v, 0x0011223344556677);
}

#[test]
fn dlopen_unsupported_flag_is_notsup_and_writes_nothing() {
    let mut mem = vec![0u8; 64];
    let (path_ptr, path_len) = plant(&mut mem, 0, b"/lib/side.wasm");
    let before = mem.clone();
    let (session, action) = dlopen(&mem, path_ptr, path_len, DL_FLAG_LAZY, 32, Some(1), None);
    assert!(matches!(action, DlOpenAction::Done { errno: Errno::Notsup }));
    assert!(matches!(session.phase, DlOpenPhase::Done { errno: Errno::Notsup }));
    assert_eq!(mem, before);
}

#[test]
fn dlopen_preamble_returns_early() {
    let mem = vec![0u8; 16];
    let (_, action) = dlopen(&mem, 0, 4, DL_FLAG_NOW, 8, Some(1), Some(Errno::Io));
    assert!(matches!(action, DlOpenAction::Done { errno: Errno::Io }));
}

#[test]
fn dlopen_path_out_of_bounds_is_inval() {
    let mem = vec![0u8; 16];
    let (_, action) = dlopen(&mem, 8, 100, DL_FLAG_NOW, 0, Some(1), None);
    assert!(matches!(action, DlOpenAction::Done { errno: Errno::Inval }));
}

#[test]
fn dlopen_malformed_path_is_inval() {
    let mut mem = vec![0u8; 16];
    let (path_ptr, path_len) = plant(&mut mem, 0, &[0xC0, 0x80]);
    let (_, action) = dlopen(&mem, path_ptr, path_len, DL_FLAG_NOW, 8, Some(1), None);
    assert!(matches!(action, DlOpenAction::Done { errno: Errno::Inval }));
}

#[test]
fn dlopen_file_read_failure_is_io() {
    let mut mem = vec![0u8; 32];
    let (path_ptr, path_len) = plant(&mut mem, 0, b"/none.wasm");
    let (mut session, _) = dlopen(&mem, path_ptr, path_len, DL_FLAG_NOW, 16, Some(1), None);
    let action = session.on_file(None);
    assert!(matches!(action, DlOpenAction::Done { errno: Errno::Io }));
}

#[test]
fn dlopen_compile_failure_is_inval() {
    let mut mem = vec![0u8; 32];
    let (path_ptr, path_len) = plant(&mut mem, 0, b"/side.wasm");
    let (mut session, _) = dlopen(&mem, path_ptr, path_len, DL_FLAG_NOW, 16, Some(1), None);
    session.on_file(Some(vec![1, 2, 3]));
    let action = session.on_compiled(None);
    assert!(matches!(action, DlOpenAction::Done { errno: Errno::Inval }));
}

#[test]
fn dlopen_without_primary_memory_is_inval() {
    let mut mem = vec![0u8; 32];
    let (path_ptr, path_len) = plant(&mut mem, 0, b"/side.wasm");
    let (mut session, _) = dlopen(&mem, path_ptr, path_len, DL_FLAG_NOW, 16, None, None);
    session.on_file(Some(vec![1]));
    let action = session.on_compiled(Some(CompiledModule { id: 1 }));
    assert!(matches!(action, DlOpenAction::Done { errno: Errno::Inval }));
}

#[test]
fn dlopen_instantiation_failure_is_inval() {
    let mut mem = vec![0u8; 32];
    let (path_ptr, path_len) = plant(&mut mem, 0, b"/side.wasm");
    let mut dl = DlState::new();
    let (mut session, _) = dlopen(&mem, path_ptr, path_len, DL_FLAG_NOW, 16, Some(0), None);
    session.on_file(Some(vec![1]));
    session.on_compiled(Some(CompiledModule { id: 1 }));
    let action = session.on_instantiated(&mut dl, None);
    assert!(matches!(action, DlOpenAction::Done { errno: Errno::Inval }));
    assert!(dl.get_module(1).is_none());
}

#[test]
fn dlopen_constructor_failure_is_inval_handle_stays() {
    let mut mem = vec![0u8; 64];
    let (path_ptr, path_len) = plant(&mut mem, 0, b"/side.wasm");
    let mut dl = DlState::new();
    let (mut session, _) = dlopen(&mem, path_ptr, path_len, DL_FLAG_NOW, 32, Some(0), None);
    session.on_file(Some(vec![1]));
    session.on_compiled(Some(CompiledModule { id: 1 }));
    let action = session.on_instantiated(&mut dl, Some(side_module_instance()));
    let child = match action {
        DlOpenAction::RunConstructors { child, .. } => child,
        other => panic!("expected constructors, got {:?}", other),
    };
    let before = mem.clone();
    let action = session.on_ctors(&mut mem, false);
    assert!(matches!(action, DlOpenAction::Done { errno: Errno::Inval }));
    // the handle is not rolled back, and nothing was written
    assert!(dl.get_module(child).is_some());
    assert_eq!(mem, before);
}

#[test]
fn dlopen_handle_pointer_out_of_bounds_is_inval() {
    let mut mem = vec![0u8; 32];
    let (path_ptr, path_len) = plant(&mut mem, 0, b"/side.wasm");
    let mut dl = DlState::new();
    let (mut session, _) = dlopen(&mem, path_ptr, path_len, DL_FLAG_NOW, 31, Some(0), None);
    session.on_file(Some(vec![1]));
    session.on_compiled(Some(CompiledModule { id: 1 }));
    session.on_instantiated(&mut dl, Some(side_module_instance()));
    let before = mem.clone();
    let action = session.on_ctors(&mut mem, true);
    assert!(matches!(action, DlOpenAction::Done { errno: Errno::Inval }));
    assert_eq!(mem, before);
}

#[test]
fn dlsym_unknown_symbol_is_inval_memory_untouched() {
    let mut mem = vec![0u8; 64];
    let (sym_ptr, sym_len) = plant(&mut mem, 0, b"missing");
    let mut dl = DlState::new();
    let h = dl.add_module(side_module_instance(), 0).unwrap();
    let before = mem.clone();
    assert_eq!(dlsym(&dl, &mut mem, h, sym_ptr, sym_len, 32), Errno::Inval);
    assert_eq!(mem, before);
}

#[test]
fn dlsym_malformed_symbol_is_inval() {
    let mut mem = vec![0u8; 64];
    let (sym_ptr, sym_len) = plant(&mut mem, 0, &[0xFF, 0xFF]);
    let mut dl = DlState::new();
    let h = dl.add_module(side_module_instance(), 0).unwrap();
    assert_eq!(dlsym(&dl, &mut mem, h, sym_ptr, sym_len, 32), Errno::Inval);
}

#[test]
fn dlsym_result_pointer_out_of_bounds_is_inval() {
    let mut mem = vec![0u8; 80];
    mem[64..72].copy_from_slice(&[1, 0, 0, 0, 0, 0, 0, 0]);
    let (sym_ptr, sym_len) = plant(&mut mem, 0, b"g");
    let mut dl = DlState::new();
    let h = dl.add_module(side_module_instance(), 0).unwrap();
    let before = mem.clone();
    assert_eq!(dlsym(&dl, &mut mem, h, sym_ptr, sym_len, 76), Errno::Inval);
    assert_eq!(mem, before);
}

#[test]
fn dlclose_always_succeeds() {
    let dl = DlState::new();
    assert_eq!(dlclose(&dl, 1), Errno::Success);
    assert_eq!(dlclose(&dl, 0), Errno::Success);
}

#[test]
fn dlerror_succeeds_and_leaves_buffer_untouched() {
    let mut mem = vec![5u8; 32];
    let before = mem.clone();
    assert_eq!(dlerror(&mut mem, 0, 32, 8), Errno::Success);
    assert_eq!(mem, before);
}

#[test]
fn constructor_scope_swaps_and_restores() {
    let primary = ActiveInstance { instance_id: 1, memory: 0 };
    let child = ActiveInstance { instance_id: 9, memory: 0 };
    let mut slot = primary;
    let scope = CtorScope::enter(&mut slot, child);
    assert_eq!(slot, child);
    scope.exit(&mut slot);
    assert_eq!(slot, primary);
}
