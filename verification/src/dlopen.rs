//! The guest-visible loader syscalls: `dlopen`, `dlsym`, `dlclose`,
//! `dlerror`.
//!
//! Each call receives guest pointers, interpreted against the calling
//! instance's linear memory.  `dlsym` is decided entirely here.  A
//! `dlopen` interleaves host work — reading the file, compiling,
//! instantiating, running constructors — with decisions; the session
//! machine takes each host outcome as an event and fixes, with proved
//! contracts, the errno of every failure and the final handle write.

use crate::bytes;
use crate::dl::{DlState, spec_add, spec_lookup};
use crate::errno::Errno;
use crate::memory;
use crate::module::{CompiledModule, InstanceInfo};
use crate::utf8;
use vstd::prelude::*;

verus! {

/// The native encoding of the loader flag requesting lazy binding.
pub const DL_FLAG_LAZY: i32 = 1;

/// The native encoding of the loader flag requesting eager binding; the
/// only flag this loader supports.
pub const DL_FLAG_NOW: i32 = 2;

/// A guest string argument: the bytes at `ptr .. ptr + len`, accepted
/// only when the range is in bounds and the bytes are well-formed UTF-8.
pub open spec fn spec_read_guest_string(mem: Seq<u8>, ptr: u64, len: u64) -> Option<Seq<u8>> {
    if ptr + len <= mem.len() && utf8::is_utf8(mem.subrange(ptr as int, ptr + len)) {
        Some(mem.subrange(ptr as int, ptr + len))
    } else {
        None
    }
}

/// Reads a guest string argument, or `Inval` when it runs out of bounds
/// or is not well-formed UTF-8.
pub fn read_guest_string(mem: &Vec<u8>, ptr: u64, len: u64) -> (r: Result<Vec<u8>, Errno>)
    ensures
        match r {
            Ok(s) => spec_read_guest_string(mem@, ptr, len) == Some(s@),
            Err(e) => e == Errno::Inval && spec_read_guest_string(mem@, ptr, len) is None,
        },
{
    match memory::read_bytes(mem, ptr, len) {
        Some(s) => {
            if utf8::check_utf8(&s) {
                Ok(s)
            } else {
                Err(Errno::Inval)
            }
        },
        None => Err(Errno::Inval),
    }
}

/// Looks up `handle`'s symbol named by the guest string at
/// `symbol_ptr .. symbol_ptr + symbol_len` and writes the resolved
/// 64-bit value little-endian at `ret_ptr`.
///
/// Returns `Inval`, leaving the memory untouched, when the symbol
/// string is malformed, the symbol does not resolve, or the result
/// pointer runs out of bounds; on `Success` exactly the eight bytes at
/// `ret_ptr` change, to the resolved value.
pub fn dlsym(dl: &DlState, mem: &mut Vec<u8>, handle: u32, symbol_ptr: u64, symbol_len: u64, ret_ptr: u64) -> (e: Errno)
    ensures
        final(mem)@.len() == old(mem)@.len(),
        match spec_read_guest_string(old(mem)@, symbol_ptr, symbol_len) {
            None => e == Errno::Inval && final(mem)@ == old(mem)@,
            Some(symbol) => match spec_lookup(dl@.modules, handle, symbol, old(mem)@) {
                None => e == Errno::Inval && final(mem)@ == old(mem)@,
                Some(v) => {
                    if memory::range_in_bounds(old(mem)@, ret_ptr, 8) {
                        &&& e == Errno::Success
                        &&& bytes::le_value(final(mem)@.subrange(ret_ptr as int, ret_ptr + 8))
                            == v
                        &&& forall|j: int|
                            0 <= j < old(mem)@.len() && !(ret_ptr <= j < ret_ptr + 8)
                                ==> final(mem)@[j] == old(mem)@[j]
                    } else {
                        e == Errno::Inval && final(mem)@ == old(mem)@
                    }
                },
            },
        },
{
    let symbol = match read_guest_string(mem, symbol_ptr, symbol_len) {
        Ok(s) => s,
        Err(e) => {
            return e;
        },
    };
    let value = match dl.get_symbol(handle, symbol.as_slice(), mem) {
        Some(v) => v,
        None => {
            return Errno::Inval;
        },
    };
    if memory::write_u64(mem, ret_ptr, value) {
        Errno::Success
    } else {
        Errno::Inval
    }
}

/// Closes a loader handle at the guest ABI: documented as a stub that
/// succeeds unconditionally and leaves the registry alone; teardown
/// cleanup goes through the registry's own close.
pub fn dlclose(dl: &DlState, handle: u32) -> (e: Errno)
    ensures
        e == Errno::Success,
{
    let _ = dl;
    let _ = handle;
    Errno::Success
}

/// Reports the last loader diagnostic at the guest ABI: documented as a
/// stub that succeeds unconditionally and leaves the guest's buffer
/// untouched.
pub fn dlerror(mem: &mut Vec<u8>, buffer_ptr: u64, buffer_len: u64, nwritten_ptr: u64) -> (e: Errno)
    ensures
        e == Errno::Success,
        final(mem)@ == old(mem)@,
{
    let _ = buffer_ptr;
    let _ = buffer_len;
    let _ = nwritten_ptr;
    Errno::Success
}

/// The instance handles currently in effect for guest ABI calls.
#[derive(Clone, Copy, Debug, PartialEq, Eq, Structural)]
pub struct ActiveInstance {
    /// The host's identifier of the active instance.
    pub instance_id: u64,
    /// The identifier of the active instance's linear memory.
    pub memory: u32,
}

/// A constructor scope: while a child's constructor runs, the active
/// instance handles are swapped to the child, so ABI callbacks made from
/// the constructor resolve against it; consuming the scope swaps back.
/// Holding the saved handles in the scope forces the swap-back on every
/// exit path.
#[derive(Debug)]
pub struct CtorScope {
    saved: ActiveInstance,
}

impl CtorScope {
    /// Swaps the active instance handles to `child` and opens the scope.
    pub fn enter(slot: &mut ActiveInstance, child: ActiveInstance) -> (s: CtorScope)
        ensures
            *final(slot) == child,
            s.spec_saved() == *old(slot),
    {
        let saved = *slot;
        *slot = child;
        CtorScope { saved }
    }

    /// Restores the handles saved at entry, closing the scope.
    pub fn exit(self, slot: &mut ActiveInstance)
        ensures
            *final(slot) == self.spec_saved(),
    {
        *slot = self.saved;
    }

    /// The handles saved at entry, for use in contracts.
    pub closed spec fn spec_saved(self) -> ActiveInstance {
        self.saved
    }
}

/// Where one `dlopen` stands.
#[derive(Clone, Copy, Debug, PartialEq, Eq, Structural)]
pub enum DlOpenPhase {
    /// The host is reading the module's file.
    AwaitingFile,
    /// The host is compiling the file's bytes.
    AwaitingModule,
    /// The host is instantiating the compiled module.
    AwaitingInstance,
    /// The host is running constructors; the child is registered under
    /// this handle.
    AwaitingConstructors { handle: u32 },
    /// The call is over, with this errno.
    Done { errno: Errno },
}

/// What the host must do next for a `dlopen`.
#[derive(Debug)]
pub enum DlOpenAction {
    /// Read this file through the guest's file-system view.
    ReadFile { path: Vec<u8> },
    /// Compile these bytes into a module.
    Compile { bytes: Vec<u8> },
    /// Instantiate the module, importing the guest-ABI namespaces the
    /// primary instance uses and, as `env.memory`, this linear memory of
    /// the primary instance.
    Instantiate { module: CompiledModule, shared_memory: u32 },
    /// Run `__wasm_call_ctors` of each target, in order; run the newly
    /// registered `child`'s under a constructor scope swapped to it.
    RunConstructors { child: u32, targets: Vec<u32> },
    /// The call is over: return this errno to the guest.
    Done { errno: Errno },
}

/// The mathematical view of a `dlopen` action.
pub enum DlOpenActionView {
    /// Read this file.
    ReadFile { path: Seq<u8> },
    /// Compile these bytes.
    Compile { bytes: Seq<u8> },
    /// Instantiate the module with this shared memory.
    Instantiate { module: CompiledModule, shared_memory: u32 },
    /// Run the targets' constructors.
    RunConstructors { child: u32, targets: Seq<u32> },
    /// The call is over.
    Done { errno: Errno },
}

impl View for DlOpenAction {
    type V = DlOpenActionView;

    open spec fn view(&self) -> DlOpenActionView {
        match self {
            DlOpenAction::ReadFile { path } => DlOpenActionView::ReadFile { path: path@ },
            DlOpenAction::Compile { bytes } => DlOpenActionView::Compile { bytes: bytes@ },
            DlOpenAction::Instantiate { module, shared_memory } => DlOpenActionView::Instantiate {
                module: *module,
                shared_memory: *shared_memory,
            },
            DlOpenAction::RunConstructors { child, targets } => DlOpenActionView::RunConstructors {
                child: *child,
                targets: targets@,
            },
            DlOpenAction::Done { errno } => DlOpenActionView::Done { errno: *errno },
        }
    }
}

/// One `dlopen` call: the machine the syscall layer drives.
#[derive(Debug)]
pub struct DlOpenSession {
    /// Where the call stands.
    pub phase: DlOpenPhase,
    /// The guest pointer that receives the handle on success.
    pub handle_ptr: u64,
    /// The primary instance's linear memory, when the environment has
    /// one; a child can only share an existing memory.
    pub primary_memory: Option<u32>,
}

impl DlOpenSession {
    /// The session's well-formedness: past compilation, a primary memory
    /// is known.
    pub open spec fn wf(self) -> bool {
        (self.phase is AwaitingInstance || self.phase is AwaitingConstructors)
            ==> self.primary_memory is Some
    }
}

/// Starts a `dlopen` of the path at `path_ptr .. path_ptr + path_len`
/// with native `flags`, writing the handle to `handle_ptr` on
/// success.  `preamble` is the outcome of the standard syscall
/// preamble (pending signals, backoff, snapshot), which may end the
/// call early with its errno.  Only the eager-binding flag is
/// supported; any other flag value ends the call with `Notsup`.  A
/// malformed path ends it with `Inval`.  The returned session machine
/// takes each host outcome from there.
pub fn dlopen(
    mem: &Vec<u8>,
    path_ptr: u64,
    path_len: u64,
    flags: i32,
    handle_ptr: u64,
    primary_memory: Option<u32>,
    preamble: Option<Errno>,
) -> (r: (DlOpenSession, DlOpenAction))
        requires
            preamble matches Some(e) ==> e != Errno::Success,
        ensures
            r.0.wf(),
            r.0.handle_ptr == handle_ptr,
            r.0.primary_memory == primary_memory,
            match preamble {
                Some(e) => r.0.phase == (DlOpenPhase::Done { errno: e }) && r.1@
                    == (DlOpenActionView::Done { errno: e }),
                None => {
                    if flags != DL_FLAG_NOW {
                        r.0.phase == (DlOpenPhase::Done { errno: Errno::Notsup }) && r.1@
                            == (DlOpenActionView::Done { errno: Errno::Notsup })
                    } else {
                        match spec_read_guest_string(mem@, path_ptr, path_len) {
                            None => r.0.phase == (DlOpenPhase::Done { errno: Errno::Inval })
                                && r.1@ == (DlOpenActionView::Done { errno: Errno::Inval }),
                            Some(path) => r.0.phase == DlOpenPhase::AwaitingFile && r.1@
                                == (DlOpenActionView::ReadFile { path }),
                        }
                    }
                },
            },
{
    if let Some(e) = preamble {
        return (
            DlOpenSession { phase: DlOpenPhase::Done { errno: e }, handle_ptr, primary_memory },
            DlOpenAction::Done { errno: e },
        );
    }
    if flags != DL_FLAG_NOW {
        return (
            DlOpenSession {
                phase: DlOpenPhase::Done { errno: Errno::Notsup },
                handle_ptr,
                primary_memory,
            },
            DlOpenAction::Done { errno: Errno::Notsup },
        );
    }
    match read_guest_string(mem, path_ptr, path_len) {
        Ok(path) => (
            DlOpenSession { phase: DlOpenPhase::AwaitingFile, handle_ptr, primary_memory },
            DlOpenAction::ReadFile { path },
        ),
        Err(e) => (
            DlOpenSession { phase: DlOpenPhase::Done { errno: e }, handle_ptr, primary_memory },
            DlOpenAction::Done { errno: e },
        ),
    }
}

impl DlOpenSession {
    /// The file read finished: an I/O failure ends the call with `Io`;
    /// otherwise the host must compile the bytes.
    pub fn on_file(&mut self, bytes: Option<Vec<u8>>) -> (a: DlOpenAction)
        requires
            old(self).phase is AwaitingFile,
            old(self).wf(),
        ensures
            final(self).wf(),
            final(self).handle_ptr == old(self).handle_ptr,
            final(self).primary_memory == old(self).primary_memory,
            match bytes {
                None => final(self).phase == (DlOpenPhase::Done { errno: Errno::Io }) && a@
                    == (DlOpenActionView::Done { errno: Errno::Io }),
                Some(b) => final(self).phase == DlOpenPhase::AwaitingModule && a@
                    == (DlOpenActionView::Compile { bytes: b@ }),
            },
    {
        match bytes {
            Some(b) => {
                self.phase = DlOpenPhase::AwaitingModule;
                DlOpenAction::Compile { bytes: b }
            },
            None => {
                self.phase = DlOpenPhase::Done { errno: Errno::Io };
                DlOpenAction::Done { errno: Errno::Io }
            },
        }
    }

    /// Compilation finished: a compilation failure ends the call with
    /// `Inval`; so does a missing primary memory, since the child must
    /// share the primary instance's address space.  Otherwise the host
    /// must instantiate the module with that memory injected as
    /// `env.memory`.
    pub fn on_compiled(&mut self, module: Option<CompiledModule>) -> (a: DlOpenAction)
        requires
            old(self).phase is AwaitingModule,
            old(self).wf(),
        ensures
            final(self).wf(),
            final(self).handle_ptr == old(self).handle_ptr,
            final(self).primary_memory == old(self).primary_memory,
            match (module, old(self).primary_memory) {
                (None, _) => final(self).phase == (DlOpenPhase::Done { errno: Errno::Inval })
                    && a@ == (DlOpenActionView::Done { errno: Errno::Inval }),
                (Some(m), None) => final(self).phase == (DlOpenPhase::Done {
                    errno: Errno::Inval,
                }) && a@ == (DlOpenActionView::Done { errno: Errno::Inval }),
                (Some(m), Some(mid)) => final(self).phase == DlOpenPhase::AwaitingInstance && a@
                    == (DlOpenActionView::Instantiate { module: m, shared_memory: mid }),
            },
    {
        let m = match module {
            Some(m) => m,
            None => {
                self.phase = DlOpenPhase::Done { errno: Errno::Inval };
                return DlOpenAction::Done { errno: Errno::Inval };
            },
        };
        match self.primary_memory {
            Some(mid) => {
                self.phase = DlOpenPhase::AwaitingInstance;
                DlOpenAction::Instantiate { module: m, shared_memory: mid }
            },
            None => {
                self.phase = DlOpenPhase::Done { errno: Errno::Inval };
                DlOpenAction::Done { errno: Errno::Inval }
            },
        }
    }

    /// Instantiation finished: a failure ends the call with `Inval`.
    /// Otherwise the instance is registered in the loader registry under
    /// a fresh handle, sharing the primary memory, and the host must run
    /// the registered modules' constructors — the child's under a scope
    /// swapped to it.
    pub fn on_instantiated(&mut self, dl: &mut DlState, instance: Option<InstanceInfo>) -> (a:
        DlOpenAction)
        requires
            old(self).phase is AwaitingInstance,
            old(self).wf(),
            old(dl)@.wf(),
        ensures
            final(self).wf(),
            final(dl)@.wf(),
            final(self).handle_ptr == old(self).handle_ptr,
            final(self).primary_memory == old(self).primary_memory,
            match instance {
                None => {
                    &&& final(self).phase == (DlOpenPhase::Done { errno: Errno::Inval })
                    &&& a@ == (DlOpenActionView::Done { errno: Errno::Inval })
                    &&& final(dl)@ == old(dl)@
                },
                Some(info) => {
                    let mid = old(self).primary_memory->Some_0;
                    let (d2, r) = spec_add(old(dl)@, info@, mid);
                    &&& final(dl)@ == d2
                    &&& match r {
                        None => final(self).phase == (DlOpenPhase::Done { errno: Errno::Inval })
                            && a@ == (DlOpenActionView::Done { errno: Errno::Inval }),
                        Some(h) => {
                            &&& final(self).phase == (DlOpenPhase::AwaitingConstructors {
                                handle: h,
                            })
                            &&& a@ == (DlOpenActionView::RunConstructors {
                                child: h,
                                targets: crate::dl::spec_hook_handles(final(dl)@.modules, true),
                            })
                        },
                    }
                },
            },
    {
        let info = match instance {
            Some(info) => info,
            None => {
                self.phase = DlOpenPhase::Done { errno: Errno::Inval };
                return DlOpenAction::Done { errno: Errno::Inval };
            },
        };
        let mid = match self.primary_memory {
            Some(mid) => mid,
            None => {
                // excluded by well-formedness
                self.phase = DlOpenPhase::Done { errno: Errno::Inval };
                return DlOpenAction::Done { errno: Errno::Inval };
            },
        };
        match dl.add_module(info, mid) {
            Some(handle) => {
                let targets = dl.call_constructors();
                self.phase = DlOpenPhase::AwaitingConstructors { handle };
                DlOpenAction::RunConstructors { child: handle, targets }
            },
            None => {
                self.phase = DlOpenPhase::Done { errno: Errno::Inval };
                DlOpenAction::Done { errno: Errno::Inval }
            },
        }
    }

    /// The constructors ran.  A constructor failure ends the call with
    /// `Inval` — the handle stays registered.  Otherwise the handle is
    /// written little-endian to the guest's handle pointer; a pointer
    /// out of bounds ends the call with `Inval`, leaving the memory
    /// untouched, and on `Success` exactly those four bytes change.
    pub fn on_ctors(&mut self, mem: &mut Vec<u8>, ok: bool) -> (a: DlOpenAction)
        requires
            old(self).phase is AwaitingConstructors,
            old(self).wf(),
        ensures
            final(self).wf(),
            final(mem)@.len() == old(mem)@.len(),
            ({
                let h = old(self).phase->AwaitingConstructors_handle;
                if !ok {
                    &&& final(self).phase == (DlOpenPhase::Done { errno: Errno::Inval })
                    &&& a@ == (DlOpenActionView::Done { errno: Errno::Inval })
                    &&& final(mem)@ == old(mem)@
                } else if memory::range_in_bounds(old(mem)@, old(self).handle_ptr, 4) {
                    &&& final(self).phase == (DlOpenPhase::Done { errno: Errno::Success })
                    &&& a@ == (DlOpenActionView::Done { errno: Errno::Success })
                    &&& bytes::le_value(
                        final(mem)@.subrange(
                            old(self).handle_ptr as int,
                            old(self).handle_ptr + 4,
                        ),
                    ) == h
                    &&& forall|j: int|
                        0 <= j < old(mem)@.len() && !(old(self).handle_ptr <= j < old(
                            self,
                        ).handle_ptr + 4) ==> final(mem)@[j] == old(mem)@[j]
                } else {
                    &&& final(self).phase == (DlOpenPhase::Done { errno: Errno::Inval })
                    &&& a@ == (DlOpenActionView::Done { errno: Errno::Inval })
                    &&& final(mem)@ == old(mem)@
                }
            }),
    {
        let handle = match self.phase {
            DlOpenPhase::AwaitingConstructors { handle } => handle,
            _ => 0,  // excluded by the phase precondition
        };
        if !ok {
            self.phase = DlOpenPhase::Done { errno: Errno::Inval };
            return DlOpenAction::Done { errno: Errno::Inval };
        }
        if memory::write_u32(mem, self.handle_ptr, handle) {
            self.phase = DlOpenPhase::Done { errno: Errno::Success };
            DlOpenAction::Done { errno: Errno::Success }
        } else {
            self.phase = DlOpenPhase::Done { errno: Errno::Inval };
            DlOpenAction::Done { errno: Errno::Inval }
        }
    }
}

} // verus!
