//! The dynamic-loader registry: modules loaded at run time, keyed by
//! opaque handle.
//!
//! Handles are issued monotonically from 1 and never reused within a
//! process lifetime; a closed handle is tombstoned.  Symbol resolution
//! reads the named exported global of the handle's instance, takes its
//! integer value as a byte offset into the shared linear memory, and
//! dereferences a little-endian integer there, choosing the widest of
//! 8, 4 or 1 bytes that is aligned and in bounds.

use crate::bytes;
use crate::module::{GlobalValue, InstanceInfo, InstanceView, ModuleData, ModuleView, spec_global};
use vstd::prelude::*;

verus! {

/// The first module registered under handle `h`, front to back.
pub open spec fn spec_module(ms: Seq<(u32, ModuleView)>, h: u32) -> Option<ModuleView>
    decreases ms.len(),
{
    if ms.len() == 0 {
        None
    } else if ms[0].0 == h {
        Some(ms[0].1)
    } else {
        spec_module(ms.drop_first(), h)
    }
}

/// No two entries share a handle.
pub open spec fn unique_handles(ms: Seq<(u32, ModuleView)>) -> bool {
    forall|i: int, j: int|
        0 <= i < j < ms.len() ==> (#[trigger] ms[i]).0 != (#[trigger] ms[j]).0
}

/// The width of the little-endian read at byte offset `off`: the widest
/// of 8, 4 or 1 bytes that is aligned and in bounds, or 0 when not even
/// one byte is readable.
pub open spec fn spec_deref_width(off: nat, mem: Seq<u8>) -> nat {
    if off % 8 == 0 && off + 8 <= mem.len() {
        8
    } else if off % 4 == 0 && off + 4 <= mem.len() {
        4
    } else if off + 1 <= mem.len() {
        1
    } else {
        0
    }
}

/// The value dereferenced from the shared memory at byte offset `off`,
/// zero-extended to 64 bits.
pub open spec fn spec_deref(off: nat, mem: Seq<u8>) -> Option<u64> {
    let w = spec_deref_width(off, mem);
    if w == 0 {
        None
    } else {
        Some(bytes::le_value(mem.subrange(off as int, off + w as int)) as u64)
    }
}

/// The byte offset that `symbol` names: the value of the instance's
/// exported integer global of that name, zero-extended.  `None` when the
/// handle is unknown or the global is missing or non-integer.
pub open spec fn spec_symbol_offset(ms: Seq<(u32, ModuleView)>, h: u32, symbol: Seq<u8>) -> Option<
    nat,
> {
    match spec_module(ms, h) {
        None => None,
        Some(md) => match spec_global(md.instance.globals, symbol) {
            None => None,
            Some(GlobalValue::I32 { bits }) => Some(bits as nat),
            Some(GlobalValue::I64 { bits }) => Some(bits as nat),
            Some(GlobalValue::Other) => None,
        },
    }
}

/// What symbol resolution returns for `(h, symbol)` against memory `mem`.
pub open spec fn spec_lookup(
    ms: Seq<(u32, ModuleView)>,
    h: u32,
    symbol: Seq<u8>,
    mem: Seq<u8>,
) -> Option<u64> {
    match spec_symbol_offset(ms, h, symbol) {
        None => None,
        Some(off) => spec_deref(off, mem),
    }
}

/// The mathematical view of the registry.
#[verifier::ext_equal]
pub struct DlView {
    /// The registered modules, in registration order.
    pub modules: Seq<(u32, ModuleView)>,
    /// The next handle to issue.
    pub next_handle: u32,
    /// The last recorded diagnostic.
    pub last_error: Seq<u8>,
}

impl DlView {
    /// Well-formedness: handles start at 1, grow strictly in registration
    /// order, and stay below the next handle to issue.
    pub open spec fn wf(self) -> bool {
        &&& self.next_handle >= 1
        &&& forall|i: int|
            0 <= i < self.modules.len() ==> 1 <= (#[trigger] self.modules[i]).0 < self.next_handle
        &&& forall|i: int, j: int|
            0 <= i < j < self.modules.len() ==> (#[trigger] self.modules[i]).0 < (
            #[trigger] self.modules[j]).0
    }

    /// The handles registered so far, in registration order.
    pub open spec fn handles(self) -> Seq<u32> {
        self.modules.map_values(|e: (u32, ModuleView)| e.0)
    }
}

/// The view of a fresh registry.
pub open spec fn spec_new() -> DlView {
    DlView { modules: Seq::empty(), next_handle: 1, last_error: Seq::empty() }
}

/// What registering an instance does to the registry view: issue the next
/// handle and append the entry, or change nothing when the handle space
/// is exhausted.
pub open spec fn spec_add(d: DlView, instance: InstanceView, memory: u32) -> (DlView, Option<
    u32,
>) {
    if d.next_handle == u32::MAX {
        (d, None)
    } else {
        (
            DlView {
                modules: d.modules.push(
                    (d.next_handle, ModuleView { instance, memory }),
                ),
                next_handle: (d.next_handle + 1) as u32,
                last_error: d.last_error,
            },
            Some(d.next_handle),
        )
    }
}

/// The state for dynamic loading: registered modules by handle, the next
/// handle to issue, and the last human-readable diagnostic.
#[derive(Debug)]
pub struct DlState {
    /// The registered modules, in order of registration.
    modules: Vec<(u32, ModuleData)>,
    /// The next handle to issue; handles grow monotonically from 1.
    next_handle: u32,
    /// The last diagnostic recorded by a failed loader operation.
    last_error: Vec<u8>,
}

impl View for DlState {
    type V = DlView;

    closed spec fn view(&self) -> DlView {
        DlView {
            modules: Seq::new(
                self.modules@.len(),
                |i: int| (self.modules@[i].0, self.modules@[i].1@),
            ),
            next_handle: self.next_handle,
            last_error: self.last_error@,
        }
    }
}

impl DlState {
    /// A new registry: empty, issuing handles from 1.
    pub fn new() -> (r: DlState)
        ensures
            r@ == spec_new(),
            r@.wf(),
    {
        let r = DlState { modules: Vec::new(), next_handle: 1, last_error: Vec::new() };
        proof {
            assert(r@ =~~= spec_new());
        }
        r
    }

    /// Registers a module instance and returns its fresh handle, strictly
    /// above every handle issued before.  Returns `None`, changing
    /// nothing, only when the handle space is exhausted.
    pub fn add_module(&mut self, instance: InstanceInfo, memory: u32) -> (r: Option<u32>)
        requires
            old(self)@.wf(),
        ensures
            (final(self)@, r) == spec_add(old(self)@, instance@, memory),
            final(self)@.wf(),
    {
        if self.next_handle == u32::MAX {
            proof {
                assert(self@ =~~= spec_add(old(self)@, instance@, memory).0);
            }
            return None;
        }
        let handle = self.next_handle;
        self.next_handle = self.next_handle + 1;
        self.modules.push((handle, ModuleData { instance, memory }));
        proof {
            assert(self@.modules =~~= spec_add(old(self)@, instance@, memory).0.modules);
            assert(self@ =~~= spec_add(old(self)@, instance@, memory).0);
        }
        Some(handle)
    }

    /// The registered module under `handle`, if any.
    pub fn get_module(&self, handle: u32) -> (r: Option<&ModuleData>)
        ensures
            match r {
                Some(md) => spec_module(self@.modules, handle) == Some(md@),
                None => spec_module(self@.modules, handle) is None,
            },
    {
        let n: usize = self.modules.len();
        let mut i: usize = 0;
        proof {
            assert(self@.modules.skip(0) =~= self@.modules);
        }
        while i < n
            invariant
                i <= n,
                n == self.modules@.len(),
                self@.modules.len() == n,
                spec_module(self@.modules, handle) == spec_module(
                    self@.modules.skip(i as int),
                    handle,
                ),
            decreases n - i,
        {
            proof {
                assert(self@.modules.skip(i as int)[0] == self@.modules[i as int]);
                assert(self@.modules.skip(i as int).drop_first() =~= self@.modules.skip(i + 1));
            }
            if self.modules[i].0 == handle {
                return Some(&self.modules[i].1);
            }
            i = i + 1;
        }
        None
    }

    /// Resolves `symbol` against the module registered under `handle`,
    /// dereferencing the shared linear memory `mem`.
    pub fn get_symbol(&self, handle: u32, symbol: &[u8], mem: &Vec<u8>) -> (r: Option<u64>)
        ensures
            r == spec_lookup(self@.modules, handle, symbol@, mem@),
    {
        let md = match self.get_module(handle) {
            Some(md) => md,
            None => {
                return None;
            },
        };
        let offset: u64 = match md.instance.get_global(symbol) {
            Some(GlobalValue::I32 { bits }) => bits as u64,
            Some(GlobalValue::I64 { bits }) => bits,
            Some(GlobalValue::Other) => {
                return None;
            },
            None => {
                return None;
            },
        };
        let n: usize = mem.len();
        proof {
            bytes::lemma_pow256_values();
        }
        if offset % 8 == 0 && offset <= u64::MAX - 8 && offset + 8 <= n as u64 {
            let v = bytes::read_le(mem, offset as usize, 8);
            proof {
                bytes::lemma_le_value_bound(mem@.subrange(offset as int, offset + 8));
            }
            Some(v)
        } else if offset % 4 == 0 && offset <= u64::MAX - 4 && offset + 4 <= n as u64 {
            let v = bytes::read_le(mem, offset as usize, 4);
            proof {
                bytes::lemma_le_value_bound(mem@.subrange(offset as int, offset + 4));
            }
            Some(v)
        } else if offset < n as u64 {
            let v = bytes::read_le(mem, offset as usize, 1);
            proof {
                bytes::lemma_le_value_bound(mem@.subrange(offset as int, offset + 1));
                assert(mem@.subrange(offset as int, offset + 1)[0] == mem@[offset as int]);
            }
            Some(v)
        } else {
            None
        }
    }

    /// Removes `handle` from the registry.  The handle is tombstoned:
    /// the next handle to issue does not move, so the handle is never
    /// reallocated.  Returns whether anything was removed.
    pub fn close(&mut self, handle: u32) -> (removed: bool)
        requires
            old(self)@.wf(),
        ensures
            final(self)@.wf(),
            final(self)@.next_handle == old(self)@.next_handle,
            final(self)@.last_error == old(self)@.last_error,
            removed == (spec_module(old(self)@.modules, handle) is Some),
            spec_module(final(self)@.modules, handle) is None,
            forall|h: u32|
                h != handle ==> #[trigger] spec_module(final(self)@.modules, h) == spec_module(
                    old(self)@.modules,
                    h,
                ),
    {
        let n: usize = self.modules.len();
        let ghost ms = self@.modules;
        let mut i: usize = 0;
        while i < n
            invariant
                i <= n,
                n == self.modules@.len(),
                ms == self@.modules,
                old(self)@ == self@,
                old(self)@.wf(),
                forall|k: int| 0 <= k < i ==> (#[trigger] ms[k]).0 != handle,
            decreases n - i,
        {
            if self.modules[i].0 == handle {
                self.modules.remove(i);
                proof {
                    assert(unique_handles(ms));
                    assert(self@.modules =~= ms.remove(i as int));
                    let post = self@.modules;
                    assert forall|a: int| 0 <= a < post.len() implies 1 <= (#[trigger] post[a]).0
                        < self@.next_handle by {
                        if a < i {
                            assert(post[a] == ms[a]);
                        } else {
                            assert(post[a] == ms[a + 1]);
                        }
                    }
                    assert forall|a: int, b: int| 0 <= a < b < post.len() implies (
                    #[trigger] post[a]).0 < (#[trigger] post[b]).0 by {
                        if a < i {
                            assert(post[a] == ms[a]);
                        } else {
                            assert(post[a] == ms[a + 1]);
                        }
                        if b < i {
                            assert(post[b] == ms[b]);
                        } else {
                            assert(post[b] == ms[b + 1]);
                        }
                    }
                    lemma_spec_module_remove(ms, i as int, handle);
                    assert forall|h: u32| h != handle implies #[trigger] spec_module(
                        self@.modules,
                        h,
                    ) == spec_module(ms, h) by {
                        lemma_spec_module_remove(ms, i as int, h);
                    }
                    lemma_spec_module_found(ms, i as int);
                }
                return true;
            }
            i = i + 1;
        }
        proof {
            lemma_spec_module_absent(ms, handle);
        }
        false
    }

    /// The handles whose instances export `__wasm_call_ctors`, in handle
    /// order: registration invokes each of their constructors.  Invoking
    /// them is the engine's work; this computes the invocation plan.
    pub fn call_constructors(&self) -> (r: Vec<u32>)
        ensures
            r@ == spec_hook_handles(self@.modules, true),
    {
        self.hook_handles(true)
    }

    /// The handles whose instances export `__wasm_call_dtors`, in handle
    /// order: process teardown invokes each of their destructors.
    /// Invoking them is the engine's work; this computes the invocation
    /// plan.
    pub fn call_destructors(&self) -> (r: Vec<u32>)
        ensures
            r@ == spec_hook_handles(self@.modules, false),
    {
        self.hook_handles(false)
    }

    /// Records a diagnostic for retrieval by the guest's error query.
    pub fn set_last_error(&mut self, msg: Vec<u8>)
        ensures
            final(self)@.last_error == msg@,
            final(self)@.modules == old(self)@.modules,
            final(self)@.next_handle == old(self)@.next_handle,
    {
        self.last_error = msg;
    }

    /// The last recorded diagnostic.
    pub fn last_error(&self) -> (r: &Vec<u8>)
        ensures
            r@ == self@.last_error,
    {
        &self.last_error
    }

    fn hook_handles(&self, ctors: bool) -> (r: Vec<u32>)
        ensures
            r@ == spec_hook_handles(self@.modules, ctors),
    {
        let n: usize = self.modules.len();
        let mut out: Vec<u32> = Vec::new();
        let mut i: usize = 0;
        proof {
            assert(self@.modules.skip(0) =~= self@.modules);
            assert(out@ + spec_hook_handles(self@.modules.skip(0), ctors) =~= spec_hook_handles(
                self@.modules,
                ctors,
            ));
        }
        while i < n
            invariant
                i <= n,
                n == self.modules@.len(),
                self@.modules.len() == n,
                out@ + spec_hook_handles(self@.modules.skip(i as int), ctors) == spec_hook_handles(
                    self@.modules,
                    ctors,
                ),
            decreases n - i,
        {
            let ghost rest = self@.modules.skip(i as int);
            proof {
                assert(rest[0] == self@.modules[i as int]);
                assert(rest.drop_first() =~= self@.modules.skip(i + 1));
            }
            let has = if ctors {
                self.modules[i].1.instance.has_ctors
            } else {
                self.modules[i].1.instance.has_dtors
            };
            if has {
                let ghost pre = out@;
                out.push(self.modules[i].0);
                proof {
                    assert(out@ + spec_hook_handles(self@.modules.skip(i + 1), ctors) =~= pre + (
                    seq![self@.modules[i as int].0] + spec_hook_handles(
                        self@.modules.skip(i + 1),
                        ctors,
                    )));
                }
            }
            i = i + 1;
        }
        proof {
            assert(self@.modules.skip(n as int) =~= Seq::<(u32, ModuleView)>::empty());
            assert(out@ =~= out@ + spec_hook_handles(self@.modules.skip(n as int), ctors));
        }
        out
    }
}

/// The handles among `ms`, in order, whose instances export the
/// constructor hook (`ctors` true) or the destructor hook (`ctors`
/// false).
pub open spec fn spec_hook_handles(ms: Seq<(u32, ModuleView)>, ctors: bool) -> Seq<u32>
    decreases ms.len(),
{
    if ms.len() == 0 {
        Seq::empty()
    } else {
        let rest = spec_hook_handles(ms.drop_first(), ctors);
        let has = if ctors {
            ms[0].1.instance.has_ctors
        } else {
            ms[0].1.instance.has_dtors
        };
        if has {
            seq![ms[0].0] + rest
        } else {
            rest
        }
    }
}

/// A handle that no entry carries resolves to no module.
pub proof fn lemma_spec_module_absent(ms: Seq<(u32, ModuleView)>, h: u32)
    requires
        forall|k: int| 0 <= k < ms.len() ==> (#[trigger] ms[k]).0 != h,
    ensures
        spec_module(ms, h) is None,
    decreases ms.len(),
{
    if ms.len() > 0 {
        lemma_spec_module_absent(ms.drop_first(), h);
    }
}

/// With unique handles, the entry at any index is what its handle
/// resolves to.
pub proof fn lemma_spec_module_found(ms: Seq<(u32, ModuleView)>, i: int)
    requires
        0 <= i < ms.len(),
        unique_handles(ms),
    ensures
        spec_module(ms, ms[i].0) == Some(ms[i].1),
    decreases ms.len(),
{
    if i > 0 {
        assert(unique_handles(ms.drop_first()));
        lemma_spec_module_found(ms.drop_first(), i - 1);
    }
}

/// Removing the entry at index `i` erases exactly its handle from the
/// resolution map.
pub proof fn lemma_spec_module_remove(ms: Seq<(u32, ModuleView)>, i: int, h: u32)
    requires
        0 <= i < ms.len(),
        unique_handles(ms),
    ensures
        h == ms[i].0 ==> spec_module(ms.remove(i), h) is None,
        h != ms[i].0 ==> spec_module(ms.remove(i), h) == spec_module(ms, h),
    decreases ms.len(),
{
    if i == 0 {
        assert(ms.remove(0) =~= ms.drop_first());
        if h == ms[0].0 {
            assert(forall|k: int|
                0 <= k < ms.drop_first().len() ==> (#[trigger] ms.drop_first()[k]).0 != h);
            lemma_spec_module_absent(ms.drop_first(), h);
        }
    } else {
        assert(ms.remove(i).drop_first() =~= ms.drop_first().remove(i - 1));
        assert(unique_handles(ms.drop_first()));
        lemma_spec_module_remove(ms.drop_first(), i - 1, h);
        assert(ms.remove(i)[0] == ms[0]);
    }
}

/// Appending an entry under a fresh handle adds exactly that handle to
/// the resolution map.
pub proof fn lemma_spec_module_push(ms: Seq<(u32, ModuleView)>, e: (u32, ModuleView), h: u32)
    requires
        forall|k: int| 0 <= k < ms.len() ==> (#[trigger] ms[k]).0 != e.0,
    ensures
        h == e.0 ==> spec_module(ms.push(e), h) == Some(e.1),
        h != e.0 ==> spec_module(ms.push(e), h) == spec_module(ms, h),
    decreases ms.len(),
{
    if ms.len() == 0 {
        assert(ms.push(e)[0] == e);
        if h != e.0 {
            assert(ms.push(e).drop_first() =~= Seq::<(u32, ModuleView)>::empty());
            assert(spec_module(Seq::<(u32, ModuleView)>::empty(), h) is None);
        }
    } else {
        assert(ms.push(e)[0] == ms[0]);
        assert(ms.push(e).drop_first() =~= ms.drop_first().push(e));
        assert forall|k: int|
            0 <= k < ms.drop_first().len() implies (#[trigger] ms.drop_first()[k]).0 != e.0 by {
            assert(ms.drop_first()[k] == ms[k + 1]);
        }
        lemma_spec_module_push(ms.drop_first(), e, h);
        assert(ms[0].0 != e.0);
        if h == e.0 {
            assert(spec_module(ms.push(e), h) == spec_module(ms.drop_first().push(e), h));
        } else if ms[0].0 == h {
            assert(spec_module(ms.push(e), h) == Some(ms[0].1));
            assert(spec_module(ms, h) == Some(ms[0].1));
        } else {
            assert(spec_module(ms.push(e), h) == spec_module(ms.drop_first().push(e), h));
            assert(spec_module(ms, h) == spec_module(ms.drop_first(), h));
        }
    }
}

/// Handles issued by a single registry are strictly increasing and begin
/// at 1: a fresh registry issues handle 1 first, every successful
/// registration issues the current next handle, which is strictly above
/// every handle registered before, and the registered handle sequence
/// stays strictly increasing.
pub proof fn lemma_handles_strictly_increasing(d: DlView, instance: InstanceView, memory: u32)
    requires
        d.wf(),
    ensures
        ({
            let (d2, r) = spec_add(d, instance, memory);
            &&& d2.wf()
            &&& r matches Some(h) ==> {
                &&& h == d.next_handle
                &&& d2.handles() == d.handles().push(h)
                &&& forall|k: int| 0 <= k < d.handles().len() ==> #[trigger] d.handles()[k] < h
                &&& d2.next_handle > h
            }
            &&& d == spec_new() ==> r == Some(1u32)
        }),
        forall|i: int, j: int|
            0 <= i < j < d.handles().len() ==> #[trigger] d.handles()[i] < #[trigger] d.handles()[j],
        forall|i: int| 0 <= i < d.handles().len() ==> #[trigger] d.handles()[i] >= 1,
{
    let (d2, r) = spec_add(d, instance, memory);
    if d.next_handle < u32::MAX {
        assert(d2.handles() =~= d.handles().push(d.next_handle));
    }
}

/// A handle once issued — registered, or closed and tombstoned — is
/// never issued again: every issued handle lies below the next handle
/// to issue, and closing does not move the next handle.
pub proof fn lemma_closed_handle_never_reissued(
    d: DlView,
    instance: InstanceView,
    memory: u32,
    h: u32,
)
    requires
        d.wf(),
        h < d.next_handle,
    ensures
        spec_add(d, instance, memory).1 != Some(h),
{
}

/// A resolved symbol value is exactly the little-endian reading of the
/// shared memory at the global's offset, for the width in `{1, 4, 8}`
/// that the alignment and bounds rules choose.  (Resolution is a function
/// of the registry, the symbol and the memory, so for fixed inputs it
/// returns `None` consistently or the same value consistently.)
pub proof fn lemma_lookup_little_endian(
    ms: Seq<(u32, ModuleView)>,
    h: u32,
    symbol: Seq<u8>,
    mem: Seq<u8>,
)
    ensures
        spec_lookup(ms, h, symbol, mem) matches Some(v) ==> {
            let off = spec_symbol_offset(ms, h, symbol)->Some_0;
            let w = spec_deref_width(off, mem);
            &&& spec_symbol_offset(ms, h, symbol) is Some
            &&& (w == 1 || w == 4 || w == 8)
            &&& off + w <= mem.len()
            &&& w == 8 ==> off % 8 == 0
            &&& w == 4 ==> off % 4 == 0
            &&& v == bytes::le_value(mem.subrange(off as int, off + w as int))
        },
{
    if spec_lookup(ms, h, symbol, mem) is Some {
        let off = spec_symbol_offset(ms, h, symbol)->Some_0;
        let w = spec_deref_width(off, mem);
        bytes::lemma_le_value_bound(mem.subrange(off as int, off + w as int));
        bytes::lemma_pow256_values();
        if w == 1 {
            bytes::lemma_pow256_increases(1, 8);
        } else if w == 4 {
            bytes::lemma_pow256_increases(4, 8);
        }
    }
}

/// Registering the same instance twice yields two distinct handles, and
/// each handle independently resolves the instance's own symbols: both
/// resolve exactly as the instance itself does.
pub proof fn lemma_register_twice(
    d: DlView,
    instance: InstanceView,
    memory: u32,
    symbol: Seq<u8>,
    mem: Seq<u8>,
)
    requires
        d.wf(),
        d.next_handle < u32::MAX - 1,
    ensures
        ({
            let (d1, r1) = spec_add(d, instance, memory);
            let (d2, r2) = spec_add(d1, instance, memory);
            &&& r1 is Some
            &&& r2 is Some
            &&& r1->Some_0 != r2->Some_0
            &&& spec_lookup(d2.modules, r1->Some_0, symbol, mem) == spec_resolve(
                instance,
                symbol,
                mem,
            )
            &&& spec_lookup(d2.modules, r2->Some_0, symbol, mem) == spec_resolve(
                instance,
                symbol,
                mem,
            )
        }),
{
    let (d1, r1) = spec_add(d, instance, memory);
    let (d2, r2) = spec_add(d1, instance, memory);
    let h1 = r1->Some_0;
    let h2 = r2->Some_0;
    let e1 = (h1, ModuleView { instance, memory });
    let e2 = (h2, ModuleView { instance, memory });
    assert(forall|k: int| 0 <= k < d.modules.len() ==> (#[trigger] d.modules[k]).0 != h1);
    lemma_spec_module_push(d.modules, e1, h1);
    assert(forall|k: int| 0 <= k < d1.modules.len() ==> (#[trigger] d1.modules[k]).0 != h2);
    lemma_spec_module_push(d1.modules, e2, h1);
    lemma_spec_module_push(d1.modules, e2, h2);
    assert(spec_module(d2.modules, h1) == Some(e1.1));
    assert(spec_module(d2.modules, h2) == Some(e2.1));
}

/// Whether every registered module shares the linear memory named
/// `mid` — for a guest process, the primary instance's memory.
pub open spec fn all_share_memory(ms: Seq<(u32, ModuleView)>, mid: u32) -> bool {
    forall|i: int| 0 <= i < ms.len() ==> (#[trigger] ms[i]).1.memory == mid
}

/// The registry keeps the shared-memory invariant: when every registered
/// module shares the primary memory and a new module is registered with
/// that same memory, every registered module still shares it.
pub proof fn lemma_add_preserves_shared_memory(
    d: DlView,
    instance: InstanceView,
    mid: u32,
)
    requires
        all_share_memory(d.modules, mid),
    ensures
        all_share_memory(spec_add(d, instance, mid).0.modules, mid),
{
    let post = spec_add(d, instance, mid).0.modules;
    assert forall|i: int| 0 <= i < post.len() implies (#[trigger] post[i]).1.memory == mid by {
        if i < d.modules.len() {
            assert(post[i] == d.modules[i]);
        }
    }
}

/// What an instance resolves a symbol to on its own: its named integer
/// global's value dereferenced against the shared memory.
pub open spec fn spec_resolve(instance: InstanceView, symbol: Seq<u8>, mem: Seq<u8>) -> Option<
    u64,
> {
    match spec_global(instance.globals, symbol) {
        None => None,
        Some(GlobalValue::I32 { bits }) => spec_deref(bits as nat, mem),
        Some(GlobalValue::I64 { bits }) => spec_deref(bits as nat, mem),
        Some(GlobalValue::Other) => None,
    }
}

impl Clone for DlState {
    /// An independent registry with the same contents: the same modules,
    /// the same next handle, the same diagnostic.
    fn clone(&self) -> (r: Self)
        ensures
            r@ == self@,
    {
        let n: usize = self.modules.len();
        let mut modules: Vec<(u32, ModuleData)> = Vec::new();
        let mut i: usize = 0;
        while i < n
            invariant
                i <= n,
                n == self.modules@.len(),
                modules@.len() == i,
                forall|k: int|
                    0 <= k < i ==> (#[trigger] modules@[k]).0 == self.modules@[k].0
                        && modules@[k].1@ == self.modules@[k].1@,
            decreases n - i,
        {
            let (h, md) = &self.modules[i];
            modules.push((*h, ModuleData { instance: md.instance.duplicate(), memory: md.memory }));
            i = i + 1;
        }
        let mut last_error: Vec<u8> = Vec::new();
        let mut j: usize = 0;
        let en: usize = self.last_error.len();
        while j < en
            invariant
                j <= en,
                en == self.last_error@.len(),
                last_error@.len() == j,
                forall|k: int| 0 <= k < j ==> last_error@[k] == self.last_error@[k],
            decreases en - j,
        {
            last_error.push(self.last_error[j]);
            j = j + 1;
        }
        let r = DlState { modules, next_handle: self.next_handle, last_error };
        proof {
            assert(r@.modules =~~= self@.modules);
            assert(r@.last_error =~= self@.last_error);
            assert(r@ =~~= self@);
        }
        r
    }
}

} // verus!
