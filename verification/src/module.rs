//! What the loader reads from a live module instance.
//!
//! An instance itself lives in the engine; the loader's decisions depend
//! only on a few of its exports: the values of its exported globals, and
//! whether the entry, initialization, constructor and destructor functions
//! are exported.  This module holds exactly that view as plain values.

use crate::bytes;
use vstd::prelude::*;

verus! {

/// The value of an exported global, as symbol resolution sees it.
#[derive(Clone, Copy, Debug, PartialEq, Eq, Structural)]
pub enum GlobalValue {
    /// A 32-bit integer global; `bits` holds its raw pattern.
    I32 { bits: u32 },
    /// A 64-bit integer global; `bits` holds its raw pattern.
    I64 { bits: u64 },
    /// A global of any non-integer type; symbol resolution rejects it.
    Other,
}

/// The exports of one instance that the loader and the scheduler read:
/// its globals by name, and which of the well-known functions it exports.
#[derive(Debug)]
pub struct InstanceInfo {
    /// The exported globals, as `(name, value)` pairs.  A name that occurs
    /// twice resolves to its first occurrence.
    pub globals: Vec<(Vec<u8>, GlobalValue)>,
    /// Whether the instance exports the entry function `_start`.
    pub has_start: bool,
    /// Whether the instance exports `_initialize`.
    pub has_initialize: bool,
    /// Whether the instance exports `__wasm_call_ctors`.
    pub has_ctors: bool,
    /// Whether the instance exports `__wasm_call_dtors`.
    pub has_dtors: bool,
}

/// The mathematical view of an instance's exports.
#[verifier::ext_equal]
pub struct InstanceView {
    /// The exported globals, names as byte sequences.
    pub globals: Seq<(Seq<u8>, GlobalValue)>,
    /// Whether the instance exports the entry function `_start`.
    pub has_start: bool,
    /// Whether the instance exports `_initialize`.
    pub has_initialize: bool,
    /// Whether the instance exports `__wasm_call_ctors`.
    pub has_ctors: bool,
    /// Whether the instance exports `__wasm_call_dtors`.
    pub has_dtors: bool,
}

impl View for InstanceInfo {
    type V = InstanceView;

    open spec fn view(&self) -> InstanceView {
        InstanceView {
            globals: Seq::new(
                self.globals@.len(),
                |i: int| (self.globals@[i].0@, self.globals@[i].1),
            ),
            has_start: self.has_start,
            has_initialize: self.has_initialize,
            has_ctors: self.has_ctors,
            has_dtors: self.has_dtors,
        }
    }
}

/// The first global named `name` among `gs`, front to back.
pub open spec fn spec_global(gs: Seq<(Seq<u8>, GlobalValue)>, name: Seq<u8>) -> Option<GlobalValue>
    decreases gs.len(),
{
    if gs.len() == 0 {
        None
    } else if gs[0].0 == name {
        Some(gs[0].1)
    } else {
        spec_global(gs.drop_first(), name)
    }
}

impl InstanceInfo {
    /// An instance view with no globals and none of the well-known
    /// functions exported.
    pub fn empty() -> (r: InstanceInfo)
        ensures
            r@.globals.len() == 0,
            !r@.has_start,
            !r@.has_initialize,
            !r@.has_ctors,
            !r@.has_dtors,
    {
        InstanceInfo {
            globals: Vec::new(),
            has_start: false,
            has_initialize: false,
            has_ctors: false,
            has_dtors: false,
        }
    }

    /// The value of the exported global named `name`, or `None` when the
    /// instance exports no global of that name.
    pub fn get_global(&self, name: &[u8]) -> (g: Option<GlobalValue>)
        ensures
            g == spec_global(self@.globals, name@),
    {
        let n: usize = self.globals.len();
        let mut i: usize = 0;
        proof {
            assert(self@.globals.skip(0) =~= self@.globals);
        }
        while i < n
            invariant
                i <= n,
                n == self.globals@.len(),
                self@.globals.len() == n,
                spec_global(self@.globals, name@) == spec_global(self@.globals.skip(i as int), name@),
            decreases n - i,
        {
            proof {
                assert(self@.globals.skip(i as int)[0] == self@.globals[i as int]);
                assert(self@.globals.skip(i as int).drop_first() =~= self@.globals.skip(i + 1));
            }
            if bytes::bytes_eq(self.globals[i].0.as_slice(), name) {
                return Some(self.globals[i].1);
            }
            i = i + 1;
        }
        None
    }

    /// A copy of this instance view with the same globals and flags.
    pub fn duplicate(&self) -> (r: InstanceInfo)
        ensures
            r@ == self@,
    {
        let n: usize = self.globals.len();
        let mut globals: Vec<(Vec<u8>, GlobalValue)> = Vec::new();
        let mut i: usize = 0;
        while i < n
            invariant
                i <= n,
                n == self.globals@.len(),
                globals@.len() == i,
                forall|k: int|
                    0 <= k < i ==> (#[trigger] globals@[k]).0@ == self.globals@[k].0@
                        && globals@[k].1 == self.globals@[k].1,
            decreases n - i,
        {
            let (name, value) = &self.globals[i];
            let mut name_copy: Vec<u8> = Vec::new();
            let mut j: usize = 0;
            let ln: usize = name.len();
            while j < ln
                invariant
                    j <= ln,
                    ln == name@.len(),
                    name_copy@.len() == j,
                    forall|k: int| 0 <= k < j ==> name_copy@[k] == name@[k],
                decreases ln - j,
            {
                name_copy.push(name[j]);
                j = j + 1;
            }
            proof {
                assert(name_copy@ =~= name@);
            }
            globals.push((name_copy, *value));
            i = i + 1;
        }
        let r = InstanceInfo {
            globals,
            has_start: self.has_start,
            has_initialize: self.has_initialize,
            has_ctors: self.has_ctors,
            has_dtors: self.has_dtors,
        };
        proof {
            assert(r@.globals =~~= self@.globals);
            assert(r@ =~~= self@);
        }
        r
    }
}

/// One registered module: its instance view and the linear memory it
/// shares with the process's primary instance, named by the host's
/// memory identifier.
#[derive(Debug)]
pub struct ModuleData {
    /// The instance's exports, as the loader reads them.
    pub instance: InstanceInfo,
    /// The identifier of the linear memory the instance was given.
    pub memory: u32,
}

/// The mathematical view of one registered module.
#[verifier::ext_equal]
pub struct ModuleView {
    /// The instance's exports.
    pub instance: InstanceView,
    /// The identifier of the linear memory the instance was given.
    pub memory: u32,
}

impl View for ModuleData {
    type V = ModuleView;

    open spec fn view(&self) -> ModuleView {
        ModuleView { instance: self.instance@, memory: self.memory }
    }
}

/// An engine-side compiled module, named by the host's identifier.
/// Compilation itself happens in the engine; the core only passes the
/// token between the steps of a load.
#[derive(Clone, Copy, Debug, PartialEq, Eq, Structural)]
pub struct CompiledModule {
    /// The host's identifier for the compiled code.
    pub id: u64,
}

} // verus!
