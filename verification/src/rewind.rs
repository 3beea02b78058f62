//! The rewind payload of the deep-sleep protocol, and its application to
//! a guest's stack state.
//!
//! When a guest requests deep sleep it produces a rewind payload: a
//! snapshot of its memory stack, its rewind-stack region, store-side data
//! captured at suspension, and its address width.  Resumption applies the
//! payload back onto the instance's stack state; a payload is valid only
//! for the address width of the module that produced it.

use crate::bytes;
use crate::errno::Errno;
use vstd::prelude::*;

verus! {

/// The payload that describes how to resume a suspended guest.
#[derive(Debug)]
pub struct RewindState {
    /// The guest-visible stack bytes captured at suspension.
    pub memory_stack: Vec<u8>,
    /// The rewind-stack region captured at suspension.
    pub rewind_stack: Vec<u8>,
    /// Store-side data captured at suspension.
    pub store_data: Vec<u8>,
    /// Whether the guest uses 64-bit addresses.
    pub is_64bit: bool,
}

/// The mathematical view of a rewind payload.
#[verifier::ext_equal]
pub struct RewindView {
    /// The guest-visible stack bytes captured at suspension.
    pub memory_stack: Seq<u8>,
    /// The rewind-stack region captured at suspension.
    pub rewind_stack: Seq<u8>,
    /// Store-side data captured at suspension.
    pub store_data: Seq<u8>,
    /// Whether the guest uses 64-bit addresses.
    pub is_64bit: bool,
}

impl View for RewindState {
    type V = RewindView;

    open spec fn view(&self) -> RewindView {
        RewindView {
            memory_stack: self.memory_stack@,
            rewind_stack: self.rewind_stack@,
            store_data: self.store_data@,
            is_64bit: self.is_64bit,
        }
    }
}

/// The stack state of a live instance, as the rewind protocol touches it.
#[derive(Debug)]
pub struct GuestStacks {
    /// The guest-visible stack bytes.
    pub memory_stack: Vec<u8>,
    /// The rewind-stack region.
    pub rewind_stack: Vec<u8>,
    /// Store-side data.
    pub store_data: Vec<u8>,
    /// Whether the instance uses 64-bit addresses; fixed by its module.
    pub is_64bit: bool,
}

/// The mathematical view of an instance's stack state.
#[verifier::ext_equal]
pub struct StacksView {
    /// The guest-visible stack bytes.
    pub memory_stack: Seq<u8>,
    /// The rewind-stack region.
    pub rewind_stack: Seq<u8>,
    /// Store-side data.
    pub store_data: Seq<u8>,
    /// Whether the instance uses 64-bit addresses.
    pub is_64bit: bool,
}

impl View for GuestStacks {
    type V = StacksView;

    open spec fn view(&self) -> StacksView {
        StacksView {
            memory_stack: self.memory_stack@,
            rewind_stack: self.rewind_stack@,
            store_data: self.store_data@,
            is_64bit: self.is_64bit,
        }
    }
}

/// What applying a rewind payload does to the stack state: when the
/// payload's address width matches the instance's, the captured regions
/// replace the live ones and the result is `Success`; otherwise nothing
/// changes and the result is `Inval`.
pub open spec fn spec_apply_rewind(t: StacksView, r: RewindView) -> (StacksView, Errno) {
    if r.is_64bit == t.is_64bit {
        (
            StacksView {
                memory_stack: r.memory_stack,
                rewind_stack: r.rewind_stack,
                store_data: r.store_data,
                is_64bit: t.is_64bit,
            },
            Errno::Success,
        )
    } else {
        (t, Errno::Inval)
    }
}

/// What capturing the stack state yields: a payload holding the live
/// regions and the instance's address width.
pub open spec fn spec_capture_rewind(t: StacksView) -> RewindView {
    RewindView {
        memory_stack: t.memory_stack,
        rewind_stack: t.rewind_stack,
        store_data: t.store_data,
        is_64bit: t.is_64bit,
    }
}

/// Applies the rewind payload `r` onto the stack state `t`, dispatching
/// on the address width.  A payload for the other width is rejected with
/// `Inval`, leaving the state untouched.
pub fn apply_rewind(t: &mut GuestStacks, r: RewindState) -> (e: Errno)
    ensures
        (final(t)@, e) == spec_apply_rewind(old(t)@, r@),
{
    if r.is_64bit == t.is_64bit {
        t.memory_stack = r.memory_stack;
        t.rewind_stack = r.rewind_stack;
        t.store_data = r.store_data;
        proof {
            assert(t@ =~= spec_apply_rewind(old(t)@, r@).0);
        }
        Errno::Success
    } else {
        proof {
            assert(t@ =~= spec_apply_rewind(old(t)@, r@).0);
        }
        Errno::Inval
    }
}

/// Captures the stack state `t` as a rewind payload.
pub fn capture_rewind(t: &GuestStacks) -> (r: RewindState)
    ensures
        r@ == spec_capture_rewind(t@),
{
    let r = RewindState {
        memory_stack: bytes::clone_bytes(&t.memory_stack),
        rewind_stack: bytes::clone_bytes(&t.rewind_stack),
        store_data: bytes::clone_bytes(&t.store_data),
        is_64bit: t.is_64bit,
    };
    proof {
        assert(r@ =~= spec_capture_rewind(t@));
    }
    r
}

/// Rewind round trip: applying a captured payload and immediately
/// re-capturing yields an equivalent payload, for any payload whose
/// address width matches the instance's.
pub proof fn lemma_rewind_round_trip(t: StacksView, r: RewindView)
    requires
        r.is_64bit == t.is_64bit,
    ensures
        spec_apply_rewind(t, r).1 == Errno::Success,
        spec_capture_rewind(spec_apply_rewind(t, r).0) == r,
{
    assert(spec_capture_rewind(spec_apply_rewind(t, r).0) =~= r);
}

} // verus!
