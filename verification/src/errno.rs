//! Guest errno values returned from ABI calls, and the exit codes a host
//! observes when a guest process terminates.

use vstd::prelude::*;

verus! {

/// The subset of the guest errno enumeration that the loader and the
/// execution engine return.
#[derive(Clone, Copy, Debug, PartialEq, Eq, Structural)]
pub enum Errno {
    /// The call succeeded.
    Success,
    /// An argument was invalid: a bad pointer, malformed UTF-8, a module
    /// that does not compile or instantiate, an unknown symbol.
    Inval,
    /// The host file system failed to deliver the requested file.
    Io,
    /// The operation is not supported, such as a `dlopen` flag other
    /// than `NOW`.
    Notsup,
    /// The guest cannot be executed: no `_start`, failed initialization.
    Noexec,
}

impl Errno {
    /// The wire-level code of this errno in the guest enumeration.
    pub fn code(self) -> (c: u16)
        ensures
            c == self.spec_code(),
    {
        match self {
            Errno::Success => 0,
            Errno::Inval => 28,
            Errno::Io => 29,
            Errno::Noexec => 45,
            Errno::Notsup => 58,
        }
    }

    /// The wire-level code, for use in contracts.
    pub open spec fn spec_code(self) -> u16 {
        match self {
            Errno::Success => 0,
            Errno::Inval => 28,
            Errno::Io => 29,
            Errno::Noexec => 45,
            Errno::Notsup => 58,
        }
    }

    /// The exit code a host observes when a guest leaves with this errno.
    pub fn to_exit_code(self) -> (c: ExitCode)
        ensures
            c == self.spec_to_exit_code(),
    {
        ExitCode { code: self.code() as u32 }
    }

    /// The exit code of this errno, for use in contracts.
    pub open spec fn spec_to_exit_code(self) -> ExitCode {
        ExitCode { code: self.spec_code() as u32 }
    }
}

/// The exit status of a finished guest process, surfaced to the host.
#[derive(Clone, Copy, Debug, PartialEq, Eq, Structural)]
pub struct ExitCode {
    /// The numeric status; `0` reports success.
    pub code: u32,
}

impl ExitCode {
    /// Builds an exit code from its numeric status.
    pub fn new(code: u32) -> (c: ExitCode)
        ensures
            c.code == code,
    {
        ExitCode { code }
    }

    /// Whether this exit code reports success, for use in contracts.
    pub open spec fn spec_is_success(self) -> bool {
        self.code == 0
    }

    /// Whether this exit code reports success.
    pub fn is_success(self) -> (r: bool)
        ensures
            r == self.spec_is_success(),
    {
        self.code == 0
    }
}

} // verus!
