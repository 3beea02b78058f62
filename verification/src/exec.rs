//! Bootstrap, invocation and the deep-sleep scheduler for one guest
//! task activation.
//!
//! A guest runs pinned to one host worker.  The engine work — calling
//! `_initialize`, running the bootstrap, applying a rewind, calling
//! `_start`, parking a continuation behind a trigger — happens outside;
//! this machine takes each outcome as an event and decides, with a proved
//! contract, what the host must do next: which function to call, when to
//! run the on-exit path and the recycler, how to mark the thread, and
//! what taint to report.  The recycler runs exactly once per activation,
//! at final termination, and never on descent into deep sleep.

use crate::errno::{Errno, ExitCode};
use crate::rewind::{RewindState, RewindView};
use vstd::prelude::*;

verus! {

/// A durable signal to the runtime that an abnormal condition occurred,
/// separate from the guest's own exit code.
#[derive(Clone, Copy, Debug, PartialEq, Eq, Structural)]
pub enum TaintReason {
    /// The guest exited with a non-zero code.
    NonZeroExitCode { code: u32 },
    /// The guest speaks an unknown version of the guest ABI.
    UnknownWasiVersion,
    /// The guest failed with a runtime error.
    RuntimeError,
}

/// The status cell of a guest thread, as external observers poll it.
#[derive(Clone, Copy, Debug, PartialEq, Eq)]
pub enum ThreadStatus {
    /// The guest is running, or suspended awaiting its trigger.
    Running,
    /// The guest has terminated; `Ok` carries a benign exit, `Err` an
    /// erroneous one, each with the observable exit code.
    Finished { result: Result<ExitCode, ExitCode> },
}

/// How a call to the guest's `_start` came back, after the engine's
/// error has been classified against the guest-runtime hierarchy.
#[derive(Debug)]
pub enum StartOutcome {
    /// `_start` returned normally.
    Completed,
    /// The guest unwound with an explicit exit code.
    Exit { code: u32 },
    /// The guest's thread exited; treated as a benign exit.
    ThreadExit,
    /// The guest requested deep sleep, producing a rewind payload; its
    /// trigger stays with the host.
    DeepSleep { rewind: RewindState },
    /// The guest speaks an unknown version of the guest ABI.
    UnknownWasiVersion,
    /// Any other runtime error; `exit_code` carries the code extractable
    /// from it, if any.
    RuntimeError { exit_code: Option<u32> },
}

/// The mathematical view of a `_start` outcome.
pub enum StartOutcomeView {
    /// `_start` returned normally.
    Completed,
    /// The guest unwound with an explicit exit code.
    Exit { code: u32 },
    /// The guest's thread exited.
    ThreadExit,
    /// The guest requested deep sleep.
    DeepSleep { rewind: RewindView },
    /// The guest speaks an unknown guest-ABI version.
    UnknownWasiVersion,
    /// Any other runtime error.
    RuntimeError { exit_code: Option<u32> },
}

impl View for StartOutcome {
    type V = StartOutcomeView;

    open spec fn view(&self) -> StartOutcomeView {
        match self {
            StartOutcome::Completed => StartOutcomeView::Completed,
            StartOutcome::Exit { code } => StartOutcomeView::Exit { code: *code },
            StartOutcome::ThreadExit => StartOutcomeView::ThreadExit,
            StartOutcome::DeepSleep { rewind } => StartOutcomeView::DeepSleep { rewind: rewind@ },
            StartOutcome::UnknownWasiVersion => StartOutcomeView::UnknownWasiVersion,
            StartOutcome::RuntimeError { exit_code } => StartOutcomeView::RuntimeError {
                exit_code: *exit_code,
            },
        }
    }
}

/// What a resumed guest observes as the return of the call that
/// suspended it: empty on the very first entry, the trigger's value on
/// every resumption.
#[derive(Debug)]
pub enum RewindResult {
    /// The first entry: no suspension has happened yet.
    Empty,
    /// A resumption: the value the trigger resolved with.
    Value { bytes: Vec<u8> },
}

/// The mathematical view of a rewind result.
pub enum RewindResultView {
    /// The first entry.
    Empty,
    /// A resumption with the trigger's value.
    Value { bytes: Seq<u8> },
}

impl View for RewindResult {
    type V = RewindResultView;

    open spec fn view(&self) -> RewindResultView {
        match self {
            RewindResult::Empty => RewindResultView::Empty,
            RewindResult::Value { bytes } => RewindResultView::Value { bytes: bytes@ },
        }
    }
}

/// Where one task activation stands.
#[derive(Debug)]
pub enum ExecPhase {
    /// `_initialize` has been handed to the engine.
    Initializing,
    /// The environment bootstrap has been handed to the engine.
    Bootstrapping,
    /// A rewind payload has been handed to the engine for application.
    Rewinding,
    /// `_start` has been handed to the engine.
    Started,
    /// The guest is suspended; the payload waits for the trigger.
    Sleeping { rewind: RewindState },
    /// The activation is over: terminated, or abandoned after a failed
    /// resumption scheduling.
    Done,
}

/// The mathematical view of an activation phase.
pub enum ExecPhaseView {
    /// `_initialize` has been handed to the engine.
    Initializing,
    /// The environment bootstrap has been handed to the engine.
    Bootstrapping,
    /// A rewind payload has been handed to the engine for application.
    Rewinding,
    /// `_start` has been handed to the engine.
    Started,
    /// The guest is suspended.
    Sleeping { rewind: RewindView },
    /// The activation is over.
    Done,
}

impl View for ExecPhase {
    type V = ExecPhaseView;

    open spec fn view(&self) -> ExecPhaseView {
        match self {
            ExecPhase::Initializing => ExecPhaseView::Initializing,
            ExecPhase::Bootstrapping => ExecPhaseView::Bootstrapping,
            ExecPhase::Rewinding => ExecPhaseView::Rewinding,
            ExecPhase::Started => ExecPhaseView::Started,
            ExecPhase::Sleeping { rewind } => ExecPhaseView::Sleeping { rewind: rewind@ },
            ExecPhase::Done => ExecPhaseView::Done,
        }
    }
}

/// An engine outcome handed back to the machine.
#[derive(Debug)]
pub enum ExecEvent {
    /// `_initialize` returned; `ok` is whether it succeeded.  Also the
    /// event for a module without `_initialize`, with `ok` true.
    InitializeReturned { ok: bool },
    /// The environment bootstrap returned.
    BootstrapReturned { ok: bool },
    /// The rewind payload was applied, with this errno.
    RewindApplied { errno: Errno },
    /// `_start` returned with this classified outcome.
    StartReturned { outcome: StartOutcome },
    /// The trigger resolved with this value.
    TriggerFired { value: Vec<u8> },
    /// Parking the continuation behind the trigger failed.
    ResumeScheduleFailed,
}

/// The mathematical view of an engine outcome.
pub enum ExecEventView {
    /// `_initialize` returned.
    InitializeReturned { ok: bool },
    /// The environment bootstrap returned.
    BootstrapReturned { ok: bool },
    /// The rewind payload was applied.
    RewindApplied { errno: Errno },
    /// `_start` returned.
    StartReturned { outcome: StartOutcomeView },
    /// The trigger resolved.
    TriggerFired { value: Seq<u8> },
    /// Parking the continuation failed.
    ResumeScheduleFailed,
}

impl View for ExecEvent {
    type V = ExecEventView;

    open spec fn view(&self) -> ExecEventView {
        match self {
            ExecEvent::InitializeReturned { ok } => ExecEventView::InitializeReturned { ok: *ok },
            ExecEvent::BootstrapReturned { ok } => ExecEventView::BootstrapReturned { ok: *ok },
            ExecEvent::RewindApplied { errno } => ExecEventView::RewindApplied { errno: *errno },
            ExecEvent::StartReturned { outcome } => ExecEventView::StartReturned {
                outcome: outcome@,
            },
            ExecEvent::TriggerFired { value } => ExecEventView::TriggerFired { value: value@ },
            ExecEvent::ResumeScheduleFailed => ExecEventView::ResumeScheduleFailed,
        }
    }
}

/// What the host must do next.
#[derive(Debug)]
pub enum ExecAction {
    /// Call the guest's `_initialize`.
    CallInitialize,
    /// Run the environment bootstrap on the owning thread.
    Bootstrap,
    /// Apply this rewind payload to the instance, delivering this
    /// rewind result to the call that suspended.
    ApplyRewind { rewind: RewindState, result: RewindResult },
    /// Call the guest's `_start`.
    CallStart,
    /// Park the continuation behind the guest's trigger.
    ScheduleResume,
    /// Terminate the activation: run the on-exit path with `code`,
    /// report `taint` to the runtime if any, write a one-line
    /// diagnostic to stderr if `diagnostic`, run the recycler, and mark
    /// the thread with the machine's thread status.
    Finish { code: ExitCode, taint: Option<TaintReason>, diagnostic: bool },
    /// Nothing more to do.
    Halt,
}

/// The mathematical view of a host action.
pub enum ExecActionView {
    /// Call the guest's `_initialize`.
    CallInitialize,
    /// Run the environment bootstrap.
    Bootstrap,
    /// Apply the rewind payload, delivering the rewind result.
    ApplyRewind { rewind: RewindView, result: RewindResultView },
    /// Call the guest's `_start`.
    CallStart,
    /// Park the continuation behind the trigger.
    ScheduleResume,
    /// Terminate the activation.
    Finish { code: ExitCode, taint: Option<TaintReason>, diagnostic: bool },
    /// Nothing more to do.
    Halt,
}

impl View for ExecAction {
    type V = ExecActionView;

    open spec fn view(&self) -> ExecActionView {
        match self {
            ExecAction::CallInitialize => ExecActionView::CallInitialize,
            ExecAction::Bootstrap => ExecActionView::Bootstrap,
            ExecAction::ApplyRewind { rewind, result } => ExecActionView::ApplyRewind {
                rewind: rewind@,
                result: result@,
            },
            ExecAction::CallStart => ExecActionView::CallStart,
            ExecAction::ScheduleResume => ExecActionView::ScheduleResume,
            ExecAction::Finish { code, taint, diagnostic } => ExecActionView::Finish {
                code: *code,
                taint: *taint,
                diagnostic: *diagnostic,
            },
            ExecAction::Halt => ExecActionView::Halt,
        }
    }
}

/// One guest task activation: the machine that `run_exec` and
/// `call_module` drive.
#[derive(Debug)]
pub struct ExecSession {
    /// Where the activation stands.
    pub phase: ExecPhase,
    /// The guest thread's status cell, as the machine maintains it.
    pub thread: ThreadStatus,
    /// Whether the recycler has run in this activation.
    pub recycled: bool,
    /// Whether the module exports `_initialize`.
    pub has_initialize: bool,
    /// Whether the module exports `_start`.
    pub has_start: bool,
}

/// The mathematical view of one task activation.
#[verifier::ext_equal]
pub struct ExecSessionView {
    /// Where the activation stands.
    pub phase: ExecPhaseView,
    /// The guest thread's status cell.
    pub thread: ThreadStatus,
    /// Whether the recycler has run in this activation.
    pub recycled: bool,
    /// Whether the module exports `_initialize`.
    pub has_initialize: bool,
    /// Whether the module exports `_start`.
    pub has_start: bool,
}

impl View for ExecSession {
    type V = ExecSessionView;

    open spec fn view(&self) -> ExecSessionView {
        ExecSessionView {
            phase: self.phase@,
            thread: self.thread@,
            recycled: self.recycled,
            has_initialize: self.has_initialize,
            has_start: self.has_start,
        }
    }
}

impl View for ThreadStatus {
    type V = ThreadStatus;

    open spec fn view(&self) -> ThreadStatus {
        *self
    }
}

impl ExecSessionView {
    /// The machine's invariant: before the activation is over the thread
    /// still shows `Running` and the recycler has not run.
    pub open spec fn inv(self) -> bool {
        !(self.phase is Done) ==> (self.thread is Running && !self.recycled)
    }

    /// Which events the machine accepts in its current phase.
    pub open spec fn accepts(self, ev: ExecEventView) -> bool {
        match (self.phase, ev) {
            (ExecPhaseView::Initializing, ExecEventView::InitializeReturned { .. }) => true,
            (ExecPhaseView::Bootstrapping, ExecEventView::BootstrapReturned { .. }) => true,
            (ExecPhaseView::Rewinding, ExecEventView::RewindApplied { .. }) => true,
            (ExecPhaseView::Started, ExecEventView::StartReturned { .. }) => true,
            (ExecPhaseView::Sleeping { .. }, ExecEventView::TriggerFired { .. }) => true,
            (ExecPhaseView::Sleeping { .. }, ExecEventView::ResumeScheduleFailed) => true,
            _ => false,
        }
    }
}

/// The machine after `begin`, and its first action: call `_initialize`
/// when the module exports it, else go straight to the bootstrap.
pub open spec fn spec_begin(has_initialize: bool, has_start: bool) -> (
    ExecSessionView,
    ExecActionView,
) {
    if has_initialize {
        (
            ExecSessionView {
                phase: ExecPhaseView::Initializing,
                thread: ThreadStatus::Running,
                recycled: false,
                has_initialize,
                has_start,
            },
            ExecActionView::CallInitialize,
        )
    } else {
        (
            ExecSessionView {
                phase: ExecPhaseView::Bootstrapping,
                thread: ThreadStatus::Running,
                recycled: false,
                has_initialize,
                has_start,
            },
            ExecActionView::Bootstrap,
        )
    }
}

/// The error path: run on-exit with the errno's exit code, recycle, and
/// mark the thread finished with that error.
pub open spec fn spec_fail(s: ExecSessionView, errno: Errno) -> (ExecSessionView, ExecActionView) {
    (
        ExecSessionView {
            phase: ExecPhaseView::Done,
            thread: ThreadStatus::Finished { result: Err(errno.spec_to_exit_code()) },
            recycled: true,
            ..s
        },
        ExecActionView::Finish { code: errno.spec_to_exit_code(), taint: None, diagnostic: false },
    )
}

/// The benign exit path: exit code 0, no taint, recycle, thread
/// finished `Ok`.
pub open spec fn spec_finish_ok(s: ExecSessionView) -> (ExecSessionView, ExecActionView) {
    (
        ExecSessionView {
            phase: ExecPhaseView::Done,
            thread: ThreadStatus::Finished { result: Ok(ExitCode { code: 0 }) },
            recycled: true,
            ..s
        },
        ExecActionView::Finish { code: ExitCode { code: 0 }, taint: None, diagnostic: false },
    )
}

/// The classification of a `_start` outcome, §-by-§: benign exits
/// finish with code 0; a non-zero exit taints `NonZeroExitCode` and
/// finishes with that code as an error; deep sleep parks the
/// continuation without finishing anything; an unknown guest-ABI version
/// taints and finishes with the no-exec code; any other runtime error
/// taints, finishes with its extractable code or the no-exec code, and
/// writes a diagnostic only when no code was extractable.
pub open spec fn spec_classify(s: ExecSessionView, outcome: StartOutcomeView) -> (
    ExecSessionView,
    ExecActionView,
) {
    match outcome {
        StartOutcomeView::Completed => spec_finish_ok(s),
        StartOutcomeView::ThreadExit => spec_finish_ok(s),
        StartOutcomeView::Exit { code } => {
            if code == 0 {
                spec_finish_ok(s)
            } else {
                (
                    ExecSessionView {
                        phase: ExecPhaseView::Done,
                        thread: ThreadStatus::Finished { result: Err(ExitCode { code }) },
                        recycled: true,
                        ..s
                    },
                    ExecActionView::Finish {
                        code: ExitCode { code },
                        taint: Some(TaintReason::NonZeroExitCode { code }),
                        diagnostic: false,
                    },
                )
            }
        },
        StartOutcomeView::DeepSleep { rewind } => {
            (
                ExecSessionView { phase: ExecPhaseView::Sleeping { rewind }, ..s },
                ExecActionView::ScheduleResume,
            )
        },
        StartOutcomeView::UnknownWasiVersion => {
            (
                ExecSessionView {
                    phase: ExecPhaseView::Done,
                    thread: ThreadStatus::Finished {
                        result: Ok(Errno::Noexec.spec_to_exit_code()),
                    },
                    recycled: true,
                    ..s
                },
                ExecActionView::Finish {
                    code: Errno::Noexec.spec_to_exit_code(),
                    taint: Some(TaintReason::UnknownWasiVersion),
                    diagnostic: false,
                },
            )
        },
        StartOutcomeView::RuntimeError { exit_code } => {
            let code = match exit_code {
                Some(c) => ExitCode { code: c },
                None => Errno::Noexec.spec_to_exit_code(),
            };
            (
                ExecSessionView {
                    phase: ExecPhaseView::Done,
                    thread: ThreadStatus::Finished { result: Err(code) },
                    recycled: true,
                    ..s
                },
                ExecActionView::Finish {
                    code,
                    taint: Some(TaintReason::RuntimeError),
                    diagnostic: exit_code is None,
                },
            )
        },
    }
}

/// The machine's transition: the next state and the host's next action
/// for each accepted event.
pub open spec fn spec_step(s: ExecSessionView, ev: ExecEventView) -> (
    ExecSessionView,
    ExecActionView,
) {
    match (s.phase, ev) {
        (ExecPhaseView::Initializing, ExecEventView::InitializeReturned { ok }) => {
            if ok {
                (
                    ExecSessionView { phase: ExecPhaseView::Bootstrapping, ..s },
                    ExecActionView::Bootstrap,
                )
            } else {
                spec_fail(s, Errno::Noexec)
            }
        },
        (ExecPhaseView::Bootstrapping, ExecEventView::BootstrapReturned { ok }) => {
            if ok && s.has_start {
                (ExecSessionView { phase: ExecPhaseView::Started, ..s }, ExecActionView::CallStart)
            } else {
                spec_fail(s, Errno::Noexec)
            }
        },
        (ExecPhaseView::Rewinding, ExecEventView::RewindApplied { errno }) => {
            if errno is Success && s.has_start {
                (ExecSessionView { phase: ExecPhaseView::Started, ..s }, ExecActionView::CallStart)
            } else if errno is Success {
                spec_fail(s, Errno::Noexec)
            } else {
                spec_fail(s, errno)
            }
        },
        (ExecPhaseView::Started, ExecEventView::StartReturned { outcome }) => spec_classify(
            s,
            outcome,
        ),
        (ExecPhaseView::Sleeping { rewind }, ExecEventView::TriggerFired { value }) => {
            (
                ExecSessionView { phase: ExecPhaseView::Rewinding, ..s },
                ExecActionView::ApplyRewind {
                    rewind,
                    result: RewindResultView::Value { bytes: value },
                },
            )
        },
        (ExecPhaseView::Sleeping { .. }, ExecEventView::ResumeScheduleFailed) => {
            (ExecSessionView { phase: ExecPhaseView::Done, ..s }, ExecActionView::Halt)
        },
        _ => (s, ExecActionView::Halt),
    }
}

/// Starts one task activation for a module with the given well-known
/// exports, returning the machine and the host's first action: call
/// `_initialize` when the module exports it, else run the bootstrap.
/// The returned machine takes each engine outcome from there.
pub fn run_exec(has_initialize: bool, has_start: bool) -> (r: (ExecSession, ExecAction))
    ensures
        (r.0@, r.1@) == spec_begin(has_initialize, has_start),
        r.0@.inv(),
{
    if has_initialize {
        (
            ExecSession {
                phase: ExecPhase::Initializing,
                thread: ThreadStatus::Running,
                recycled: false,
                has_initialize,
                has_start,
            },
            ExecAction::CallInitialize,
        )
    } else {
        (
            ExecSession {
                phase: ExecPhase::Bootstrapping,
                thread: ThreadStatus::Running,
                recycled: false,
                has_initialize,
                has_start,
            },
            ExecAction::Bootstrap,
        )
    }
}

impl ExecSession {
    /// Feeds one engine outcome to the machine and returns what the host
    /// must do next.
    pub fn step(&mut self, ev: ExecEvent) -> (a: ExecAction)
        requires
            old(self)@.inv(),
            old(self)@.accepts(ev@),
        ensures
            (final(self)@, a@) == spec_step(old(self)@, ev@),
            final(self)@.inv(),
    {
        let ghost pre = self@;
        let ghost evv = ev@;
        let mut phase = ExecPhase::Done;
        core::mem::swap(&mut phase, &mut self.phase);
        let action: ExecAction = match (phase, ev) {
            (ExecPhase::Initializing, ExecEvent::InitializeReturned { ok }) => {
                if ok {
                    self.phase = ExecPhase::Bootstrapping;
                    ExecAction::Bootstrap
                } else {
                    self.fail(Errno::Noexec)
                }
            },
            (ExecPhase::Bootstrapping, ExecEvent::BootstrapReturned { ok }) => {
                if ok && self.has_start {
                    self.phase = ExecPhase::Started;
                    ExecAction::CallStart
                } else {
                    self.fail(Errno::Noexec)
                }
            },
            (ExecPhase::Rewinding, ExecEvent::RewindApplied { errno }) => {
                if matches!(errno, Errno::Success) {
                    if self.has_start {
                        self.phase = ExecPhase::Started;
                        ExecAction::CallStart
                    } else {
                        self.fail(Errno::Noexec)
                    }
                } else {
                    self.fail(errno)
                }
            },
            (ExecPhase::Started, ExecEvent::StartReturned { outcome }) => {
                match outcome {
                    StartOutcome::Completed => self.finish_ok(),
                    StartOutcome::ThreadExit => self.finish_ok(),
                    StartOutcome::Exit { code } => {
                        if code == 0 {
                            self.finish_ok()
                        } else {
                            self.phase = ExecPhase::Done;
                            self.thread = ThreadStatus::Finished {
                                result: Err(ExitCode { code }),
                            };
                            self.recycled = true;
                            ExecAction::Finish {
                                code: ExitCode { code },
                                taint: Some(TaintReason::NonZeroExitCode { code }),
                                diagnostic: false,
                            }
                        }
                    },
                    StartOutcome::DeepSleep { rewind } => {
                        self.phase = ExecPhase::Sleeping { rewind };
                        ExecAction::ScheduleResume
                    },
                    StartOutcome::UnknownWasiVersion => {
                        self.phase = ExecPhase::Done;
                        self.thread = ThreadStatus::Finished {
                            result: Ok(Errno::Noexec.to_exit_code()),
                        };
                        self.recycled = true;
                        ExecAction::Finish {
                            code: Errno::Noexec.to_exit_code(),
                            taint: Some(TaintReason::UnknownWasiVersion),
                            diagnostic: false,
                        }
                    },
                    StartOutcome::RuntimeError { exit_code } => {
                        let code = match exit_code {
                            Some(c) => ExitCode { code: c },
                            None => Errno::Noexec.to_exit_code(),
                        };
                        let diagnostic = matches!(exit_code, None);
                        self.phase = ExecPhase::Done;
                        self.thread = ThreadStatus::Finished { result: Err(code) };
                        self.recycled = true;
                        ExecAction::Finish {
                            code,
                            taint: Some(TaintReason::RuntimeError),
                            diagnostic,
                        }
                    },
                }
            },
            (ExecPhase::Sleeping { rewind }, ExecEvent::TriggerFired { value }) => {
                self.phase = ExecPhase::Rewinding;
                ExecAction::ApplyRewind { rewind, result: RewindResult::Value { bytes: value } }
            },
            (ExecPhase::Sleeping { rewind: _ }, ExecEvent::ResumeScheduleFailed) => {
                self.phase = ExecPhase::Done;
                ExecAction::Halt
            },
            (_, _) => ExecAction::Halt,
        };
        proof {
            assert((self@, action@) =~~= spec_step(pre, evv));
        }
        action
    }

    /// The thread status the machine maintains; the host mirrors it into
    /// the real status cell when it performs a `Finish` action.
    pub fn thread_status(&self) -> (r: ThreadStatus)
        ensures
            r == self@.thread,
    {
        self.thread
    }

    fn fail(&mut self, errno: Errno) -> (a: ExecAction)
        ensures
            final(self)@ == (ExecSessionView {
                phase: ExecPhaseView::Done,
                thread: ThreadStatus::Finished { result: Err(errno.spec_to_exit_code()) },
                recycled: true,
                ..old(self)@
            }),
            a@ == (ExecActionView::Finish {
                code: errno.spec_to_exit_code(),
                taint: None,
                diagnostic: false,
            }),
    {
        self.phase = ExecPhase::Done;
        self.thread = ThreadStatus::Finished { result: Err(errno.to_exit_code()) };
        self.recycled = true;
        proof {
            assert(self@ =~~= (ExecSessionView {
                phase: ExecPhaseView::Done,
                thread: ThreadStatus::Finished { result: Err(errno.spec_to_exit_code()) },
                recycled: true,
                ..old(self)@
            }));
        }
        ExecAction::Finish { code: errno.to_exit_code(), taint: None, diagnostic: false }
    }

    fn finish_ok(&mut self) -> (a: ExecAction)
        ensures
            final(self)@ == (ExecSessionView {
                phase: ExecPhaseView::Done,
                thread: ThreadStatus::Finished { result: Ok(ExitCode { code: 0 }) },
                recycled: true,
                ..old(self)@
            }),
            a@ == (ExecActionView::Finish {
                code: ExitCode { code: 0 },
                taint: None,
                diagnostic: false,
            }),
    {
        self.phase = ExecPhase::Done;
        self.thread = ThreadStatus::Finished { result: Ok(ExitCode { code: 0 }) };
        self.recycled = true;
        proof {
            assert(self@ =~~= (ExecSessionView {
                phase: ExecPhaseView::Done,
                thread: ThreadStatus::Finished { result: Ok(ExitCode { code: 0 }) },
                recycled: true,
                ..old(self)@
            }));
        }
        ExecAction::Finish { code: ExitCode { code: 0 }, taint: None, diagnostic: false }
    }
}

/// For a guest whose `_start` returns normally, the activation ends with
/// the thread `Finished(Ok(success))` and the recycler runs exactly
/// once: it had not run before, and the one `Finish` action runs it.
pub proof fn lemma_start_ok_recycles_once(s: ExecSessionView)
    requires
        s.inv(),
        s.phase is Started,
    ensures
        ({
            let (s2, a) = spec_step(
                s,
                ExecEventView::StartReturned { outcome: StartOutcomeView::Completed },
            );
            &&& !s.recycled
            &&& s2.recycled
            &&& s2.phase is Done
            &&& s2.thread == (ThreadStatus::Finished { result: Ok(ExitCode { code: 0 }) })
            &&& a == (ExecActionView::Finish {
                code: ExitCode { code: 0 },
                taint: None,
                diagnostic: false,
            })
        }),
{
}

/// For a guest that enters deep sleep, the recycler runs exactly once
/// across the suspension/resumption pair: not on suspension, not on the
/// trigger, not on the rewind, and exactly once when the resumed guest
/// finally terminates.
pub proof fn lemma_deep_sleep_recycles_once(
    s: ExecSessionView,
    rewind: RewindView,
    value: Seq<u8>,
    outcome: StartOutcomeView,
)
    requires
        s.inv(),
        s.phase is Started,
        s.has_start,
        !(outcome is DeepSleep),
    ensures
        ({
            let (s1, a1) = spec_step(
                s,
                ExecEventView::StartReturned {
                    outcome: StartOutcomeView::DeepSleep { rewind },
                },
            );
            let (s2, a2) = spec_step(s1, ExecEventView::TriggerFired { value });
            let (s3, a3) = spec_step(
                s2,
                ExecEventView::RewindApplied { errno: Errno::Success },
            );
            let (s4, a4) = spec_step(s3, ExecEventView::StartReturned { outcome });
            &&& !s1.recycled && s1.thread is Running && a1 == ExecActionView::ScheduleResume
            &&& !s2.recycled && s2.thread is Running && a2 == (ExecActionView::ApplyRewind {
                rewind,
                result: RewindResultView::Value { bytes: value },
            })
            &&& !s3.recycled && s3.thread is Running && a3 == ExecActionView::CallStart
            &&& s4.recycled && s4.phase is Done && a4 is Finish
        }),
{
}

} // verus!
