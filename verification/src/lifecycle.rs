//! The life of the receiving process, from binding its listener to exit.
//!
//! The manager is told what happens (the listener is bound, a connection
//! is accepted, every secret has arrived, a fatal error, a request to
//! terminate) and says what to do next. Shutdown always runs in one order:
//! stop accepting, let the handlers finish or cancel them, remove what the
//! listener left in the file system, exit.

use vstd::prelude::*;

verus! {

/// Why the process is shutting down.
#[derive(Clone, Copy, Debug, PartialEq, Eq, Structural)]
pub enum StopReason {
    /// Every secret has been received.
    Completed,
    /// The transport failed.
    Fatal,
    /// Termination was requested from outside.
    Terminated,
}

/// How far the run has come.
#[derive(Clone, Copy, Debug, PartialEq, Eq, Structural)]
pub enum RunPhase {
    /// The listener is not bound yet.
    Starting,
    /// Connections are accepted.
    Running,
    /// No connection is accepted any more.
    Stopping { reason: StopReason },
}

/// What the listener left in the file system.
#[derive(Clone, Copy, Debug, PartialEq, Eq, Structural)]
pub enum ArtifactState {
    /// Nothing: not bound yet, or the transport leaves nothing.
    Absent,
    /// The bound socket's file exists.
    Present,
    /// The file has been removed.
    Removed,
    /// Removing the file failed.
    Stuck,
}

/// What the manager is told.
#[derive(Clone, Copy, Debug, PartialEq, Eq, Structural)]
pub enum Signal {
    /// The listener is bound.
    Bound { leaves_artifact: bool },
    /// Binding failed.
    BindFailed,
    /// A connection was accepted and a handler started for it.
    Accepted,
    /// A handler has ended.
    HandlerFinished,
    /// Every secret has been received.
    AllReceived,
    /// The transport failed.
    Fatal,
    /// Termination was requested from outside.
    Terminate,
    /// The grace period for running handlers has passed.
    GraceExpired,
    /// The listener has closed its descriptor.
    ListenerClosed,
    /// The bound socket's file has been removed.
    ArtifactRemoved,
    /// Removing the bound socket's file failed.
    RemovalFailed,
}

/// What is to be done next.
#[derive(Clone, Copy, Debug, PartialEq, Eq, Structural)]
pub enum Directive {
    /// Bind the listener.
    Bind,
    /// Accept connections and start a handler for each.
    Serve,
    /// Stop accepting and close the listener.
    CloseListener,
    /// Wait for the running handlers, no longer than the grace period.
    AwaitHandlers,
    /// Cancel the running handlers.
    CancelHandlers,
    /// Remove the bound socket's file.
    RemoveArtifact,
    /// Leave with this exit code.
    Exit { code: u8 },
}

/// The run as contracts see it.
pub struct Lifecycle {
    pub phase: RunPhase,
    pub listener_open: bool,
    pub artifact: ArtifactState,
    pub handlers: usize,
    pub cancelling: bool,
}

/// A run that has not bound its listener.
pub open spec fn initial() -> Lifecycle {
    Lifecycle {
        phase: RunPhase::Starting,
        listener_open: false,
        artifact: ArtifactState::Absent,
        handlers: 0,
        cancelling: false,
    }
}

/// The reason that stands after another request to stop: success gives
/// way to any failure, and the first failure stays.
pub open spec fn escalate(current: StopReason, new: StopReason) -> StopReason {
    if current == StopReason::Completed {
        new
    } else {
        current
    }
}

/// The run after a signal. A signal that means nothing in the current
/// phase changes nothing.
pub open spec fn step(s: Lifecycle, signal: Signal) -> Lifecycle {
    match s.phase {
        RunPhase::Starting => match signal {
            Signal::Bound { leaves_artifact } => Lifecycle {
                phase: RunPhase::Running,
                listener_open: true,
                artifact: if leaves_artifact {
                    ArtifactState::Present
                } else {
                    ArtifactState::Absent
                },
                ..s
            },
            Signal::BindFailed => Lifecycle {
                phase: RunPhase::Stopping { reason: StopReason::Fatal },
                ..s
            },
            Signal::Fatal => Lifecycle { phase: RunPhase::Stopping { reason: StopReason::Fatal }, ..s },
            Signal::Terminate => Lifecycle {
                phase: RunPhase::Stopping { reason: StopReason::Terminated },
                ..s
            },
            _ => s,
        },
        RunPhase::Running => match signal {
            Signal::Accepted => if s.handlers < usize::MAX {
                Lifecycle { handlers: (s.handlers + 1) as usize, ..s }
            } else {
                s
            },
            Signal::HandlerFinished => if s.handlers > 0 {
                Lifecycle { handlers: (s.handlers - 1) as usize, ..s }
            } else {
                s
            },
            Signal::AllReceived => Lifecycle {
                phase: RunPhase::Stopping { reason: StopReason::Completed },
                ..s
            },
            Signal::Fatal => Lifecycle {
                phase: RunPhase::Stopping { reason: StopReason::Fatal },
                cancelling: true,
                ..s
            },
            Signal::Terminate => Lifecycle {
                phase: RunPhase::Stopping { reason: StopReason::Terminated },
                cancelling: true,
                ..s
            },
            _ => s,
        },
        RunPhase::Stopping { reason } => match signal {
            Signal::ListenerClosed => Lifecycle { listener_open: false, ..s },
            Signal::HandlerFinished => if s.handlers > 0 {
                Lifecycle { handlers: (s.handlers - 1) as usize, ..s }
            } else {
                s
            },
            Signal::GraceExpired => Lifecycle { cancelling: true, ..s },
            Signal::Fatal => Lifecycle {
                phase: RunPhase::Stopping { reason: escalate(reason, StopReason::Fatal) },
                cancelling: true,
                ..s
            },
            Signal::Terminate => Lifecycle {
                phase: RunPhase::Stopping { reason: escalate(reason, StopReason::Terminated) },
                cancelling: true,
                ..s
            },
            Signal::ArtifactRemoved => if s.artifact == ArtifactState::Present && !s.listener_open {
                Lifecycle { artifact: ArtifactState::Removed, ..s }
            } else {
                s
            },
            Signal::RemovalFailed => if s.artifact == ArtifactState::Present && !s.listener_open {
                Lifecycle { artifact: ArtifactState::Stuck, ..s }
            } else {
                s
            },
            _ => s,
        },
    }
}

/// The exit code of a run that stops for `reason`: zero only for a run
/// that received everything and cleaned up.
pub open spec fn exit_code(reason: StopReason, artifact: ArtifactState) -> u8 {
    if reason == StopReason::Completed && artifact != ArtifactState::Stuck {
        0
    } else {
        1
    }
}

/// What is to be done in the current state.
pub open spec fn directive_of(s: Lifecycle) -> Directive {
    match s.phase {
        RunPhase::Starting => Directive::Bind,
        RunPhase::Running => Directive::Serve,
        RunPhase::Stopping { reason } => if s.listener_open {
            Directive::CloseListener
        } else if s.handlers > 0 {
            if s.cancelling {
                Directive::CancelHandlers
            } else {
                Directive::AwaitHandlers
            }
        } else if s.artifact == ArtifactState::Present {
            Directive::RemoveArtifact
        } else {
            Directive::Exit { code: exit_code(reason, s.artifact) }
        },
    }
}

/// The run after a sequence of signals.
pub open spec fn run(s: Lifecycle, signals: Seq<Signal>) -> Lifecycle
    decreases signals.len(),
{
    if signals.len() == 0 {
        s
    } else {
        step(run(s, signals.drop_last()), signals.last())
    }
}

/// What holds of every state a run can reach.
pub open spec fn sane(s: Lifecycle) -> bool {
    &&& s.phase is Starting ==> !s.listener_open && s.artifact == ArtifactState::Absent
        && s.handlers == 0
    &&& s.phase is Running ==> s.listener_open && (s.artifact == ArtifactState::Present
        || s.artifact == ArtifactState::Absent)
    &&& (s.artifact == ArtifactState::Removed || s.artifact == ArtifactState::Stuck) ==> s.phase is Stopping
        && !s.listener_open
    &&& s.listener_open ==> !(s.phase is Starting)
}

/// Owns the shutdown of the receiving process and the removal of what its
/// listener left in the file system.
#[derive(Debug)]
pub struct LifecycleManager {
    phase: RunPhase,
    listener_open: bool,
    artifact: ArtifactState,
    handlers: usize,
    cancelling: bool,
}

impl View for LifecycleManager {
    type V = Lifecycle;

    closed spec fn view(&self) -> Lifecycle {
        Lifecycle {
            phase: self.phase,
            listener_open: self.listener_open,
            artifact: self.artifact,
            handlers: self.handlers,
            cancelling: self.cancelling,
        }
    }
}

impl LifecycleManager {
    /// A manager for a run that has not bound its listener.
    pub fn new() -> (manager: LifecycleManager)
        ensures
            manager@ == initial(),
    {
        LifecycleManager {
            phase: RunPhase::Starting,
            listener_open: false,
            artifact: ArtifactState::Absent,
            handlers: 0,
            cancelling: false,
        }
    }

    /// How far the run has come.
    pub fn phase(&self) -> (phase: RunPhase)
        ensures
            phase == self@.phase,
    {
        self.phase
    }

    /// What the listener left in the file system.
    pub fn artifact(&self) -> (artifact: ArtifactState)
        ensures
            artifact == self@.artifact,
    {
        self.artifact
    }

    /// The number of handlers that are running.
    pub fn handlers(&self) -> (count: usize)
        ensures
            count == self@.handlers,
    {
        self.handlers
    }

    /// Whether a connection that arrives now is served.
    pub fn accepting(&self) -> (serving: bool)
        ensures
            serving == (self@.phase is Running),
            serving == (directive_of(self@) == Directive::Serve),
    {
        match self.phase {
            RunPhase::Running => true,
            _ => false,
        }
    }

    /// What is to be done next.
    pub fn directive(&self) -> (directive: Directive)
        ensures
            directive == directive_of(self@),
    {
        match self.phase {
            RunPhase::Starting => Directive::Bind,
            RunPhase::Running => Directive::Serve,
            RunPhase::Stopping { reason } => {
                if self.listener_open {
                    Directive::CloseListener
                } else if self.handlers > 0 {
                    if self.cancelling {
                        Directive::CancelHandlers
                    } else {
                        Directive::AwaitHandlers
                    }
                } else {
                    match self.artifact {
                        ArtifactState::Present => Directive::RemoveArtifact,
                        ArtifactState::Stuck => Directive::Exit { code: 1 },
                        _ => match reason {
                            StopReason::Completed => Directive::Exit { code: 0 },
                            _ => Directive::Exit { code: 1 },
                        },
                    }
                }
            },
        }
    }

    fn finish_handler(&mut self)
        ensures
            final(self)@ == (if old(self)@.handlers > 0 {
                Lifecycle { handlers: (old(self)@.handlers - 1) as usize, ..old(self)@ }
            } else {
                old(self)@
            }),
    {
        if self.handlers > 0 {
            self.handlers = self.handlers - 1;
        }
    }

    fn stop(&mut self, reason: StopReason, cancelling: bool)
        ensures
            final(self)@ == (Lifecycle {
                phase: RunPhase::Stopping { reason },
                cancelling: old(self)@.cancelling || cancelling,
                ..old(self)@
            }),
    {
        self.phase = RunPhase::Stopping { reason };
        if cancelling {
            self.cancelling = true;
        }
    }

    /// Takes a signal and says what is to be done next.
    pub fn on_signal(&mut self, signal: Signal) -> (directive: Directive)
        ensures
            final(self)@ == step(old(self)@, signal),
            directive == directive_of(final(self)@),
    {
        match self.phase {
            RunPhase::Starting => match signal {
                Signal::Bound { leaves_artifact } => {
                    self.phase = RunPhase::Running;
                    self.listener_open = true;
                    self.artifact = if leaves_artifact {
                        ArtifactState::Present
                    } else {
                        ArtifactState::Absent
                    };
                },
                Signal::BindFailed => {
                    self.stop(StopReason::Fatal, false);
                },
                Signal::Fatal => {
                    self.stop(StopReason::Fatal, false);
                },
                Signal::Terminate => {
                    self.stop(StopReason::Terminated, false);
                },
                _ => {},
            },
            RunPhase::Running => match signal {
                Signal::Accepted => {
                    if self.handlers < usize::MAX {
                        self.handlers = self.handlers + 1;
                    }
                },
                Signal::HandlerFinished => {
                    self.finish_handler();
                },
                Signal::AllReceived => {
                    self.stop(StopReason::Completed, false);
                },
                Signal::Fatal => {
                    self.stop(StopReason::Fatal, true);
                },
                Signal::Terminate => {
                    self.stop(StopReason::Terminated, true);
                },
                _ => {},
            },
            RunPhase::Stopping { reason } => match signal {
                Signal::ListenerClosed => {
                    self.listener_open = false;
                },
                Signal::HandlerFinished => {
                    self.finish_handler();
                },
                Signal::GraceExpired => {
                    self.cancelling = true;
                },
                Signal::Fatal => {
                    let next = match reason {
                        StopReason::Completed => StopReason::Fatal,
                        other => other,
                    };
                    self.stop(next, true);
                },
                Signal::Terminate => {
                    let next = match reason {
                        StopReason::Completed => StopReason::Terminated,
                        other => other,
                    };
                    self.stop(next, true);
                },
                Signal::ArtifactRemoved => {
                    match self.artifact {
                        ArtifactState::Present => {
                            if !self.listener_open {
                                self.artifact = ArtifactState::Removed;
                            }
                        },
                        _ => {},
                    }
                },
                Signal::RemovalFailed => {
                    match self.artifact {
                        ArtifactState::Present => {
                            if !self.listener_open {
                                self.artifact = ArtifactState::Stuck;
                            }
                        },
                        _ => {},
                    }
                },
                _ => {},
            },
        }
        self.directive()
    }
}

/// Every signal leads from a reachable state to a reachable state.
pub proof fn lemma_step_sane(s: Lifecycle, signal: Signal)
    requires
        sane(s),
    ensures
        sane(step(s, signal)),
{
}

/// Every state of every run is reachable in the sense of `sane`.
pub proof fn lemma_run_sane(signals: Seq<Signal>)
    ensures
        sane(run(initial(), signals)),
    decreases signals.len(),
{
    if signals.len() > 0 {
        lemma_run_sane(signals.drop_last());
        lemma_step_sane(run(initial(), signals.drop_last()), signals.last());
    }
}

/// The bound socket's file does not exist before the listener is bound,
/// exists while connections are accepted over a transport that leaves one,
/// and is not left behind at exit unless removing it failed. This holds
/// however the run ends: after the last secret, after a fatal error, or
/// after a request to terminate.
pub proof fn lemma_artifact_lifetime(signals: Seq<Signal>)
    ensures
        ({
            let s = run(initial(), signals);
            &&& s.phase is Starting ==> s.artifact == ArtifactState::Absent
            &&& s.phase is Running ==> s.artifact == ArtifactState::Present || s.artifact
                == ArtifactState::Absent
            &&& directive_of(s) is Exit ==> s.artifact != ArtifactState::Present
        }),
{
    lemma_run_sane(signals);
}

/// Binding over a transport that leaves a file makes the file present, and
/// it stays present for as long as connections are accepted.
pub proof fn lemma_artifact_while_running(s: Lifecycle, signal: Signal)
    requires
        sane(s),
    ensures
        s.phase is Starting && signal == (Signal::Bound { leaves_artifact: true }) ==> step(
            s,
            signal,
        ).artifact == ArtifactState::Present && step(s, signal).phase is Running,
        s.phase is Running && step(s, signal).phase is Running ==> step(s, signal).artifact
            == s.artifact,
{
}

/// The file is removed only after the listener has closed, and at most
/// once: removal is asked for only while the file is present and the
/// listener closed, and a file that was removed is never present again.
pub proof fn lemma_release_after_close(s: Lifecycle, signal: Signal)
    requires
        sane(s),
    ensures
        directive_of(s) == Directive::RemoveArtifact ==> !s.listener_open && s.artifact
            == ArtifactState::Present,
        step(s, signal).artifact == ArtifactState::Removed && s.artifact != ArtifactState::Removed
            ==> signal == Signal::ArtifactRemoved && !s.listener_open && s.artifact
            == ArtifactState::Present,
        s.artifact == ArtifactState::Removed ==> step(s, signal).artifact == ArtifactState::Removed
            && directive_of(step(s, signal)) != Directive::RemoveArtifact,
{
}

/// A handler that ends, however it ends, leaves the listener serving: the
/// run goes on accepting connections and keeps its socket.
pub proof fn lemma_handler_end_keeps_serving(s: Lifecycle)
    requires
        s.phase is Running,
    ensures
        step(s, Signal::HandlerFinished).phase is Running,
        directive_of(step(s, Signal::HandlerFinished)) == Directive::Serve,
        step(s, Signal::HandlerFinished).artifact == s.artifact,
        step(s, Signal::HandlerFinished).listener_open == s.listener_open,
{
}

/// Once the run is stopping it never serves a connection again, and a
/// connection reported then starts no handler.
pub proof fn lemma_stopping_is_final(s: Lifecycle, signal: Signal)
    requires
        s.phase is Stopping,
    ensures
        step(s, signal).phase is Stopping,
        directive_of(step(s, signal)) != Directive::Serve,
        step(s, signal).handlers <= s.handlers,
{
}

/// The exit code is zero exactly for a run that stopped because every
/// secret had arrived, met no failure afterwards and cleaned up.
pub proof fn lemma_exit_code(s: Lifecycle)
    requires
        directive_of(s) is Exit,
    ensures
        directive_of(s)->code == 0 <==> s.phase == (RunPhase::Stopping {
            reason: StopReason::Completed,
        }) && s.artifact != ArtifactState::Stuck,
{
}

/// What is left to do before a stopping run can exit: closing the
/// listener, one step per running handler, removing the socket's file.
pub open spec fn remaining(s: Lifecycle) -> nat {
    (if s.listener_open {
        1nat
    } else {
        0nat
    }) + s.handlers as nat + (if s.artifact == ArtifactState::Present {
        1nat
    } else {
        0nat
    })
}

/// The signal that tells that a directive has been carried out.
pub open spec fn carried_out(directive: Directive) -> Option<Signal> {
    match directive {
        Directive::CloseListener => Some(Signal::ListenerClosed),
        Directive::AwaitHandlers => Some(Signal::HandlerFinished),
        Directive::CancelHandlers => Some(Signal::HandlerFinished),
        Directive::RemoveArtifact => Some(Signal::ArtifactRemoved),
        _ => None,
    }
}

/// Shutdown comes to an end: each directive that is carried out brings a
/// stopping run closer to its exit, and when nothing is left to do the
/// directive is to exit.
pub proof fn lemma_shutdown_completes(s: Lifecycle)
    requires
        s.phase is Stopping,
    ensures
        match carried_out(directive_of(s)) {
            Some(signal) => remaining(step(s, signal)) < remaining(s) && step(s, signal).phase
                is Stopping,
            None => directive_of(s) is Exit && remaining(s) == 0,
        },
        directive_of(s) == Directive::RemoveArtifact ==> remaining(step(s, Signal::RemovalFailed))
            < remaining(s),
        directive_of(s) == Directive::AwaitHandlers ==> directive_of(step(s, Signal::GraceExpired))
            == Directive::CancelHandlers,
{
}

/// A failure is never forgotten: once the run stops for a failure, no
/// later signal turns the reason back into success.
pub proof fn lemma_failure_sticks(s: Lifecycle, signal: Signal)
    requires
        s.phase matches RunPhase::Stopping { reason } && reason != StopReason::Completed,
    ensures
        step(s, signal).phase == s.phase,
{
}

} // verus!
