//! The two waiting protocols around the `dsh` process: waiting for the
//! server to accept connections while watching that it is still alive, and
//! stopping it gracefully with a forced kill as the last resort.
//!
//! Each is a state machine: the caller performs the action a step returns
//! (read the clock, poll the process, connect, sleep, signal, kill) and
//! feeds what it observed back in as the next event.

use vstd::prelude::*;

verus! {

/// Pause between two connection attempts while waiting for the server.
pub const READY_POLL_INTERVAL_MS: u64 = 200;

/// How long a terminated server is given to exit on its own.
pub const STOP_GRACE_MS: u64 = 3000;

/// Pause between two polls while waiting for the server to exit.
pub const STOP_POLL_INTERVAL_MS: u64 = 100;

/// What polling the server process (`try_wait`) reported.
#[derive(Clone, Copy, Debug, PartialEq, Eq, Structural)]
pub enum ProcessPoll {
    /// It is still running.
    Running,
    /// It has exited.
    Exited,
    /// Polling it failed.
    PollFailed,
}

/// Where the readiness wait stands.
#[derive(Clone, Copy, Debug, PartialEq, Eq, Structural)]
pub enum ReadyPhase {
    AwaitClock,
    AwaitPoll,
    AwaitProbe,
    AwaitPause,
    Ready,
    Failed,
}

/// What the caller observed after performing the last action.
#[derive(Clone, Copy, Debug, PartialEq, Eq, Structural)]
pub enum ReadyEvent {
    /// Milliseconds since the wait began.
    Clock(u64),
    /// The server process's state; `None` when no server is registered.
    Polled(Option<ProcessPoll>),
    /// Whether a TCP connection to the server's port succeeded.
    Probed(bool),
    /// The pause is over.
    Paused,
}

/// What the caller is to do next.
#[derive(Clone, Copy, Debug, PartialEq, Eq, Structural)]
pub enum ReadyAction {
    ReadClock,
    PollProcess,
    Connect,
    Sleep(u64),
    /// The server accepts connections: load its UI.
    ReportReady,
    /// The server exited or the time ran out.
    ReportFailure,
}

/// The action that a phase waits to have performed.
pub open spec fn ready_pending(phase: ReadyPhase) -> ReadyAction {
    match phase {
        ReadyPhase::AwaitClock => ReadyAction::ReadClock,
        ReadyPhase::AwaitPoll => ReadyAction::PollProcess,
        ReadyPhase::AwaitProbe => ReadyAction::Connect,
        ReadyPhase::AwaitPause => ReadyAction::Sleep(READY_POLL_INTERVAL_MS),
        ReadyPhase::Ready => ReadyAction::ReportReady,
        ReadyPhase::Failed => ReadyAction::ReportFailure,
    }
}

/// One step of the readiness wait. Each round reads the clock (giving up
/// once `timeout_ms` has passed), polls the registered server (giving up if
/// it exited or cannot be polled), tries to connect (done on success) and
/// pauses. An event that does not answer the pending action changes nothing.
pub open spec fn ready_next(timeout_ms: u64, phase: ReadyPhase, event: ReadyEvent) -> ReadyPhase {
    match (phase, event) {
        (ReadyPhase::AwaitClock, ReadyEvent::Clock(elapsed)) => if elapsed < timeout_ms {
            ReadyPhase::AwaitPoll
        } else {
            ReadyPhase::Failed
        },
        (ReadyPhase::AwaitPoll, ReadyEvent::Polled(poll)) => match poll {
            None => ReadyPhase::AwaitProbe,
            Some(ProcessPoll::Running) => ReadyPhase::AwaitProbe,
            Some(_) => ReadyPhase::Failed,
        },
        (ReadyPhase::AwaitProbe, ReadyEvent::Probed(connected)) => if connected {
            ReadyPhase::Ready
        } else {
            ReadyPhase::AwaitPause
        },
        (ReadyPhase::AwaitPause, ReadyEvent::Paused) => ReadyPhase::AwaitClock,
        _ => phase,
    }
}

/// The readiness wait for a server, with its deadline.
pub struct ReadyWait {
    pub timeout_ms: u64,
    pub phase: ReadyPhase,
}

impl ReadyWait {
    /// A wait that gives up after `timeout_ms`; its first action is reading the clock.
    pub fn new(timeout_ms: u64) -> (r: ReadyWait)
        ensures
            r.timeout_ms == timeout_ms,
            r.phase == ReadyPhase::AwaitClock,
    {
        ReadyWait { timeout_ms, phase: ReadyPhase::AwaitClock }
    }

    /// The action the wait is waiting to have performed.
    pub fn pending(&self) -> (r: ReadyAction)
        ensures
            r == ready_pending(self.phase),
    {
        match self.phase {
            ReadyPhase::AwaitClock => ReadyAction::ReadClock,
            ReadyPhase::AwaitPoll => ReadyAction::PollProcess,
            ReadyPhase::AwaitProbe => ReadyAction::Connect,
            ReadyPhase::AwaitPause => ReadyAction::Sleep(READY_POLL_INTERVAL_MS),
            ReadyPhase::Ready => ReadyAction::ReportReady,
            ReadyPhase::Failed => ReadyAction::ReportFailure,
        }
    }

    /// Feeds in what the last action observed; returns the next action.
    pub fn step(&mut self, event: ReadyEvent) -> (r: ReadyAction)
        ensures
            final(self).timeout_ms == old(self).timeout_ms,
            final(self).phase == ready_next(old(self).timeout_ms, old(self).phase, event),
            r == ready_pending(final(self).phase),
    {
        let next = match (self.phase, event) {
            (ReadyPhase::AwaitClock, ReadyEvent::Clock(elapsed)) => if elapsed < self.timeout_ms {
                ReadyPhase::AwaitPoll
            } else {
                ReadyPhase::Failed
            },
            (ReadyPhase::AwaitPoll, ReadyEvent::Polled(poll)) => match poll {
                None => ReadyPhase::AwaitProbe,
                Some(ProcessPoll::Running) => ReadyPhase::AwaitProbe,
                Some(_) => ReadyPhase::Failed,
            },
            (ReadyPhase::AwaitProbe, ReadyEvent::Probed(connected)) => if connected {
                ReadyPhase::Ready
            } else {
                ReadyPhase::AwaitPause
            },
            (ReadyPhase::AwaitPause, ReadyEvent::Paused) => ReadyPhase::AwaitClock,
            _ => self.phase,
        };
        self.phase = next;
        self.pending()
    }
}


/// Where the stop protocol stands.
#[derive(Clone, Copy, Debug, PartialEq, Eq, Structural)]
pub enum StopPhase {
    AwaitSignal,
    AwaitClock,
    AwaitPoll,
    AwaitPause,
    AwaitKill,
    Stopped,
}

/// What the caller observed after performing the last action.
#[derive(Clone, Copy, Debug, PartialEq, Eq, Structural)]
pub enum StopEvent {
    /// The termination request was sent.
    Signaled,
    /// Milliseconds since the termination request.
    Clock(u64),
    /// The server process's state.
    Polled(ProcessPoll),
    /// The pause is over.
    Paused,
    /// The process was killed and reaped.
    Killed,
}

/// What the caller is to do next.
#[derive(Clone, Copy, Debug, PartialEq, Eq, Structural)]
pub enum StopAction {
    /// Ask the process to terminate (SIGTERM), so that the launcher can pass
    /// the request on to the real server.
    SendTerminate,
    ReadClock,
    PollProcess,
    Sleep(u64),
    /// Kill the process and reap it.
    ForceKill,
    /// The process is gone.
    Finish,
}

/// The action that a phase waits to have performed.
pub open spec fn stop_pending(phase: StopPhase) -> StopAction {
    match phase {
        StopPhase::AwaitSignal => StopAction::SendTerminate,
        StopPhase::AwaitClock => StopAction::ReadClock,
        StopPhase::AwaitPoll => StopAction::PollProcess,
        StopPhase::AwaitPause => StopAction::Sleep(STOP_POLL_INTERVAL_MS),
        StopPhase::AwaitKill => StopAction::ForceKill,
        StopPhase::Stopped => StopAction::Finish,
    }
}

/// One step of the stop protocol: after the termination request, poll the
/// process every 100 ms until it exits; once 3 s have passed, or polling
/// fails, kill it. An event that does not answer the pending action changes
/// nothing.
pub open spec fn stop_next(phase: StopPhase, event: StopEvent) -> StopPhase {
    match (phase, event) {
        (StopPhase::AwaitSignal, StopEvent::Signaled) => StopPhase::AwaitClock,
        (StopPhase::AwaitClock, StopEvent::Clock(elapsed)) => if elapsed < STOP_GRACE_MS {
            StopPhase::AwaitPoll
        } else {
            StopPhase::AwaitKill
        },
        (StopPhase::AwaitPoll, StopEvent::Polled(poll)) => match poll {
            ProcessPoll::Exited => StopPhase::Stopped,
            ProcessPoll::Running => StopPhase::AwaitPause,
            ProcessPoll::PollFailed => StopPhase::AwaitKill,
        },
        (StopPhase::AwaitPause, StopEvent::Paused) => StopPhase::AwaitClock,
        (StopPhase::AwaitKill, StopEvent::Killed) => StopPhase::Stopped,
        _ => phase,
    }
}

/// The stop protocol for one server process.
pub struct Shutdown {
    pub phase: StopPhase,
}

impl Shutdown {
    /// Starts stopping a process. Where the platform can ask a process to
    /// terminate (`graceful`), that comes first; elsewhere the process is
    /// killed at once.
    pub fn new(graceful: bool) -> (r: Shutdown)
        ensures
            r.phase == (if graceful {
                StopPhase::AwaitSignal
            } else {
                StopPhase::AwaitKill
            }),
    {
        if graceful {
            Shutdown { phase: StopPhase::AwaitSignal }
        } else {
            Shutdown { phase: StopPhase::AwaitKill }
        }
    }

    /// The action the protocol is waiting to have performed.
    pub fn pending(&self) -> (r: StopAction)
        ensures
            r == stop_pending(self.phase),
    {
        match self.phase {
            StopPhase::AwaitSignal => StopAction::SendTerminate,
            StopPhase::AwaitClock => StopAction::ReadClock,
            StopPhase::AwaitPoll => StopAction::PollProcess,
            StopPhase::AwaitPause => StopAction::Sleep(STOP_POLL_INTERVAL_MS),
            StopPhase::AwaitKill => StopAction::ForceKill,
            StopPhase::Stopped => StopAction::Finish,
        }
    }

    /// Feeds in what the last action observed; returns the next action.
    pub fn step(&mut self, event: StopEvent) -> (r: StopAction)
        ensures
            final(self).phase == stop_next(old(self).phase, event),
            r == stop_pending(final(self).phase),
    {
        let next = match (self.phase, event) {
            (StopPhase::AwaitSignal, StopEvent::Signaled) => StopPhase::AwaitClock,
            (StopPhase::AwaitClock, StopEvent::Clock(elapsed)) => if elapsed < STOP_GRACE_MS {
                StopPhase::AwaitPoll
            } else {
                StopPhase::AwaitKill
            },
            (StopPhase::AwaitPoll, StopEvent::Polled(poll)) => match poll {
                ProcessPoll::Exited => StopPhase::Stopped,
                ProcessPoll::Running => StopPhase::AwaitPause,
                ProcessPoll::PollFailed => StopPhase::AwaitKill,
            },
            (StopPhase::AwaitPause, StopEvent::Paused) => StopPhase::AwaitClock,
            (StopPhase::AwaitKill, StopEvent::Killed) => StopPhase::Stopped,
            _ => self.phase,
        };
        self.phase = next;
        self.pending()
    }
}

/// The phase the readiness wait reaches after the events `events`.
pub open spec fn ready_run(timeout_ms: u64, phase: ReadyPhase, events: Seq<ReadyEvent>) -> ReadyPhase
    decreases events.len(),
{
    if events.len() == 0 {
        phase
    } else {
        ready_run(timeout_ms, ready_next(timeout_ms, phase, events[0]), events.drop_first())
    }
}

/// The phase the stop protocol reaches after the events `events`.
pub open spec fn stop_run(phase: StopPhase, events: Seq<StopEvent>) -> StopPhase
    decreases events.len(),
{
    if events.len() == 0 {
        phase
    } else {
        stop_run(stop_next(phase, events[0]), events.drop_first())
    }
}

/// Once the wait has ended, ready or failed, no later event changes its outcome.
pub proof fn lemma_ready_outcome_final(timeout_ms: u64, phase: ReadyPhase, events: Seq<ReadyEvent>)
    requires
        phase == ReadyPhase::Ready || phase == ReadyPhase::Failed,
    ensures
        ready_run(timeout_ms, phase, events) == phase,
    decreases events.len(),
{
    if events.len() > 0 {
        lemma_ready_outcome_final(timeout_ms, phase, events.drop_first());
    }
}

/// The server is reported ready only right after a connection to it succeeded.
pub proof fn lemma_ready_only_after_connect(timeout_ms: u64, phase: ReadyPhase, event: ReadyEvent)
    requires
        phase != ReadyPhase::Ready,
        ready_next(timeout_ms, phase, event) == ReadyPhase::Ready,
    ensures
        phase == ReadyPhase::AwaitProbe,
        event == ReadyEvent::Probed(true),
{
}

/// A server found exited, or one that cannot be polled, is never reported
/// ready, whatever happens afterwards: the shell does not go on to connect
/// to whatever else may hold the port.
pub proof fn lemma_dead_server_never_ready(
    timeout_ms: u64,
    poll: ProcessPoll,
    later: Seq<ReadyEvent>,
)
    requires
        poll != ProcessPoll::Running,
    ensures
        ready_run(timeout_ms, ReadyPhase::AwaitPoll, seq![ReadyEvent::Polled(Some(poll))] + later)
            == ReadyPhase::Failed,
{
    let events = seq![ReadyEvent::Polled(Some(poll))] + later;
    assert(events.drop_first() =~= later);
    lemma_ready_outcome_final(timeout_ms, ReadyPhase::Failed, later);
}

/// Once the deadline has passed, the wait fails, whatever happens afterwards.
pub proof fn lemma_ready_deadline(timeout_ms: u64, elapsed: u64, later: Seq<ReadyEvent>)
    requires
        elapsed >= timeout_ms,
    ensures
        ready_run(timeout_ms, ReadyPhase::AwaitClock, seq![ReadyEvent::Clock(elapsed)] + later)
            == ReadyPhase::Failed,
{
    let events = seq![ReadyEvent::Clock(elapsed)] + later;
    assert(events.drop_first() =~= later);
    lemma_ready_outcome_final(timeout_ms, ReadyPhase::Failed, later);
}

/// Once the process is stopped, no later event changes that.
pub proof fn lemma_stopped_final(events: Seq<StopEvent>)
    ensures
        stop_run(StopPhase::Stopped, events) == StopPhase::Stopped,
    decreases events.len(),
{
    if events.len() > 0 {
        lemma_stopped_final(events.drop_first());
    }
}

/// The protocol ends only when the process was seen to exit or was killed.
pub proof fn lemma_stopped_only_when_gone(phase: StopPhase, event: StopEvent)
    requires
        phase != StopPhase::Stopped,
        stop_next(phase, event) == StopPhase::Stopped,
    ensures
        (phase == StopPhase::AwaitPoll && event == StopEvent::Polled(ProcessPoll::Exited)) || (phase
            == StopPhase::AwaitKill && event == StopEvent::Killed),
{
}

/// The grace period is bounded: once it is over, or when polling fails, the
/// process is killed rather than waited for.
pub proof fn lemma_kill_after_grace(elapsed: u64)
    ensures
        elapsed >= STOP_GRACE_MS ==> stop_next(StopPhase::AwaitClock, StopEvent::Clock(elapsed))
            == StopPhase::AwaitKill,
        stop_next(StopPhase::AwaitPoll, StopEvent::Polled(ProcessPoll::PollFailed))
            == StopPhase::AwaitKill,
{
}


/// The wait never gives up on the clock before the caller's own timeout: for
/// every timeout and every elapsed time below it, reading the clock moves the
/// wait on to polling the process; at or past the timeout it fails.
pub proof fn lemma_ready_waits_until_timeout(timeout_ms: u64, elapsed: u64)
    ensures
        elapsed < timeout_ms ==> ready_next(timeout_ms, ReadyPhase::AwaitClock, ReadyEvent::Clock(elapsed))
            == ReadyPhase::AwaitPoll,
        elapsed >= timeout_ms ==> ready_next(timeout_ms, ReadyPhase::AwaitClock, ReadyEvent::Clock(elapsed))
            == ReadyPhase::Failed,
        elapsed < timeout_ms ==> ready_pending(
            ready_next(timeout_ms, ReadyPhase::AwaitClock, ReadyEvent::Clock(elapsed)),
        ) == ReadyAction::PollProcess,
{
}

/// A terminated server gets the whole 3 s grace period: at every elapsed time
/// below 3000 ms, reading the clock leads to polling the process again, never
/// to a forced kill; from 3000 ms on it is killed.
pub proof fn lemma_stop_grace_period(elapsed: u64)
    ensures
        STOP_GRACE_MS == 3000,
        elapsed < 3000 ==> stop_next(StopPhase::AwaitClock, StopEvent::Clock(elapsed))
            == StopPhase::AwaitPoll,
        elapsed < 3000 ==> stop_pending(stop_next(StopPhase::AwaitClock, StopEvent::Clock(elapsed)))
            == StopAction::PollProcess,
        elapsed >= 3000 ==> stop_next(StopPhase::AwaitClock, StopEvent::Clock(elapsed))
            == StopPhase::AwaitKill,
{
}

} // verus!
