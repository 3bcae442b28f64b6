//! The service's run state machine: when to sleep, when to reconcile, and
//! how a stop request winds the service down, with what is reported.

use vstd::prelude::*;

verus! {

/// The states the service reports to the service manager.
#[derive(Clone, Copy, Debug, PartialEq, Eq, Structural)]
pub enum RunState {
    /// Registered with the service manager, nothing reported yet.
    Starting,
    Running,
    StopPending,
    Stopped,
}

/// What the loop hands the state machine.
#[derive(Clone, Copy, Debug, PartialEq, Eq, Structural)]
pub enum LoopEvent {
    /// The control handler is registered; the run begins.
    Begin,
    /// One sleep increment is over: whether a stop was requested, and the
    /// whole seconds since the last reconciliation tick (or the start).
    Woke { stop_requested: bool, elapsed_secs: u64 },
    /// The cleanup pause after the stop request is over.
    CleanupDone,
}

/// What the loop does next.
#[derive(Clone, Copy, Debug, PartialEq, Eq, Structural)]
pub enum LoopAction {
    /// Sleep one increment, then deliver `Woke`.
    Sleep,
    /// Reconcile every tracked key, restart the elapsed-time count, sleep one
    /// increment, then deliver `Woke`.
    ReconcileAndSleep,
    /// Pause for cleanup, then deliver `CleanupDone`.
    CleanupPause,
    /// Return from the service's main function.
    Exit,
}

/// One step's result: a state to report first (if any), then an action.
#[derive(Clone, Copy, Debug, PartialEq, Eq, Structural)]
pub struct LoopStep {
    pub report: Option<RunState>,
    pub action: LoopAction,
}

/// The event each state waits for; once stopped, nothing is awaited.
pub open spec fn expects(state: RunState, ev: LoopEvent) -> bool {
    match state {
        RunState::Starting => ev == LoopEvent::Begin,
        RunState::Running => ev is Woke,
        RunState::StopPending => ev == LoopEvent::CleanupDone,
        RunState::Stopped => true,
    }
}

/// The next state and step, for a state, the poll interval and an event
/// the state expects.
pub open spec fn next(state: RunState, interval: u32, ev: LoopEvent) -> (RunState, LoopStep) {
    match state {
        RunState::Starting => (
            RunState::Running,
            LoopStep { report: Some(RunState::Running), action: LoopAction::Sleep },
        ),
        RunState::Running => match ev {
            LoopEvent::Woke { stop_requested, elapsed_secs } => if stop_requested {
                (
                    RunState::StopPending,
                    LoopStep { report: Some(RunState::StopPending), action: LoopAction::CleanupPause },
                )
            } else if elapsed_secs >= interval {
                (RunState::Running, LoopStep { report: None, action: LoopAction::ReconcileAndSleep })
            } else {
                (RunState::Running, LoopStep { report: None, action: LoopAction::Sleep })
            },
            _ => (RunState::Running, LoopStep { report: None, action: LoopAction::Sleep }),
        },
        RunState::StopPending => (
            RunState::Stopped,
            LoopStep { report: Some(RunState::Stopped), action: LoopAction::Exit },
        ),
        RunState::Stopped => (RunState::Stopped, LoopStep { report: None, action: LoopAction::Exit }),
    }
}

/// The run loop's state: where it stands and how often it reconciles.
pub struct ServiceLoop {
    pub state: RunState,
    pub poll_interval_seconds: u32,
}

impl ServiceLoop {
    pub open spec fn wf(&self) -> bool {
        self.poll_interval_seconds > 0
    }

    pub fn new(poll_interval_seconds: u32) -> (r: ServiceLoop)
        requires
            poll_interval_seconds > 0,
        ensures
            r.wf(),
            r.state == RunState::Starting,
            r.poll_interval_seconds == poll_interval_seconds,
    {
        ServiceLoop { state: RunState::Starting, poll_interval_seconds }
    }

    /// Whether the current state awaits `ev`.
    pub fn expects(&self, ev: &LoopEvent) -> (r: bool)
        ensures
            r == expects(self.state, *ev),
    {
        match self.state {
            RunState::Starting => *ev == LoopEvent::Begin,
            RunState::Running => match ev {
                LoopEvent::Woke { .. } => true,
                _ => false,
            },
            RunState::StopPending => *ev == LoopEvent::CleanupDone,
            RunState::Stopped => true,
        }
    }

    /// Takes one event: moves to the next state and says what to report
    /// and do. A stop request seen on waking wins over a due tick.
    pub fn step(&mut self, ev: LoopEvent) -> (r: LoopStep)
        requires
            expects(old(self).state, ev),
        ensures
            final(self).poll_interval_seconds == old(self).poll_interval_seconds,
            (final(self).state, r) == next(old(self).state, old(self).poll_interval_seconds, ev),
    {
        match self.state {
            RunState::Starting => {
                self.state = RunState::Running;
                LoopStep { report: Some(RunState::Running), action: LoopAction::Sleep }
            },
            RunState::Running => match ev {
                LoopEvent::Woke { stop_requested, elapsed_secs } => {
                    if stop_requested {
                        self.state = RunState::StopPending;
                        LoopStep { report: Some(RunState::StopPending), action: LoopAction::CleanupPause }
                    } else if elapsed_secs >= self.poll_interval_seconds as u64 {
                        LoopStep { report: None, action: LoopAction::ReconcileAndSleep }
                    } else {
                        LoopStep { report: None, action: LoopAction::Sleep }
                    }
                },
                _ => LoopStep { report: None, action: LoopAction::Sleep },
            },
            RunState::StopPending => {
                self.state = RunState::Stopped;
                LoopStep { report: Some(RunState::Stopped), action: LoopAction::Exit }
            },
            RunState::Stopped => LoopStep { report: None, action: LoopAction::Exit },
        }
    }
}

/// A stop requested while running is acted on at the very next wake, one
/// sleep increment at most, whatever the elapsed time: the loop reports
/// `StopPending`, pauses for cleanup, then reports `Stopped` and exits, and
/// after that nothing is reported again.
pub proof fn lemma_stop_winds_down(interval: u32, elapsed_secs: u64)
    ensures
        ({
            let (s1, step1) = next(
                RunState::Running,
                interval,
                LoopEvent::Woke { stop_requested: true, elapsed_secs },
            );
            let (s2, step2) = next(s1, interval, LoopEvent::CleanupDone);
            &&& s1 == RunState::StopPending
            &&& step1 == LoopStep {
                report: Some(RunState::StopPending),
                action: LoopAction::CleanupPause,
            }
            &&& expects(s1, LoopEvent::CleanupDone)
            &&& s2 == RunState::Stopped
            &&& step2 == LoopStep { report: Some(RunState::Stopped), action: LoopAction::Exit }
            &&& forall|ev: LoopEvent| #[trigger]
                next(s2, interval, ev) == (
                    RunState::Stopped,
                    LoopStep { report: None, action: LoopAction::Exit },
                )
        }),
{
}

/// While running with no stop requested, the loop reconciles exactly when
/// the poll interval has elapsed, and otherwise only sleeps; it never
/// leaves `Running` and reports nothing.
pub proof fn lemma_running_ticks(interval: u32, elapsed_secs: u64)
    ensures
        ({
            let (s, step) = next(
                RunState::Running,
                interval,
                LoopEvent::Woke { stop_requested: false, elapsed_secs },
            );
            &&& s == RunState::Running
            &&& step.report is None
            &&& (step.action == LoopAction::ReconcileAndSleep <==> elapsed_secs >= interval)
            &&& (step.action == LoopAction::Sleep <==> elapsed_secs < interval)
        }),
{
}

/// A control request from the service manager.
#[derive(Clone, Copy, Debug, PartialEq, Eq, Structural)]
pub enum ControlEvent {
    Stop,
    Interrogate,
    /// Any other control code.
    Other,
}

/// The answer to the service manager.
#[derive(Clone, Copy, Debug, PartialEq, Eq, Structural)]
pub enum ControlReply {
    NoError,
    NotImplemented,
}

/// The answer, and whether to raise the shared stop flag.
#[derive(Clone, Copy, Debug, PartialEq, Eq, Structural)]
pub struct ControlResponse {
    pub reply: ControlReply,
    pub request_stop: bool,
}

/// Handles one control request: `Stop` raises the stop flag, `Interrogate`
/// is only acknowledged, anything else is answered as not implemented.
pub fn handle_control(ev: ControlEvent) -> (r: ControlResponse)
    ensures
        r.request_stop <==> ev == ControlEvent::Stop,
        r.reply == ControlReply::NotImplemented <==> ev == ControlEvent::Other,
{
    match ev {
        ControlEvent::Stop => ControlResponse { reply: ControlReply::NoError, request_stop: true },
        ControlEvent::Interrogate => ControlResponse {
            reply: ControlReply::NoError,
            request_stop: false,
        },
        ControlEvent::Other => ControlResponse {
            reply: ControlReply::NotImplemented,
            request_stop: false,
        },
    }
}

} // verus!
