//! The reconnecting poll loop, as a state machine. The caller performs each
//! action (open the port, exchange one frame, sleep one second), applies the
//! effect to the shared cell, and hands back what happened. The stop flag is
//! read before every action, so a stop is honoured within one action.
use vstd::prelude::*;
use crate::protocol::{parse_response_packet, parse_spec, ParseError, TemperatureData};

verus! {

/// Seconds between two successful polls.
pub const POLL_INTERVAL_SECS: u64 = 10;

/// Seconds between a failure and the next attempt to open the port.
pub const RECONNECT_DELAY_SECS: u64 = 5;

/// Where the loop stands.
#[derive(Debug, Clone, Copy, PartialEq, Eq, Structural)]
pub enum Phase {
    /// About to open the port.
    Connecting,
    /// Connected, about to send a request.
    Polling,
    /// Connected, seconds left before the next request.
    Interval(u64),
    /// Disconnected, seconds left before the next attempt to open.
    Backoff(u64),
    /// Finished after a stop request.
    Stopped,
}

/// What the caller is asked to do next.
#[derive(Debug, Clone, Copy, PartialEq, Eq, Structural)]
pub enum Action {
    /// Open the port, wait for the device to settle, discard its start-up output.
    Open,
    /// Send one request frame, wait briefly, and read once.
    Poll,
    /// Sleep for one second.
    Sleep,
    /// Leave the loop.
    Exit,
}

/// What came of the last action.
#[derive(Debug, Clone)]
pub enum Outcome {
    /// No action has run yet.
    Started,
    /// The port was opened.
    Opened,
    /// The port could not be opened.
    OpenFailed,
    /// The request was sent and one read returned these bytes.
    Received(Vec<u8>),
    /// Writing the request or reading the reply failed.
    TransportFailed,
    /// One second has passed.
    Slept,
}

/// Changes the caller applies to the shared cell.
#[derive(Debug, Clone, Copy)]
pub struct Effect {
    /// A new value for the connectivity flag, if any.
    pub connected: Option<bool>,
    /// A new reading, if any.
    pub publish: Option<TemperatureData>,
}

/// The result of one transition.
#[derive(Debug, Clone, Copy)]
pub struct Step {
    pub action: Action,
    pub effect: Effect,
    /// Why the frame just received was rejected, if it was.
    pub rejected: Option<ParseError>,
}

/// The loop's state.
#[derive(Debug, Clone, Copy)]
pub struct PollLoop {
    phase: Phase,
}

/// Nothing to change in the shared cell.
pub open spec fn no_effect() -> Effect {
    Effect { connected: None, publish: None }
}

/// The phase after an outcome, before the stop flag is looked at.
pub open spec fn advance_spec(p: Phase, o: Outcome) -> Phase {
    match (p, o) {
        (Phase::Connecting, Outcome::Opened) => Phase::Polling,
        (Phase::Connecting, Outcome::OpenFailed) => Phase::Backoff(RECONNECT_DELAY_SECS),
        (Phase::Polling, Outcome::Received(b)) => if parse_spec(b@) is Ok {
            Phase::Interval(POLL_INTERVAL_SECS)
        } else {
            Phase::Backoff(RECONNECT_DELAY_SECS)
        },
        (Phase::Polling, Outcome::TransportFailed) => Phase::Backoff(RECONNECT_DELAY_SECS),
        (Phase::Interval(n), Outcome::Slept) => if n > 1 {
            Phase::Interval((n - 1) as u64)
        } else {
            Phase::Polling
        },
        (Phase::Backoff(n), Outcome::Slept) => if n > 1 {
            Phase::Backoff((n - 1) as u64)
        } else {
            Phase::Connecting
        },
        _ => p,
    }
}

/// The effect of an outcome, before the stop flag is looked at.
pub open spec fn outcome_effect_spec(p: Phase, o: Outcome) -> Effect {
    match (p, o) {
        (Phase::Connecting, Outcome::Opened) => Effect { connected: Some(true), publish: None },
        (Phase::Connecting, Outcome::OpenFailed) => Effect { connected: Some(false), publish: None },
        (Phase::Polling, Outcome::Received(b)) => match parse_spec(b@) {
            Ok(d) => Effect { connected: None, publish: Some(d) },
            Err(_) => Effect { connected: Some(false), publish: None },
        },
        (Phase::Polling, Outcome::TransportFailed) => Effect {
            connected: Some(false),
            publish: None,
        },
        _ => no_effect(),
    }
}

/// The error of a received frame that did not decode.
pub open spec fn rejected_spec(p: Phase, o: Outcome) -> Option<ParseError> {
    match (p, o) {
        (Phase::Polling, Outcome::Received(b)) => match parse_spec(b@) {
            Ok(_) => None,
            Err(e) => Some(e),
        },
        _ => None,
    }
}

/// What a phase asks for while the loop keeps running.
pub open spec fn action_spec(p: Phase) -> Action {
    match p {
        Phase::Connecting => Action::Open,
        Phase::Polling => Action::Poll,
        Phase::Interval(_) => Action::Sleep,
        Phase::Backoff(_) => Action::Sleep,
        Phase::Stopped => Action::Exit,
    }
}

/// The phase after one transition.
pub open spec fn next_phase_spec(p: Phase, running: bool, o: Outcome) -> Phase {
    if running {
        advance_spec(p, o)
    } else {
        Phase::Stopped
    }
}

/// The action and effect of one transition. A stop, the first time it is seen,
/// clears the connectivity flag; a reading that came with it is still published.
pub open spec fn step_spec(p: Phase, running: bool, o: Outcome) -> Step {
    if running {
        Step {
            action: action_spec(advance_spec(p, o)),
            effect: outcome_effect_spec(p, o),
            rejected: rejected_spec(p, o),
        }
    } else if p == Phase::Stopped {
        Step { action: Action::Exit, effect: no_effect(), rejected: None }
    } else {
        Step {
            action: Action::Exit,
            effect: Effect { connected: Some(false), publish: outcome_effect_spec(p, o).publish },
            rejected: rejected_spec(p, o),
        }
    }
}

impl PollLoop {
    /// A loop that has not yet tried to open the port.
    pub fn new() -> (r: PollLoop)
        ensures
            r.phase_spec() == Phase::Connecting,
    {
        PollLoop { phase: Phase::Connecting }
    }

    pub closed spec fn phase_spec(&self) -> Phase {
        self.phase
    }

    /// Where the loop stands.
    pub fn phase(&self) -> (r: Phase)
        ensures
            r == self.phase_spec(),
    {
        self.phase
    }

    /// Takes the outcome of the last action and whether the loop should keep
    /// running, and returns the next action with the changes to publish.
    pub fn step(&mut self, running: bool, outcome: Outcome) -> (r: Step)
        ensures
            final(self).phase_spec() == next_phase_spec(old(self).phase_spec(), running, outcome),
            r == step_spec(old(self).phase_spec(), running, outcome),
    {
        let p = self.phase;
        let (next, effect, rejected) = match (p, outcome) {
            (Phase::Connecting, Outcome::Opened) => (
                Phase::Polling,
                Effect { connected: Some(true), publish: None },
                None,
            ),
            (Phase::Connecting, Outcome::OpenFailed) => (
                Phase::Backoff(RECONNECT_DELAY_SECS),
                Effect { connected: Some(false), publish: None },
                None,
            ),
            (Phase::Polling, Outcome::Received(bytes)) => {
                let parsed: Result<TemperatureData, ParseError> = parse_response_packet(
                    bytes.as_slice(),
                );
                match parsed {
                    Ok(d) => (
                        Phase::Interval(POLL_INTERVAL_SECS),
                        Effect { connected: None, publish: Some(d) },
                        None,
                    ),
                    Err(e) => (
                        Phase::Backoff(RECONNECT_DELAY_SECS),
                        Effect { connected: Some(false), publish: None },
                        Some(e),
                    ),
                }
            },
            (Phase::Polling, Outcome::TransportFailed) => (
                Phase::Backoff(RECONNECT_DELAY_SECS),
                Effect { connected: Some(false), publish: None },
                None,
            ),
            (Phase::Interval(n), Outcome::Slept) => (
                if n > 1 {
                    Phase::Interval(n - 1)
                } else {
                    Phase::Polling
                },
                Effect { connected: None, publish: None },
                None,
            ),
            (Phase::Backoff(n), Outcome::Slept) => (
                if n > 1 {
                    Phase::Backoff(n - 1)
                } else {
                    Phase::Connecting
                },
                Effect { connected: None, publish: None },
                None,
            ),
            _ => (p, Effect { connected: None, publish: None }, None),
        };
        if running {
            self.phase = next;
            let action = match next {
                Phase::Connecting => Action::Open,
                Phase::Polling => Action::Poll,
                Phase::Interval(_) => Action::Sleep,
                Phase::Backoff(_) => Action::Sleep,
                Phase::Stopped => Action::Exit,
            };
            Step { action, effect, rejected }
        } else {
            self.phase = Phase::Stopped;
            if p == Phase::Stopped {
                Step { action: Action::Exit, effect: Effect { connected: None, publish: None }, rejected: None }
            } else {
                Step {
                    action: Action::Exit,
                    effect: Effect { connected: Some(false), publish: effect.publish },
                    rejected,
                }
            }
        }
    }
}

/// Once the stop flag is seen, the very next action is to leave the loop and
/// the connectivity flag is cleared (unless it was cleared at an earlier stop),
/// whatever the phase and whatever came of the last action; a stopped loop
/// stays stopped.
pub proof fn lemma_stop_exits(p: Phase, o: Outcome)
    ensures
        step_spec(p, false, o).action == Action::Exit,
        next_phase_spec(p, false, o) == Phase::Stopped,
        p != Phase::Stopped ==> step_spec(p, false, o).effect.connected == Some(false),
        step_spec(Phase::Stopped, true, o).action == Action::Exit,
        next_phase_spec(Phase::Stopped, true, o) == Phase::Stopped,
{
}

/// While the port cannot be opened, the flag is only ever cleared, and each
/// failed attempt is followed by exactly one second of sleep per second of the
/// reconnect delay before the next attempt.
pub proof fn lemma_failed_open_cycle()
    ensures
        next_phase_spec(Phase::Connecting, true, Outcome::OpenFailed) == Phase::Backoff(
            RECONNECT_DELAY_SECS,
        ),
        step_spec(Phase::Connecting, true, Outcome::OpenFailed) == (Step {
            action: Action::Sleep,
            effect: Effect { connected: Some(false), publish: None },
            rejected: None,
        }),
        forall|n: u64|
            1 <= n <= RECONNECT_DELAY_SECS ==> #[trigger] step_spec(Phase::Backoff(n), true, Outcome::Slept)
                == (Step {
                action: if n > 1 {
                    Action::Sleep
                } else {
                    Action::Open
                },
                effect: no_effect(),
                rejected: None,
            }) && next_phase_spec(Phase::Backoff(n), true, Outcome::Slept) == if n > 1 {
                Phase::Backoff((n - 1) as u64)
            } else {
                Phase::Connecting
            },
{
}

/// After a good frame the reading is published, then the loop sleeps one
/// second per second of the poll interval before the next request.
pub proof fn lemma_poll_cycle(b: Seq<u8>, v: Vec<u8>)
    requires
        v@ == b,
        parse_spec(b) is Ok,
    ensures
        step_spec(Phase::Polling, true, Outcome::Received(v)) == (Step {
            action: Action::Sleep,
            effect: Effect { connected: None, publish: Some(parse_spec(b)->Ok_0) },
            rejected: None,
        }),
        next_phase_spec(Phase::Polling, true, Outcome::Received(v)) == Phase::Interval(
            POLL_INTERVAL_SECS,
        ),
        forall|n: u64|
            1 <= n <= POLL_INTERVAL_SECS ==> #[trigger] step_spec(Phase::Interval(n), true, Outcome::Slept)
                == (Step {
                action: if n > 1 {
                    Action::Sleep
                } else {
                    Action::Poll
                },
                effect: no_effect(),
                rejected: None,
            }) && next_phase_spec(Phase::Interval(n), true, Outcome::Slept) == if n > 1 {
                Phase::Interval((n - 1) as u64)
            } else {
                Phase::Polling
            },
{
}

} // verus!
