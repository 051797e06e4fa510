use vstd::prelude::*;
use crate::error::BridgeError;

verus! {

/// Where the supervising loop stands in one resolve → open → relay →
/// pause cycle.
#[derive(Clone, Copy, Debug, PartialEq, Eq, Structural)]
pub enum SupervisorState {
    /// A device path is being looked up from the selector.
    Resolving,
    /// The resolved path is being opened.
    Opening,
    /// The relay is running on the open session.
    Relaying,
    /// Waiting a fixed interval before the next attempt.
    Pausing,
    /// A relay cycle ended cleanly and reconnecting is off: done, exit 0.
    Done,
    /// A failure with reconnecting off: fatal, exit non-zero.
    Failed,
}

/// What the world reported back to the supervisor.
#[derive(Clone, Copy, Debug, PartialEq, Eq, Structural)]
pub enum SupervisorEvent {
    /// Resolution produced a device path.
    Resolved,
    /// No matching device was found, or enumeration failed.
    ResolveFailed,
    /// The device opened.
    Opened,
    /// The device could not be opened.
    OpenFailed,
    /// The relay ended with a clean device end-of-stream.
    RelayClean,
    /// The relay ended with a hard device failure.
    RelayFailed,
    /// The pause interval is over.
    PauseOver,
}

/// The supervising loop's whole state: the mode it was started in, the
/// count of failed cycles so far, and where it stands.
pub struct Supervisor {
    /// Keep retrying after failures instead of giving up.
    pub reconnect: bool,
    /// How many cycles have failed since the start; log-only telemetry.
    pub retries: u64,
    /// Where the loop stands.
    pub state: SupervisorState,
}

/// Which events can arrive in which state. Terminal states accept none.
pub open spec fn accepts(s: SupervisorState, ev: SupervisorEvent) -> bool {
    match s {
        SupervisorState::Resolving => ev is Resolved || ev is ResolveFailed,
        SupervisorState::Opening => ev is Opened || ev is OpenFailed,
        SupervisorState::Relaying => ev is RelayClean || ev is RelayFailed,
        SupervisorState::Pausing => ev is PauseOver,
        SupervisorState::Done => false,
        SupervisorState::Failed => false,
    }
}

/// An event reports a failed cycle: resolution, open, or the relay
/// itself failed.
pub open spec fn is_failure(ev: SupervisorEvent) -> bool {
    ev is ResolveFailed || ev is OpenFailed || ev is RelayFailed
}

/// The supervisor's transition function. On a failure it pauses and
/// counts the failed cycle when reconnecting is on, and becomes fatal at
/// once when it is off; a clean relay end loops back to resolution when
/// reconnecting is on and is done when it is off.
pub open spec fn next(s: Supervisor, ev: SupervisorEvent) -> Supervisor {
    let st = if is_failure(ev) {
        if s.reconnect {
            SupervisorState::Pausing
        } else {
            SupervisorState::Failed
        }
    } else {
        match ev {
            SupervisorEvent::Resolved => SupervisorState::Opening,
            SupervisorEvent::Opened => SupervisorState::Relaying,
            SupervisorEvent::RelayClean => if s.reconnect {
                SupervisorState::Resolving
            } else {
                SupervisorState::Done
            },
            _ => SupervisorState::Resolving,  // PauseOver
        }
    };
    let c = if is_failure(ev) && s.reconnect {
        (s.retries + 1) as u64
    } else {
        s.retries
    };
    Supervisor { reconnect: s.reconnect, retries: c, state: st }
}

impl Supervisor {
    /// A fresh supervisor: no failed cycles yet, about to resolve.
    pub fn new(reconnect: bool) -> (r: Supervisor)
        ensures
            r.reconnect == reconnect,
            r.retries == 0,
            r.state == SupervisorState::Resolving,
    {
        Supervisor { reconnect, retries: 0, state: SupervisorState::Resolving }
    }

    /// Take one transition. The caller performs whatever the new state
    /// calls for (resolve, open, run the relay, pause, or exit) and
    /// reports the next event.
    pub fn step(&mut self, ev: SupervisorEvent)
        requires
            accepts(old(self).state, ev),
            old(self).retries < u64::MAX,
        ensures
            *final(self) == next(*old(self), ev),
    {
        let failure = matches!(ev, SupervisorEvent::ResolveFailed | SupervisorEvent::OpenFailed
            | SupervisorEvent::RelayFailed);
        if failure {
            if self.reconnect {
                self.state = SupervisorState::Pausing;
                self.retries = self.retries + 1;
            } else {
                self.state = SupervisorState::Failed;
            }
        } else {
            self.state = match ev {
                SupervisorEvent::Resolved => SupervisorState::Opening,
                SupervisorEvent::Opened => SupervisorState::Relaying,
                SupervisorEvent::RelayClean => if self.reconnect {
                    SupervisorState::Resolving
                } else {
                    SupervisorState::Done
                },
                _ => SupervisorState::Resolving,
            };
        }
    }
    /// Record a resolve-and-open attempt that ended in `e` while
    /// resolving: a resolution error is one failed transition, while
    /// any other error means resolution succeeded and the open failed,
    /// so the machine passes through `Opening` on the way.
    pub fn step_open_failure(&mut self, e: BridgeError)
        requires
            old(self).state == SupervisorState::Resolving,
            old(self).retries < u64::MAX,
        ensures
            event_for_error(e) is ResolveFailed ==> *final(self) == next(
                *old(self),
                SupervisorEvent::ResolveFailed,
            ),
            event_for_error(e) is OpenFailed ==> *final(self) == next(
                next(*old(self), SupervisorEvent::Resolved),
                SupervisorEvent::OpenFailed,
            ),
    {
        match e {
            BridgeError::PortNotFound | BridgeError::EnumerationFailed => {
                self.step(SupervisorEvent::ResolveFailed);
            }
            _ => {
                self.step(SupervisorEvent::Resolved);
                self.step(SupervisorEvent::OpenFailed);
            }
        }
    }
}

/// Which event a failed resolve-and-open attempt reports: no matching
/// port and a failed enumeration are resolution failures; a missing or
/// bad rate and a failed open happen after resolution.
pub open spec fn event_for_error(e: BridgeError) -> SupervisorEvent {
    if e == BridgeError::PortNotFound || e == BridgeError::EnumerationFailed {
        SupervisorEvent::ResolveFailed
    } else {
        SupervisorEvent::OpenFailed
    }
}

/// After a failed cycle in reconnect mode the supervisor does not give
/// up: it pauses, counts the failure, and once the pause is over it is
/// resolving again — so re-resolution and re-open are attempted at least
/// once more, and the retry counter strictly increases with each failed
/// cycle.
pub proof fn lemma_reconnect_retries(s: Supervisor, ev: SupervisorEvent)
    requires
        s.reconnect,
        accepts(s.state, ev),
        is_failure(ev),
        s.retries < u64::MAX,
    ensures
        next(s, ev).state == SupervisorState::Pausing,
        next(s, ev).retries == s.retries + 1,
        next(next(s, ev), SupervisorEvent::PauseOver).state == SupervisorState::Resolving,
        next(next(s, ev), SupervisorEvent::PauseOver).retries == s.retries + 1,
{
}

/// With reconnecting off, a failure at open time is fatal at once: the
/// supervisor reaches its fatal state, the retry counter does not move,
/// and no further event — no retry attempt — is accepted.
pub proof fn lemma_no_reconnect_open_failure(s: Supervisor, ev: SupervisorEvent)
    requires
        !s.reconnect,
        s.state == SupervisorState::Opening,
        ev == SupervisorEvent::OpenFailed,
    ensures
        next(s, ev).state == SupervisorState::Failed,
        next(s, ev).retries == s.retries,
        forall|later: SupervisorEvent| !accepts(next(s, ev).state, later),
{
}

} // verus!
