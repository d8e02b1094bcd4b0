use vstd::prelude::*;

use crate::admission::{AdmissionController, Permit};
use crate::model::{next, Outcome, Snapshot, Step};

verus! {

/// Where the accept loop stands.
#[derive(PartialEq, Eq, Structural, Clone, Copy, Debug)]
pub enum Phase {
    Listening,
    ShuttingDown,
    Stopped,
}

/// What woke the accept loop: whichever of its waits finished first.
#[derive(PartialEq, Eq, Structural, Clone, Copy, Debug)]
pub enum Event {
    /// An inbound connection is ready.
    Connection,
    /// One attempt to accept failed; the loop goes on.
    AcceptFailed,
    /// The shutdown trigger fired.
    Shutdown,
}

/// What the accept loop is to do next.
pub enum Action {
    /// Start a handler for the connection; it owns the permit and gives it
    /// back when it ends.
    Admit(Permit),
    /// Turn the connection away: `active` connections were live, at or over
    /// the limit.
    Reject { active: usize },
    /// Wait for the next event.
    Resume,
    /// Leave the loop; `final_count` connections were live when it stopped.
    Stop { final_count: usize },
    /// The loop has stopped already; the event changes nothing.
    Ignore,
}

/// The step of the server model that an event of the accept loop is.
pub open spec fn step_of(e: Event) -> Step {
    match e {
        Event::Connection => Step::Arrive,
        Event::AcceptFailed => Step::AcceptFailed,
        Event::Shutdown => Step::Shutdown,
    }
}

/// What an action says happened, in the terms of the server model.
pub open spec fn outcome_of(a: Action) -> Outcome {
    match a {
        Action::Admit(_) => Outcome::Admitted,
        Action::Reject { .. } => Outcome::Rejected,
        Action::Resume => Outcome::Resumed,
        Action::Stop { final_count } => Outcome::Reported(final_count as nat),
        Action::Ignore => Outcome::Ignored,
    }
}

/// Handling `event` in phase `before`, having seen `seen` connections live, is
/// the model step that leads to phase `after` with action `a`: same outcome, and
/// the count after an admission, or the count seen on a rejection, is the one
/// the action carries.
pub open spec fn is_model_step(
    before: Phase,
    seen: nat,
    max: nat,
    event: Event,
    after: Phase,
    a: Action,
) -> bool {
    let (t, o) = next(Snapshot { phase: before, active: seen, max }, step_of(event));
    &&& t.phase == after
    &&& o == outcome_of(a)
    &&& (a matches Action::Admit(p) ==> t.active == p.active())
    &&& (a matches Action::Reject { active } ==> seen == active)
}

/// The decisions of the accept loop. The loop itself, which waits for a
/// connection or the shutdown trigger, lives with the caller; it hands each
/// event here and carries out the action it gets back.
pub struct Acceptor {
    phase: Phase,
}

impl Acceptor {
    pub closed spec fn phase(&self) -> Phase {
        self.phase
    }

    /// A loop that is listening.
    pub fn new() -> (r: Self)
        ensures
            r.phase() == Phase::Listening,
    {
        Acceptor { phase: Phase::Listening }
    }

    pub fn current_phase(&self) -> (r: Phase)
        ensures
            r == self.phase(),
    {
        self.phase
    }

    /// Handles one event. While listening, a connection is admitted through
    /// `gate` or turned away, a failed accept is passed over, and the
    /// shutdown trigger stops the loop with the live count read at that
    /// moment. Once stopped, every event is ignored: no admission happens.
    pub fn on_event(&mut self, event: Event, gate: &AdmissionController) -> (r: Action)
        ensures
            old(self).phase() != Phase::Listening ==> {
                &&& r is Ignore
                &&& final(self).phase() == old(self).phase()
            },
            old(self).phase() == Phase::Listening ==> match event {
                Event::Connection => {
                    &&& final(self).phase() == Phase::Listening
                    &&& match r {
                        Action::Admit(p) => 1 <= p.active() <= gate.limit() && p.limit()
                            == gate.limit(),
                        Action::Reject { active } => active >= gate.limit(),
                        _ => false,
                    }
                },
                Event::AcceptFailed => r is Resume && final(self).phase() == Phase::Listening,
                Event::Shutdown => r is Stop && final(self).phase() == Phase::Stopped,
            },
            match r {
                Action::Admit(p) => is_model_step(
                    old(self).phase(),
                    (p.active() - 1) as nat,
                    gate.limit() as nat,
                    event,
                    final(self).phase(),
                    r,
                ),
                Action::Reject { active } => is_model_step(
                    old(self).phase(),
                    active as nat,
                    gate.limit() as nat,
                    event,
                    final(self).phase(),
                    r,
                ),
                Action::Stop { final_count } => is_model_step(
                    old(self).phase(),
                    final_count as nat,
                    gate.limit() as nat,
                    event,
                    final(self).phase(),
                    r,
                ),
                _ => is_model_step(
                    old(self).phase(),
                    0,
                    gate.limit() as nat,
                    event,
                    final(self).phase(),
                    r,
                ),
            },
    {
        if self.phase != Phase::Listening {
            return Action::Ignore;
        }
        match event {
            Event::Connection => {
                let (permit, active) = gate.try_admit();
                match permit {
                    Some(p) => Action::Admit(p),
                    None => Action::Reject { active },
                }
            },
            Event::AcceptFailed => Action::Resume,
            Event::Shutdown => {
                self.phase = Phase::ShuttingDown;
                let final_count = gate.active();
                self.phase = Phase::Stopped;
                Action::Stop { final_count }
            },
        }
    }
}

} // verus!
