//! The life cycle of the server: `Starting`, `Serving`, `Draining`,
//! `Stopped`.
//!
//! The coordinator decides; its caller does the outside work. The caller
//! reports what happened as an [`Event`] and carries out the [`Action`] that
//! comes back: it binds the listener, runs the server, waits on the shutdown
//! channel and stops the server.

use vstd::prelude::*;

verus! {

/// The request to stop the server: it carries nothing, and one is enough.
#[derive(Clone, Copy, Debug, PartialEq, Eq, Structural)]
pub struct ShutdownSignal {}

/// Where the server is in its life.
#[derive(Clone, Copy, Debug, PartialEq, Eq, Structural)]
pub enum Phase {
    /// The listener is not bound yet.
    Starting,
    /// Requests are accepted and handled.
    Serving,
    /// No new connection is accepted; accepted requests run to their end.
    Draining,
    /// Nothing runs any more. The process exits.
    Stopped,
}

/// What the caller reports to the coordinator.
#[derive(Clone, Copy, Debug, PartialEq, Eq, Structural)]
pub enum Event {
    /// The listener was bound at the configured address.
    Bound,
    /// The listener could not be bound.
    BindFailed,
    /// A shutdown signal came out of the channel.
    Shutdown,
    /// The last accepted request has completed and the listener is closed.
    Drained,
}

/// What the coordinator asks of its caller.
#[derive(Clone, Copy, Debug, PartialEq, Eq, Structural)]
pub enum Action {
    /// Nothing to do: the event changes nothing.
    Ignore,
    /// Accept requests and wait for a shutdown signal.
    Serve,
    /// Give up: the server never served.
    Abort,
    /// Stop accepting connections and let the accepted requests complete.
    Drain,
    /// Leave the process in the ordinary way.
    Exit,
}

/// The phase that follows `phase` on `event`, and the action to take.
pub open spec fn transition(phase: Phase, event: Event) -> (Phase, Action) {
    match (phase, event) {
        (Phase::Starting, Event::Bound) => (Phase::Serving, Action::Serve),
        (Phase::Starting, Event::BindFailed) => (Phase::Stopped, Action::Abort),
        (Phase::Serving, Event::Shutdown) => (Phase::Draining, Action::Drain),
        (Phase::Draining, Event::Drained) => (Phase::Stopped, Action::Exit),
        _ => (phase, Action::Ignore),
    }
}

/// The phase reached from `phase` after all of `events`, and the actions
/// taken on the way, one for each event.
pub open spec fn run(phase: Phase, events: Seq<Event>) -> (Phase, Seq<Action>)
    decreases events.len(),
{
    if events.len() == 0 {
        (phase, Seq::<Action>::empty())
    } else {
        let (reached, taken) = run(phase, events.drop_last());
        let (next, action) = transition(reached, events.last());
        (next, taken.push(action))
    }
}

/// How often `action` occurs in `taken`.
pub open spec fn occurrences(taken: Seq<Action>, action: Action) -> nat
    decreases taken.len(),
{
    if taken.len() == 0 {
        0
    } else {
        occurrences(taken.drop_last(), action) + if taken.last() == action {
            1nat
        } else {
            0nat
        }
    }
}

/// How far a phase is along the life cycle.
pub open spec fn rank(phase: Phase) -> nat {
    match phase {
        Phase::Starting => 0,
        Phase::Serving => 1,
        Phase::Draining => 2,
        Phase::Stopped => 3,
    }
}

/// The coordinator of one server.
#[derive(Debug)]
pub struct Coordinator {
    phase: Phase,
}

impl Coordinator {
    /// The phase the coordinator is in.
    pub closed spec fn spec_phase(&self) -> Phase {
        self.phase
    }

    /// A coordinator for a server that has not bound its listener yet.
    pub fn new() -> (r: Coordinator)
        ensures
            r.spec_phase() == Phase::Starting,
    {
        Coordinator { phase: Phase::Starting }
    }

    /// The phase the coordinator is in.
    #[verifier::when_used_as_spec(spec_phase)]
    pub fn phase(&self) -> (r: Phase)
        ensures
            r == self.spec_phase(),
    {
        self.phase
    }

    /// Whether new connections are accepted: only while serving.
    pub fn is_accepting(&self) -> (r: bool)
        ensures
            r == (self.spec_phase() == Phase::Serving),
    {
        match self.phase {
            Phase::Serving => true,
            _ => false,
        }
    }

    /// Takes note of `event` and says what to do about it.
    pub fn handle(&mut self, event: Event) -> (action: Action)
        ensures
            (final(self).spec_phase(), action) == transition(old(self).spec_phase(), event),
    {
        let (next, action) = match (self.phase, event) {
            (Phase::Starting, Event::Bound) => (Phase::Serving, Action::Serve),
            (Phase::Starting, Event::BindFailed) => (Phase::Stopped, Action::Abort),
            (Phase::Serving, Event::Shutdown) => (Phase::Draining, Action::Drain),
            (Phase::Draining, Event::Drained) => (Phase::Stopped, Action::Exit),
            (phase, _) => (phase, Action::Ignore),
        };
        self.phase = next;
        action
    }
}

/// A shutdown signal that follows another changes nothing and asks for
/// nothing, whatever the phase in which the first one came.
pub proof fn lemma_second_shutdown_is_ignored(phase: Phase)
    ensures
        transition(transition(phase, Event::Shutdown).0, Event::Shutdown) == (
            transition(phase, Event::Shutdown).0,
            Action::Ignore,
        ),
{
}

/// Once stopped, always stopped: no event leads anywhere or asks for
/// anything.
pub proof fn lemma_stopped_is_final(events: Seq<Event>)
    ensures
        run(Phase::Stopped, events).0 == Phase::Stopped,
        forall|i: int|
            0 <= i < events.len() ==> (#[trigger] run(Phase::Stopped, events).1[i])
                == Action::Ignore,
        run(Phase::Stopped, events).1.len() == events.len(),
    decreases events.len(),
{
    if events.len() > 0 {
        lemma_stopped_is_final(events.drop_last());
    }
}

/// The life cycle only moves forward, and every event is answered by one
/// action.
pub proof fn lemma_run_moves_forward(phase: Phase, events: Seq<Event>)
    ensures
        rank(phase) <= rank(run(phase, events).0),
        run(phase, events).1.len() == events.len(),
    decreases events.len(),
{
    if events.len() > 0 {
        lemma_run_moves_forward(phase, events.drop_last());
    }
}

/// The steps that were taken since the start, whatever the events and
/// however many shutdown signals are among them: the phase reached tells
/// which, and none is taken twice. A server that stopped either failed to
/// bind and did nothing else, or served, drained and left in that order.
pub proof fn lemma_steps_taken(events: Seq<Event>)
    ensures
        ({
            let (reached, taken) = run(Phase::Starting, events);
            let serves = occurrences(taken, Action::Serve);
            let drains = occurrences(taken, Action::Drain);
            let exits = occurrences(taken, Action::Exit);
            let aborts = occurrences(taken, Action::Abort);
            match reached {
                Phase::Starting => serves == 0 && drains == 0 && exits == 0 && aborts == 0,
                Phase::Serving => serves == 1 && drains == 0 && exits == 0 && aborts == 0,
                Phase::Draining => serves == 1 && drains == 1 && exits == 0 && aborts == 0,
                Phase::Stopped => (serves == 0 && drains == 0 && exits == 0 && aborts == 1) || (
                serves == 1 && drains == 1 && exits == 1 && aborts == 0),
            }
        }),
    decreases events.len(),
{
    if events.len() > 0 {
        lemma_steps_taken(events.drop_last());
        let (reached, taken) = run(Phase::Starting, events.drop_last());
        let action = transition(reached, events.last()).1;
        assert(taken.push(action).drop_last() == taken);
    }
}

/// While the server is serving, the events start a drain exactly when a
/// shutdown signal is among them, and then exactly one.
pub proof fn lemma_one_drain_per_run(events: Seq<Event>)
    ensures
        occurrences(run(Phase::Serving, events).1, Action::Drain) == if events.contains(
            Event::Shutdown,
        ) {
            1nat
        } else {
            0nat
        },
        events.contains(Event::Shutdown) <==> rank(run(Phase::Serving, events).0) >= 2,
    decreases events.len(),
{
    if events.len() > 0 {
        let front = events.drop_last();
        lemma_one_drain_per_run(front);
        lemma_run_moves_forward(Phase::Serving, front);
        let (reached, taken) = run(Phase::Serving, front);
        let action = transition(reached, events.last()).1;
        assert(taken.push(action).drop_last() == taken);
        assert(events.contains(Event::Shutdown) <==> (front.contains(Event::Shutdown)
            || events.last() == Event::Shutdown)) by {
            if front.contains(Event::Shutdown) {
                let i = choose|i: int| 0 <= i < front.len() && front[i] == Event::Shutdown;
                assert(events[i] == Event::Shutdown);
            }
            if events.last() == Event::Shutdown {
                assert(events[events.len() - 1] == Event::Shutdown);
            }
            if events.contains(Event::Shutdown) {
                let i = choose|i: int| 0 <= i < events.len() && events[i] == Event::Shutdown;
                if i < front.len() {
                    assert(front[i] == Event::Shutdown);
                }
            }
        }
    }
}

/// A failed bind is fatal: the server never serves, whatever follows.
pub proof fn lemma_bind_failure_is_fatal(events: Seq<Event>)
    requires
        events.len() >= 1,
        events[0] == Event::BindFailed,
    ensures
        run(Phase::Starting, events).0 == Phase::Stopped,
        run(Phase::Starting, events).1[0] == Action::Abort,
        forall|i: int|
            1 <= i < events.len() ==> (#[trigger] run(Phase::Starting, events).1[i])
                == Action::Ignore,
    decreases events.len(),
{
    lemma_run_moves_forward(Phase::Starting, events.drop_last());
    if events.len() == 1 {
        assert(events.drop_last() == Seq::<Event>::empty());
    } else {
        lemma_bind_failure_is_fatal(events.drop_last());
    }
}

} // verus!
