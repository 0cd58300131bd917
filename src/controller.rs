//! The simulation loop as a state machine. The loop alternates render, receive
//! and (on a tick) one physics step; the controller decides which comes next
//! from what the last one produced, and owns the exit state.
use crate::events::{ConsoleEvent, Event, KeyCode, KeyEvent, KeyEventKind, QUIT_KEY};
use vstd::prelude::*;

verus! {

/// What one received event asks of the simulation.
#[derive(Clone, Copy, Debug, PartialEq, Eq, Structural)]
pub enum Reaction {
    /// Advance the bodies by one physics step.
    Physics,
    /// Set the exit flag.
    Quit,
    /// Nothing changes.
    Ignore,
}

/// The work that the loop does next.
#[derive(Clone, Copy, Debug, PartialEq, Eq, Structural)]
pub enum Phase {
    /// Draw the bodies.
    Render,
    /// Block on the bus for the next event.
    Receive,
    /// Run one physics step.
    Step,
    /// The exit flag is set: the loop ends successfully.
    Finished,
    /// The bus closed while receiving: the loop ends with an error.
    Failed,
}

/// What the loop reports back after doing the work of a phase.
#[derive(Clone, Copy, Debug, PartialEq, Eq, Structural)]
pub enum Outcome {
    Rendered,
    Received(Event),
    /// Every producer is gone: `recv` failed.
    Closed,
    Stepped,
}

pub open spec fn is_quit_key(code: KeyCode) -> bool {
    code == KeyCode::Char(QUIT_KEY)
}

/// The reaction to a key press.
pub open spec fn key_reaction(key: KeyEvent) -> Reaction {
    if is_quit_key(key.code) {
        Reaction::Quit
    } else {
        Reaction::Ignore
    }
}

/// The reaction to an event: a tick steps the physics, a key press goes by its
/// key, and any other terminal input (releases and repeats included) is ignored.
pub open spec fn reaction_of(e: Event) -> Reaction {
    match e {
        Event::DrawInterrupt => Reaction::Physics,
        Event::Console(ConsoleEvent::Key(k)) => if k.kind == KeyEventKind::Press {
            key_reaction(k)
        } else {
            Reaction::Ignore
        },
        Event::Console(ConsoleEvent::Other) => Reaction::Ignore,
    }
}

/// One transition of the loop. An outcome that does not answer the work of the
/// current phase leaves the phase as it is.
pub open spec fn next_phase(p: Phase, o: Outcome) -> Phase {
    match (p, o) {
        (Phase::Render, Outcome::Rendered) => Phase::Receive,
        (Phase::Receive, Outcome::Received(e)) => match reaction_of(e) {
            Reaction::Physics => Phase::Step,
            Reaction::Quit => Phase::Finished,
            Reaction::Ignore => Phase::Render,
        },
        (Phase::Receive, Outcome::Closed) => Phase::Failed,
        (Phase::Step, Outcome::Stepped) => Phase::Render,
        _ => p,
    }
}

/// The phase reached from `p` after the outcomes `os`, in order.
pub open spec fn run(p: Phase, os: Seq<Outcome>) -> Phase
    decreases os.len(),
{
    if os.len() == 0 {
        p
    } else {
        run(next_phase(p, os[0]), os.drop_first())
    }
}

/// Once the loop has finished or failed, no outcome moves it on: no physics step
/// and no render follows.
pub proof fn lemma_stopped_stays(p: Phase, os: Seq<Outcome>)
    requires
        p is Finished || p is Failed,
    ensures
        run(p, os) == p,
    decreases os.len(),
{
    if os.len() > 0 {
        lemma_stopped_stays(next_phase(p, os[0]), os.drop_first());
    }
}

/// A tick taken off the bus gives exactly one physics step and then exactly one
/// render: the loop stays at the step until it is reported done, then stays at
/// the render until that is reported done, and only then receives again.
pub proof fn lemma_tick_steps_once_then_renders(o: Outcome)
    ensures
        next_phase(Phase::Receive, Outcome::Received(Event::DrawInterrupt)) == Phase::Step,
        next_phase(Phase::Step, o) == (if o is Stepped {
            Phase::Render
        } else {
            Phase::Step
        }),
        next_phase(Phase::Render, o) == (if o is Rendered {
            Phase::Receive
        } else {
            Phase::Render
        }),
{
}

/// A press of the quit key ends the loop, and after it no outcome brings back a
/// physics step or a render.
pub proof fn lemma_quit_ends_loop(key: KeyEvent, os: Seq<Outcome>)
    requires
        key.kind == KeyEventKind::Press,
        is_quit_key(key.code),
    ensures
        next_phase(Phase::Receive, Outcome::Received(Event::Console(ConsoleEvent::Key(key))))
            == Phase::Finished,
        run(Phase::Finished, os) == Phase::Finished,
{
    lemma_stopped_stays(Phase::Finished, os);
}

/// When every producer is gone, the failed receive ends the loop with an error:
/// the loop never waits on the bus again.
pub proof fn lemma_closed_bus_fails(os: Seq<Outcome>)
    ensures
        next_phase(Phase::Receive, Outcome::Closed) == Phase::Failed,
        run(Phase::Failed, os) == Phase::Failed,
{
    lemma_stopped_stays(Phase::Failed, os);
}

/// The loop only waits on the bus right after a render, and only steps the
/// physics right after receiving a tick: at most one change of the bodies lies
/// between two renders.
pub proof fn lemma_render_before_receive(p: Phase, o: Outcome)
    ensures
        next_phase(p, o) == Phase::Receive && p != Phase::Receive
            ==> p == Phase::Render && o == Outcome::Rendered,
        next_phase(p, o) == Phase::Step && p != Phase::Step
            ==> p == Phase::Receive && o == Outcome::Received(Event::DrawInterrupt),
{
}

/// The reaction to a key press: only the quit key does anything.
pub fn handle_key_event(key: &KeyEvent) -> (r: Reaction)
    ensures
        r == key_reaction(*key),
{
    match key.code {
        KeyCode::Char(c) => if c == QUIT_KEY {
            Reaction::Quit
        } else {
            Reaction::Ignore
        },
        KeyCode::Other => Reaction::Ignore,
    }
}

/// The reaction to an event taken off the bus.
pub fn handle_event(e: &Event) -> (r: Reaction)
    ensures
        r == reaction_of(*e),
{
    match e {
        Event::DrawInterrupt => Reaction::Physics,
        Event::Console(ConsoleEvent::Key(k)) => {
            match k.kind {
                KeyEventKind::Press => handle_key_event(k),
                _ => Reaction::Ignore,
            }
        },
        Event::Console(ConsoleEvent::Other) => Reaction::Ignore,
    }
}

/// The single owner of the loop's state.
pub struct Controller {
    phase: Phase,
}

impl View for Controller {
    type V = Phase;

    closed spec fn view(&self) -> Phase {
        self.phase
    }
}

impl Controller {
    /// A running controller: the loop first draws the initial state.
    pub fn new() -> (c: Controller)
        ensures
            c@ == Phase::Render,
    {
        Controller { phase: Phase::Render }
    }

    /// The work that the loop does next.
    pub fn phase(&self) -> (r: Phase)
        ensures
            r == self@,
    {
        self.phase
    }

    /// Whether the exit flag is still clear and the bus still open.
    pub fn is_running(&self) -> (r: bool)
        ensures
            r == !(self@ is Finished || self@ is Failed),
    {
        match self.phase {
            Phase::Finished | Phase::Failed => false,
            _ => true,
        }
    }

    /// Moves to the next phase after the loop reports the outcome of its work.
    pub fn advance(&mut self, o: Outcome)
        ensures
            final(self)@ == next_phase(old(self)@, o),
    {
        let next = match (self.phase, o) {
            (Phase::Render, Outcome::Rendered) => Phase::Receive,
            (Phase::Receive, Outcome::Received(e)) => match handle_event(&e) {
                Reaction::Physics => Phase::Step,
                Reaction::Quit => Phase::Finished,
                Reaction::Ignore => Phase::Render,
            },
            (Phase::Receive, Outcome::Closed) => Phase::Failed,
            (Phase::Step, Outcome::Stepped) => Phase::Render,
            (p, _) => p,
        };
        self.phase = next;
    }
}

} // verus!
