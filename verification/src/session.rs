use vstd::prelude::*;
use crate::arena::Arena;
use crate::meter::FrameClock;
use crate::particle::Particle;
use crate::spawn::is_start_speed;
use crate::swarm::{
    all_reversible, hits, lemma_free_particle_stays_near, lemma_step_keeps_speeds, near_arena, stepped, Swarm,
};

verus! {

/// Where an animation session stands.
#[derive(Clone, Copy, Debug, PartialEq, Eq, Structural)]
pub enum Phase {
    /// Set up, but no frame has been asked for.
    Idle,
    /// A frame has been asked for from the host; each frame asks for the next.
    Running,
}

/// What the host reports to a session.
#[derive(Clone, Copy, Debug, PartialEq, Eq, Structural)]
pub enum Event {
    /// Set-up is complete.
    Start,
    /// The host calls back for a frame, at `timestamp` fixed-point milliseconds.
    Frame { timestamp: i64 },
}

/// What the caller has to do for a session after an event.
#[derive(Clone, Copy, Debug, PartialEq, Eq, Structural)]
pub enum Action {
    /// Nothing: the event does not apply in the session's phase.
    Nothing,
    /// Ask the host for the first frame.
    RequestFrame,
    /// Clear the surface, draw every particle of the swarm where it now is,
    /// show `rate`, make `rate` known to observers if `publish` is set, and
    /// ask the host for the next frame.
    Render { rate: i64, publish: bool },
}

/// The state of a session as contracts see it.
pub struct SessionView {
    pub phase: Phase,
    pub span: int,
    pub size: int,
    pub particles: Seq<Particle>,
    pub clock: FrameClock,
}

/// The state that follows `state` on `event`.
pub open spec fn after(state: SessionView, event: Event) -> SessionView {
    match (state.phase, event) {
        (Phase::Idle, Event::Start) => SessionView { phase: Phase::Running, ..state },
        (Phase::Running, Event::Frame { timestamp }) => SessionView {
            particles: stepped(state.particles, state.span, state.size),
            clock: state.clock.ticked(timestamp),
            ..state
        },
        _ => state,
    }
}

/// What is to be done when `event` arrives in `state`.
pub open spec fn action_for(state: SessionView, event: Event) -> Action {
    match (state.phase, event) {
        (Phase::Idle, Event::Start) => Action::RequestFrame,
        (Phase::Running, Event::Frame { timestamp }) => Action::Render {
            rate: state.clock.ticked(timestamp).current_rate,
            publish: state.clock.closes_window(),
        },
        _ => Action::Nothing,
    }
}

/// The state that follows `state` after all of `events`, in order.
pub open spec fn after_all(state: SessionView, events: Seq<Event>) -> SessionView
    decreases events.len(),
{
    if events.len() == 0 {
        state
    } else {
        after(after_all(state, events.drop_last()), events.last())
    }
}

/// A run is determined by where it starts and by the events it is given:
/// sessions that agree before a sequence of events agree after every event
/// of it.
pub proof fn lemma_same_start_same_run(a: SessionView, b: SessionView, events: Seq<Event>)
    requires
        a == b,
    ensures
        forall|k: int|
            0 <= k <= events.len() ==> #[trigger] after_all(a, events.take(k)) == after_all(
                b,
                events.take(k),
            ),
{
}

/// A session that runs goes on running, whatever events follow.
pub proof fn lemma_running_never_stops(state: SessionView, events: Seq<Event>)
    requires
        state.phase == Phase::Running,
    ensures
        after_all(state, events).phase == Phase::Running,
    decreases events.len(),
{
    if events.len() > 0 {
        lemma_running_never_stops(state, events.drop_last());
    }
}

/// No event changes the arena or the number of particles.
pub proof fn lemma_swarm_is_never_resized(state: SessionView, events: Seq<Event>)
    ensures
        after_all(state, events).particles.len() == state.particles.len(),
        after_all(state, events).span == state.span,
        after_all(state, events).size == state.size,
    decreases events.len(),
{
    if events.len() > 0 {
        lemma_swarm_is_never_resized(state, events.drop_last());
    }
}

/// For the whole of a run every velocity component keeps its size: whatever
/// events have come, it is what it was at the start or the negation of that.
pub proof fn lemma_speed_sizes_last(state: SessionView, events: Seq<Event>)
    requires
        all_reversible(state.particles),
    ensures
        all_reversible(after_all(state, events).particles),
        after_all(state, events).particles.len() == state.particles.len(),
        forall|i: int|
            #![trigger after_all(state, events).particles[i]]
            0 <= i < state.particles.len() ==> {
                let before = state.particles[i];
                let after = after_all(state, events).particles[i];
                &&& (after.speed_x == before.speed_x || after.speed_x == -before.speed_x)
                &&& (after.speed_y == before.speed_y || after.speed_y == -before.speed_y)
            },
    decreases events.len(),
{
    if events.len() > 0 {
        let earlier = after_all(state, events.drop_last());
        lemma_speed_sizes_last(state, events.drop_last());
        lemma_step_keeps_speeds(earlier.particles, earlier.span, earlier.size);
        assert forall|i: int| 0 <= i < state.particles.len() implies {
            let before = state.particles[i];
            let after = #[trigger] after_all(state, events).particles[i];
            &&& (after.speed_x == before.speed_x || after.speed_x == -before.speed_x)
            &&& (after.speed_y == before.speed_y || after.speed_y == -before.speed_y)
        } by {
            assert(state.particles[i].reversible());
            assert(earlier.particles[i].reversible());
        }
    }
}

/// Speeds that lie in the starting range at the start of a run lie in it for
/// the whole of the run.
pub proof fn lemma_start_speeds_last(state: SessionView, events: Seq<Event>)
    requires
        forall|i: int|
            0 <= i < state.particles.len() ==> is_start_speed(#[trigger] state.particles[i].speed_x as int)
                && is_start_speed(state.particles[i].speed_y as int),
    ensures
        after_all(state, events).particles.len() == state.particles.len(),
        forall|i: int|
            0 <= i < state.particles.len() ==> is_start_speed(
                #[trigger] after_all(state, events).particles[i].speed_x as int,
            ) && is_start_speed(after_all(state, events).particles[i].speed_y as int),
{
    assert(all_reversible(state.particles)) by {
        assert forall|i: int| 0 <= i < state.particles.len() implies (#[trigger] state.particles[i]).reversible() by {
            assert(is_start_speed(state.particles[i].speed_x as int));
        }
    }
    lemma_speed_sizes_last(state, events);
    assert forall|i: int| 0 <= i < state.particles.len() implies is_start_speed(
        #[trigger] after_all(state, events).particles[i].speed_x as int,
    ) && is_start_speed(after_all(state, events).particles[i].speed_y as int) by {
        assert(is_start_speed(state.particles[i].speed_x as int));
    }
}

/// A particle that is alone in its arena never gets away from it: if it
/// starts within reach of the arena, it is within reach after every event.
pub proof fn lemma_lone_particle_stays_near(state: SessionView, events: Seq<Event>)
    requires
        state.particles.len() == 1,
        state.particles[0].reversible(),
        0 <= state.span,
        near_arena(state.particles[0], state.span),
    ensures
        after_all(state, events).particles.len() == 1,
        after_all(state, events).particles[0].reversible(),
        near_arena(after_all(state, events).particles[0], state.span),
    decreases events.len(),
{
    if events.len() > 0 {
        let earlier = after_all(state, events.drop_last());
        lemma_lone_particle_stays_near(state, events.drop_last());
        lemma_swarm_is_never_resized(state, events.drop_last());
        assert(hits(earlier.particles, 0, earlier.size, 1) == 0) by {
            reveal_with_fuel(hits, 2);
        }
        lemma_free_particle_stays_near(earlier.particles, 0, earlier.span, earlier.size);
        lemma_step_keeps_speeds(earlier.particles, earlier.span, earlier.size);
    }
}

/// One run of the animation: an arena, the swarm in it and the clock that
/// measures its frames. The session decides; drawing and scheduling are left
/// to the caller, who reports each event and carries out the action returned.
pub struct Session {
    phase: Phase,
    arena: Arena,
    swarm: Swarm,
    clock: FrameClock,
}

impl View for Session {
    type V = SessionView;

    closed spec fn view(&self) -> SessionView {
        SessionView {
            phase: self.phase,
            span: self.arena.span() as int,
            size: self.arena.size() as int,
            particles: self.swarm@,
            clock: self.clock,
        }
    }
}

impl Session {
    /// An idle session over `swarm` in `arena`, with a clock that has seen no
    /// frame.
    pub fn new(arena: Arena, swarm: Swarm) -> (session: Session)
        ensures
            session@ == (SessionView {
                phase: Phase::Idle,
                span: arena.span() as int,
                size: arena.size() as int,
                particles: swarm@,
                clock: FrameClock { counter: 0, last_timestamp: 0, current_rate: 0 },
            }),
    {
        Session { phase: Phase::Idle, arena, swarm, clock: FrameClock::new() }
    }

    /// Takes one event. `Start` sets an idle session running. `Frame`
    /// advances a running session by one frame: the swarm takes a step, then
    /// the clock a tick. Any other event leaves the session as it is.
    pub fn handle(&mut self, event: Event) -> (action: Action)
        ensures
            final(self)@ == after(old(self)@, event),
            action == action_for(old(self)@, event),
    {
        match event {
            Event::Start => match self.phase {
                Phase::Idle => {
                    self.phase = Phase::Running;
                    Action::RequestFrame
                },
                Phase::Running => Action::Nothing,
            },
            Event::Frame { timestamp } => match self.phase {
                Phase::Idle => Action::Nothing,
                Phase::Running => {
                    self.swarm.step(&self.arena);
                    let publish = self.clock.tick(timestamp);
                    Action::Render { rate: self.clock.current_rate, publish }
                },
            },
        }
    }

    /// The session's phase.
    pub fn phase(&self) -> (phase: Phase)
        ensures
            phase == self@.phase,
    {
        self.phase
    }

    /// The swarm as the last frame left it.
    pub fn swarm(&self) -> (swarm: &Swarm)
        ensures
            swarm@ == self@.particles,
    {
        &self.swarm
    }

    /// The clock as the last frame left it.
    pub fn clock(&self) -> (clock: FrameClock)
        ensures
            clock == self@.clock,
    {
        self.clock
    }

    /// The arena the session runs in.
    pub fn arena(&self) -> (arena: &Arena)
        ensures
            arena.span() == self@.span,
            arena.size() == self@.size,
    {
        &self.arena
    }
}

} // verus!
