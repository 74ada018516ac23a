use particle_swarm::arena::Arena;
use particle_swarm::fixed::UNIT;
use particle_swarm::meter::FrameClock;
use particle_swarm::particle::Particle;
use particle_swarm::session::{Action, Event, Phase, Session};
use particle_swarm::spawn::get_particles;
use particle_swarm::swarm::Swarm;

fn particles_of(swarm: &Swarm) -> Vec<Particle> {
    (0..swarm.len()).map(|i| swarm.get(i).unwrap()).collect()
}

fn small_swarm() -> Vec<Particle> {
    vec![
        Particle { x: -UNIT / 2, y: 100 * UNIT, speed_x: -UNIT, speed_y: 0 },
        Particle { x: 200 * UNIT, y: 200 * UNIT, speed_x: UNIT, speed_y: 2 * UNIT },
        Particle { x: 203 * UNIT, y: 200 * UNIT, speed_x: -UNIT / 2, speed_y: UNIT / 4 },
    ]
}

#[test]
fn session_starts_idle_and_runs_once_started() {
    let mut session = Session::new(Arena::standard(), Swarm::from_particles(small_swarm()).unwrap());
    assert_eq!(session.phase(), Phase::Idle);
    assert_eq!(session.clock(), FrameClock { counter: 0, last_timestamp: 0, current_rate: 0 });
    assert_eq!(particles_of(session.swarm()), small_swarm());
    assert_eq!(session.arena().side(), 500 * UNIT);
    assert_eq!(session.arena().size(), 5 * UNIT);

    assert_eq!(session.handle(Event::Start), Action::RequestFrame);
    assert_eq!(session.phase(), Phase::Running);
    assert_eq!(session.clock(), FrameClock::new());
    assert_eq!(particles_of(session.swarm()), small_swarm());
}

#[test]
fn idle_session_ignores_frames() {
    let mut session = Session::new(Arena::standard(), Swarm::from_particles(small_swarm()).unwrap());
    for frame in 1..=12 {
        assert_eq!(session.handle(Event::Frame { timestamp: frame * 16 * UNIT }), Action::Nothing);
    }
    assert_eq!(session.phase(), Phase::Idle);
    assert_eq!(session.clock(), FrameClock::new());
    assert_eq!(particles_of(session.swarm()), small_swarm());
}

#[test]
fn running_session_is_started_only_once() {
    let mut session = Session::new(Arena::standard(), Swarm::from_particles(small_swarm()).unwrap());
    assert_eq!(session.handle(Event::Start), Action::RequestFrame);
    assert_eq!(session.handle(Event::Start), Action::Nothing);
    session.handle(Event::Frame { timestamp: 16 * UNIT });
    let before = particles_of(session.swarm());
    assert_eq!(session.handle(Event::Start), Action::Nothing);
    assert_eq!(session.phase(), Phase::Running);
    assert_eq!(session.clock().counter, 1);
    assert_eq!(particles_of(session.swarm()), before);
}

#[test]
fn frame_steps_the_swarm_and_ticks_the_clock() {
    let arena = Arena::standard();
    let mut session = Session::new(arena, Swarm::from_particles(small_swarm()).unwrap());
    session.handle(Event::Start);
    let action = session.handle(Event::Frame { timestamp: 16 * UNIT });
    assert_eq!(action, Action::Render { rate: 0, publish: false });
    assert_eq!(session.phase(), Phase::Running);
    assert_eq!(session.clock(), FrameClock { counter: 1, last_timestamp: 0, current_rate: 0 });

    let mut alone = Swarm::from_particles(small_swarm()).unwrap();
    alone.step(&arena);
    assert_eq!(particles_of(session.swarm()), particles_of(&alone));
    assert_eq!(
        particles_of(session.swarm()),
        vec![
            Particle { x: UNIT / 2, y: 100 * UNIT, speed_x: UNIT, speed_y: 0 },
            Particle { x: 199 * UNIT, y: 198 * UNIT, speed_x: -UNIT, speed_y: -2 * UNIT },
            Particle { x: 203 * UNIT + UNIT / 2, y: 200 * UNIT - UNIT / 4, speed_x: UNIT / 2, speed_y: -UNIT / 4 },
        ]
    );
}

#[test]
fn rate_is_published_when_a_window_closes() {
    let mut session = Session::new(Arena::standard(), Swarm::from_particles(small_swarm()).unwrap());
    session.handle(Event::Start);
    let mut shown = 0;
    for frame in 1..=25i64 {
        let action = session.handle(Event::Frame { timestamp: frame * 10 * UNIT });
        if frame % 10 == 0 {
            // The first window is measured from zero, like every later one here.
            assert_eq!(action, Action::Render { rate: 100 * UNIT, publish: true });
            shown = 100 * UNIT;
        } else {
            assert_eq!(action, Action::Render { rate: shown, publish: false });
        }
        assert_eq!(session.clock().current_rate, shown);
        assert_eq!(session.clock().counter, frame as u32);
    }
    assert_eq!(session.clock().last_timestamp, 200 * UNIT);
}

#[test]
fn frame_determinism() {
    let arena = Arena::standard();
    let start = particles_of(&get_particles(60, &arena));
    let timestamps: Vec<i64> = (1..=40).map(|frame| frame * 16_700_000 + frame % 3).collect();

    let run = |particles: Vec<Particle>| {
        let mut session = Session::new(arena, Swarm::from_particles(particles).unwrap());
        session.handle(Event::Start);
        let mut states = Vec::new();
        for timestamp in timestamps.iter() {
            let action = session.handle(Event::Frame { timestamp: *timestamp });
            states.push((particles_of(session.swarm()), session.clock(), action));
        }
        states
    };

    let first = run(start.clone());
    let second = run(start.clone());
    assert_eq!(first.len(), 40);
    assert_eq!(first, second);
    assert_ne!(first[0].0, start);
}
