use particle_swarm::arena::Arena;
use particle_swarm::fixed::UNIT;
use particle_swarm::spawn::{
    get_particles, get_random_position, get_random_speed, position_from_draw, speed_from_draw, DRAW_RANGE,
    MAX_SPEED, MIN_SPEED,
};

#[test]
fn speed_limits() {
    assert_eq!(MIN_SPEED, UNIT / 10);
    assert_eq!(MAX_SPEED, 3 * UNIT);
    assert_eq!(DRAW_RANGE, u64::MAX as u128 + 1);
}

#[test]
fn position_is_the_drawn_fraction_of_the_span() {
    let arena = Arena::standard();
    assert_eq!(position_from_draw(0, &arena), 0);
    assert_eq!(position_from_draw(37_266_149_643, &arena), 0);
    assert_eq!(position_from_draw(37_266_149_644, &arena), 1);
    assert_eq!(position_from_draw(1 << 62, &arena), 123_750_000);
    assert_eq!(position_from_draw(1 << 63, &arena), 247_500_000);
    assert_eq!(position_from_draw(12_345_678_901_234_567_890, &arena), 331_283_994);
    assert_eq!(position_from_draw(u64::MAX, &arena), 494_999_999);
}

#[test]
fn position_in_an_arena_without_room_is_zero() {
    let arena = Arena::new(8 * UNIT, 8 * UNIT).unwrap();
    assert_eq!(position_from_draw(0, &arena), 0);
    assert_eq!(position_from_draw(u64::MAX, &arena), 0);
    assert_eq!(get_random_position(&arena), 0);
}

#[test]
fn position_in_the_largest_arena_does_not_overflow() {
    let arena = Arena::new(i64::MAX, 1).unwrap();
    assert_eq!(position_from_draw(0, &arena), 0);
    assert_eq!(position_from_draw(1 << 63, &arena), (i64::MAX - 1) / 2);
    assert_eq!(position_from_draw(u64::MAX, &arena), i64::MAX - 2);
}

#[test]
fn speed_is_the_drawn_fraction_between_the_limits() {
    assert_eq!(speed_from_draw(0, true), 100_000);
    assert_eq!(speed_from_draw(0, false), -100_000);
    assert_eq!(speed_from_draw(1 << 62, true), 825_000);
    assert_eq!(speed_from_draw(1 << 63, true), 1_550_000);
    assert_eq!(speed_from_draw(1 << 63, false), -1_550_000);
    assert_eq!(speed_from_draw(12_345_678_901_234_567_890, false), -2_040_855);
    assert_eq!(speed_from_draw(u64::MAX, true), 2_999_999);
    assert_eq!(speed_from_draw(u64::MAX, false), -2_999_999);
}

#[test]
fn random_position_lies_in_the_arena() {
    let arena = Arena::standard();
    let mut low = 0;
    let mut high = 0;
    for _ in 0..4000 {
        let position = get_random_position(&arena);
        assert!(0 <= position && position < arena.span());
        if position < arena.span() / 2 {
            low += 1;
        } else {
            high += 1;
        }
    }
    assert!(low > 0 && high > 0);
}

#[test]
fn random_speed_lies_between_the_limits_either_way() {
    let mut forward = 0;
    let mut backward = 0;
    for _ in 0..4000 {
        let speed = get_random_speed();
        assert!(MIN_SPEED <= speed.abs() && speed.abs() < MAX_SPEED);
        if speed > 0 {
            forward += 1;
        } else {
            backward += 1;
        }
    }
    assert!(forward > 0 && backward > 0);
}

#[test]
fn swarm_has_the_amount_asked_for() {
    let arena = Arena::standard();
    for amount in [0u32, 1, 2, 17, 3000] {
        let swarm = get_particles(amount, &arena);
        assert_eq!(swarm.len(), amount as usize);
        for i in 0..swarm.len() {
            let p = swarm.get(i).unwrap();
            assert!(0 <= p.x && p.x < arena.span());
            assert!(0 <= p.y && p.y < arena.span());
            assert!(MIN_SPEED <= p.speed_x.abs() && p.speed_x.abs() < MAX_SPEED);
            assert!(MIN_SPEED <= p.speed_y.abs() && p.speed_y.abs() < MAX_SPEED);
        }
    }
}

#[test]
fn two_swarms_differ() {
    let arena = Arena::standard();
    let a = get_particles(50, &arena);
    let b = get_particles(50, &arena);
    assert!((0..50).any(|i| a.get(i) != b.get(i)));
    assert!((1..50).any(|i| a.get(i) != a.get(0)));
}
