use vstd::prelude::*;
use crate::arena::Arena;
use crate::particle::Particle;
use crate::swarm::Swarm;

verus! {

/// Smallest speed a particle starts with on an axis, 0.1 units per frame.
pub const MIN_SPEED: i64 = 100_000;

/// Bound below which every starting speed lies, 3 units per frame.
pub const MAX_SPEED: i64 = 3_000_000;

/// Number of values that a draw can take, 2 to the 64th. A draw stands for
/// the fraction `draw / DRAW_RANGE`, which is at least zero and less than one.
pub const DRAW_RANGE: u128 = 0x1_0000_0000_0000_0000;

/// `length` times the fraction that `draw` stands for, rounded down.
pub open spec fn scaled(length: int, draw: u64) -> int {
    length * draw / DRAW_RANGE as int
}

/// The starting speed for a draw and a direction: between `MIN_SPEED` and
/// `MAX_SPEED` in size, forward or backward.
pub open spec fn speed_for(draw: u64, forward: bool) -> int {
    let size = MIN_SPEED + scaled(MAX_SPEED - MIN_SPEED, draw);
    if forward {
        size
    } else {
        -size
    }
}

/// `position` is one that a particle may start at on an axis of length `span`.
pub open spec fn is_start_position(position: int, span: int) -> bool {
    0 <= position <= span && (span > 0 ==> position < span)
}

/// `speed` is one that a particle may start with on an axis.
pub open spec fn is_start_speed(speed: int) -> bool {
    MIN_SPEED <= speed < MAX_SPEED || MIN_SPEED <= -speed < MAX_SPEED
}

/// `p` is as a particle may be when a swarm is made.
pub open spec fn is_fresh(p: Particle, span: int) -> bool {
    &&& is_start_position(p.x as int, span)
    &&& is_start_position(p.y as int, span)
    &&& is_start_speed(p.speed_x as int)
    &&& is_start_speed(p.speed_y as int)
}

/// Calls `rand::random` for a `u64`. Nothing is claimed of the value: every
/// `u64` may come back, and two calls need not agree.
#[verifier::external_body]
fn random_draw() -> (draw: u64) {
    rand::random::<u64>()
}

/// Calls `rand::random` for a `bool`. Nothing is claimed of the value.
#[verifier::external_body]
fn random_direction() -> (forward: bool) {
    rand::random::<bool>()
}

/// `length` times the fraction that `draw` stands for, rounded down.
fn scale(length: i64, draw: u64) -> (part: i64)
    requires
        0 <= length,
    ensures
        part == scaled(length as int, draw),
        is_start_position(part as int, length as int),
{
    proof {
        lemma_scaled_bounds(length as int, draw as int);
    }
    let product: u128 = length as u128 * draw as u128;
    (product / DRAW_RANGE) as i64
}

/// A fraction below one of a length is below the length.
proof fn lemma_scaled_bounds(length: int, draw: int)
    by (nonlinear_arith)
    requires
        0 <= length <= i64::MAX,
        0 <= draw < DRAW_RANGE,
        DRAW_RANGE == 0x1_0000_0000_0000_0000,
    ensures
        0 <= length * draw <= 0x7fff_ffff_ffff_ffff * 0xffff_ffff_ffff_ffff,
        0 <= length * draw / (DRAW_RANGE as int) <= length,
        length > 0 ==> length * draw / (DRAW_RANGE as int) < length,
{
}

/// The starting position on one axis of `arena` for `draw`.
pub fn position_from_draw(draw: u64, arena: &Arena) -> (position: i64)
    ensures
        position == scaled(arena.span() as int, draw),
        is_start_position(position as int, arena.span() as int),
{
    scale(arena.span(), draw)
}

/// The starting speed on one axis for `draw`, forward if `forward` is set
/// and backward if not.
pub fn speed_from_draw(draw: u64, forward: bool) -> (speed: i64)
    ensures
        speed == speed_for(draw, forward),
        is_start_speed(speed as int),
{
    let size = MIN_SPEED + scale(MAX_SPEED - MIN_SPEED, draw);
    if forward {
        size
    } else {
        -size
    }
}

/// A position on one axis of `arena`, drawn at random.
pub fn get_random_position(arena: &Arena) -> (position: i64)
    ensures
        is_start_position(position as int, arena.span() as int),
{
    position_from_draw(random_draw(), arena)
}

/// A speed on one axis, drawn at random in size and in direction.
pub fn get_random_speed() -> (speed: i64)
    ensures
        is_start_speed(speed as int),
{
    let draw = random_draw();
    speed_from_draw(draw, random_direction())
}

/// A swarm of `amount` particles, each placed and sent off at random.
/// Particles may lie on top of each other.
pub fn get_particles(amount: u32, arena: &Arena) -> (swarm: Swarm)
    ensures
        swarm@.len() == amount,
        forall|i: int| 0 <= i < swarm@.len() ==> is_fresh(#[trigger] swarm@[i], arena.span() as int),
{
    let mut particles: Vec<Particle> = Vec::new();
    let mut made: u32 = 0;
    while made < amount
        invariant
            made <= amount,
            particles@.len() == made,
            forall|i: int| 0 <= i < particles@.len() ==> is_fresh(#[trigger] particles@[i], arena.span() as int),
        decreases amount - made,
    {
        let x = get_random_position(arena);
        let y = get_random_position(arena);
        let speed_x = get_random_speed();
        let speed_y = get_random_speed();
        particles.push(Particle { x, y, speed_x, speed_y });
        made += 1;
    }
    Swarm::of_reversible(particles)
}

} // verus!
