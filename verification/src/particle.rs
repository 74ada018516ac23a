use vstd::prelude::*;
use crate::arena::Arena;
use crate::fixed::saturated;

verus! {

/// A disc, given by the top-left corner of its bounding square and by its
/// velocity per frame on each axis.
#[derive(Clone, Copy, Debug, PartialEq, Eq, Structural)]
pub struct Particle {
    pub x: i64,
    pub y: i64,
    pub speed_x: i64,
    pub speed_y: i64,
}

impl Particle {
    /// Both velocity components have a negation that an `i64` can hold.
    pub open spec fn reversible(self) -> bool {
        self.speed_x > i64::MIN && self.speed_y > i64::MIN
    }
}

/// The wall rule on one axis: a particle is turned round only when it is
/// already past a wall and still heading further out.
pub open spec fn wall_reflects(position: int, speed: int, span: int) -> bool {
    (position < 0 && speed < 0) || (position > span && speed > 0)
}

/// Two particles collide when the Euclidean distance between their corners is
/// strictly below `size`; for a positive `size` that is a comparison of squares.
pub open spec fn overlaps(p: Particle, q: Particle, size: int) -> bool {
    (q.x - p.x) * (q.x - p.x) + (q.y - p.y) * (q.y - p.y) < size * size
}

/// Whether the wall rule turns round a particle at `position` moving with `speed`.
pub fn reflects_at_wall(position: i64, speed: i64, arena: &Arena) -> (turned: bool)
    ensures
        turned == wall_reflects(position as int, speed as int, arena.span() as int),
{
    (position < 0 && speed < 0) || (position > arena.span() && speed > 0)
}

/// Whether `p` and `q` collide in `arena`.
pub fn collides(p: &Particle, q: &Particle, arena: &Arena) -> (hit: bool)
    ensures
        hit == overlaps(*p, *q, arena.size() as int),
{
    proof {
        use_type_invariant(arena);
    }
    let size: i128 = arena.size() as i128;
    let dx: i128 = q.x as i128 - p.x as i128;
    let dy: i128 = q.y as i128 - p.y as i128;
    if dx <= -size || dx >= size || dy <= -size || dy >= size {
        proof {
            lemma_far_apart(dx as int, dy as int, size as int);
        }
        false
    } else {
        proof {
            lemma_square_bound(dx as int, size as int);
            lemma_square_bound(dy as int, size as int);
            lemma_square_bound(size as int - 1, size as int);
        }
        dx * dx + dy * dy < size * size
    }
}

/// A position one frame later: `position + speed`, held to the range of an `i64`.
pub fn advanced(position: i64, speed: i64) -> (next: i64)
    ensures
        next == saturated(position + speed),
{
    match position.checked_add(speed) {
        Some(sum) => sum,
        None => if speed > 0 {
            i64::MAX
        } else {
            i64::MIN
        },
    }
}

/// A particle between the walls is never turned round by them, whatever its
/// speed and whichever way it moves.
pub proof fn lemma_inside_is_never_reflected(position: int, speed: int, span: int)
    requires
        0 <= position <= span,
    ensures
        !wall_reflects(position, speed, span),
{
}

/// A particle that does not move along an axis is never turned round on it,
/// wherever it is.
pub proof fn lemma_still_is_never_reflected(position: int, span: int)
    ensures
        !wall_reflects(position, 0, span),
{
}

/// A particle that the wall rule turns round was heading out past a wall and
/// heads back towards the arena afterwards, where the rule leaves it alone.
pub proof fn lemma_reflection_heads_back(position: int, speed: int, span: int)
    requires
        0 <= span,
        wall_reflects(position, speed, span),
    ensures
        position < 0 ==> speed < 0 && -speed > 0,
        position > span ==> speed > 0 && -speed < 0,
        !wall_reflects(position, -speed, span),
{
}

/// A collision is mutual: where `p` collides with `q`, `q` collides with `p`,
/// so both are turned round in the same frame.
pub proof fn lemma_collision_is_mutual(p: Particle, q: Particle, size: int)
    ensures
        overlaps(p, q, size) == overlaps(q, p, size),
{
    assert((q.x - p.x) * (q.x - p.x) == (p.x - q.x) * (p.x - q.x)) by (nonlinear_arith);
    assert((q.y - p.y) * (q.y - p.y) == (p.y - q.y) * (p.y - q.y)) by (nonlinear_arith);
}

/// Particles whose distance is exactly `size` do not collide.
pub proof fn lemma_touching_is_no_collision(p: Particle, q: Particle, size: int)
    requires
        (q.x - p.x) * (q.x - p.x) + (q.y - p.y) * (q.y - p.y) == size * size,
    ensures
        !overlaps(p, q, size),
{
}

/// A difference of at least `size` on one axis alone rules a collision out.
proof fn lemma_far_apart(dx: int, dy: int, size: int)
    by (nonlinear_arith)
    requires
        0 < size,
        dx <= -size || dx >= size || dy <= -size || dy >= size,
    ensures
        dx * dx + dy * dy >= size * size,
{
}

/// The square of a difference below `size` is below the square of `size`.
proof fn lemma_square_bound(d: int, size: int)
    by (nonlinear_arith)
    requires
        0 < size <= i64::MAX,
        -size < d < size,
    ensures
        0 <= d * d < size * size,
        size * size <= 0x3fff_ffff_ffff_ffff_0000_0000_0000_0001,
{
}

} // verus!
