use vstd::prelude::*;
use crate::arena::Arena;
use crate::fixed::saturated;
use crate::particle::{advanced, collides, overlaps, reflects_at_wall, wall_reflects, Particle};

verus! {

/// Every particle of `particles` can have its velocity reversed.
pub open spec fn all_reversible(particles: Seq<Particle>) -> bool {
    forall|i: int| 0 <= i < particles.len() ==> (#[trigger] particles[i]).reversible()
}

/// How many of the particles before index `upto`, particle `i` itself left
/// out, collide with particle `i`.
pub open spec fn hits(snapshot: Seq<Particle>, i: int, size: int, upto: int) -> nat
    decreases upto,
{
    if upto <= 0 {
        0
    } else {
        let before = hits(snapshot, i, size, upto - 1);
        if upto - 1 != i && overlaps(snapshot[i], snapshot[upto - 1], size) {
            before + 1
        } else {
            before
        }
    }
}

/// One velocity component after a frame: turned round by the wall rule, then
/// once more for each collision.
pub open spec fn speed_after(position: int, speed: int, span: int, collisions: nat) -> int {
    let bounced = if wall_reflects(position, speed, span) {
        -speed
    } else {
        speed
    };
    if collisions % 2 == 1 {
        -bounced
    } else {
        bounced
    }
}

/// Particle `i` one frame after `snapshot`. Walls and collisions are judged
/// on the snapshot alone; the particle then moves by its new velocity.
pub open spec fn stepped_particle(snapshot: Seq<Particle>, i: int, span: int, size: int) -> Particle {
    let p = snapshot[i];
    let collisions = hits(snapshot, i, size, snapshot.len() as int);
    let speed_x = speed_after(p.x as int, p.speed_x as int, span, collisions);
    let speed_y = speed_after(p.y as int, p.speed_y as int, span, collisions);
    Particle {
        x: saturated(p.x + speed_x),
        y: saturated(p.y + speed_y),
        speed_x: speed_x as i64,
        speed_y: speed_y as i64,
    }
}

/// The swarm one frame after `snapshot`.
pub open spec fn stepped(snapshot: Seq<Particle>, span: int, size: int) -> Seq<Particle> {
    Seq::new(snapshot.len(), |i: int| stepped_particle(snapshot, i, span, size))
}

/// A frame changes no speed in size, only in direction: each velocity
/// component is the old one or its negation. So every particle can still be
/// reversed after the frame, and the swarm keeps its length.
pub proof fn lemma_step_keeps_speeds(snapshot: Seq<Particle>, span: int, size: int)
    requires
        all_reversible(snapshot),
    ensures
        stepped(snapshot, span, size).len() == snapshot.len(),
        all_reversible(stepped(snapshot, span, size)),
        forall|i: int|
            #![trigger stepped(snapshot, span, size)[i]]
            0 <= i < snapshot.len() ==> {
                let before = snapshot[i];
                let after = stepped(snapshot, span, size)[i];
                &&& (after.speed_x == before.speed_x || after.speed_x == -before.speed_x)
                &&& (after.speed_y == before.speed_y || after.speed_y == -before.speed_y)
            },
{
    assert forall|i: int| 0 <= i < snapshot.len() implies {
        let before = snapshot[i];
        let after = #[trigger] stepped(snapshot, span, size)[i];
        &&& after.reversible()
        &&& (after.speed_x == before.speed_x || after.speed_x == -before.speed_x)
        &&& (after.speed_y == before.speed_y || after.speed_y == -before.speed_y)
    } by {
        assert(snapshot[i].reversible());
    }
}

/// A particle that collides with no other and lies between the walls moves
/// on by its velocity, which stays as it was.
pub proof fn lemma_free_particle_moves_straight(snapshot: Seq<Particle>, i: int, span: int, size: int)
    requires
        0 <= i < snapshot.len(),
        hits(snapshot, i, size, snapshot.len() as int) == 0,
        0 <= snapshot[i].x <= span,
        0 <= snapshot[i].y <= span,
    ensures
        stepped(snapshot, span, size)[i] == (Particle {
            x: saturated(snapshot[i].x + snapshot[i].speed_x),
            y: saturated(snapshot[i].y + snapshot[i].speed_y),
            speed_x: snapshot[i].speed_x,
            speed_y: snapshot[i].speed_y,
        }),
{
}

/// On one axis, a particle is between the walls or has left them by its last
/// move alone: it is at most one move outside and still heading out, so the
/// wall rule turns it round in the next frame.
pub open spec fn within_reach(position: int, speed: int, span: int) -> bool {
    ||| 0 <= position <= span
    ||| position < 0 && speed < 0 && position >= speed
    ||| position > span && speed > 0 && position <= span + speed
}

/// A particle is within reach of the arena on both axes.
pub open spec fn near_arena(p: Particle, span: int) -> bool {
    within_reach(p.x as int, p.speed_x as int, span) && within_reach(p.y as int, p.speed_y as int, span)
}

/// The walls hold a particle back: one that is within reach of the arena and
/// collides with no other is within reach of it after the frame too.
pub proof fn lemma_free_particle_stays_near(snapshot: Seq<Particle>, i: int, span: int, size: int)
    requires
        0 <= i < snapshot.len(),
        snapshot[i].reversible(),
        0 <= span,
        hits(snapshot, i, size, snapshot.len() as int) == 0,
        near_arena(snapshot[i], span),
    ensures
        near_arena(stepped(snapshot, span, size)[i], span),
{
}

/// An ordered collection of particles whose size is fixed when it is made.
pub struct Swarm {
    particles: Vec<Particle>,
}

impl View for Swarm {
    type V = Seq<Particle>;

    closed spec fn view(&self) -> Seq<Particle> {
        self.particles@
    }
}

impl Swarm {
    /// No velocity component is `i64::MIN`, so each can be reversed.
    #[verifier::type_invariant]
    pub open spec fn wf(self) -> bool {
        all_reversible(self@)
    }

    /// A swarm of the given particles in the given order, unless one of them
    /// has a velocity component of `i64::MIN`.
    pub fn from_particles(particles: Vec<Particle>) -> (swarm: Option<Swarm>)
        ensures
            swarm is Some <==> all_reversible(particles@),
            swarm matches Some(s) ==> s@ == particles@ && s.wf(),
    {
        let n: usize = particles.len();
        let mut i: usize = 0;
        while i < n
            invariant
                i <= n,
                n == particles.len(),
                forall|k: int| 0 <= k < i ==> (#[trigger] particles@[k]).reversible(),
            decreases n - i,
        {
            if particles[i].speed_x == i64::MIN || particles[i].speed_y == i64::MIN {
                assert(!particles@[i as int].reversible());
                return None;
            }
            i += 1;
        }
        Some(Swarm { particles })
    }

    /// A swarm of particles that are known to be reversible.
    pub(crate) fn of_reversible(particles: Vec<Particle>) -> (swarm: Swarm)
        requires
            all_reversible(particles@),
        ensures
            swarm@ == particles@,
    {
        Swarm { particles }
    }

    /// Number of particles.
    pub fn len(&self) -> (n: usize)
        ensures
            n == self@.len(),
    {
        self.particles.len()
    }

    /// The particle at index `i`, if there is one.
    pub fn get(&self, i: usize) -> (particle: Option<Particle>)
        ensures
            particle == if i < self@.len() {
                Some(self@[i as int])
            } else {
                None
            },
    {
        if i < self.particles.len() {
            Some(self.particles[i])
        } else {
            None
        }
    }

    /// Advances every particle by one frame.
    ///
    /// Each particle is first turned round by the walls it has passed, then
    /// once for every other particle it collides with, and then moves by its
    /// new velocity. All of this is judged on the positions at the start of
    /// the frame, so the order of the particles has no influence.
    pub fn step(&mut self, arena: &Arena)
        ensures
            final(self)@ == stepped(old(self)@, arena.span() as int, arena.size() as int),
            final(self)@.len() == old(self)@.len(),
    {
        proof {
            use_type_invariant(&*self);
            use_type_invariant(arena);
        }
        let n: usize = self.particles.len();
        let mut next: Vec<Particle> = Vec::with_capacity(n);
        let mut i: usize = 0;
        while i < n
            invariant
                i <= n,
                n == self.particles.len(),
                *self == *old(self),
                all_reversible(self.particles@),
                arena.wf(),
                next@.len() == i,
                all_reversible(next@),
                forall|k: int|
                    0 <= k < i ==> #[trigger] next@[k] == stepped_particle(
                        self.particles@,
                        k,
                        arena.span() as int,
                        arena.size() as int,
                    ),
            decreases n - i,
        {
            let moved = step_particle(&self.particles, i, arena);
            next.push(moved);
            i += 1;
        }
        assert(next@ =~= stepped(self.particles@, arena.span() as int, arena.size() as int));
        self.particles = next;
    }
}

/// Particle `i` of `snapshot` one frame later.
fn step_particle(snapshot: &Vec<Particle>, i: usize, arena: &Arena) -> (moved: Particle)
    requires
        i < snapshot.len(),
        all_reversible(snapshot@),
        arena.wf(),
    ensures
        moved == stepped_particle(snapshot@, i as int, arena.span() as int, arena.size() as int),
        moved.reversible(),
{
    let p = snapshot[i];
    assert(p.reversible());
    let mut speed_x: i64 = p.speed_x;
    let mut speed_y: i64 = p.speed_y;
    if reflects_at_wall(p.x, p.speed_x, arena) {
        speed_x = -speed_x;
    }
    if reflects_at_wall(p.y, p.speed_y, arena) {
        speed_y = -speed_y;
    }
    let n: usize = snapshot.len();
    let ghost span = arena.span() as int;
    let ghost size = arena.size() as int;
    let mut j: usize = 0;
    while j < n
        invariant
            j <= n,
            n == snapshot.len(),
            i < n,
            p == snapshot@[i as int],
            p.reversible(),
            span == arena.span(),
            size == arena.size(),
            speed_x == speed_after(p.x as int, p.speed_x as int, span, hits(snapshot@, i as int, size, j as int)),
            speed_y == speed_after(p.y as int, p.speed_y as int, span, hits(snapshot@, i as int, size, j as int)),
        decreases n - j,
    {
        if j != i && collides(&p, &snapshot[j], arena) {
            speed_x = -speed_x;
            speed_y = -speed_y;
        }
        j += 1;
    }
    Particle { x: advanced(p.x, speed_x), y: advanced(p.y, speed_y), speed_x, speed_y }
}

} // verus!
