use vstd::prelude::*;

verus! {

/// Side of the standard arena, 500 units.
pub const ARENA_SIDE: i64 = 500_000_000;

/// Side of a particle's bounding square in the standard arena, 5 units.
pub const PARTICLE_SIZE: i64 = 5_000_000;

/// The square region in which particles move, together with the side of the
/// bounding square of each particle.
///
/// A particle's position is the top-left corner of its bounding square, so a
/// particle lies inside the arena while both coordinates are between `0` and
/// `span()`.
#[derive(Clone, Copy, Debug)]
pub struct Arena {
    side: i64,
    size: i64,
}

impl Arena {
    /// A particle is not empty and fits into the arena.
    #[verifier::type_invariant]
    pub open spec fn wf(self) -> bool {
        0 < self.size() <= self.side()
    }

    /// Side length of the arena.
    pub closed spec fn spec_side(&self) -> i64 {
        self.side
    }

    /// Side length of a particle's bounding square.
    pub closed spec fn spec_size(&self) -> i64 {
        self.size
    }

    /// Largest coordinate at which a particle still lies inside the arena.
    pub open spec fn spec_span(&self) -> i64 {
        (self.side() - self.size()) as i64
    }

    /// An arena of the given side for particles of the given size, if such
    /// particles are not empty and fit into it.
    pub fn new(side: i64, size: i64) -> (arena: Option<Arena>)
        ensures
            arena is Some <==> 0 < size <= side,
            arena matches Some(a) ==> a.wf() && a.side() == side && a.size() == size,
    {
        if 0 < size && size <= side {
            Some(Arena { side, size })
        } else {
            None
        }
    }

    /// The standard arena: 500 units wide, for particles 5 units wide.
    pub fn standard() -> (arena: Arena)
        ensures
            arena.wf(),
            arena.side() == ARENA_SIDE,
            arena.size() == PARTICLE_SIZE,
    {
        Arena { side: ARENA_SIDE, size: PARTICLE_SIZE }
    }

    #[verifier::when_used_as_spec(spec_side)]
    pub fn side(&self) -> (side: i64)
        ensures
            side == self.side(),
    {
        self.side
    }

    #[verifier::when_used_as_spec(spec_size)]
    pub fn size(&self) -> (size: i64)
        ensures
            size == self.size(),
    {
        self.size
    }

    #[verifier::when_used_as_spec(spec_span)]
    pub fn span(&self) -> (span: i64)
        ensures
            span == self.span(),
            span == self.side() - self.size(),
            0 <= span,
    {
        proof {
            use_type_invariant(self);
        }
        self.side - self.size
    }
}

} // verus!
