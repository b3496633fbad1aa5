use vstd::prelude::*;

verus! {

/// A random number in `start..end`, from `rand::Rng::random_range` on the thread-local
/// generator. The range must not be empty (the call panics on an empty one); nothing is
/// claimed of the result beyond lying in the range.
#[verifier::external_body]
fn random_in(start: usize, end: usize) -> (r: usize)
    requires
        start < end,
    ensures
        start <= r < end,
{
    rand::Rng::random_range(&mut rand::rng(), start..end)
}

/// A random number below `end`, which must be positive.
pub fn random_below(end: usize) -> (r: usize)
    requires
        end > 0,
    ensures
        r < end,
{
    random_in(0, end)
}

/// How many pickups of one kind an enemy drops.
#[derive(Debug, Clone, Copy, PartialEq, Eq, Structural)]
pub enum DropCount {
    /// Always this many.
    Static(usize),
    /// A random number in `start..end`.
    Range(usize, usize),
}

impl DropCount {
    /// A count can be drawn: a range must not be empty.
    pub open spec fn valid(self) -> bool {
        self matches DropCount::Range(a, b) ==> a < b
    }

    /// Draws a count: the fixed number, or a random one in the range.
    pub fn count(&self) -> (n: usize)
        requires
            self.valid(),
        ensures
            match *self {
                DropCount::Static(c) => n == c,
                DropCount::Range(a, b) => a <= n < b,
            },
    {
        match *self {
            DropCount::Static(c) => c,
            DropCount::Range(a, b) => random_in(a, b),
        }
    }
}

/// What a destroyed enemy drops: parts and shield cells.
#[derive(Debug, Clone, Copy, PartialEq, Eq, Structural)]
pub struct Drops {
    pub parts: DropCount,
    pub shield: DropCount,
}

impl Drops {
    /// Drops with separate counts for parts and shield cells.
    pub fn new(parts: DropCount, shield: DropCount) -> (d: Self)
        ensures
            d.parts == parts,
            d.shield == shield,
    {
        Drops { parts, shield }
    }

    /// Drops with the same count for parts and shield cells.
    pub fn splat(count: DropCount) -> (d: Self)
        ensures
            d.parts == count,
            d.shield == count,
    {
        Drops { parts: count, shield: count }
    }

    /// Draws the numbers of parts and of shield cells.
    pub fn roll(&self) -> (n: (usize, usize))
        requires
            self.parts.valid(),
            self.shield.valid(),
        ensures
            match self.parts {
                DropCount::Static(c) => n.0 == c,
                DropCount::Range(a, b) => a <= n.0 < b,
            },
            match self.shield {
                DropCount::Static(c) => n.1 == c,
                DropCount::Range(a, b) => a <= n.1 < b,
            },
    {
        (self.parts.count(), self.shield.count())
    }
}

/// An asteroid drifting across the screen.
#[derive(Debug, Clone, Copy, PartialEq, Eq, Structural)]
pub enum Asteroid {
    Big,
    Small,
}

impl Asteroid {
    /// The parts and shield cells a destroyed asteroid leaves: ten parts for a big one, five
    /// for a small one, and no shield cells.
    pub fn cluster(self) -> (c: (usize, usize))
        ensures
            c == match self {
                Asteroid::Big => (10usize, 0usize),
                Asteroid::Small => (5usize, 0usize),
            },
    {
        match self {
            Asteroid::Big => (10, 0),
            Asteroid::Small => (5, 0),
        }
    }
}

} // verus!
