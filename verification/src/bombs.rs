use vstd::prelude::*;

verus! {

/// The bombs the player starts a game with.
pub const STARTING_BOMBS: usize = 3;

/// The bombs the player holds.
pub struct Bombs(usize);

impl Bombs {
    /// The number held.
    pub closed spec fn spec_get(self) -> nat {
        self.0 as nat
    }

    /// Holding `count` bombs.
    pub fn new(count: usize) -> (b: Self)
        ensures
            b.spec_get() == count,
    {
        Bombs(count)
    }

    /// The number held.
    pub fn get(&self) -> (n: usize)
        ensures
            n == self.spec_get(),
    {
        self.0
    }

    /// Sets off a bomb if one is held; the result tells whether one went off.
    pub fn detonate(&mut self) -> (fired: bool)
        ensures
            fired == (old(self).spec_get() > 0),
            final(self).spec_get() == if fired { old(self).spec_get() - 1 } else { 0 },
    {
        if self.0 != 0 {
            self.0 = self.0 - 1;
            true
        } else {
            false
        }
    }

    /// Picks up a bomb.
    pub fn collect(&mut self)
        requires
            old(self).spec_get() < usize::MAX,
        ensures
            final(self).spec_get() == old(self).spec_get() + 1,
    {
        self.0 = self.0 + 1;
    }
}

} // verus!
