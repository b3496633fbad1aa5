use vstd::prelude::*;

verus! {

/// The parts the player carries towards the next upgrade.
pub struct Materials(usize);

impl Materials {
    /// The number of parts carried.
    pub closed spec fn spec_get(self) -> nat {
        self.0 as nat
    }

    /// No parts.
    pub fn new() -> (m: Self)
        ensures
            m.spec_get() == 0,
    {
        Materials(0)
    }

    /// The number of parts carried.
    pub fn get(&self) -> (n: usize)
        ensures
            n == self.spec_get(),
    {
        self.0
    }

    /// Spends `n` parts; the count does not go below zero.
    pub fn sub(&mut self, n: usize)
        ensures
            final(self).spec_get() == if old(self).spec_get() >= n { old(self).spec_get() - n } else { 0 },
    {
        self.0 = self.0.saturating_sub(n);
    }

    /// Collects one part.
    pub fn add_part(&mut self)
        requires
            old(self).spec_get() < usize::MAX,
        ensures
            final(self).spec_get() == old(self).spec_get() + 1,
    {
        self.0 = self.0 + 1;
    }
}

impl Default for Materials {
    fn default() -> (m: Self)
        ensures
            m.spec_get() == 0,
    {
        Materials::new()
    }
}

/// The number of power-ups that raise the player's damage.
pub const DAMAGE_POWER_UPS: usize = 4;

/// What a collected power-up does.
#[derive(Debug, Clone, Copy, PartialEq, Eq, Structural)]
pub enum PowerUpEffect {
    /// Raise the player's damage modifier.
    RaiseDamage,
    /// No effect is defined for this many power-ups; the count is reported.
    Unhandled(usize),
}

/// The power-ups collected in the current game.
pub struct PowerUps(usize);

impl PowerUps {
    /// The number collected.
    pub closed spec fn spec_count(self) -> nat {
        self.0 as nat
    }

    /// None collected.
    pub fn new() -> (p: Self)
        ensures
            p.spec_count() == 0,
    {
        PowerUps(0)
    }

    /// The number collected.
    pub fn get(&self) -> (n: usize)
        ensures
            n == self.spec_count(),
    {
        self.0
    }

    /// Collects a power-up: the first four raise the damage, later ones do nothing.
    pub fn collect(&mut self) -> (effect: PowerUpEffect)
        requires
            old(self).spec_count() < usize::MAX,
        ensures
            final(self).spec_count() == old(self).spec_count() + 1,
            effect == if final(self).spec_count() <= DAMAGE_POWER_UPS {
                PowerUpEffect::RaiseDamage
            } else {
                PowerUpEffect::Unhandled(final(self).spec_count() as usize)
            },
    {
        self.0 = self.0 + 1;
        if 1 <= self.0 && self.0 <= DAMAGE_POWER_UPS {
            PowerUpEffect::RaiseDamage
        } else {
            PowerUpEffect::Unhandled(self.0)
        }
    }
}

impl Default for PowerUps {
    fn default() -> (p: Self)
        ensures
            p.spec_count() == 0,
    {
        PowerUps::new()
    }
}

} // verus!
