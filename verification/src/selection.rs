use vstd::prelude::*;
use crate::player::Materials;

verus! {

/// The parts needed for the first upgrade.
pub const INITIAL_MIN_MATERIALS: usize = 1;

/// The parts needed for the next upgrade.
pub struct MinMaterials(usize);

/// The parts still missing for an upgrade that costs `min` when `have` are carried.
pub open spec fn parts_missing(min: nat, have: nat) -> nat {
    if min > have { (min - have) as nat } else { 0 }
}

impl MinMaterials {
    /// The parts needed for the next upgrade.
    pub closed spec fn spec_get(self) -> nat {
        self.0 as nat
    }

    /// The cost of the first upgrade.
    pub fn new() -> (m: Self)
        ensures
            m.spec_get() == INITIAL_MIN_MATERIALS,
    {
        MinMaterials(INITIAL_MIN_MATERIALS)
    }

    /// The parts needed for the next upgrade.
    pub fn get(&self) -> (n: usize)
        ensures
            n == self.spec_get(),
    {
        self.0
    }

    /// Back to the cost of the first upgrade, as a new game starts.
    pub fn reset(&mut self)
        ensures
            final(self).spec_get() == INITIAL_MIN_MATERIALS,
    {
        self.0 = INITIAL_MIN_MATERIALS;
    }

    /// The parts still missing for the next upgrade, as the display shows them.
    pub fn remaining(&self, materials: &Materials) -> (n: usize)
        ensures
            n == parts_missing(self.spec_get(), materials.spec_get()),
    {
        self.0.saturating_sub(materials.get())
    }

    /// Buys an upgrade when enough parts are carried: the cost is spent and the next upgrade
    /// costs twice as much. The result tells whether an upgrade was bought.
    pub fn try_upgrade(&mut self, materials: &mut Materials) -> (bought: bool)
        requires
            old(materials).spec_get() >= old(self).spec_get() ==> old(self).spec_get() * 2 <= usize::MAX,
        ensures
            bought == (old(materials).spec_get() >= old(self).spec_get()),
            bought ==> final(materials).spec_get() == old(materials).spec_get() - old(self).spec_get()
                && final(self).spec_get() == old(self).spec_get() * 2,
            !bought ==> final(materials).spec_get() == old(materials).spec_get()
                && final(self).spec_get() == old(self).spec_get(),
    {
        if materials.get() >= self.0 {
            materials.sub(self.0);
            self.0 = self.0 * 2;
            true
        } else {
            false
        }
    }
}

/// The display and the purchase agree: an upgrade is bought exactly when the display shows
/// no parts missing.
pub proof fn law_upgrade_when_nothing_missing(min: nat, have: nat)
    ensures
        (parts_missing(min, have) == 0) <==> (have >= min),
{
}

/// The number of upgrades offered at once.
pub const CHOICES: usize = 3;

/// The highlighted upgrade on the selection screen.
pub struct Selection(usize);

/// One step left, wrapping from the first choice to the last.
pub open spec fn step_left(i: nat) -> nat {
    if i == 0 { (CHOICES - 1) as nat } else { (i - 1) as nat }
}

/// One step right, wrapping from the last choice to the first.
pub open spec fn step_right(i: nat) -> nat {
    if i == CHOICES - 1 { 0 } else { i + 1 }
}

impl Selection {
    #[verifier::type_invariant]
    spec fn inv(self) -> bool {
        self.0 < CHOICES
    }

    /// The highlighted choice.
    pub closed spec fn spec_get(self) -> nat {
        self.0 as nat
    }

    /// The middle choice is highlighted first.
    pub fn new() -> (s: Self)
        ensures
            s.spec_get() == 1,
    {
        Selection(1)
    }

    /// The highlighted choice.
    pub fn get(&self) -> (i: usize)
        ensures
            i == self.spec_get(),
            i < CHOICES,
    {
        proof {
            use_type_invariant(self);
        }
        self.0
    }

    /// Moves the highlight one choice left.
    pub fn left(&mut self)
        ensures
            final(self).spec_get() == step_left(old(self).spec_get()),
            final(self).spec_get() < CHOICES,
    {
        proof {
            use_type_invariant(&*self);
        }
        if self.0 == 0 {
            self.0 = CHOICES - 1;
        } else {
            self.0 = self.0 - 1;
        }
    }

    /// Moves the highlight one choice right.
    pub fn right(&mut self)
        ensures
            final(self).spec_get() == step_right(old(self).spec_get()),
            final(self).spec_get() < CHOICES,
    {
        proof {
            use_type_invariant(&*self);
        }
        if self.0 == CHOICES - 1 {
            self.0 = 0;
        } else {
            self.0 = self.0 + 1;
        }
    }
}

/// Left and right undo each other, and three steps in one direction come back to the start.
pub proof fn law_selection_wraps(i: nat)
    requires
        i < CHOICES,
    ensures
        step_right(step_left(i)) == i,
        step_left(step_right(i)) == i,
        step_right(step_right(step_right(i))) == i,
        step_left(step_left(step_left(i))) == i,
{
}

} // verus!
