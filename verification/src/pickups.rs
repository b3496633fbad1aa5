use vstd::prelude::*;
use crate::weapons::Weapon;

verus! {

/// A material dropped by destroyed enemies.
#[derive(Debug, Clone, Copy, PartialEq, Eq, Structural)]
pub enum Material {
    /// Parts count towards the next upgrade.
    Parts,
    /// Shield cells recharge the shield.
    Shield,
}

/// The kind of a collected pickup, as the counters see it.
#[derive(Debug, Clone, Copy, PartialEq, Eq, Structural)]
pub enum PickupKind {
    Weapon(Weapon),
    Upgrade,
    Material(Material),
}

/// How many of `pickups` are parts.
pub open spec fn count_parts(pickups: Seq<PickupKind>) -> nat
    decreases pickups.len(),
{
    if pickups.len() == 0 {
        0
    } else {
        count_parts(pickups.drop_last()) + if pickups.last() == PickupKind::Material(Material::Parts) {
            1nat
        } else {
            0nat
        }
    }
}

/// Counts the parts among `pickups`.
pub fn parts_collected(pickups: &Vec<PickupKind>) -> (n: usize)
    ensures
        n == count_parts(pickups@),
{
    let mut n: usize = 0;
    let mut i: usize = 0;
    while i < pickups.len()
        invariant
            i <= pickups@.len(),
            n == count_parts(pickups@.take(i as int)),
            n <= i,
        decreases pickups@.len() - i,
    {
        assert(pickups@.take(i as int + 1).drop_last() =~= pickups@.take(i as int));
        if pickups[i] == PickupKind::Material(Material::Parts) {
            n = n + 1;
        }
        i += 1;
    }
    assert(pickups@.take(pickups@.len() as int) =~= pickups@);
    n
}

/// The number of upgrade choices a scrolling pickup can show.
pub const SCROLL_CHOICES: usize = 5;

/// A pickup that cycles through upgrade choices; it starts on a random one.
pub struct ScrollingPickup {
    pub index: usize,
}

impl ScrollingPickup {
    /// A scrolling pickup starting on a random choice.
    pub fn new() -> (p: Self)
        ensures
            p.index < SCROLL_CHOICES,
    {
        ScrollingPickup { index: crate::drops::random_below(SCROLL_CHOICES) }
    }
}

} // verus!
