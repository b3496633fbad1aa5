use vstd::prelude::*;

verus! {

/// A weapon that the player's gunners can carry.
#[derive(Debug, Clone, Copy, PartialEq, Eq, Structural)]
pub enum Weapon {
    Bullet,
    Missile,
}

impl Default for Weapon {
    fn default() -> (w: Self)
        ensures
            w == Weapon::Bullet,
    {
        Weapon::Bullet
    }
}

/// Number of slots in a [`WeaponRack`].
pub const RACK_SLOTS: usize = 2;

/// The first slot at or after `i` that holds weapon `w`.
pub open spec fn slot_of_from(s: Seq<(Weapon, bool)>, w: Weapon, i: int) -> Option<int>
    decreases s.len() - i,
{
    if 0 <= i < s.len() {
        if s[i].0 == w {
            Some(i)
        } else {
            slot_of_from(s, w, i + 1)
        }
    } else {
        None
    }
}

/// The first slot that holds weapon `w`.
pub open spec fn slot_of(s: Seq<(Weapon, bool)>, w: Weapon) -> Option<int> {
    slot_of_from(s, w, 0)
}

/// The first enabled slot at or after `i`.
pub open spec fn first_enabled_from(s: Seq<(Weapon, bool)>, i: int) -> Option<int>
    decreases s.len() - i,
{
    if 0 <= i < s.len() {
        if s[i].1 {
            Some(i)
        } else {
            first_enabled_from(s, i + 1)
        }
    } else {
        None
    }
}

/// The first enabled slot.
pub open spec fn first_enabled(s: Seq<(Weapon, bool)>) -> Option<int> {
    first_enabled_from(s, 0)
}

/// The slots after `i`, followed by the slots before `i`.
pub open spec fn rotated(s: Seq<(Weapon, bool)>, i: int) -> Seq<(Weapon, bool)> {
    s.subrange(i + 1, s.len() as int) + s.subrange(0, i)
}

/// Sets the enabled flag of the first slot holding `w`; no change when no slot holds it.
pub open spec fn with_enabled(s: Seq<(Weapon, bool)>, w: Weapon, enabled: bool) -> Seq<(Weapon, bool)> {
    match slot_of(s, w) {
        Some(i) => s.update(i, (s[i].0, enabled)),
        None => s,
    }
}

/// What `selection` yields on slots `s` with cursor `cursor`: the new cursor and the weapon.
///
/// When the cursor's slot is disabled, the search continues through the slots after it and then
/// those before it; the new cursor is the position found within that rotated order.
pub open spec fn select(s: Seq<(Weapon, bool)>, cursor: Option<usize>) -> (Option<usize>, Option<Weapon>) {
    match cursor {
        Some(i) => {
            if s[i as int].1 {
                (Some(i), Some(s[i as int].0))
            } else {
                match first_enabled(rotated(s, i as int)) {
                    Some(j) => (Some(j as usize), Some(rotated(s, i as int)[j].0)),
                    None => (None, None),
                }
            }
        }
        None => match first_enabled(s) {
            Some(j) => (Some(j as usize), Some(s[j].0)),
            None => (None, None),
        },
    }
}

/// The cursor after `next` moves it: to slot 0 from nothing or the last slot, else one further.
pub open spec fn advance(cursor: Option<usize>, len: nat) -> Option<usize> {
    match cursor {
        Some(i) => if i >= len - 1 { Some(0usize) } else { Some((i + 1) as usize) },
        None => Some(0usize),
    }
}

/// Some slot of `s` holds an enabled weapon.
pub open spec fn any_enabled(s: Seq<(Weapon, bool)>) -> bool {
    exists|k: int| 0 <= k < s.len() && #[trigger] s[k].1
}

proof fn lemma_first_enabled_from(s: Seq<(Weapon, bool)>, i: int)
    requires
        0 <= i,
    ensures
        first_enabled_from(s, i) matches Some(j) ==> i <= j < s.len() && s[j].1 && (forall|k: int|
            i <= k < j ==> !#[trigger] s[k].1),
        first_enabled_from(s, i) is None ==> forall|k: int| i <= k < s.len() ==> !#[trigger] s[k].1,
    decreases s.len() - i,
{
    if i < s.len() && !s[i].1 {
        lemma_first_enabled_from(s, i + 1);
    }
}

/// Selecting from a rack yields a weapon exactly when some slot is held, and the weapon it
/// yields is held; the cursor it leaves names a slot of the rack.
pub proof fn law_selection_yields_held_weapon(s: Seq<(Weapon, bool)>, cursor: Option<usize>)
    requires
        cursor matches Some(i) ==> i < s.len(),
    ensures
        select(s, cursor).1 is Some <==> any_enabled(s),
        select(s, cursor).1 matches Some(w) ==> exists|k: int| 0 <= k < s.len() && s[k] == (w, true),
        select(s, cursor).0 matches Some(j) ==> j < s.len(),
{
    match cursor {
        Some(i) => {
            if s[i as int].1 {
            } else {
                let rot = rotated(s, i as int);
                let n = s.len() as int;
                assert forall|j: int| 0 <= j < rot.len() implies #[trigger] rot[j] == s[if i + 1 + j < n {
                    i + 1 + j
                } else {
                    i + 1 + j - n
                }] by {}
                lemma_first_enabled_from(rot, 0);
                match first_enabled(rot) {
                    Some(j) => {
                        let k = if i + 1 + j < n { i + 1 + j } else { i + 1 + j - n };
                        assert(rot[j] == s[k]);
                    },
                    None => {
                        assert forall|k: int| 0 <= k < s.len() implies !#[trigger] s[k].1 by {
                            if k != i {
                                let j = if k > i { k - i - 1 } else { k + n - i - 1 };
                                assert(rot[j] == s[k]);
                            }
                        }
                    },
                }
            }
        },
        None => {
            lemma_first_enabled_from(s, 0);
        },
    }
}

/// After a weapon that the rack has a slot for is acquired, the rack's selection is some
/// held weapon, whatever the cursor was.
pub proof fn law_acquired_rack_selects(s: Seq<(Weapon, bool)>, cursor: Option<usize>, w: Weapon)
    requires
        cursor matches Some(i) ==> i < s.len(),
        slot_of(s, w) is Some,
    ensures
        select(with_enabled(s, w, true), cursor).1 is Some,
{
    lemma_slot_of_from(s, w, 0);
    let t = with_enabled(s, w, true);
    let i = slot_of(s, w)->0;
    assert(t[i].1);
    law_selection_yields_held_weapon(t, cursor);
}

/// Once a weapon has expired from a rack whose two slots hold the two weapons, selecting from the
/// rack never yields it, whatever the cursor was; the other slot is left as it was, so the other
/// weapon stays selectable exactly when it was held.
pub proof fn law_expired_weapon_not_selected(s: Seq<(Weapon, bool)>, cursor: Option<usize>, w: Weapon)
    requires
        s.len() == RACK_SLOTS,
        s[0].0 == Weapon::Bullet,
        s[1].0 == Weapon::Missile,
        cursor matches Some(i) ==> i < s.len(),
    ensures
        select(with_enabled(s, w, false), cursor).1 != Some(w),
        forall|k: int| 0 <= k < s.len() && s[k].0 != w ==> #[trigger] with_enabled(s, w, false)[k] == s[k],
{
    let i: int = if w == Weapon::Bullet { 0 } else { 1 };
    assert(slot_of(s, w) == Some(i)) by {
        reveal_with_fuel(slot_of_from, 3);
    }
    let t = with_enabled(s, w, false);
    assert(t == s.update(i, (w, false)));
    law_selection_yields_held_weapon(t, cursor);
    if select(t, cursor).1 == Some(w) {
        let k = choose|k: int| 0 <= k < t.len() && t[k] == (w, true);
        assert(k == i);
    }
}

/// Selecting with no cursor picks the first held slot: the weapon it yields is the one in that
/// slot, the cursor it leaves names that slot, and no earlier slot is held.
pub proof fn law_unset_cursor_selects_first_held_slot(s: Seq<(Weapon, bool)>, w: Weapon)
    requires
        s.len() <= usize::MAX,
    ensures
        select(s, None).1 == Some(w) ==> {
            &&& select(s, None).0 matches Some(j)
            &&& j < s.len()
            &&& s[j as int] == (w, true)
            &&& forall|k: int| 0 <= k < j ==> !#[trigger] s[k].1
        },
        select(s, None).1 is None ==> select(s, None).0 is None && forall|k: int| 0 <= k < s.len() ==> !#[trigger] s[k].1,
{
    lemma_first_enabled_from(s, 0);
}

/// A cursor on a held slot stays there, and the selection is that slot's weapon.
pub proof fn law_held_cursor_stays(s: Seq<(Weapon, bool)>, i: usize)
    requires
        i < s.len(),
        s[i as int].1,
    ensures
        select(s, Some(i)) == (Some(i), Some(s[i as int].0)),
{
}

/// Acquiring a weapon does not change what is selected: after a selection that started from no
/// cursor or from a held slot, acquiring any weapon and selecting again yields the same weapon
/// as before.
pub proof fn law_acquiring_keeps_the_selection(s: Seq<(Weapon, bool)>, cursor: Option<usize>, v: Weapon, w: Weapon)
    requires
        cursor matches Some(i) ==> i < s.len() && s[i as int].1,
        select(s, cursor).1 == Some(w),
        s.len() <= usize::MAX,
    ensures
        select(with_enabled(s, v, true), select(s, cursor).0).1 == Some(w),
{
    law_unset_cursor_selects_first_held_slot(s, w);
    let j: usize = select(s, cursor).0->0;
    assert(j < s.len() && s[j as int] == (w, true));
    lemma_slot_of_from(s, v, 0);
    let t = with_enabled(s, v, true);
    assert(t.len() == s.len());
    assert(t[j as int] == (w, true));
}

proof fn lemma_slot_of_from(s: Seq<(Weapon, bool)>, w: Weapon, i: int)
    requires
        0 <= i,
    ensures
        slot_of_from(s, w, i) matches Some(j) ==> i <= j < s.len() && s[j].0 == w,
    decreases s.len() - i,
{
    if i < s.len() && s[i].0 != w {
        lemma_slot_of_from(s, w, i + 1);
    }
}

/// The weapons that the player has collected, and which of them is selected.
pub struct WeaponRack {
    weapons: [(Weapon, bool); 2],
    index: Option<usize>,
}

impl WeaponRack {
    #[verifier::type_invariant]
    spec fn inv(self) -> bool {
        &&& self.index matches Some(i) ==> i < RACK_SLOTS
        &&& self.weapons[0].0 == Weapon::Bullet
        &&& self.weapons[1].0 == Weapon::Missile
    }

    /// The rack's slots: each weapon with whether it is held.
    pub closed spec fn slots(self) -> Seq<(Weapon, bool)> {
        self.weapons@
    }

    /// The selected slot, if any.
    pub closed spec fn cursor(self) -> Option<usize> {
        self.index
    }

    /// The rack has two slots, the machine guns in the first and the missiles in the second,
    /// and its cursor, if any, names one of them.
    pub open spec fn shaped(self) -> bool {
        &&& self.slots().len() == RACK_SLOTS
        &&& self.slots()[0].0 == Weapon::Bullet
        &&& self.slots()[1].0 == Weapon::Missile
        &&& self.cursor() matches Some(i) ==> i < RACK_SLOTS
    }

    /// An empty rack: the machine guns and the missiles, neither held, nothing selected.
    pub fn new() -> (rack: Self)
        ensures
            rack.slots() == seq![(Weapon::Bullet, false), (Weapon::Missile, false)],
            rack.cursor() is None,
            rack.shaped(),
    {
        WeaponRack { weapons: [(Weapon::Bullet, false), (Weapon::Missile, false)], index: None }
    }

    fn find_slot(&self, weapon: Weapon) -> (r: Option<usize>)
        ensures
            r matches Some(i) ==> i < RACK_SLOTS && slot_of(self.slots(), weapon) == Some(i as int),
            r is None ==> slot_of(self.slots(), weapon) is None,
    {
        let mut i: usize = 0;
        while i < RACK_SLOTS
            invariant
                i <= RACK_SLOTS,
                self.slots().len() == RACK_SLOTS,
                slot_of(self.slots(), weapon) == slot_of_from(self.slots(), weapon, i as int),
            decreases RACK_SLOTS - i,
        {
            if self.weapons[i].0 == weapon {
                return Some(i);
            }
            i += 1;
        }
        None
    }

    fn set_enabled(&mut self, weapon: Weapon, enabled: bool)
        ensures
            final(self).slots() == with_enabled(old(self).slots(), weapon, enabled),
            final(self).cursor() == old(self).cursor(),
            final(self).shaped(),
    {
        proof {
            use_type_invariant(&*self);
        }
        match self.find_slot(weapon) {
            Some(i) => {
                let ghost before = self.slots();
                self.weapons[i].1 = enabled;
                assert(self.slots() =~= before.update(i as int, (before[i as int].0, enabled)));
            },
            None => {},
        }
    }

    /// Marks `weapon` as held.
    pub fn aquire(&mut self, weapon: Weapon)
        ensures
            final(self).slots() == with_enabled(old(self).slots(), weapon, true),
            final(self).cursor() == old(self).cursor(),
            final(self).shaped(),
    {
        self.set_enabled(weapon, true);
    }

    /// Marks `weapon` as no longer held.
    pub fn expire(&mut self, weapon: Weapon)
        ensures
            final(self).slots() == with_enabled(old(self).slots(), weapon, false),
            final(self).cursor() == old(self).cursor(),
            final(self).shaped(),
    {
        self.set_enabled(weapon, false);
    }

    /// The selected weapon. When the selected slot is not held, the search moves on through the
    /// later slots and then the earlier ones and keeps the first held weapon it finds; with no
    /// weapon held, the selection is cleared.
    pub fn selection(&mut self) -> (r: Option<Weapon>)
        ensures
            final(self).slots() == old(self).slots(),
            (final(self).cursor(), r) == select(old(self).slots(), old(self).cursor()),
            old(self).cursor() is None ==> (r matches Some(w) ==> final(self).cursor() matches Some(j)
                && j < RACK_SLOTS && old(self).slots()[j as int] == (w, true)),
            final(self).shaped(),
    {
        proof {
            use_type_invariant(&*self);
        }
        let ghost s = self.slots();
        if let Some(index) = self.index {
            let (w, enabled) = self.weapons[index];
            if enabled {
                return Some(w);
            }
            let ghost rot = rotated(s, index as int);
            assert(rot.len() == RACK_SLOTS - 1);
            let mut j: usize = 0;
            while j < RACK_SLOTS - 1
                invariant
                    j <= RACK_SLOTS - 1,
                    index < RACK_SLOTS,
                    self.slots() == s,
                    self.index == Some(index),
                    s == old(self).slots(),
                    old(self).cursor() == Some(index),
                    !s[index as int].1,
                    s.len() == RACK_SLOTS,
                    s[0].0 == Weapon::Bullet,
                    s[1].0 == Weapon::Missile,
                    rot == rotated(s, index as int),
                    rot.len() == RACK_SLOTS - 1,
                    first_enabled(rot) == first_enabled_from(rot, j as int),
                decreases RACK_SLOTS - 1 - j,
            {
                let pos = if index + 1 + j < RACK_SLOTS {
                    index + 1 + j
                } else {
                    index + 1 + j - RACK_SLOTS
                };
                assert(rot[j as int] == s[pos as int]);
                let (w2, e2) = self.weapons[pos];
                if e2 {
                    self.index = Some(j);
                    return Some(w2);
                }
                j += 1;
            }
            self.index = None;
            return None;
        }
        let mut k: usize = 0;
        while k < RACK_SLOTS
            invariant
                k <= RACK_SLOTS,
                self.slots() == s,
                self.index is None,
                s == old(self).slots(),
                old(self).cursor() is None,
                s.len() == RACK_SLOTS,
                s[0].0 == Weapon::Bullet,
                s[1].0 == Weapon::Missile,
                first_enabled(s) == first_enabled_from(s, k as int),
            decreases RACK_SLOTS - k,
        {
            let (w, enabled) = self.weapons[k];
            if enabled {
                self.index = Some(k);
                return Some(w);
            }
            k += 1;
        }
        None
    }

    /// Moves the cursor to the next slot (wrapping to the first) and returns the selection there.
    pub fn next(&mut self) -> (r: Option<Weapon>)
        ensures
            final(self).slots() == old(self).slots(),
            (final(self).cursor(), r) == select(old(self).slots(), advance(old(self).cursor(), RACK_SLOTS as nat)),
            final(self).shaped(),
    {
        proof {
            use_type_invariant(&*self);
        }
        match self.index {
            Some(index) => {
                if index >= RACK_SLOTS - 1 {
                    self.index = Some(0);
                } else {
                    self.index = Some(index + 1);
                }
            },
            None => {
                self.index = Some(0);
            },
        }
        self.selection()
    }
}

impl Default for WeaponRack {
    fn default() -> (rack: Self)
        ensures
            rack.slots() == seq![(Weapon::Bullet, false), (Weapon::Missile, false)],
            rack.cursor() is None,
            rack.shaped(),
    {
        WeaponRack::new()
    }
}

/// The weapon a gunner carries and whether it is firing.
#[derive(Debug, Clone, Copy, PartialEq, Eq, Structural)]
pub struct GunnerWeapon {
    pub weapon: Weapon,
    pub enabled: bool,
}

impl GunnerWeapon {
    /// The gunner's machine-gun emitter fires: it carries the machine guns and is firing.
    pub fn gattling_enabled(&self) -> (r: bool)
        ensures
            r == (self.weapon == Weapon::Bullet && self.enabled),
    {
        self.weapon == Weapon::Bullet && self.enabled
    }

    /// The gunner's missile emitter fires: it carries the missiles and is firing.
    pub fn missile_enabled(&self) -> (r: bool)
        ensures
            r == (self.weapon == Weapon::Missile && self.enabled),
    {
        self.weapon == Weapon::Missile && self.enabled
    }
}

/// What to do with the gunners after the rack may have changed.
#[derive(Debug, Clone, Copy, PartialEq, Eq, Structural)]
pub enum GunnerPlan {
    /// Spawn the three gunners carrying this weapon.
    Spawn(Weapon),
    /// Give every gunner this weapon.
    Arm(Weapon),
    /// Send every gunner away: no weapon is held.
    Dismiss,
    /// Leave the gunners as they are.
    Keep,
}

/// Decides how the gunners follow the rack. Only a changed rack is consulted: with no gunners
/// yet, its selection spawns them; with gunners, its selection arms them, or no selection
/// dismisses them.
pub fn plan_gunners(rack: &mut WeaponRack, rack_changed: bool, have_gunners: bool) -> (plan: GunnerPlan)
    ensures
        !rack_changed ==> plan == GunnerPlan::Keep && *final(rack) == *old(rack),
        rack_changed ==> {
            let (c, sel) = select(old(rack).slots(), old(rack).cursor());
            &&& final(rack).slots() == old(rack).slots()
            &&& final(rack).cursor() == c
            &&& plan == match (have_gunners, sel) {
                (false, Some(w)) => GunnerPlan::Spawn(w),
                (false, None) => GunnerPlan::Keep,
                (true, Some(w)) => GunnerPlan::Arm(w),
                (true, None) => GunnerPlan::Dismiss,
            }
        },
        final(rack).shaped(),
{
    if !rack_changed {
        proof {
            use_type_invariant(&*rack);
        }
        return GunnerPlan::Keep;
    }
    match (have_gunners, rack.selection()) {
        (false, Some(w)) => GunnerPlan::Spawn(w),
        (false, None) => GunnerPlan::Keep,
        (true, Some(w)) => GunnerPlan::Arm(w),
        (true, None) => GunnerPlan::Dismiss,
    }
}

/// Gives every gunner `weapon`, firing when the shoot action is held.
pub fn arm_gunners(gunners: &mut Vec<GunnerWeapon>, weapon: Weapon, shooting: bool)
    ensures
        final(gunners)@.len() == old(gunners)@.len(),
        forall|k: int| 0 <= k < final(gunners)@.len() ==> #[trigger] final(gunners)@[k] == (GunnerWeapon { weapon, enabled: shooting }),
{
    let n = gunners.len();
    let mut i: usize = 0;
    while i < n
        invariant
            i <= n,
            n == gunners@.len(),
            n == old(gunners)@.len(),
            forall|k: int| 0 <= k < i ==> #[trigger] gunners@[k] == (GunnerWeapon { weapon, enabled: shooting }),
        decreases n - i,
    {
        gunners.set(i, GunnerWeapon { weapon, enabled: shooting });
        i += 1;
    }
}

/// Switches to the rack's next weapon. When there is one, every gunner takes it, firing when
/// the shoot action is held; the result tells whether some gunner's weapon changed.
pub fn switch_gunners(rack: &mut WeaponRack, gunners: &mut Vec<GunnerWeapon>, shooting: bool) -> (changed: bool)
    ensures
        final(rack).slots() == old(rack).slots(),
        final(rack).shaped(),
        ({
            let (c, sel) = select(old(rack).slots(), advance(old(rack).cursor(), RACK_SLOTS as nat));
            &&& final(rack).cursor() == c
            &&& match sel {
                Some(w) => {
                    &&& final(gunners)@.len() == old(gunners)@.len()
                    &&& forall|k: int| 0 <= k < final(gunners)@.len() ==> #[trigger] final(gunners)@[k] == (GunnerWeapon { weapon: w, enabled: shooting })
                    &&& changed == exists|k: int| 0 <= k < old(gunners)@.len() && #[trigger] old(gunners)@[k].weapon != w
                },
                None => final(gunners)@ == old(gunners)@ && !changed,
            }
        }),
{
    match rack.next() {
        Some(next) => {
            let n = gunners.len();
            let mut changed = false;
            let mut i: usize = 0;
            while i < n
                invariant
                    i <= n,
                    n == old(gunners)@.len(),
                    gunners@.len() == n,
                    forall|k: int| 0 <= k < i ==> #[trigger] gunners@[k] == (GunnerWeapon { weapon: next, enabled: shooting }),
                    forall|k: int| i <= k < n ==> #[trigger] gunners@[k] == old(gunners)@[k],
                    changed == exists|k: int| 0 <= k < i && #[trigger] old(gunners)@[k].weapon != next,
                decreases n - i,
            {
                if gunners[i].weapon != next {
                    changed = true;
                }
                gunners.set(i, GunnerWeapon { weapon: next, enabled: shooting });
                i += 1;
            }
            changed
        },
        None => false,
    }
}

} // verus!
