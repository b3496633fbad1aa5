use shooter::weapons::{
    arm_gunners, plan_gunners, switch_gunners, GunnerPlan, GunnerWeapon, Weapon, WeaponRack,
};

#[test]
fn empty_rack_selects_nothing() {
    let mut rack = WeaponRack::new();
    assert_eq!(rack.selection(), None);
    assert_eq!(rack.next(), None);
}

#[test]
fn acquired_weapon_is_selected() {
    let mut rack = WeaponRack::default();
    rack.aquire(Weapon::Missile);
    assert_eq!(rack.selection(), Some(Weapon::Missile));
}

#[test]
fn next_alternates_between_two_held_weapons() {
    let mut rack = WeaponRack::new();
    rack.aquire(Weapon::Bullet);
    rack.aquire(Weapon::Missile);
    assert_eq!(rack.next(), Some(Weapon::Bullet));
    assert_eq!(rack.next(), Some(Weapon::Missile));
    assert_eq!(rack.next(), Some(Weapon::Bullet));
}

#[test]
fn next_skips_a_weapon_not_held() {
    let mut rack = WeaponRack::new();
    rack.aquire(Weapon::Missile);
    assert_eq!(rack.next(), Some(Weapon::Missile));
    assert_eq!(rack.next(), Some(Weapon::Missile));
}

#[test]
fn expired_weapon_is_no_longer_selected() {
    let mut rack = WeaponRack::new();
    rack.aquire(Weapon::Bullet);
    rack.aquire(Weapon::Missile);
    assert_eq!(rack.selection(), Some(Weapon::Bullet));
    rack.expire(Weapon::Bullet);
    assert_eq!(rack.selection(), Some(Weapon::Missile));
    rack.expire(Weapon::Missile);
    assert_eq!(rack.selection(), None);
}

#[test]
fn expiring_the_only_held_weapon_clears_the_selection() {
    let mut rack = WeaponRack::default();
    rack.aquire(Weapon::Bullet);
    rack.expire(Weapon::Bullet);
    assert_eq!(rack.selection(), None);
}

#[test]
fn expiring_one_weapon_keeps_the_other() {
    let mut rack = WeaponRack::default();
    rack.aquire(Weapon::Missile);
    assert_eq!(rack.next(), Some(Weapon::Missile));
    rack.aquire(Weapon::Bullet);
    rack.expire(Weapon::Missile);
    assert_eq!(rack.selection(), Some(Weapon::Bullet));
    assert_eq!(rack.next(), Some(Weapon::Bullet));
}

#[test]
fn gunner_emitters_follow_weapon() {
    let g = GunnerWeapon { weapon: Weapon::Bullet, enabled: true };
    assert!(g.gattling_enabled());
    assert!(!g.missile_enabled());
    let g = GunnerWeapon { weapon: Weapon::Missile, enabled: true };
    assert!(!g.gattling_enabled());
    assert!(g.missile_enabled());
    let g = GunnerWeapon { weapon: Weapon::Missile, enabled: false };
    assert!(!g.missile_enabled());
}

#[test]
fn gunner_plans() {
    let mut rack = WeaponRack::new();
    assert_eq!(plan_gunners(&mut rack, false, false), GunnerPlan::Keep);
    assert_eq!(plan_gunners(&mut rack, true, false), GunnerPlan::Keep);
    assert_eq!(plan_gunners(&mut rack, true, true), GunnerPlan::Dismiss);
    rack.aquire(Weapon::Bullet);
    assert_eq!(plan_gunners(&mut rack, true, false), GunnerPlan::Spawn(Weapon::Bullet));
    assert_eq!(plan_gunners(&mut rack, true, true), GunnerPlan::Arm(Weapon::Bullet));
    assert_eq!(plan_gunners(&mut rack, false, true), GunnerPlan::Keep);
}

#[test]
fn arming_sets_every_gunner() {
    let mut gunners = vec![
        GunnerWeapon { weapon: Weapon::Bullet, enabled: false },
        GunnerWeapon { weapon: Weapon::Missile, enabled: true },
    ];
    arm_gunners(&mut gunners, Weapon::Missile, true);
    assert!(gunners.iter().all(|g| *g == GunnerWeapon { weapon: Weapon::Missile, enabled: true }));
}

#[test]
fn switching_reports_change() {
    let mut rack = WeaponRack::new();
    rack.aquire(Weapon::Bullet);
    rack.aquire(Weapon::Missile);
    let mut gunners = vec![GunnerWeapon { weapon: Weapon::Bullet, enabled: false }; 3];
    // the cursor moves to the machine guns, which the gunners already carry
    assert!(!switch_gunners(&mut rack, &mut gunners, false));
    // then to the missiles
    assert!(switch_gunners(&mut rack, &mut gunners, true));
    assert!(gunners.iter().all(|g| *g == GunnerWeapon { weapon: Weapon::Missile, enabled: true }));
}

#[test]
fn switching_with_empty_rack_changes_nothing() {
    let mut rack = WeaponRack::new();
    let mut gunners = vec![GunnerWeapon { weapon: Weapon::Bullet, enabled: true }];
    assert!(!switch_gunners(&mut rack, &mut gunners, false));
    assert_eq!(gunners, vec![GunnerWeapon { weapon: Weapon::Bullet, enabled: true }]);
}
