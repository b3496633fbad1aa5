use shooter::bombs::{Bombs, STARTING_BOMBS};
use shooter::pickups::{parts_collected, Material, PickupKind, ScrollingPickup, SCROLL_CHOICES};
use shooter::player::{Materials, PowerUpEffect, PowerUps};
use shooter::score::{FlashCommand, PickupCombo, PointAccumulator, Points, Stats, ENEMY_POINTS};
use shooter::selection::{MinMaterials, Selection};
use shooter::weapons::Weapon;

#[test]
fn materials_saturate() {
    let mut m = Materials::new();
    m.add_part();
    m.add_part();
    m.sub(5);
    assert_eq!(m.get(), 0);
}

#[test]
fn upgrade_costs_double() {
    let mut min = MinMaterials::new();
    let mut m = Materials::default();
    assert_eq!(min.remaining(&m), 1);
    assert!(!min.try_upgrade(&mut m));
    m.add_part();
    assert_eq!(min.remaining(&m), 0);
    assert!(min.try_upgrade(&mut m));
    assert_eq!(m.get(), 0);
    assert_eq!(min.get(), 2);
    for _ in 0..3 {
        m.add_part();
    }
    assert!(min.try_upgrade(&mut m));
    assert_eq!(m.get(), 1);
    assert_eq!(min.get(), 4);
    assert_eq!(min.remaining(&m), 3);
    min.reset();
    assert_eq!(min.get(), 1);
}

#[test]
fn selection_wraps() {
    let mut s = Selection::new();
    assert_eq!(s.get(), 1);
    s.left();
    assert_eq!(s.get(), 0);
    s.left();
    assert_eq!(s.get(), 2);
    s.right();
    assert_eq!(s.get(), 0);
    s.right();
    s.right();
    s.right();
    assert_eq!(s.get(), 0);
}

#[test]
fn power_ups_raise_damage_four_times() {
    let mut p = PowerUps::new();
    for _ in 0..4 {
        assert_eq!(p.collect(), PowerUpEffect::RaiseDamage);
    }
    assert_eq!(p.collect(), PowerUpEffect::Unhandled(5));
    assert_eq!(p.get(), 5);
}

#[test]
fn points_add_up() {
    let mut p = Points::new();
    p.add(ENEMY_POINTS);
    p.add(5);
    assert_eq!(p.get(), 25);
}

#[test]
fn shown_score_counts_up() {
    let mut a = PointAccumulator::new();
    assert_eq!(a.accumulate(2, false), FlashCommand::Start);
    assert_eq!(a.get(), 1);
    assert_eq!(a.accumulate(2, true), FlashCommand::Keep);
    assert_eq!(a.get(), 2);
    assert_eq!(a.accumulate(2, true), FlashCommand::Stop);
    assert_eq!(a.accumulate(2, false), FlashCommand::Keep);
    assert_eq!(a.get(), 2);
}

#[test]
fn stats_count_parts_only() {
    let mut s = Stats::default();
    let pickups = vec![
        PickupKind::Material(Material::Parts),
        PickupKind::Material(Material::Shield),
        PickupKind::Weapon(Weapon::Bullet),
        PickupKind::Upgrade,
        PickupKind::Material(Material::Parts),
    ];
    assert_eq!(parts_collected(&pickups), 2);
    s.record(3, &pickups);
    s.record(1, &Vec::new());
    assert_eq!(s.kills, 4);
    assert_eq!(s.materials, 2);
}

#[test]
fn bombs() {
    let mut b = Bombs::new(STARTING_BOMBS);
    assert!(b.detonate());
    assert!(b.detonate());
    assert!(b.detonate());
    assert!(!b.detonate());
    assert_eq!(b.get(), 0);
    b.collect();
    assert_eq!(b.get(), 1);
    assert!(b.detonate());
}

#[test]
fn combo_pitch() {
    let mut c = PickupCombo::new();
    assert_eq!(c.pickup(true), 1);
    assert_eq!(c.pickup(true), 2);
    assert_eq!(c.pickup(false), 0);
}

#[test]
fn scrolling_pickup_in_range() {
    for _ in 0..100 {
        assert!(ScrollingPickup::new().index < SCROLL_CHOICES);
    }
}
