use shooter::collision::{laser_damage, laser_source, LaserDamage};
use shooter::collision::{bullet_may_hit, bullet_source, resolve_bullet_hits, BulletHit, BulletSource, Contact};
use shooter::layers::{Bullet, enemy_layers, player_layers, Layer, LayerMask};

#[test]
fn layer_bits() {
    assert_eq!(Layer::Default.mask(), LayerMask(1));
    assert_eq!(Layer::Miners.mask(), LayerMask(128));
    let b = Bullet::target_layer(Layer::Enemy.mask());
    assert_eq!(b.memberships, LayerMask(4));
    assert_eq!(b.filters, LayerMask(16 | 2 | 32 | 4));
    assert!(b.filters.has_all(Layer::Enemy.mask()));
    assert!(!b.filters.has_all(Layer::Player.mask()));
    assert_eq!(player_layers().filters, LayerMask(2 | 4 | 64 | 16));
}

#[test]
fn source_of_bullets() {
    assert_eq!(bullet_source(&Bullet::target_layer(Layer::Player.mask())), BulletSource::Enemy);
    assert_eq!(bullet_source(&Bullet::target_layer(Layer::Enemy.mask())), BulletSource::Player);
}

#[test]
fn destructable_bullets_are_hit_only_by_player_bullets() {
    let missile = Bullet::target_layer(Layer::Player.mask());
    let player_bullet = Bullet::target_layer(Layer::Enemy.mask());
    let enemy_bullet = Bullet::target_layer(Layer::Player.mask());
    assert!(bullet_may_hit(true, &missile, &player_bullet));
    assert!(!bullet_may_hit(true, &missile, &enemy_bullet));
    assert!(bullet_may_hit(false, &enemy_layers(), &enemy_bullet));
}

#[test]
fn each_bullet_strikes_once() {
    let shot = Bullet::target_layer(Layer::Enemy.mask());
    let contacts = vec![
        Contact { target: 10, layers: enemy_layers(), is_player: false, is_bullet: false, bullets: vec![(1, shot), (2, shot)] },
        Contact { target: 11, layers: enemy_layers(), is_player: false, is_bullet: false, bullets: vec![(2, shot), (3, shot)] },
        Contact { target: 12, layers: player_layers(), is_player: true, is_bullet: false, bullets: vec![(4, Bullet::target_layer(Layer::Player.mask()))] },
    ];
    let hits = resolve_bullet_hits(&contacts);
    assert_eq!(
        hits,
        vec![
            BulletHit { bullet: 1, target: 10, source: BulletSource::Player, hit_player: false },
            BulletHit { bullet: 2, target: 10, source: BulletSource::Player, hit_player: false },
            BulletHit { bullet: 3, target: 11, source: BulletSource::Player, hit_player: false },
            BulletHit { bullet: 4, target: 12, source: BulletSource::Enemy, hit_player: true },
        ]
    );
}

#[test]
fn filtered_bullet_leaves_no_hit() {
    let enemy_shot = Bullet::target_layer(Layer::Player.mask());
    let mine = Bullet::target_layer(Layer::Player.mask());
    let contacts = vec![Contact { target: 5, layers: mine, is_player: false, is_bullet: true, bullets: vec![(9, enemy_shot)] }];
    assert!(resolve_bullet_hits(&contacts).is_empty());
}

#[test]
fn laser_sources() {
    assert_eq!(laser_source(Layer::Player), BulletSource::Enemy);
    assert_eq!(laser_source(Layer::Enemy), BulletSource::Player);
    assert_eq!(laser_source(Layer::Bounds), BulletSource::Enemy);
    assert_eq!(laser_damage(Layer::Enemy), LaserDamage::PerSecond);
    assert_eq!(laser_damage(Layer::Player), LaserDamage::PerFrame);
}
