use shooter::player::PowerUps;
use shooter::shots::{volley, Shot, ShotKind, MAX_POWER};

fn shot(dx_half_px: i32, dy_px: i32, tilt_steps: i32) -> Shot {
    Shot { dx_half_px, dy_px, tilt_steps }
}

#[test]
fn normal_volleys_by_power() {
    let v = volley(ShotKind::Normal, 0).unwrap();
    assert_eq!(v.shots, vec![shot(-5, 0, 0), shot(5, 0, 0)]);
    assert_eq!(v.wait_tenths, None);

    let v = volley(ShotKind::Normal, 1).unwrap();
    assert_eq!(v.shots, vec![shot(5, 0, -1), shot(0, 0, 0), shot(-5, 0, 1)]);
    assert_eq!(v.wait_tenths, Some(2));

    let v = volley(ShotKind::Normal, 2).unwrap();
    assert_eq!(
        v.shots,
        vec![
            shot(15, 0, -2),
            shot(10, 0, -1),
            shot(-5, 0, 0),
            shot(5, 0, 0),
            shot(-10, 0, 1),
            shot(-15, 0, 2),
        ]
    );
    assert_eq!(v.wait_tenths, Some(1));
}

#[test]
fn focus_volleys_by_power() {
    let v = volley(ShotKind::Focus, 0).unwrap();
    assert_eq!(v.shots, vec![shot(-5, 0, 0), shot(5, 0, 0)]);
    assert_eq!(v.wait_tenths, None);

    let v = volley(ShotKind::Focus, 1).unwrap();
    assert_eq!(v.shots, vec![shot(5, 0, 0), shot(0, 0, 0), shot(-5, 0, 0)]);
    assert_eq!(v.wait_tenths, Some(2));

    let v = volley(ShotKind::Focus, 2).unwrap();
    assert_eq!(
        v.shots,
        vec![
            shot(15, -3, 0),
            shot(10, -2, 0),
            shot(-5, 0, 0),
            shot(5, 0, 0),
            shot(-10, -2, 0),
            shot(-15, -3, 0),
        ]
    );
    assert_eq!(v.wait_tenths, Some(1));
}

#[test]
fn no_volley_above_the_highest_power() {
    assert!(volley(ShotKind::Normal, MAX_POWER + 1).is_none());
    assert!(volley(ShotKind::Focus, 3).is_none());
    assert!(volley(ShotKind::Normal, usize::MAX).is_none());
}

#[test]
fn volleys_are_mirrored() {
    for kind in [ShotKind::Normal, ShotKind::Focus] {
        for power in 0..=MAX_POWER {
            let v = volley(kind, power).unwrap();
            for s in &v.shots {
                let m = shot(-s.dx_half_px, s.dy_px, -s.tilt_steps);
                assert!(v.shots.contains(&m));
            }
        }
    }
}

#[test]
fn fresh_power_level_fires_two_shots() {
    let power = PowerUps::new();
    let v = volley(ShotKind::Normal, power.get()).unwrap();
    assert_eq!(v.shots.len(), 2);
}
