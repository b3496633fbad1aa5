use vstd::prelude::*;

verus! {

/// The player's two guns: the machine gun fires plain bullets, the focus gun fires missiles.
#[derive(Debug, Clone, Copy, PartialEq, Eq, Structural)]
pub enum ShotKind {
    Normal,
    Focus,
}

/// One shot of a volley, placed relative to the gun.
///
/// `dx_half_px` is the sideways offset in half pixels (positive to the right), `dy_px` the
/// vertical offset in pixels, and `tilt_steps` the rotation about the gun's axis in steps of a
/// tenth of a radian (positive counter-clockwise). A tilted shot flies along the gun's axis
/// bent by the same angle: its direction is that of `(-tilt_steps / 10, 1)`.
#[derive(Debug, Clone, Copy, PartialEq, Eq, Structural)]
pub struct Shot {
    pub dx_half_px: i32,
    pub dy_px: i32,
    pub tilt_steps: i32,
}

/// What a gun does when its burst timer fires: the shots to spawn, and the new pause between
/// bursts in tenths of a second (`None` leaves the pause as it was).
#[derive(Debug)]
pub struct Volley {
    pub shots: Vec<Shot>,
    pub wait_tenths: Option<u32>,
}

/// The highest power level that the guns know.
pub const MAX_POWER: usize = 2;

/// The shot with the given offsets and tilt.
pub open spec fn shot(dx_half_px: int, dy_px: int, tilt_steps: int) -> Shot {
    Shot { dx_half_px: dx_half_px as i32, dy_px: dy_px as i32, tilt_steps: tilt_steps as i32 }
}

/// The shots that a gun of kind `kind` fires at power level `power`, in firing order; empty
/// above the highest level.
///
/// The machine gun fires two parallel shots at level 0, three fanned shots at level 1 and six
/// at level 2, the outer ones fanned twice as wide. The focus gun fires the same rows without
/// any fan; at level 2 its outer pairs trail the gun by two and three pixels.
pub open spec fn volley_spec(kind: ShotKind, power: nat) -> Seq<Shot> {
    match kind {
        ShotKind::Normal => {
            if power == 0 {
                seq![shot(-5, 0, 0), shot(5, 0, 0)]
            } else if power == 1 {
                seq![shot(5, 0, -1), shot(0, 0, 0), shot(-5, 0, 1)]
            } else if power == 2 {
                seq![
                    shot(15, 0, -2),
                    shot(10, 0, -1),
                    shot(-5, 0, 0),
                    shot(5, 0, 0),
                    shot(-10, 0, 1),
                    shot(-15, 0, 2),
                ]
            } else {
                Seq::empty()
            }
        },
        ShotKind::Focus => {
            if power == 0 {
                seq![shot(-5, 0, 0), shot(5, 0, 0)]
            } else if power == 1 {
                seq![shot(5, 0, 0), shot(0, 0, 0), shot(-5, 0, 0)]
            } else if power == 2 {
                seq![
                    shot(15, -3, 0),
                    shot(10, -2, 0),
                    shot(-5, 0, 0),
                    shot(5, 0, 0),
                    shot(-10, -2, 0),
                    shot(-15, -3, 0),
                ]
            } else {
                Seq::empty()
            }
        },
    }
}

/// The pause between bursts that power level `power` sets, in tenths of a second: level 0 keeps
/// the gun's own pause, level 1 sets two tenths, higher levels one tenth.
pub open spec fn wait_spec(power: nat) -> Option<u32> {
    if power == 0 {
        None
    } else if power == 1 {
        Some(2u32)
    } else {
        Some(1u32)
    }
}

fn push_shot(shots: &mut Vec<Shot>, dx_half_px: i32, dy_px: i32, tilt_steps: i32)
    ensures
        final(shots)@ == old(shots)@.push(shot(dx_half_px as int, dy_px as int, tilt_steps as int)),
{
    shots.push(Shot { dx_half_px, dy_px, tilt_steps });
}

/// The volley that a gun of kind `kind` fires at power level `power`; `None` for a level above
/// the highest, where no shot is fired and the pause is left alone.
pub fn volley(kind: ShotKind, power: usize) -> (v: Option<Volley>)
    ensures
        v is None <==> power > MAX_POWER,
        v matches Some(x) ==> x.shots@ == volley_spec(kind, power as nat) && x.wait_tenths
            == wait_spec(power as nat),
{
    if power > MAX_POWER {
        return None;
    }
    let mut shots: Vec<Shot> = Vec::new();
    match kind {
        ShotKind::Normal => {
            if power == 0 {
                push_shot(&mut shots, -5, 0, 0);
                push_shot(&mut shots, 5, 0, 0);
            } else if power == 1 {
                push_shot(&mut shots, 5, 0, -1);
                push_shot(&mut shots, 0, 0, 0);
                push_shot(&mut shots, -5, 0, 1);
            } else {
                push_shot(&mut shots, 15, 0, -2);
                push_shot(&mut shots, 10, 0, -1);
                push_shot(&mut shots, -5, 0, 0);
                push_shot(&mut shots, 5, 0, 0);
                push_shot(&mut shots, -10, 0, 1);
                push_shot(&mut shots, -15, 0, 2);
            }
        },
        ShotKind::Focus => {
            if power == 0 {
                push_shot(&mut shots, -5, 0, 0);
                push_shot(&mut shots, 5, 0, 0);
            } else if power == 1 {
                push_shot(&mut shots, 5, 0, 0);
                push_shot(&mut shots, 0, 0, 0);
                push_shot(&mut shots, -5, 0, 0);
            } else {
                push_shot(&mut shots, 15, -3, 0);
                push_shot(&mut shots, 10, -2, 0);
                push_shot(&mut shots, -5, 0, 0);
                push_shot(&mut shots, 5, 0, 0);
                push_shot(&mut shots, -10, -2, 0);
                push_shot(&mut shots, -15, -3, 0);
            }
        },
    }
    proof {
        assert(shots@ =~= volley_spec(kind, power as nat));
    }
    let wait_tenths = if power == 0 {
        None
    } else if power == 1 {
        Some(2u32)
    } else {
        Some(1u32)
    };
    Some(Volley { shots, wait_tenths })
}

/// The shot reflected in the gun's axis: the opposite sideways offset and tilt, the same height.
pub open spec fn mirror(x: Shot) -> Shot {
    shot(-x.dx_half_px, x.dy_px as int, -x.tilt_steps)
}

/// Each shot of `s` has its reflection among the shots of `s`.
pub open spec fn is_mirrored(s: Seq<Shot>) -> bool {
    forall|i: int| #![trigger s[i]]
        0 <= i < s.len() ==> exists|j: int| 0 <= j < s.len() && #[trigger] s[j] == mirror(s[i])
}

/// Every volley is mirror-symmetric about the gun's axis: each shot has a partner at the
/// opposite sideways offset, at the same height, tilted the opposite way.
pub proof fn law_volley_is_mirrored(kind: ShotKind, power: nat)
    ensures
        is_mirrored(volley_spec(kind, power)),
{
    let s = volley_spec(kind, power);
    assert forall|i: int| #![trigger s[i]] 0 <= i < s.len() implies exists|j: int|
        0 <= j < s.len() && #[trigger] s[j] == mirror(s[i]) by {
        let j: int = s.len() - 1 - i;
        assert(s[j] == mirror(s[i]));
    }
}

} // verus!
