use std::collections::HashSet;
use vstd::prelude::*;
use crate::layers::{CollisionLayers, Layer, LayerMask, layer_bit};

verus! {

/// Who fired a bullet.
#[derive(Debug, Clone, Copy, PartialEq, Eq, Structural)]
pub enum BulletSource {
    Player,
    Enemy,
}

/// A bullet that meets the player's layer was fired by an enemy; any other by the player.
pub open spec fn spec_bullet_source(bullet: CollisionLayers) -> BulletSource {
    if bullet.filters.spec_has_all(LayerMask(layer_bit(Layer::Player))) {
        BulletSource::Enemy
    } else {
        BulletSource::Player
    }
}

/// Who fired a bullet with layers `bullet`.
pub fn bullet_source(bullet: &CollisionLayers) -> (s: BulletSource)
    ensures
        s == spec_bullet_source(*bullet),
{
    if bullet.filters.has_all(Layer::Player.mask()) {
        BulletSource::Enemy
    } else {
        BulletSource::Player
    }
}

/// Whether a bullet with layers `bullet` damages a target with layers `target`. A target that
/// is itself a bullet (a missile or a mine) is hit only by the player's bullets: it must meet
/// the player and the bullet must meet enemies. Any other target is hit by every bullet that
/// touches it.
pub open spec fn spec_bullet_may_hit(target_is_bullet: bool, target: CollisionLayers, bullet: CollisionLayers) -> bool {
    if target_is_bullet {
        target.filters.spec_has_all(LayerMask(layer_bit(Layer::Player)))
            && bullet.filters.spec_has_all(LayerMask(layer_bit(Layer::Enemy)))
    } else {
        true
    }
}

/// Whether a bullet with layers `bullet` damages a target with layers `target`.
pub fn bullet_may_hit(target_is_bullet: bool, target: &CollisionLayers, bullet: &CollisionLayers) -> (r: bool)
    ensures
        r == spec_bullet_may_hit(target_is_bullet, *target, *bullet),
        target_is_bullet ==> (r <==> target.filters.contains(Layer::Player) && bullet.filters.contains(
            Layer::Enemy,
        )),
        !target_is_bullet ==> r,
{
    if target_is_bullet {
        target.filters.has_all(Layer::Player.mask()) && bullet.filters.has_all(Layer::Enemy.mask())
    } else {
        true
    }
}

/// How a laser's damage is dealt.
#[derive(Debug, Clone, Copy, PartialEq, Eq, Structural)]
pub enum LaserDamage {
    /// A rate, scaled by the frame's duration (the player's laser on enemies).
    PerSecond,
    /// A fixed amount every frame the beam touches (an enemy laser on the player).
    PerFrame,
}

/// Who fired a laser that stops at `target`: a laser aimed at enemies is the player's, any
/// other an enemy's.
pub fn laser_source(target: Layer) -> (s: BulletSource)
    ensures
        s == if target == Layer::Enemy { BulletSource::Player } else { BulletSource::Enemy },
{
    match target {
        Layer::Player => BulletSource::Enemy,
        Layer::Enemy => BulletSource::Player,
        _ => BulletSource::Enemy,
    }
}

/// How a laser that stops at `target` deals its damage.
pub fn laser_damage(target: Layer) -> (d: LaserDamage)
    ensures
        d == if target == Layer::Enemy { LaserDamage::PerSecond } else { LaserDamage::PerFrame },
{
    if target == Layer::Enemy {
        LaserDamage::PerSecond
    } else {
        LaserDamage::PerFrame
    }
}

/// A damageable entity and the bullets touching it.
pub struct Contact {
    pub target: u64,
    pub layers: CollisionLayers,
    pub is_player: bool,
    pub is_bullet: bool,
    /// Each touching bullet's id and layers.
    pub bullets: Vec<(u64, CollisionLayers)>,
}

/// A bullet striking a target: the bullet is removed and the target takes its damage.
#[derive(Debug, Clone, Copy, PartialEq, Eq, Structural)]
pub struct BulletHit {
    pub bullet: u64,
    pub target: u64,
    pub source: BulletSource,
    pub hit_player: bool,
}

/// The hit of bullet `b` on the target of contact `c`.
pub open spec fn hit_of(target: u64, is_player: bool, b: (u64, CollisionLayers)) -> BulletHit {
    BulletHit { bullet: b.0, target, source: spec_bullet_source(b.1), hit_player: is_player }
}

/// The hits that the bullets `bs` may make on a target, in order.
pub open spec fn contact_hits(target: u64, layers: CollisionLayers, is_player: bool, is_bullet: bool, bs: Seq<(u64, CollisionLayers)>) -> Seq<BulletHit>
    decreases bs.len(),
{
    if bs.len() == 0 {
        Seq::empty()
    } else {
        let prev = contact_hits(target, layers, is_player, is_bullet, bs.drop_last());
        if spec_bullet_may_hit(is_bullet, layers, bs.last().1) {
            prev.push(hit_of(target, is_player, bs.last()))
        } else {
            prev
        }
    }
}

/// The view of a contact: target, layers, flags and bullets.
pub open spec fn contact_view(c: Contact) -> (u64, CollisionLayers, bool, bool, Seq<(u64, CollisionLayers)>) {
    (c.target, c.layers, c.is_player, c.is_bullet, c.bullets@)
}

/// Every hit that the contacts allow, contact by contact.
pub open spec fn candidate_hits(cs: Seq<(u64, CollisionLayers, bool, bool, Seq<(u64, CollisionLayers)>)>) -> Seq<BulletHit>
    decreases cs.len(),
{
    if cs.len() == 0 {
        Seq::empty()
    } else {
        let c = cs.last();
        candidate_hits(cs.drop_last()) + contact_hits(c.0, c.1, c.2, c.3, c.4)
    }
}

/// Whether some hit in `hs` uses bullet `bullet`.
pub open spec fn uses_bullet(hs: Seq<BulletHit>, bullet: u64) -> bool {
    exists|k: int| 0 <= k < hs.len() && #[trigger] hs[k].bullet == bullet
}

/// The hits of `hs` whose bullet no earlier hit used.
pub open spec fn first_hits(hs: Seq<BulletHit>) -> Seq<BulletHit>
    decreases hs.len(),
{
    if hs.len() == 0 {
        Seq::empty()
    } else {
        let prev = first_hits(hs.drop_last());
        if uses_bullet(prev, hs.last().bullet) {
            prev
        } else {
            prev.push(hs.last())
        }
    }
}

/// Resolves which bullets strike which targets in a frame. Contacts are taken in order, and
/// each target's touching bullets in order; a bullet that may hit the target strikes it unless
/// it already struck something this frame, so that each bullet strikes at most once.
pub fn resolve_bullet_hits(contacts: &Vec<Contact>) -> (hits: Vec<BulletHit>)
    ensures
        hits@ == first_hits(candidate_hits(contacts@.map_values(|c: Contact| contact_view(c)))),
{
    let ghost views = contacts@.map_values(|c: Contact| contact_view(c));
    let mut hits: Vec<BulletHit> = Vec::new();
    let mut struck: HashSet<u64> = HashSet::new();
    let mut i: usize = 0;
    while i < contacts.len()
        invariant
            i <= contacts@.len(),
            views == contacts@.map_values(|c: Contact| contact_view(c)),
            hits@ == first_hits(candidate_hits(views.take(i as int))),
            forall|b: u64| #[trigger] struck@.contains(b) <==> uses_bullet(hits@, b),
        decreases contacts@.len() - i,
    {
        let c = &contacts[i];
        let ghost before = candidate_hits(views.take(i as int));
        assert(views.take(i as int + 1).drop_last() =~= views.take(i as int));
        assert(views[i as int] == contact_view(*c));
        let mut j: usize = 0;
        while j < c.bullets.len()
            invariant
                i < contacts@.len(),
                *c == contacts@[i as int],
                j <= c.bullets@.len(),
                forall|b: u64| #[trigger] struck@.contains(b) <==> uses_bullet(hits@, b),
                hits@ == first_hits(before + contact_hits(c.target, c.layers, c.is_player, c.is_bullet, c.bullets@.take(j as int))),
            decreases c.bullets@.len() - j,
        {
            let (bullet, layers) = c.bullets[j];
            let ghost prefix = before + contact_hits(c.target, c.layers, c.is_player, c.is_bullet, c.bullets@.take(j as int));
            assert(c.bullets@.take(j as int + 1).drop_last() =~= c.bullets@.take(j as int));
            if bullet_may_hit(c.is_bullet, &c.layers, &layers) {
                let hit = BulletHit {
                    bullet,
                    target: c.target,
                    source: bullet_source(&layers),
                    hit_player: c.is_player,
                };
                let ghost next = prefix.push(hit);
                assert(before + contact_hits(c.target, c.layers, c.is_player, c.is_bullet, c.bullets@.take(j as int + 1)) =~= next);
                assert(next.drop_last() =~= prefix);
                let ghost old_hits = hits@;
                if struck.insert(bullet) {
                    hits.push(hit);
                    assert forall|b: u64| #[trigger] uses_bullet(hits@, b) <==> uses_bullet(old_hits, b) || b == bullet by {
                        if uses_bullet(hits@, b) && b != bullet {
                            let k = choose|k: int| 0 <= k < hits@.len() && #[trigger] hits@[k].bullet == b;
                            assert(old_hits[k].bullet == b);
                        }
                        if uses_bullet(old_hits, b) {
                            let k = choose|k: int| 0 <= k < old_hits.len() && #[trigger] old_hits[k].bullet == b;
                            assert(hits@[k].bullet == b);
                        }
                        if b == bullet {
                            assert(hits@[hits@.len() - 1].bullet == b);
                        }
                    }
                }
            } else {
                assert(before + contact_hits(c.target, c.layers, c.is_player, c.is_bullet, c.bullets@.take(j as int + 1)) =~= prefix);
            }
            j += 1;
        }
        assert(c.bullets@.take(c.bullets@.len() as int) =~= c.bullets@);
        i += 1;
    }
    assert(views.take(contacts@.len() as int) =~= views);
    hits
}

/// A target that is itself a bullet is struck only by the player's bullets, and only if it is
/// an enemy's: the target must meet the player's layer and the bullet the enemies' layer. Any
/// other target is struck by every bullet that touches it.
pub proof fn law_only_enemy_bullets_are_shot_down(target: CollisionLayers, bullet: CollisionLayers)
    ensures
        spec_bullet_may_hit(true, target, bullet) <==> (target.filters.contains(Layer::Player)
            && bullet.filters.contains(Layer::Enemy)),
        spec_bullet_may_hit(false, target, bullet),
{
}

/// No bullet strikes a target bullet that does not meet the player's layer, such as one of
/// the player's own missiles.
pub proof fn law_player_bullets_are_never_struck(
    target: u64,
    layers: CollisionLayers,
    is_player: bool,
    bs: Seq<(u64, CollisionLayers)>,
)
    requires
        !layers.filters.contains(Layer::Player),
    ensures
        contact_hits(target, layers, is_player, true, bs).len() == 0,
    decreases bs.len(),
{
    if bs.len() > 0 {
        law_player_bullets_are_never_struck(target, layers, is_player, bs.drop_last());
    }
}

/// A bullet strikes at most once a frame, and every strike is one that a contact allows.
pub proof fn law_each_bullet_strikes_once(hs: Seq<BulletHit>)
    ensures
        forall|a: int, b: int| 0 <= a < b < first_hits(hs).len() ==> #[trigger] first_hits(hs)[a].bullet != #[trigger] first_hits(hs)[b].bullet,
        forall|a: int| 0 <= a < first_hits(hs).len() ==> hs.contains(#[trigger] first_hits(hs)[a]),
    decreases hs.len(),
{
    if hs.len() > 0 {
        law_each_bullet_strikes_once(hs.drop_last());
        let prev = first_hits(hs.drop_last());
        assert forall|a: int| 0 <= a < prev.len() implies hs.contains(#[trigger] prev[a]) by {
            let k = choose|k: int| 0 <= k < hs.drop_last().len() && hs.drop_last()[k] == prev[a];
            assert(hs[k] == prev[a]);
        }
        if !uses_bullet(prev, hs.last().bullet) {
            let f = prev.push(hs.last());
            assert forall|a: int, b: int| 0 <= a < b < f.len() implies #[trigger] f[a].bullet != #[trigger] f[b].bullet by {
                if b == f.len() - 1 {
                    assert(prev[a].bullet == f[a].bullet);
                }
            }
            assert(hs[hs.len() - 1] == hs.last());
        }
    }
}

} // verus!
