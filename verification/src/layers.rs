use vstd::prelude::*;

verus! {

/// The physics layers of the game, each with a bit of its own in a [`LayerMask`].
#[derive(Debug, Clone, Copy, PartialEq, Eq, Structural)]
pub enum Layer {
    Default,
    Bounds,
    Bullet,
    Player,
    Enemy,
    Debris,
    Collectable,
    Miners,
}

/// The bit of a layer: layers take bits from the lowest upwards, in the order they are
/// declared.
pub open spec fn layer_bit(layer: Layer) -> u32 {
    match layer {
        Layer::Default => 1u32,
        Layer::Bounds => 2u32,
        Layer::Bullet => 4u32,
        Layer::Player => 8u32,
        Layer::Enemy => 16u32,
        Layer::Debris => 32u32,
        Layer::Collectable => 64u32,
        Layer::Miners => 128u32,
    }
}

/// A set of layers, one bit per layer.
#[derive(Debug, Clone, Copy, PartialEq, Eq, Structural)]
pub struct LayerMask(pub u32);

impl Layer {
    /// The mask holding this layer alone.
    pub fn mask(self) -> (m: LayerMask)
        ensures
            m.0 == layer_bit(self),
    {
        match self {
            Layer::Default => LayerMask(1),
            Layer::Bounds => LayerMask(2),
            Layer::Bullet => LayerMask(4),
            Layer::Player => LayerMask(8),
            Layer::Enemy => LayerMask(16),
            Layer::Debris => LayerMask(32),
            Layer::Collectable => LayerMask(64),
            Layer::Miners => LayerMask(128),
        }
    }
}

impl LayerMask {
    /// Every layer of `self` or of `other`.
    pub fn union(self, other: LayerMask) -> (m: LayerMask)
        ensures
            m.0 == self.0 | other.0,
    {
        LayerMask(self.0 | other.0)
    }

    /// Whether every layer of `other` is in `self`.
    pub open spec fn spec_has_all(self, other: LayerMask) -> bool {
        self.0 & other.0 == other.0
    }

    /// Whether every layer of `other` is in `self`.
    pub fn has_all(self, other: LayerMask) -> (r: bool)
        ensures
            r == self.spec_has_all(other),
    {
        self.0 & other.0 == other.0
    }

    /// Whether `layer` is in `self`.
    pub open spec fn contains(self, layer: Layer) -> bool {
        self.0 & layer_bit(layer) == layer_bit(layer)
    }
}

/// The layers an entity belongs to, and the layers it interacts with.
#[derive(Debug, Clone, Copy, PartialEq, Eq, Structural)]
pub struct CollisionLayers {
    pub memberships: LayerMask,
    pub filters: LayerMask,
}

impl CollisionLayers {
    /// Layers from their two masks.
    pub fn new(memberships: LayerMask, filters: LayerMask) -> (c: Self)
        ensures
            c.memberships == memberships,
            c.filters == filters,
    {
        CollisionLayers { memberships, filters }
    }
}

/// A bullet.
pub struct Bullet;

impl Bullet {
    /// A bullet aimed at `target`: it belongs to the bullet layer and meets the target, the
    /// screen bounds, debris and other bullets.
    pub fn target_layer(target: LayerMask) -> (c: CollisionLayers)
        ensures
            c.memberships.0 == layer_bit(Layer::Bullet),
            c.filters.0 == target.0 | layer_bit(Layer::Bounds) | layer_bit(Layer::Debris) | layer_bit(Layer::Bullet),
    {
        CollisionLayers::new(
            Layer::Bullet.mask(),
            target.union(Layer::Bounds.mask()).union(Layer::Debris.mask()).union(Layer::Bullet.mask()),
        )
    }
}

/// The player: it meets the bounds, bullets, pickups and enemies.
pub fn player_layers() -> (c: CollisionLayers)
    ensures
        c.memberships.0 == layer_bit(Layer::Player),
        c.filters.0 == layer_bit(Layer::Bounds) | layer_bit(Layer::Bullet) | layer_bit(Layer::Collectable) | layer_bit(Layer::Enemy),
{
    CollisionLayers::new(
        Layer::Player.mask(),
        Layer::Bounds.mask().union(Layer::Bullet.mask()).union(Layer::Collectable.mask()).union(Layer::Enemy.mask()),
    )
}

/// An enemy: it meets bullets and the player.
pub fn enemy_layers() -> (c: CollisionLayers)
    ensures
        c.memberships.0 == layer_bit(Layer::Enemy),
        c.filters.0 == layer_bit(Layer::Bullet) | layer_bit(Layer::Player),
{
    CollisionLayers::new(Layer::Enemy.mask(), Layer::Bullet.mask().union(Layer::Player.mask()))
}

/// A pickup: it meets the bounds, the player and the miners.
pub fn collectable_layers() -> (c: CollisionLayers)
    ensures
        c.memberships.0 == layer_bit(Layer::Collectable),
        c.filters.0 == layer_bit(Layer::Bounds) | layer_bit(Layer::Player) | layer_bit(Layer::Miners),
{
    CollisionLayers::new(
        Layer::Collectable.mask(),
        Layer::Bounds.mask().union(Layer::Player.mask()).union(Layer::Miners.mask()),
    )
}

/// A dismissed gunner: it is on the player's layer and meets only the bounds.
pub fn dismissed_gunner_layers() -> (c: CollisionLayers)
    ensures
        c.memberships.0 == layer_bit(Layer::Player),
        c.filters.0 == layer_bit(Layer::Bounds),
{
    CollisionLayers::new(Layer::Player.mask(), Layer::Bounds.mask())
}

/// What a laser aimed at `target` stops at: the target, the bounds and debris.
pub fn laser_mask(target: Layer) -> (m: LayerMask)
    ensures
        m.0 == layer_bit(target) | layer_bit(Layer::Bounds) | layer_bit(Layer::Debris),
{
    target.mask().union(Layer::Bounds.mask()).union(Layer::Debris.mask())
}

/// A bullet aimed at a layer meets that layer, and so does an aimed bullet whatever else it
/// meets; it never belongs to the layer it is aimed at unless that is the bullet layer.
pub proof fn law_bullet_meets_target(target: Layer)
    ensures
        ({
            let f = layer_bit(target) | layer_bit(Layer::Bounds) | layer_bit(Layer::Debris) | layer_bit(Layer::Bullet);
            &&& LayerMask(f).contains(target)
            &&& LayerMask(f).contains(Layer::Bounds)
            &&& LayerMask(f).contains(Layer::Bullet)
            &&& (target != Layer::Bullet ==> !LayerMask(layer_bit(Layer::Bullet)).contains(target))
        }),
{
    let t = layer_bit(target);
    let f = t | 2u32 | 32u32 | 4u32;
    assert(f & t == t) by (bit_vector)
        requires f == t | 2u32 | 32u32 | 4u32;
    assert(f & 2u32 == 2u32) by (bit_vector)
        requires f == t | 2u32 | 32u32 | 4u32;
    assert(f & 4u32 == 4u32) by (bit_vector)
        requires f == t | 2u32 | 32u32 | 4u32;
    assert(4u32 & 1u32 == 0u32) by (bit_vector);
    assert(4u32 & 2u32 == 0u32) by (bit_vector);
    assert(4u32 & 8u32 == 0u32) by (bit_vector);
    assert(4u32 & 16u32 == 0u32) by (bit_vector);
    assert(4u32 & 32u32 == 0u32) by (bit_vector);
    assert(4u32 & 64u32 == 0u32) by (bit_vector);
    assert(4u32 & 128u32 == 0u32) by (bit_vector);
}

} // verus!
