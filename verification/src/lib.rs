use vstd::prelude::*;

pub mod animation;
pub mod bombs;
pub mod boss;
pub mod collider;
pub mod collision;
pub mod color;
pub mod drops;
pub mod emitter;
pub mod layers;
pub mod pickups;
pub mod player;
pub mod score;
pub mod selection;
pub mod shots;
pub mod sprites;
pub mod timeline;
pub mod weapons;

verus! {

} // verus!
