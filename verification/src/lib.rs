//! Integer core of a small 2-D star simulation: the schedule of pairwise
//! body interactions, the sprite animation clock, sprite placement, the
//! seeds of the procedural star textures, and the random spawning of stars.

pub mod animation;
pub mod pairs;
pub mod texture;
pub mod spawn;
