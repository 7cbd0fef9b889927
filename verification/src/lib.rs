//! Verified core of the retro arcade collection: input edge detection,
//! fixed-timestep clock, sprite rasterisation and the integer game logic
//! (level maps, story flow, damage rules) of the handheld games.

pub mod input;
pub mod sprite;
pub mod timing;
pub mod raster;
pub mod shadow;
pub mod neon;
pub mod mariolike;
pub mod cyber;
pub mod micro;
pub mod space;
pub mod dragon;
