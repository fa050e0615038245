//! An animated terminal celebration: streamers and confetti fall, balloons
//! rise. The library builds the scene, advances it frame by frame and works
//! out which terminal cells each frame draws; the terminal itself is driven
//! by the caller.
//!
//! Vertical positions are fixed-point: one terminal row is `SUBCELLS`
//! sub-rows, so every speed of the animation is a whole number of sub-rows.

mod random;

pub mod scene;
pub mod motion;
pub mod render;
pub mod driver;
