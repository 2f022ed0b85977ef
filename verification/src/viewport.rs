//! Viewport limits.
//!
//! GPU hardware imposes a maximum texture dimension; a physical surface that
//! exceeds it in either direction has to be downscaled.
use vstd::prelude::*;

verus! {

/// Whether a physical surface of the given size fits in a square texture
/// of side `max_texture`, so that it can be used without downscaling.
pub fn within_texture_limit(width: u32, height: u32, max_texture: u32) -> (r: bool)
    ensures
        r == (width <= max_texture && height <= max_texture),
{
    width <= max_texture && height <= max_texture
}

} // verus!
