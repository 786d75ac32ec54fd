//! Stereo viewport geometry: splitting a composition layer's framebuffer
//! into a left-eye and a right-eye viewport, side by side.

use vstd::prelude::*;
use crate::session::Layer;

verus! {

/// A rectangle of the framebuffer, in pixels, that one camera renders into.
#[derive(Clone, Copy, Debug, PartialEq, Eq, Structural)]
pub struct Viewport {
    pub x: u32,
    pub y: u32,
    pub width: u32,
    pub height: u32,
}

/// Split a framebuffer into the left- and right-eye viewports: each takes
/// half the width (rounded down) and the full height, the right eye starting
/// where the left one ends. The halves never overlap and never leave the
/// framebuffer.
pub fn stereo_viewports(framebuffer_width: u32, framebuffer_height: u32) -> (vps: (
    Viewport,
    Viewport,
))
    ensures
        vps.0 == (Viewport {
            x: 0,
            y: 0,
            width: framebuffer_width / 2,
            height: framebuffer_height,
        }),
        vps.1 == (Viewport {
            x: framebuffer_width / 2,
            y: 0,
            width: framebuffer_width / 2,
            height: framebuffer_height,
        }),
        vps.0.x + vps.0.width <= vps.1.x,
        vps.1.x + vps.1.width <= framebuffer_width,
{
    let half: u32 = framebuffer_width / 2;
    (
        Viewport { x: 0, y: 0, width: half, height: framebuffer_height },
        Viewport { x: half, y: 0, width: half, height: framebuffer_height },
    )
}

/// The eye viewports for a composition layer's framebuffer.
pub fn layer_viewports(layer: &Layer) -> (vps: (Viewport, Viewport))
    ensures
        vps == stereo_split(layer.framebuffer_width, layer.framebuffer_height),
{
    stereo_viewports(layer.framebuffer_width, layer.framebuffer_height)
}

/// What [`stereo_viewports`] returns, for contracts that speak of it.
pub open spec fn stereo_split(framebuffer_width: u32, framebuffer_height: u32) -> (
    Viewport,
    Viewport,
) {
    (
        Viewport {
            x: 0,
            y: 0,
            width: (framebuffer_width / 2) as u32,
            height: framebuffer_height,
        },
        Viewport {
            x: (framebuffer_width / 2) as u32,
            y: 0,
            width: (framebuffer_width / 2) as u32,
            height: framebuffer_height,
        },
    )
}

} // verus!
