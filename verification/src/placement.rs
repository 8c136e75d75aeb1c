//! Placement of a secondary always-visible output surface.
//!
//! Given the geometries of the attached displays (enumerated by the host
//! runtime), compute where the secondary surface goes: on the second display,
//! borderless and fullscreen, when two or more displays are attached; at a
//! fixed windowed fallback position otherwise.  The computation is
//! best-effort for the pipeline: a caller that fails to enumerate displays
//! simply passes an empty list and receives the fallback.

use vstd::prelude::*;

verus! {

/// Origin and resolution of one display as the host runtime reports it.
#[derive(Clone, Copy, Debug, PartialEq, Eq, Structural)]
pub struct DisplayGeometry {
    pub x: i32,
    pub y: i32,
    pub width: u32,
    pub height: u32,
}

/// Requested placement for the secondary output surface.
#[derive(Clone, Copy, Debug, PartialEq, Eq, Structural)]
pub struct SurfaceSpec {
    pub x: i32,
    pub y: i32,
    pub width: u32,
    pub height: u32,
    pub fullscreen: bool,
    pub resizable: bool,
    pub decorations: bool,
}

/// Fallback origin when fewer than two displays are attached.
pub const FALLBACK_X: i32 = 100;

/// Fallback origin when fewer than two displays are attached.
pub const FALLBACK_Y: i32 = 100;

/// Fallback size when fewer than two displays are attached.
pub const FALLBACK_WIDTH: u32 = 1920;

/// Fallback size when fewer than two displays are attached.
pub const FALLBACK_HEIGHT: u32 = 1080;

/// The fixed windowed placement used when no second display is available.
pub open spec fn fallback_surface() -> SurfaceSpec {
    SurfaceSpec {
        x: FALLBACK_X,
        y: FALLBACK_Y,
        width: FALLBACK_WIDTH,
        height: FALLBACK_HEIGHT,
        fullscreen: false,
        resizable: true,
        decorations: true,
    }
}

/// The borderless fullscreen placement covering the given display exactly.
pub open spec fn covering_surface(d: DisplayGeometry) -> SurfaceSpec {
    SurfaceSpec {
        x: d.x,
        y: d.y,
        width: d.width,
        height: d.height,
        fullscreen: true,
        resizable: false,
        decorations: false,
    }
}

/// Compute the placement of the secondary output surface.
///
/// With two or more displays the surface covers the second display exactly,
/// fullscreen, borderless and non-resizable; with fewer it is the fixed
/// movable fallback window.
pub fn place_secondary_surface(displays: &Vec<DisplayGeometry>) -> (s: SurfaceSpec)
    ensures
        displays@.len() >= 2 ==> s == covering_surface(displays@[1]),
        displays@.len() < 2 ==> s == fallback_surface(),
{
    if displays.len() >= 2 {
        let d = displays[1];
        SurfaceSpec {
            x: d.x,
            y: d.y,
            width: d.width,
            height: d.height,
            fullscreen: true,
            resizable: false,
            decorations: false,
        }
    } else {
        SurfaceSpec {
            x: FALLBACK_X,
            y: FALLBACK_Y,
            width: FALLBACK_WIDTH,
            height: FALLBACK_HEIGHT,
            fullscreen: false,
            resizable: true,
            decorations: true,
        }
    }
}

} // verus!
