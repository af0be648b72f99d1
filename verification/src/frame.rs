//! Frame composition: one render cycle's worth of computation, from a
//! snapshot of the shared state to the regions the drawing surface paints
//! in a single atomic call.

use vstd::prelude::*;

use crate::control::{clamp_offset, clamped};
use crate::dialog::Dialog;
use crate::level::Level;
use crate::tile::Tile;

verus! {

/// The dialog overlay is a bottom strip of the viewport, this many rows
/// tall.
pub const DIALOG_HEIGHT: u16 = 4;

/// A rectangle on the drawing surface, in character cells.
#[derive(Clone, Copy, PartialEq, Eq, Structural, Debug)]
pub struct Region {
    pub x: u16,
    pub y: u16,
    pub width: u16,
    pub height: u16,
}

/// The overlay strip for a viewport of `vw` by `vh` cells: full width,
/// `DIALOG_HEIGHT` rows, flush with the bottom edge.
pub open spec fn spec_dialog_region(vw: u16, vh: u16) -> Region {
    Region { x: 0, y: (vh - DIALOG_HEIGHT) as u16, width: vw, height: DIALOG_HEIGHT }
}

/// Where the dialog overlay goes on a viewport of `vw` by `vh` cells.
pub fn dialog_region(vw: u16, vh: u16) -> (r: Region)
    requires
        vh >= DIALOG_HEIGHT,
    ensures
        r == spec_dialog_region(vw, vh),
{
    Region { x: 0, y: vh - DIALOG_HEIGHT, width: vw, height: DIALOG_HEIGHT }
}

/// One composed frame: the visible tiles, row-major, `width * height` of
/// them, and, when the dialog is shown, its contents with the overlay
/// region it is painted into. The drawing surface paints all of it in one
/// atomic call, the overlay after (so above) the tile layer.
pub struct Frame {
    pub width: u16,
    pub height: u16,
    pub tiles: Vec<Tile>,
    pub overlay: Option<(Dialog, Region)>,
}

/// The overlay a frame carries: the dialog in its bottom strip when one is
/// shown and the viewport is tall enough to hold the strip, nothing
/// otherwise.
pub open spec fn spec_overlay(dialog: Option<Dialog>, vw: u16, vh: u16) -> Option<(Dialog, Region)> {
    match dialog {
        Some(d) => if vh >= DIALOG_HEIGHT {
            Some((d, spec_dialog_region(vw, vh)))
        } else {
            None
        },
        None => None,
    }
}

/// Compose one frame from a snapshot of the shared state: clamp the
/// offsets into range, window the level, and attach the dialog overlay if
/// one is visible. The offsets arrive already clamped from the update
/// loop; clamping again here is a no-op then, and keeps the windowing
/// precondition even when the drawing surface reports a fresh viewport
/// size mid-flight.
pub fn compose_frame(
    level: &Level,
    x_offset: i64,
    y_offset: i64,
    vw: u16,
    vh: u16,
    dialog: Option<Dialog>,
) -> (f: Frame)
    requires
        level.wf(),
        vw <= level.width,
        vh <= level.height,
    ensures
        f.width == vw,
        f.height == vh,
        f.tiles@ == level.window_spec(
            clamped(x_offset as int, level.width - vw),
            clamped(y_offset as int, level.height - vh),
            vw as int,
            vh as int,
        ),
        f.overlay == spec_overlay(dialog, vw, vh),
{
    let cx = clamp_offset(x_offset, level.width, vw);
    let cy = clamp_offset(y_offset, level.height, vh);
    let tiles = level.window(cx as usize, cy as usize, vw as usize, vh as usize);
    let overlay = match dialog {
        Some(d) => if vh >= DIALOG_HEIGHT {
            Some((d, dialog_region(vw, vh)))
        } else {
            None
        },
        None => None,
    };
    Frame { width: vw, height: vh, tiles, overlay }
}

} // verus!
