//! How the editor places the blocks that the pointer moves.

use vstd::prelude::*;
use crate::geometry::{ints, representable, shifted, snap_point, snap_to_grid, Point};

verus! {

/// The side of a grid cell, in world units.
pub const GRID_SIZE: i32 = 20;

/// Where a moved block may come to rest.
#[derive(Clone, Copy, Debug, PartialEq, Eq, Structural)]
pub enum EditorMode {
    /// Anywhere.
    Free,
    /// On the corners of the grid cells only.
    Grid,
}

impl Default for EditorMode {
    fn default() -> (mode: EditorMode)
        ensures
            mode == EditorMode::Free,
    {
        EditorMode::Free
    }
}

/// Where a block comes to rest that the pointer took hold of at `start` and
/// dragged by `offset`: there in free mode, and in grid mode at the corner of
/// the grid that lies toward the origin from there.
pub open spec fn drag_target(start: (int, int), offset: (int, int), mode: EditorMode) -> (int, int) {
    match mode {
        EditorMode::Free => shifted(start, offset),
        EditorMode::Grid => snap_point(shifted(start, offset), GRID_SIZE as int),
    }
}

/// Computes the target of a drag from `start` by `offset`.
pub fn target_of_drag(start: Point, offset: Point, mode: EditorMode) -> (target: Point)
    requires
        representable(shifted(ints(start), ints(offset))),
    ensures
        ints(target) == drag_target(ints(start), ints(offset), mode),
{
    let x: i32 = start.0 + offset.0;
    let y: i32 = start.1 + offset.1;
    match mode {
        EditorMode::Free => (x, y),
        EditorMode::Grid => (snap_to_grid(x, GRID_SIZE), snap_to_grid(y, GRID_SIZE)),
    }
}

} // verus!
