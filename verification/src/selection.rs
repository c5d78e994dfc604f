//! What the pointer holds.

use vstd::prelude::*;
use crate::connection::BlockId;
use crate::geometry::{ints, Point};

verus! {

/// The target of the gesture in progress, or of the last one.
#[derive(Clone, Copy, Debug, PartialEq, Eq)]
pub enum Selection {
    /// Nothing is held.
    Idle,
    /// One block is selected, and moves with the pointer while it is dragged.
    Single(BlockId),
    /// A connection is being drawn out of output `output` of block
    /// `block_id`. It is anchored at `start`, the place of that output, and
    /// its loose end is at `position`.
    Connection { block_id: BlockId, output: u8, start: Point, position: Point },
    /// A rectangle is being spanned between two opposite corners, given in
    /// either order.
    Area(Point, Point),
}

/// A selection over the mathematical plane.
pub enum SelectionModel {
    Idle,
    Single(BlockId),
    Connection { block_id: BlockId, output: u8, start: (int, int), position: (int, int) },
    Area((int, int), (int, int)),
}

impl View for Selection {
    type V = SelectionModel;

    open spec fn view(&self) -> SelectionModel {
        match *self {
            Selection::Idle => SelectionModel::Idle,
            Selection::Single(id) => SelectionModel::Single(id),
            Selection::Connection { block_id, output, start, position } => SelectionModel::Connection {
                block_id,
                output,
                start: ints(start),
                position: ints(position),
            },
            Selection::Area(a, b) => SelectionModel::Area(ints(a), ints(b)),
        }
    }
}

} // verus!
