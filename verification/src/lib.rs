//! The interaction core of a circuit editor's canvas.
//!
//! A canvas shows a graph of blocks and lets the pointer move a block, draw a
//! connection out of an output port, or span a rectangle over blocks. This
//! crate holds the state of one canvas and the rules by which pointer and key
//! events change it. The contract of every event handler equates the new state
//! with a step function over the mathematical plane, and the laws of the
//! gesture machine are proved of those step functions.
//!
//! Coordinates are whole world units. The host converts pointer positions from
//! screen pixels before it calls in. It owns the zoom and the translation of
//! the view, which are fractional; it paints; and it carries out the edits
//! that a finished gesture hands back.

pub mod geometry;
pub mod editor;
pub mod connection;
pub mod selection;
pub mod block;
pub mod plot;
pub mod command;
pub mod gesture;
pub mod readout;
pub mod view;
pub mod laws;

pub use block::{Block, BLOCK_WIDTH, MAX_BLOCK_HEIGHT, PORT_OFFSET, PORT_RADIUS, PORT_SPACING};
pub use command::{ContextMenu, EditCommand, PanAction};
pub use connection::{BlockId, Connection, Connector, Linkage};
pub use editor::{target_of_drag, EditorMode, GRID_SIZE};
pub use geometry::{can_shift, snap_to_grid, Point};
pub use gesture::PAN_KEY;
pub use plot::Plot;
pub use readout::readout_label;
pub use selection::Selection;
pub use view::CircuitView;
