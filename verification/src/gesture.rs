//! The gesture machine, as mathematics.
//!
//! A gesture is one press, drag and release of the pointer: it begins, is
//! updated any number of times, and ends. While the panning modifier is held a
//! gesture moves the view; otherwise it edits the plot, and what it does is
//! decided by where it began: on a block it moves the block, on the knob of an
//! output it draws a connection, on the empty canvas it spans a rectangle.
//! Only the end of a gesture can ask for an edit of the graph. The functions
//! here say, for every state and event, what the next state is and what the
//! host is asked to do.

use vstd::prelude::*;
use crate::block::block_fits_at;
use crate::command::{CommandModel, ContextMenu, PanAction};
use crate::connection::{Connection, Connector, Linkage};
use crate::editor::{drag_target, EditorMode};
use crate::geometry::{representable, shifted};
use crate::plot::PlotModel;
use crate::selection::SelectionModel;

verus! {

/// The key that is held to pan the view: the left control key.
pub const PAN_KEY: u32 = 0xffe3;

impl PlotModel {
    /// The plot after an editing gesture began at `p`. On the empty canvas
    /// the pointer starts a rectangle there. On the knob of an output it
    /// starts a connection at the anchor of that output. Elsewhere on a block
    /// it takes hold of the block.
    pub open spec fn grab(self, p: (int, int)) -> PlotModel {
        match self.block_at(p) {
            None => self.with_selection(SelectionModel::Area(p, p)),
            Some(id) => match self.block(id).port_at(p, false) {
                Some(output) => {
                    let start = self.block(id).connector_pos(Connector::Output(output));
                    self.with_selection(
                        SelectionModel::Connection { block_id: id, output, start, position: start },
                    )
                },
                None => self.with_block(id, self.block(id).grabbed()).with_selection(
                    SelectionModel::Single(id),
                ),
            },
        }
    }

    /// Whether a drag changes what the canvas shows: whether the pointer
    /// holds something that is there.
    pub open spec fn follows_pointer(self) -> bool {
        match self.selection {
            SelectionModel::Idle => false,
            SelectionModel::Single(id) => self.has_block(id),
            _ => true,
        }
    }

    /// The plot after the pointer of an editing gesture has moved by `offset`
    /// from where the gesture began. A held block shows at its drag target; a
    /// connection's loose end and a rectangle's second corner follow the
    /// pointer.
    pub open spec fn drag(self, offset: (int, int), mode: EditorMode) -> PlotModel {
        match self.selection {
            SelectionModel::Idle => self,
            SelectionModel::Single(id) => if self.has_block(id) {
                self.with_block(
                    id,
                    self.block(id).moved_to(drag_target(self.block(id).start_pos, offset, mode)),
                )
            } else {
                self
            },
            SelectionModel::Connection { block_id, output, start, position } => self.with_selection(
                SelectionModel::Connection {
                    block_id,
                    output,
                    start,
                    position: shifted(start, offset),
                },
            ),
            SelectionModel::Area(a, _) => self.with_selection(
                SelectionModel::Area(a, shifted(a, offset)),
            ),
        }
    }

    /// Whether the machine can carry out `drag`: whether what follows the
    /// pointer stays where machine coordinates reach.
    pub open spec fn admits_drag(self, offset: (int, int), mode: EditorMode) -> bool {
        match self.selection {
            SelectionModel::Idle => true,
            SelectionModel::Single(id) => self.has_block(id) ==> self.admits_move(id, offset, mode),
            SelectionModel::Connection { start, .. } => representable(shifted(start, offset)),
            SelectionModel::Area(a, _) => representable(shifted(a, offset)),
        }
    }

    /// Whether block `id` can stand at the target of a drag by `offset`.
    pub open spec fn admits_move(self, id: u32, offset: (int, int), mode: EditorMode) -> bool {
        &&& representable(shifted(self.block(id).start_pos, offset))
        &&& block_fits_at(drag_target(self.block(id).start_pos, offset, mode))
    }

    /// The plot after an editing gesture ended. A held block stays selected.
    /// A connection in the drawing is let go of, whether it found a port or
    /// not. A rectangle is committed and stays.
    pub open spec fn release(self) -> PlotModel {
        match self.selection {
            SelectionModel::Connection { .. } => self.with_selection(SelectionModel::Idle),
            SelectionModel::Area(..) => self.highlight_area(),
            _ => self,
        }
    }

    /// The edit that an editing gesture asks for when it ends with the
    /// pointer `offset` away from where it began. A held block that was
    /// dragged away is moved from where it was taken to its drag target. A
    /// connection whose loose end lies on the knob of a port is added.
    /// Everything else asks for nothing.
    pub open spec fn release_command(self, offset: (int, int), mode: EditorMode) -> Option<
        CommandModel,
    > {
        match self.selection {
            SelectionModel::Single(id) => if offset != (0int, 0int) && self.has_block(id) {
                Some(
                    CommandModel::MoveBlock(
                        id,
                        self.block(id).start_pos,
                        drag_target(self.block(id).start_pos, offset, mode),
                    ),
                )
            } else {
                None
            },
            SelectionModel::Connection { block_id, output, start, position } => match self.block_at(
                position,
            ) {
                Some(target) => match self.block(target).port_at(position, true) {
                    Some(port) => Some(
                        CommandModel::NewConnection(
                            block_id,
                            Connection {
                                origin: Linkage { block_id, port: output },
                                destination: Linkage { block_id: target, port },
                            },
                        ),
                    ),
                    None => None,
                },
                None => None,
            },
            _ => None,
        }
    }

    /// Whether the machine can state `release_command`.
    pub open spec fn admits_release(self, offset: (int, int), mode: EditorMode) -> bool {
        match self.selection {
            SelectionModel::Single(id) => offset != (0int, 0int) && self.has_block(id)
                ==> self.admits_move(id, offset, mode),
            _ => true,
        }
    }
}

/// The state of a canvas over the mathematical plane.
pub struct ViewModel {
    /// The graph and what the pointer holds.
    pub plot: PlotModel,
    /// Where moved blocks may come to rest.
    pub editor_mode: EditorMode,
    /// Whether the panning modifier is held.
    pub panning: bool,
    /// Whether the readout of the view's translation is shown.
    pub readout_visible: bool,
    /// The translation that the readout shows.
    pub readout: (int, int),
    /// Whether the canvas has asked to be painted again.
    pub redraw: bool,
}

impl ViewModel {
    /// The canvas after a gesture began at `p`. Highlights are cleared first.
    /// With the panning modifier held, the readout is shown and the plot is
    /// otherwise left alone; without it, the pointer takes hold of what is at
    /// `p`. The canvas asks to be painted in either case.
    pub open spec fn begin(self, p: (int, int)) -> ViewModel {
        if self.panning {
            ViewModel {
                plot: self.plot.unhighlighted(),
                readout_visible: true,
                redraw: true,
                ..self
            }
        } else {
            ViewModel { plot: self.plot.unhighlighted().grab(p), redraw: true, ..self }
        }
    }

    /// What the host is asked to do when a gesture begins.
    pub open spec fn begin_action(self) -> PanAction {
        if self.panning {
            PanAction::SaveTranslation
        } else {
            PanAction::Nothing
        }
    }

    /// The canvas after the pointer has moved by `offset` from where the
    /// gesture began.
    pub open spec fn update(self, offset: (int, int)) -> ViewModel {
        if self.panning {
            ViewModel { redraw: true, ..self }
        } else {
            ViewModel {
                plot: self.plot.drag(offset, self.editor_mode),
                redraw: self.redraw || self.plot.follows_pointer(),
                ..self
            }
        }
    }

    /// What the host is asked to do when the pointer has moved.
    pub open spec fn update_action(self) -> PanAction {
        if self.panning {
            PanAction::Translate
        } else {
            PanAction::Nothing
        }
    }

    /// Whether the machine can carry out `update`.
    pub open spec fn admits_update(self, offset: (int, int)) -> bool {
        self.panning || self.plot.admits_drag(offset, self.editor_mode)
    }

    /// Whether the end of a gesture ends a pan: the panning modifier is held
    /// and the pointer has `moved` from where the gesture began. A click with
    /// the modifier held is an edit like any other.
    pub open spec fn ends_pan(self, moved: bool) -> bool {
        self.panning && moved
    }

    /// The canvas after a gesture ended. The end of a pan hides the readout
    /// and leaves everything else alone. The end of an edit releases what the
    /// pointer held and asks for the canvas to be painted.
    pub open spec fn end(self, moved: bool) -> ViewModel {
        if self.ends_pan(moved) {
            ViewModel { readout_visible: false, ..self }
        } else {
            ViewModel { plot: self.plot.release(), redraw: true, ..self }
        }
    }

    /// The edit that a gesture asks for when it ends with the pointer
    /// `offset` away from where it began.
    pub open spec fn end_command(self, offset: (int, int), moved: bool) -> Option<CommandModel> {
        if self.ends_pan(moved) {
            None
        } else {
            self.plot.release_command(offset, self.editor_mode)
        }
    }

    /// Whether the machine can state `end_command`.
    pub open spec fn admits_end(self, offset: (int, int), moved: bool) -> bool {
        self.ends_pan(moved) || self.plot.admits_release(offset, self.editor_mode)
    }

    /// The menu that a secondary click at `p` opens: that of the topmost
    /// block there, or that of the empty canvas.
    pub open spec fn menu_at(self, p: (int, int)) -> ContextMenu {
        match self.plot.block_at(p) {
            Some(id) => ContextMenu::Block(id),
            None => ContextMenu::Area,
        }
    }

    /// The canvas after a secondary click at `p`. A block under the pointer
    /// becomes the selection unless the pointer holds something already.
    /// Nothing else of the plot changes.
    pub open spec fn context_menu(self, p: (int, int)) -> ViewModel {
        match self.plot.block_at(p) {
            Some(id) if self.plot.selection is Idle => ViewModel {
                plot: self.plot.with_selection(SelectionModel::Single(id)),
                redraw: true,
                ..self
            },
            _ => ViewModel { redraw: true, ..self },
        }
    }

    /// The canvas after the key `keyval` went down.
    pub open spec fn key_pressed(self, keyval: u32) -> ViewModel {
        if keyval == PAN_KEY {
            ViewModel { panning: true, ..self }
        } else {
            self
        }
    }

    /// The canvas after the key `keyval` came up. Letting go of the panning
    /// modifier hides the readout.
    pub open spec fn key_released(self, keyval: u32) -> ViewModel {
        if keyval == PAN_KEY {
            ViewModel { panning: false, readout_visible: false, ..self }
        } else {
            self
        }
    }
}

} // verus!
