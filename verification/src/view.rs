//! The canvas: its state, and the handlers of its events.

use vstd::prelude::*;
use crate::block::Block;
use crate::command::{asked, ContextMenu, EditCommand, PanAction};
use crate::connection::{Connection, Connector, Linkage};
use crate::editor::{target_of_drag, EditorMode};
use crate::geometry::{can_shift, ints, Point};
use crate::gesture::{ViewModel, PAN_KEY};
use crate::plot::{lemma_top_block_at, Plot};
use crate::readout::{readout_label, readout_text};
use crate::selection::Selection;

verus! {

/// The state of one canvas. The host feeds it the events of its widgets,
/// already in world coordinates, and then does what the state asks for:
/// paints when a repaint is pending, shows or hides the readout, moves its
/// view, opens a menu, records an edit.
#[derive(Debug, PartialEq, Eq)]
pub struct CircuitView {
    plot: Plot,
    editor_mode: EditorMode,
    ctrl_down: bool,
    left_osd_visible: bool,
    left_osd: Point,
    redraw: bool,
}

impl View for CircuitView {
    type V = ViewModel;

    closed spec fn view(&self) -> ViewModel {
        ViewModel {
            plot: self.plot@,
            editor_mode: self.editor_mode,
            panning: self.ctrl_down,
            readout_visible: self.left_osd_visible,
            readout: ints(self.left_osd),
            redraw: self.redraw,
        }
    }
}

impl CircuitView {
    /// A canvas is well formed when its plot is.
    pub open spec fn wf(&self) -> bool {
        self@.plot.wf() && self@.plot.in_range()
    }

    /// A canvas that shows `plot`: in free mode, with no key held, the
    /// readout hidden and at the origin, and no repaint pending.
    pub fn new(plot: Plot) -> (view: CircuitView)
        requires
            plot.wf(),
        ensures
            view.wf(),
            view@ == (ViewModel {
                plot: plot@,
                editor_mode: EditorMode::Free,
                panning: false,
                readout_visible: false,
                readout: (0, 0),
                redraw: false,
            }),
    {
        CircuitView {
            plot,
            editor_mode: EditorMode::Free,
            ctrl_down: false,
            left_osd_visible: false,
            left_osd: (0, 0),
            redraw: false,
        }
    }

    /// The plot that the canvas shows.
    pub fn plot_provider(&self) -> (plot: &Plot)
        ensures
            plot@ == self@.plot,
            plot.wf() == self.wf(),
    {
        &self.plot
    }

    /// The plot that the canvas shows, for changing it in place. The canvas
    /// is well formed again when the plot is given back well formed.
    pub fn plot_provider_mut(&mut self) -> (plot: &mut Plot)
        ensures
            plot@ == old(self)@.plot,
            plot.wf() == old(self).wf(),
            final(self)@ == (ViewModel { plot: final(plot)@, ..old(self)@ }),
    {
        &mut self.plot
    }

    /// Shows `plot` in place of the plot shown so far.
    pub fn set_plot_provider(&mut self, plot: Plot)
        requires
            plot.wf(),
        ensures
            final(self).wf(),
            final(self)@ == (ViewModel { plot: plot@, ..old(self)@ }),
    {
        self.plot = plot;
    }

    /// Where moved blocks may come to rest.
    pub fn editor_mode(&self) -> (mode: EditorMode)
        ensures
            mode == self@.editor_mode,
    {
        self.editor_mode
    }

    /// Changes where moved blocks may come to rest, and asks for a repaint.
    pub fn set_editor_mode(&mut self, editor_mode: EditorMode)
        ensures
            final(self)@ == (ViewModel { editor_mode, redraw: true, ..old(self)@ }),
            final(self).wf() == old(self).wf(),
    {
        self.editor_mode = editor_mode;
        self.redraw = true;
    }

    /// Asks for a repaint.
    pub fn rerender(&mut self)
        ensures
            final(self)@ == (ViewModel { redraw: true, ..old(self)@ }),
            final(self).wf() == old(self).wf(),
    {
        self.redraw = true;
    }

    /// Whether a repaint is pending, which is no longer pending afterwards.
    pub fn take_redraw(&mut self) -> (pending: bool)
        ensures
            pending == old(self)@.redraw,
            final(self)@ == (ViewModel { redraw: false, ..old(self)@ }),
            final(self).wf() == old(self).wf(),
    {
        let pending = self.redraw;
        self.redraw = false;
        pending
    }

    /// Whether the panning modifier is held.
    pub fn panning(&self) -> (held: bool)
        ensures
            held == self@.panning,
    {
        self.ctrl_down
    }

    /// Whether the readout is shown.
    pub fn left_osd_visible(&self) -> (visible: bool)
        ensures
            visible == self@.readout_visible,
    {
        self.left_osd_visible
    }

    /// Shows or hides the readout.
    pub fn set_left_osd_visible(&mut self, visible: bool)
        ensures
            final(self)@ == (ViewModel { readout_visible: visible, ..old(self)@ }),
            final(self).wf() == old(self).wf(),
    {
        self.left_osd_visible = visible;
    }

    /// The translation that the readout shows.
    pub fn left_osd(&self) -> (translation: Point)
        ensures
            ints(translation) == self@.readout,
    {
        self.left_osd
    }

    /// The text of the readout.
    pub fn left_osd_label(&self) -> (label: String)
        ensures
            label@ == readout_text(self@.readout),
    {
        readout_label(self.left_osd)
    }

    /// Makes the readout show `translation`.
    pub fn set_left_osd_label(&mut self, translation: Point)
        ensures
            final(self)@ == (ViewModel { readout: ints(translation), ..old(self)@ }),
            final(self).wf() == old(self).wf(),
    {
        self.left_osd = translation;
    }

    /// Takes note that the key `keyval` went down.
    pub fn key_pressed(&mut self, keyval: u32)
        ensures
            final(self)@ == old(self)@.key_pressed(keyval),
            final(self).wf() == old(self).wf(),
    {
        if keyval == PAN_KEY {
            self.ctrl_down = true;
        }
    }

    /// Takes note that the key `keyval` came up.
    pub fn key_released(&mut self, keyval: u32)
        ensures
            final(self)@ == old(self)@.key_released(keyval),
            final(self).wf() == old(self).wf(),
    {
        if keyval == PAN_KEY {
            self.ctrl_down = false;
            self.left_osd_visible = false;
        }
    }

    /// Handles a secondary click at `position` and says which menu to open
    /// there.
    pub fn context_menu(&mut self, position: Point) -> (menu: ContextMenu)
        requires
            old(self).wf(),
        ensures
            final(self).wf(),
            final(self)@ == old(self)@.context_menu(ints(position)),
            menu == old(self)@.menu_at(ints(position)),
    {
        self.redraw = true;
        match self.plot.get_block_at(position) {
            Some(id) => {
                if let Selection::Idle = self.plot.selection() {
                    self.plot.set_selection(Selection::Single(id));
                }
                ContextMenu::Block(id)
            },
            None => ContextMenu::Area,
        }
    }

    /// Handles the begin of a gesture at `position`.
    pub fn drag_begin(&mut self, position: Point) -> (action: PanAction)
        requires
            old(self).wf(),
        ensures
            final(self).wf(),
            final(self)@ == old(self)@.begin(ints(position)),
            action == old(self)@.begin_action(),
    {
        self.plot.unhighlight();
        self.redraw = true;
        if self.ctrl_down {
            self.left_osd_visible = true;
            return PanAction::SaveTranslation;
        }
        let ghost cleared = self.plot@;
        match self.plot.get_block_at(position) {
            Some(id) => {
                proof {
                    lemma_top_block_at(cleared.blocks, ints(position));
                }
                let mut selection = Selection::Single(id);
                if let Some(block) = self.plot.get_block_mut(id) {
                    if let Some(output) = block.position_on_connection(position, false) {
                        let start = block.get_connector_pos(Connector::Output(output));
                        selection = Selection::Connection { block_id: id, output, start, position: start };
                    } else {
                        let start_pos = block.position();
                        block.set_start_pos(start_pos);
                        block.set_highlighted(true);
                    }
                }
                assert(self.plot@.blocks =~= cleared.grab(ints(position)).blocks);
                self.plot.set_selection(selection);
            },
            None => {
                self.plot.set_selection(Selection::Area(position, position));
            },
        }
        PanAction::Nothing
    }

    /// Whether `drag_update` can be called with `offset`.
    pub fn can_update(&self, offset: Point) -> (ok: bool)
        requires
            self.wf(),
        ensures
            ok == self@.admits_update(ints(offset)),
    {
        if self.ctrl_down {
            return true;
        }
        match self.plot.selection() {
            Selection::Idle => true,
            Selection::Single(id) => self.can_move(id, offset),
            Selection::Connection { block_id: _, output: _, start, position: _ } => can_shift(
                start,
                offset,
            ),
            Selection::Area(a, _) => can_shift(a, offset),
        }
    }

    /// Whether block `id`, if there is one, can stand at the target of a drag
    /// by `offset`.
    fn can_move(&self, id: u32, offset: Point) -> (ok: bool)
        requires
            self.wf(),
        ensures
            ok == (self@.plot.has_block(id) ==> self@.plot.admits_move(
                id,
                ints(offset),
                self@.editor_mode,
            )),
    {
        match self.plot.get_block(id) {
            Some(block) => {
                let start = block.start_pos();
                can_shift(start, offset) && Block::fits_at(
                    target_of_drag(start, offset, self.editor_mode),
                )
            },
            None => true,
        }
    }

    /// Handles a move of the pointer to `offset` from where the gesture
    /// began.
    pub fn drag_update(&mut self, offset: Point) -> (action: PanAction)
        requires
            old(self).wf(),
            old(self)@.admits_update(ints(offset)),
        ensures
            final(self).wf(),
            final(self)@ == old(self)@.update(ints(offset)),
            action == old(self)@.update_action(),
    {
        if self.ctrl_down {
            self.redraw = true;
            return PanAction::Translate;
        }
        match self.plot.selection() {
            Selection::Idle => {},
            Selection::Single(id) => {
                let mode = self.editor_mode;
                if let Some(block) = self.plot.get_block_mut(id) {
                    let target = target_of_drag(block.start_pos(), offset, mode);
                    block.set_position(target);
                    self.redraw = true;
                }
            },
            Selection::Connection { block_id, output, start, position: _ } => {
                self.plot.set_selection(
                    Selection::Connection {
                        block_id,
                        output,
                        start,
                        position: (start.0 + offset.0, start.1 + offset.1),
                    },
                );
                self.redraw = true;
            },
            Selection::Area(a, _) => {
                self.plot.set_selection(Selection::Area(a, (a.0 + offset.0, a.1 + offset.1)));
                self.redraw = true;
            },
        }
        PanAction::Nothing
    }

    /// Whether `drag_end` can be called with `offset` and `moved`.
    pub fn can_end(&self, offset: Point, moved: bool) -> (ok: bool)
        requires
            self.wf(),
        ensures
            ok == self@.admits_end(ints(offset), moved),
    {
        if self.ctrl_down && moved {
            return true;
        }
        match self.plot.selection() {
            Selection::Single(id) => (offset.0 == 0 && offset.1 == 0) || self.can_move(id, offset),
            _ => true,
        }
    }

    /// Handles the end of a gesture with the pointer `offset` away from where
    /// it began, and gives the edit that the gesture asks for. `moved` says
    /// whether the pointer is anywhere else than where the gesture began, be
    /// it by less than a world unit.
    pub fn drag_end(&mut self, offset: Point, moved: bool) -> (command: Option<EditCommand>)
        requires
            old(self).wf(),
            old(self)@.admits_end(ints(offset), moved),
        ensures
            final(self).wf(),
            final(self)@ == old(self)@.end(moved),
            asked(command) == old(self)@.end_command(ints(offset), moved),
    {
        if self.ctrl_down && moved {
            self.left_osd_visible = false;
            return None;
        }
        self.redraw = true;
        match self.plot.selection() {
            Selection::Idle => None,
            Selection::Single(id) => {
                if offset.0 == 0 && offset.1 == 0 {
                    return None;
                }
                match self.plot.get_block(id) {
                    Some(block) => {
                        let start = block.start_pos();
                        Some(
                            EditCommand::MoveBlock(
                                id,
                                start,
                                target_of_drag(start, offset, self.editor_mode),
                            ),
                        )
                    },
                    None => None,
                }
            },
            Selection::Connection { block_id, output, start: _, position } => {
                self.plot.set_selection(Selection::Idle);
                match self.plot.get_block_at(position) {
                    Some(target) => {
                        proof {
                            lemma_top_block_at(self.plot@.blocks, ints(position));
                        }
                        match self.plot.get_block(target) {
                            Some(block) => match block.position_on_connection(position, true) {
                                Some(port) => Some(
                                    EditCommand::NewConnection(
                                        block_id,
                                        Connection::new(
                                            Linkage { block_id, port: output },
                                            Linkage { block_id: target, port },
                                        ),
                                    ),
                                ),
                                None => None,
                            },
                            None => None,
                        }
                    },
                    None => None,
                }
            },
            Selection::Area(_, _) => {
                self.plot.highlight_area();
                None
            },
        }
    }
}

} // verus!
