//! Laws of the gesture machine.

use vstd::prelude::*;
use crate::command::CommandModel;
use crate::connection::{Connection, Linkage};
use crate::editor::drag_target;
use crate::geometry::shifted;
use crate::gesture::ViewModel;
use crate::plot::{lemma_top_block_at, PlotModel};
use crate::selection::SelectionModel;

verus! {

/// An event of the pointer's primary button.
pub enum PointerEvent {
    /// A gesture begins at a point.
    Begin((int, int)),
    /// The pointer has moved to an offset from where the gesture began.
    Update((int, int)),
    /// The gesture ends at an offset from where it began. The flag says
    /// whether the pointer is anywhere else than at its start.
    End((int, int), bool),
}

impl ViewModel {
    /// The canvas after `event`.
    pub open spec fn step(self, event: PointerEvent) -> ViewModel {
        match event {
            PointerEvent::Begin(p) => self.begin(p),
            PointerEvent::Update(offset) => self.update(offset),
            PointerEvent::End(_, moved) => self.end(moved),
        }
    }

    /// The edit that `event` asks for.
    pub open spec fn step_command(self, event: PointerEvent) -> Option<CommandModel> {
        match event {
            PointerEvent::End(offset, moved) => self.end_command(offset, moved),
            _ => None,
        }
    }

    /// The canvas after `events`, in their order.
    pub open spec fn run(self, events: Seq<PointerEvent>) -> ViewModel
        decreases events.len(),
    {
        if events.len() == 0 {
            self
        } else {
            self.run(events.drop_last()).step(events.last())
        }
    }

    /// The edits that `events` ask for, in their order.
    pub open spec fn commands(self, events: Seq<PointerEvent>) -> Seq<CommandModel>
        decreases events.len(),
    {
        if events.len() == 0 {
            Seq::empty()
        } else {
            let earlier = self.commands(events.drop_last());
            match self.run(events.drop_last()).step_command(events.last()) {
                Some(command) => earlier.push(command),
                None => earlier,
            }
        }
    }
}

/// Whether `events` are one whole gesture: a begin, any number of updates,
/// and an end.
pub open spec fn is_gesture(events: Seq<PointerEvent>) -> bool {
    &&& events.len() >= 2
    &&& events.first() is Begin
    &&& events.last() is End
    &&& forall|i: int| 0 < i < events.len() - 1 ==> (#[trigger] events[i]) is Update
}

/// Events that end no gesture ask for no edit.
pub proof fn lemma_only_an_end_asks(s: ViewModel, events: Seq<PointerEvent>)
    requires
        forall|i: int| 0 <= i < events.len() ==> !((#[trigger] events[i]) is End),
    ensures
        s.commands(events).len() == 0,
    decreases events.len(),
{
    if events.len() > 0 {
        let earlier = events.drop_last();
        assert forall|i: int| 0 <= i < earlier.len() implies !((#[trigger] earlier[i]) is End) by {
            assert(earlier[i] == events[i]);
        }
        lemma_only_an_end_asks(s, earlier);
        assert(!(events[events.len() - 1] is End));
    }
}

/// A gesture asks for one edit at most, and for none before it ends:
/// whatever it asks for, its end asks for.
pub proof fn lemma_gesture_asks_at_most_once(s: ViewModel, events: Seq<PointerEvent>)
    requires
        is_gesture(events),
    ensures
        s.commands(events).len() <= 1,
        s.commands(events) == match s.run(events.drop_last()).step_command(events.last()) {
            Some(command) => seq![command],
            None => Seq::empty(),
        },
{
    let earlier = events.drop_last();
    assert forall|i: int| 0 <= i < earlier.len() implies !((#[trigger] earlier[i]) is End) by {
        assert(earlier[i] == events[i]);
        if i == 0 {
            assert(events.first() is Begin);
        }
    }
    lemma_only_an_end_asks(s, earlier);
    assert(s.commands(earlier) =~= Seq::empty());
    match s.run(earlier).step_command(events.last()) {
        Some(command) => {
            assert(s.commands(events) =~= seq![command]);
        },
        None => {},
    }
}

/// A click moves nothing: a gesture that takes hold of a block and ends at
/// once, where it began, asks for no edit and leaves every block where it
/// was.
pub proof fn lemma_click_moves_nothing(s: ViewModel, p: (int, int), moved: bool)
    requires
        s.plot.wf(),
        s.begin(p).plot.selection is Single,
    ensures
        s.begin(p).end_command((0, 0), moved) is None,
        s.begin(p).end(moved).plot.blocks.len() == s.plot.blocks.len(),
        forall|i: int|
            0 <= i < s.plot.blocks.len() ==> (#[trigger] s.begin(p).end(moved).plot.blocks[i]).position
                == s.plot.blocks[i].position,
{
    lemma_top_block_at(s.plot.unhighlighted().blocks, p);
}

/// Whether `events` are a gesture up to its end: a begin and any number of
/// updates.
pub open spec fn is_open_gesture(events: Seq<PointerEvent>) -> bool {
    &&& events.len() >= 1
    &&& events.first() is Begin
    &&& forall|i: int| 0 < i < events.len() ==> (#[trigger] events[i]) is Update
}

/// While a gesture holds a block, the block remembers where it was when the
/// gesture took hold of it, however far the pointer has dragged it since.
pub proof fn lemma_held_block_remembers(s: ViewModel, events: Seq<PointerEvent>)
    requires
        s.plot.wf(),
        !s.panning,
        is_open_gesture(events),
        s.step(events.first()).plot.selection is Single,
    ensures
        ({
            let id = s.step(events.first()).plot.selection->Single_0;
            let now = s.run(events);
            &&& s.plot.has_block(id)
            &&& now.plot.has_block(id)
            &&& now.plot.selection == SelectionModel::Single(id)
            &&& now.plot.block(id).start_pos == s.plot.block(id).position
            &&& now.editor_mode == s.editor_mode
            &&& !now.panning
        }),
    decreases events.len(),
{
    let earlier = events.drop_last();
    if events.len() == 1 {
        assert(s.run(earlier) == s);
        lemma_top_block_at(s.plot.unhighlighted().blocks, events.first()->Begin_0);
    } else {
        assert(earlier.first() == events.first());
        assert forall|i: int| 0 < i < earlier.len() implies (#[trigger] earlier[i]) is Update by {
            assert(earlier[i] == events[i]);
        }
        lemma_held_block_remembers(s, earlier);
        assert(events.last() is Update);
    }
}

/// A gesture that takes hold of a block and ends away from where it began
/// asks to move that block from where it was before the gesture to the drag
/// target of the end, whatever the updates in between have shown. One that
/// ends where it began asks for nothing. The block stays selected.
pub proof fn lemma_move_gesture(s: ViewModel, events: Seq<PointerEvent>)
    requires
        s.plot.wf(),
        !s.panning,
        is_gesture(events),
        s.step(events.first()).plot.selection is Single,
    ensures
        ({
            let id = s.step(events.first()).plot.selection->Single_0;
            let offset = events.last()->End_0;
            let from = s.plot.block(id).position;
            &&& s.commands(events) == if offset != (0int, 0int) {
                seq![CommandModel::MoveBlock(id, from, drag_target(from, offset, s.editor_mode))]
            } else {
                Seq::empty()
            }
            &&& s.run(events).plot.selection == SelectionModel::Single(id)
        }),
{
    let earlier = events.drop_last();
    assert(earlier.first() == events.first());
    assert forall|i: int| 0 < i < earlier.len() implies (#[trigger] earlier[i]) is Update by {
        assert(earlier[i] == events[i]);
    }
    lemma_held_block_remembers(s, earlier);
    lemma_gesture_asks_at_most_once(s, events);
}

/// Where the pointer is when `events`, a gesture up to its end, have
/// happened: at the last offset from `start`, or at `start` itself before the
/// first update.
pub open spec fn pointer_after(start: (int, int), events: Seq<PointerEvent>) -> (int, int) {
    if events.len() <= 1 {
        start
    } else {
        shifted(start, events.last()->Update_0)
    }
}

/// While a gesture draws a connection, the connection stays anchored where
/// it began, its loose end is where the pointer is, and no block changes.
pub proof fn lemma_drawn_connection_follows(s: ViewModel, events: Seq<PointerEvent>)
    requires
        s.plot.wf(),
        !s.panning,
        is_open_gesture(events),
        s.step(events.first()).plot.selection is Connection,
    ensures
        ({
            let drawn = s.step(events.first()).plot.selection;
            let now = s.run(events);
            &&& now.plot.selection == SelectionModel::Connection {
                block_id: drawn->block_id,
                output: drawn->output,
                start: drawn->start,
                position: pointer_after(drawn->start, events),
            }
            &&& drawn->position == drawn->start
            &&& now.plot.blocks == s.plot.unhighlighted().blocks
            &&& now.editor_mode == s.editor_mode
            &&& !now.panning
        }),
    decreases events.len(),
{
    let earlier = events.drop_last();
    if events.len() == 1 {
        assert(s.run(earlier) == s);
    } else {
        assert(earlier.first() == events.first());
        assert forall|i: int| 0 < i < earlier.len() implies (#[trigger] earlier[i]) is Update by {
            assert(earlier[i] == events[i]);
        }
        lemma_drawn_connection_follows(s, earlier);
        assert(events.last() is Update);
    }
}

/// A gesture that begins on the knob of an output asks for a connection from
/// that output to the port on whose knob the pointer is when the gesture
/// ends, and for nothing where there is no such port. Either way the pointer
/// holds nothing afterwards, and no block has moved.
pub proof fn lemma_connection_gesture(s: ViewModel, events: Seq<PointerEvent>)
    requires
        s.plot.wf(),
        !s.panning,
        is_gesture(events),
        s.step(events.first()).plot.selection is Connection,
    ensures
        ({
            let drawn = s.step(events.first()).plot.selection;
            let origin = Linkage { block_id: drawn->block_id, port: drawn->output };
            let plot = s.plot.unhighlighted();
            let end = pointer_after(drawn->start, events.drop_last());
            &&& s.commands(events) == match plot.block_at(end) {
                Some(target) => match plot.block(target).port_at(end, true) {
                    Some(port) => seq![
                        CommandModel::NewConnection(
                            origin.block_id,
                            Connection {
                                origin,
                                destination: Linkage { block_id: target, port },
                            },
                        ),
                    ],
                    None => Seq::empty(),
                },
                None => Seq::empty(),
            }
            &&& s.run(events).plot.selection is Idle
            &&& s.run(events).plot.blocks == plot.blocks
        }),
{
    let earlier = events.drop_last();
    assert(earlier.first() == events.first());
    assert forall|i: int| 0 < i < earlier.len() implies (#[trigger] earlier[i]) is Update by {
        assert(earlier[i] == events[i]);
    }
    lemma_drawn_connection_follows(s, earlier);
    lemma_gesture_asks_at_most_once(s, events);
}

/// While a gesture spans a rectangle, the rectangle reaches from where the
/// gesture began to where the pointer is, and no block changes.
pub proof fn lemma_spanned_area_follows(s: ViewModel, events: Seq<PointerEvent>)
    requires
        !s.panning,
        is_open_gesture(events),
        s.step(events.first()).plot.selection is Area,
    ensures
        ({
            let corner = events.first()->Begin_0;
            let now = s.run(events);
            &&& now.plot.selection == SelectionModel::Area(corner, pointer_after(corner, events))
            &&& now.plot.blocks == s.plot.unhighlighted().blocks
            &&& !now.panning
        }),
    decreases events.len(),
{
    let earlier = events.drop_last();
    if events.len() == 1 {
        assert(s.run(earlier) == s);
    } else {
        assert(earlier.first() == events.first());
        assert forall|i: int| 0 < i < earlier.len() implies (#[trigger] earlier[i]) is Update by {
            assert(earlier[i] == events[i]);
        }
        lemma_spanned_area_follows(s, earlier);
        assert(events.last() is Update);
    }
}

/// A gesture that begins on the empty canvas asks for no edit. It leaves
/// highlighted exactly the blocks that meet the rectangle between its begin
/// and its end, and the pointer holding that rectangle.
pub proof fn lemma_area_gesture(s: ViewModel, events: Seq<PointerEvent>)
    requires
        !s.panning,
        is_gesture(events),
        s.step(events.first()).plot.selection is Area,
    ensures
        ({
            let corner = events.first()->Begin_0;
            let end = pointer_after(corner, events.drop_last());
            let after = s.run(events).plot;
            &&& s.commands(events).len() == 0
            &&& after.selection == SelectionModel::Area(corner, end)
            &&& after.blocks.len() == s.plot.blocks.len()
            &&& forall|i: int|
                0 <= i < s.plot.blocks.len() ==> #[trigger] after.blocks[i]
                    == s.plot.blocks[i].with_highlight(s.plot.blocks[i].intersects(corner, end))
        }),
{
    let earlier = events.drop_last();
    assert(earlier.first() == events.first());
    assert forall|i: int| 0 < i < earlier.len() implies (#[trigger] earlier[i]) is Update by {
        assert(earlier[i] == events[i]);
    }
    lemma_spanned_area_follows(s, earlier);
    lemma_gesture_asks_at_most_once(s, events);
}

/// An update keeps what the pointer holds: the same block, the same
/// connection from the same anchor, a rectangle from the same first corner.
/// It never lets go and never takes hold.
pub proof fn lemma_update_keeps_hold(s: ViewModel, offset: (int, int))
    ensures
        match s.plot.selection {
            SelectionModel::Idle => s.update(offset).plot.selection is Idle,
            SelectionModel::Single(id) => s.update(offset).plot.selection == SelectionModel::Single(
                id,
            ),
            SelectionModel::Connection { block_id, output, start, position } => {
                &&& s.update(offset).plot.selection is Connection
                &&& s.update(offset).plot.selection->block_id == block_id
                &&& s.update(offset).plot.selection->output == output
                &&& s.update(offset).plot.selection->start == start
            },
            SelectionModel::Area(a, _) => {
                &&& s.update(offset).plot.selection is Area
                &&& s.update(offset).plot.selection->Area_0 == a
            },
        },
{
}

/// The end of a gesture leaves the pointer holding nothing, a block or a
/// committed rectangle: never a connection in the drawing.
pub proof fn lemma_end_lets_go_of_connection(s: ViewModel, moved: bool)
    requires
        !s.ends_pan(moved),
    ensures
        !(s.end(moved).plot.selection is Connection),
{
}

/// Panning never changes what the pointer holds, and asks for no edit.
pub proof fn lemma_pan_keeps_selection(s: ViewModel, p: (int, int), offset: (int, int))
    requires
        s.panning,
    ensures
        s.begin(p).plot.selection == s.plot.selection,
        s.update(offset).plot == s.plot,
        s.end(true) == (ViewModel { readout_visible: false, ..s }),
        s.end_command(offset, true) is None,
{
}

/// A connection whose loose end lies on no port is dropped: its gesture asks
/// for no edit and leaves the pointer holding nothing.
pub proof fn lemma_loose_connection_is_dropped(s: ViewModel, offset: (int, int), moved: bool)
    requires
        !s.ends_pan(moved),
        s.plot.selection is Connection,
        s.plot.block_at(s.plot.selection->position) is None || s.plot.block(
            s.plot.block_at(s.plot.selection->position)->0,
        ).port_at(s.plot.selection->position, true) is None,
    ensures
        s.end_command(offset, moved) is None,
        s.end(moved).plot.selection is Idle,
{
}

/// A rectangle selects the same blocks whichever two of its opposite
/// corners span it, in whichever order.
pub proof fn lemma_area_any_corners(plot: PlotModel, a: (int, int), b: (int, int))
    ensures
        plot.highlighted_in(a, b) == plot.highlighted_in(b, a),
        plot.highlighted_in(a, b) == plot.highlighted_in((a.0, b.1), (b.0, a.1)),
{
    assert(plot.highlighted_in(a, b).blocks =~= plot.highlighted_in(b, a).blocks);
    assert(plot.highlighted_in(a, b).blocks =~= plot.highlighted_in((a.0, b.1), (b.0, a.1)).blocks);
}

/// The events of the pointer keep a well formed plot well formed: no block
/// is added, dropped or renamed.
pub proof fn lemma_step_keeps_blocks_named(s: ViewModel, event: PointerEvent)
    requires
        s.plot.wf(),
    ensures
        s.step(event).plot.wf(),
        s.step(event).plot.blocks.len() == s.plot.blocks.len(),
{
    match event {
        PointerEvent::Begin(p) => {
            lemma_top_block_at(s.plot.unhighlighted().blocks, p);
        },
        _ => {},
    }
}

} // verus!
