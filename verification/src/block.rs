//! Blocks and their geometry.
//!
//! A block is an upright rectangle. Its position is its top left corner. Its
//! inputs sit on its left edge and its outputs on its right edge, top down at
//! equal distances, and each port has a square knob around its anchor that the
//! pointer can catch.

use vstd::prelude::*;
use crate::connection::{BlockId, Connector};
use crate::geometry::{ints, Point};

verus! {

/// The width of every block.
pub const BLOCK_WIDTH: i32 = 80;

/// The distance from the top edge of a block to its first port, and from its
/// last port to its bottom edge.
pub const PORT_OFFSET: i32 = 20;

/// The distance between two neighbouring ports on one edge.
pub const PORT_SPACING: i32 = 20;

/// Half the side of the knob around a port's anchor.
pub const PORT_RADIUS: i32 = 6;

/// The height of a block with the most ports that an edge can carry.
pub const MAX_BLOCK_HEIGHT: i32 = 5120;

/// The height of a block with the given numbers of ports: room for the
/// longer of its two rows of ports, and for one port at least.
pub open spec fn block_height(inputs: u8, outputs: u8) -> int {
    let rows = if inputs >= outputs {
        inputs as int
    } else {
        outputs as int
    };
    if rows <= 1 {
        2 * PORT_OFFSET
    } else {
        2 * PORT_OFFSET + PORT_SPACING * (rows - 1)
    }
}

/// Whether a block at `position` lies, with its knobs and at any height, in
/// the part of the plane that machine coordinates reach.
pub open spec fn block_fits_at(position: (int, int)) -> bool {
    &&& i32::MIN + PORT_RADIUS <= position.0 <= i32::MAX - BLOCK_WIDTH - PORT_RADIUS
    &&& i32::MIN <= position.1 <= i32::MAX - MAX_BLOCK_HEIGHT
}

/// Whether `p` lies on the knob around `anchor`.
pub open spec fn near(p: (int, int), anchor: (int, int)) -> bool {
    &&& -PORT_RADIUS <= p.0 - anchor.0 <= PORT_RADIUS
    &&& -PORT_RADIUS <= p.1 - anchor.1 <= PORT_RADIUS
}

/// The anchor of port `index` in a row of ports that starts at `first`.
pub open spec fn anchor_in_row(first: (int, int), index: int) -> (int, int) {
    (first.0, first.1 + PORT_SPACING * index)
}

/// The port whose knob holds `p`, in a row of `count` ports that starts at
/// `first`. The knobs of one row are disjoint, so the height of `p` above the
/// top of the first knob gives the only candidate.
pub open spec fn port_in_row(p: (int, int), first: (int, int), count: u8) -> Option<u8> {
    let t = p.1 - first.1 + PORT_RADIUS;
    if -PORT_RADIUS <= p.0 - first.0 <= PORT_RADIUS && 0 <= t && t % (PORT_SPACING as int) <= 2
        * PORT_RADIUS && t / (PORT_SPACING as int) < count {
        Some((t / (PORT_SPACING as int)) as u8)
    } else {
        None
    }
}

/// `port_in_row` finds port `index` exactly when that port exists and `p`
/// lies on its knob.
pub proof fn lemma_port_in_row(p: (int, int), first: (int, int), count: u8, index: u8)
    ensures
        port_in_row(p, first, count) == Some(index) <==> index < count && near(
            p,
            anchor_in_row(first, index as int),
        ),
{
    let t = p.1 - first.1 + PORT_RADIUS;
    let s = PORT_SPACING as int;
    if 0 <= t {
        assert(t == s * (t / s) + t % s && 0 <= t % s < s && 0 <= t / s) by (nonlinear_arith)
            requires
                0 <= t,
                s == 20,
        ;
    }
}

/// A block over the mathematical plane.
pub struct BlockModel {
    pub id: BlockId,
    pub position: (int, int),
    pub start_pos: (int, int),
    pub highlighted: bool,
    pub inputs: u8,
    pub outputs: u8,
}

impl BlockModel {
    /// The height of the block.
    pub open spec fn height(self) -> int {
        block_height(self.inputs, self.outputs)
    }

    /// Whether the block has the port `connector`.
    pub open spec fn has_connector(self, connector: Connector) -> bool {
        match connector {
            Connector::Input(i) => i < self.inputs,
            Connector::Output(i) => i < self.outputs,
        }
    }

    /// The anchor of the port `connector`: on the left edge for an input, on
    /// the right edge for an output.
    pub open spec fn connector_pos(self, connector: Connector) -> (int, int) {
        match connector {
            Connector::Input(i) => anchor_in_row(
                (self.position.0, self.position.1 + PORT_OFFSET),
                i as int,
            ),
            Connector::Output(i) => anchor_in_row(
                (self.position.0 + BLOCK_WIDTH, self.position.1 + PORT_OFFSET),
                i as int,
            ),
        }
    }

    /// The input whose knob holds `p`.
    pub open spec fn input_at(self, p: (int, int)) -> Option<u8> {
        port_in_row(p, self.connector_pos(Connector::Input(0)), self.inputs)
    }

    /// The output whose knob holds `p`.
    pub open spec fn output_at(self, p: (int, int)) -> Option<u8> {
        port_in_row(p, self.connector_pos(Connector::Output(0)), self.outputs)
    }

    /// The port whose knob holds `p`. A strict search takes a port of either
    /// kind, an input before an output; a search that is not strict takes
    /// outputs only.
    pub open spec fn port_at(self, p: (int, int), strict: bool) -> Option<u8> {
        if strict && self.input_at(p) is Some {
            self.input_at(p)
        } else {
            self.output_at(p)
        }
    }

    /// Whether the pointer at `p` is on the block: on its rectangle or on the
    /// knobs that stand out from its left and right edges.
    pub open spec fn touches(self, p: (int, int)) -> bool {
        &&& self.position.0 - PORT_RADIUS <= p.0 <= self.position.0 + BLOCK_WIDTH + PORT_RADIUS
        &&& self.position.1 <= p.1 <= self.position.1 + self.height()
    }

    /// Whether the block's rectangle meets the rectangle with the opposite
    /// corners `a` and `b`, whichever of its four corners they are.
    pub open spec fn intersects(self, a: (int, int), b: (int, int)) -> bool {
        &&& (a.0 <= self.position.0 + BLOCK_WIDTH || b.0 <= self.position.0 + BLOCK_WIDTH)
        &&& (self.position.0 <= a.0 || self.position.0 <= b.0)
        &&& (a.1 <= self.position.1 + self.height() || b.1 <= self.position.1 + self.height())
        &&& (self.position.1 <= a.1 || self.position.1 <= b.1)
    }

    /// The block at another position.
    pub open spec fn moved_to(self, position: (int, int)) -> BlockModel {
        BlockModel { position, ..self }
    }

    /// The block with the highlight set or cleared.
    pub open spec fn with_highlight(self, highlighted: bool) -> BlockModel {
        BlockModel { highlighted, ..self }
    }

    /// The block as it is when the pointer takes hold of it: highlighted, and
    /// with its position remembered as the start of the drag.
    pub open spec fn grabbed(self) -> BlockModel {
        BlockModel { start_pos: self.position, highlighted: true, ..self }
    }
}

/// The knob of every port that a block has lies on the block.
pub proof fn lemma_port_is_on_block(block: BlockModel, p: (int, int), strict: bool)
    requires
        block.port_at(p, strict) is Some,
    ensures
        block.touches(p),
{
    let index = block.port_at(p, strict)->0;
    if strict && block.input_at(p) is Some {
        lemma_port_in_row(p, block.connector_pos(Connector::Input(0)), block.inputs, index);
    } else {
        lemma_port_in_row(p, block.connector_pos(Connector::Output(0)), block.outputs, index);
    }
}

/// A block of the graph.
#[derive(Clone, Copy, Debug, PartialEq, Eq)]
pub struct Block {
    id: BlockId,
    position: Point,
    start_pos: Point,
    highlighted: bool,
    inputs: u8,
    outputs: u8,
}

impl View for Block {
    type V = BlockModel;

    closed spec fn view(&self) -> BlockModel {
        BlockModel {
            id: self.id,
            position: ints(self.position),
            start_pos: ints(self.start_pos),
            highlighted: self.highlighted,
            inputs: self.inputs,
            outputs: self.outputs,
        }
    }
}

impl Block {
    /// A block is well formed when it lies where machine coordinates reach.
    pub open spec fn wf(&self) -> bool {
        block_fits_at(self@.position)
    }

    /// Whether a block can stand at `position`.
    pub fn fits_at(position: Point) -> (fits: bool)
        ensures
            fits == block_fits_at(ints(position)),
    {
        i32::MIN + PORT_RADIUS <= position.0 && position.0 <= i32::MAX - BLOCK_WIDTH - PORT_RADIUS
            && position.1 <= i32::MAX - MAX_BLOCK_HEIGHT
    }

    /// A block at `position` with the given numbers of ports, not highlighted,
    /// or nothing where no block can stand at `position`.
    pub fn new(id: BlockId, position: Point, inputs: u8, outputs: u8) -> (block: Option<Block>)
        ensures
            block is Some <==> block_fits_at(ints(position)),
            block matches Some(b) ==> b.wf() && b@ == (BlockModel {
                id,
                position: ints(position),
                start_pos: ints(position),
                highlighted: false,
                inputs,
                outputs,
            }),
    {
        if Block::fits_at(position) {
            Some(Block { id, position, start_pos: position, highlighted: false, inputs, outputs })
        } else {
            None
        }
    }

    /// The identity of the block.
    pub fn id(&self) -> (id: BlockId)
        ensures
            id == self@.id,
    {
        self.id
    }

    /// Where the block is.
    pub fn position(&self) -> (position: Point)
        ensures
            ints(position) == self@.position,
    {
        self.position
    }

    /// Where the block was when the pointer last took hold of it.
    pub fn start_pos(&self) -> (start_pos: Point)
        ensures
            ints(start_pos) == self@.start_pos,
    {
        self.start_pos
    }

    /// Whether the block is highlighted.
    pub fn highlighted(&self) -> (highlighted: bool)
        ensures
            highlighted == self@.highlighted,
    {
        self.highlighted
    }

    /// The number of inputs.
    pub fn inputs(&self) -> (inputs: u8)
        ensures
            inputs == self@.inputs,
    {
        self.inputs
    }

    /// The number of outputs.
    pub fn outputs(&self) -> (outputs: u8)
        ensures
            outputs == self@.outputs,
    {
        self.outputs
    }

    /// The width and the height of the block.
    pub fn size(&self) -> (size: Point)
        ensures
            size.0 == BLOCK_WIDTH,
            size.1 == self@.height(),
    {
        let rows: u8 = if self.inputs >= self.outputs {
            self.inputs
        } else {
            self.outputs
        };
        if rows <= 1 {
            (BLOCK_WIDTH, 2 * PORT_OFFSET)
        } else {
            (BLOCK_WIDTH, 2 * PORT_OFFSET + PORT_SPACING * (rows as i32 - 1))
        }
    }

    /// Moves the block to `position`.
    pub fn set_position(&mut self, position: Point)
        requires
            block_fits_at(ints(position)),
        ensures
            final(self)@ == old(self)@.moved_to(ints(position)),
            final(self).wf(),
    {
        self.position = position;
    }

    /// Remembers `start_pos` as the place where a drag began.
    pub fn set_start_pos(&mut self, start_pos: Point)
        ensures
            final(self)@ == (BlockModel { start_pos: ints(start_pos), ..old(self)@ }),
            final(self).wf() == old(self).wf(),
    {
        self.start_pos = start_pos;
    }

    /// Sets or clears the highlight.
    pub fn set_highlighted(&mut self, highlighted: bool)
        ensures
            final(self)@ == old(self)@.with_highlight(highlighted),
            final(self).wf() == old(self).wf(),
    {
        self.highlighted = highlighted;
    }

    /// The anchor of the port `connector`.
    pub fn get_connector_pos(&self, connector: Connector) -> (anchor: Point)
        requires
            self.wf(),
        ensures
            ints(anchor) == self@.connector_pos(connector),
    {
        match connector {
            Connector::Input(i) => (
                self.position.0,
                self.position.1 + PORT_OFFSET + PORT_SPACING * (i as i32),
            ),
            Connector::Output(i) => (
                self.position.0 + BLOCK_WIDTH,
                self.position.1 + PORT_OFFSET + PORT_SPACING * (i as i32),
            ),
        }
    }

    /// The port whose knob holds `position`, if there is one. A strict search
    /// takes a port of either kind, an input before an output; a search that
    /// is not strict takes outputs only.
    pub fn position_on_connection(&self, position: Point, strict: bool) -> (port: Option<u8>)
        requires
            self.wf(),
        ensures
            port == self@.port_at(ints(position), strict),
    {
        if strict {
            let input = find_in_row(position, self.get_connector_pos(Connector::Input(0)), self.inputs);
            if input.is_some() {
                return input;
            }
        }
        find_in_row(position, self.get_connector_pos(Connector::Output(0)), self.outputs)
    }

    /// Whether the pointer at `point` is on the block.
    pub fn touches(&self, point: Point) -> (hit: bool)
        requires
            self.wf(),
        ensures
            hit == self@.touches(ints(point)),
    {
        let size = self.size();
        self.position.0 - PORT_RADIUS <= point.0 && point.0 <= self.position.0 + BLOCK_WIDTH
            + PORT_RADIUS && self.position.1 <= point.1 && point.1 <= self.position.1 + size.1
    }

    /// Whether the block's rectangle meets the rectangle with the opposite
    /// corners `a` and `b`.
    pub fn is_in_area(&self, a: Point, b: Point) -> (meets: bool)
        requires
            self.wf(),
        ensures
            meets == self@.intersects(ints(a), ints(b)),
    {
        let right: i32 = self.position.0 + BLOCK_WIDTH;
        let bottom: i32 = self.position.1 + self.size().1;
        (a.0 <= right || b.0 <= right) && (self.position.0 <= a.0 || self.position.0 <= b.0) && (a.1
            <= bottom || b.1 <= bottom) && (self.position.1 <= a.1 || self.position.1 <= b.1)
    }
}

/// Searches a row of `count` ports that starts at `first` for the port whose
/// knob holds `p`.
fn find_in_row(p: Point, first: Point, count: u8) -> (port: Option<u8>)
    ensures
        port == port_in_row(ints(p), ints(first), count),
{
    let dx: i64 = p.0 as i64 - first.0 as i64;
    let t: i64 = p.1 as i64 - first.1 as i64 + PORT_RADIUS as i64;
    if -(PORT_RADIUS as i64) <= dx && dx <= PORT_RADIUS as i64 && 0 <= t {
        let index: i64 = t / (PORT_SPACING as i64);
        if t % (PORT_SPACING as i64) <= 2 * (PORT_RADIUS as i64) && index < count as i64 {
            return Some(index as u8);
        }
    }
    None
}

} // verus!
