//! The graph that a canvas shows: its blocks, and what the pointer holds.
//!
//! Blocks are kept in the order in which they were added, and a block's
//! identity is its place in that order. Where blocks overlap, the one that was
//! added last lies on top.

use vstd::prelude::*;
use crate::block::{block_fits_at, Block, BlockModel};
use crate::connection::BlockId;
use crate::geometry::{ints, Point};
use crate::selection::{Selection, SelectionModel};

verus! {

/// The topmost of `blocks` that the pointer at `p` is on: the last one in the
/// sequence that touches `p`.
pub open spec fn top_block_at(blocks: Seq<BlockModel>, p: (int, int)) -> Option<BlockId>
    decreases blocks.len(),
{
    if blocks.len() == 0 {
        None
    } else if blocks.last().touches(p) {
        Some((blocks.len() - 1) as BlockId)
    } else {
        top_block_at(blocks.drop_last(), p)
    }
}

/// What `top_block_at` finds touches `p` and has no block above it that does;
/// it finds nothing only where no block touches `p`.
pub proof fn lemma_top_block_at(blocks: Seq<BlockModel>, p: (int, int))
    requires
        blocks.len() <= u32::MAX,
    ensures
        match top_block_at(blocks, p) {
            Some(id) => {
                &&& id < blocks.len()
                &&& blocks[id as int].touches(p)
                &&& forall|j: int| id < j < blocks.len() ==> !(#[trigger] blocks[j]).touches(p)
            },
            None => forall|j: int| 0 <= j < blocks.len() ==> !(#[trigger] blocks[j]).touches(p),
        },
    decreases blocks.len(),
{
    if blocks.len() > 0 && !blocks.last().touches(p) {
        let below = blocks.drop_last();
        lemma_top_block_at(below, p);
        assert forall|j: int| 0 <= j < below.len() implies below[j] == blocks[j] by {}
        match top_block_at(below, p) {
            Some(id) => {
                assert forall|j: int| id < j < blocks.len() implies !(#[trigger] blocks[j]).touches(
                    p,
                ) by {
                    if j < below.len() {
                        assert(!below[j].touches(p));
                    }
                }
            },
            None => {
                assert forall|j: int| 0 <= j < blocks.len() implies !(#[trigger] blocks[j]).touches(
                    p,
                ) by {
                    if j < below.len() {
                        assert(!below[j].touches(p));
                    }
                }
            },
        }
    }
}

/// A plot over the mathematical plane.
pub struct PlotModel {
    pub blocks: Seq<BlockModel>,
    pub selection: SelectionModel,
}

impl PlotModel {
    /// A plot is well formed when every block is named by its place.
    pub open spec fn wf(self) -> bool {
        &&& self.blocks.len() <= u32::MAX
        &&& forall|i: int| 0 <= i < self.blocks.len() ==> (#[trigger] self.blocks[i]).id == i
    }

    /// Whether every block lies where machine coordinates reach.
    pub open spec fn in_range(self) -> bool {
        forall|i: int|
            0 <= i < self.blocks.len() ==> block_fits_at((#[trigger] self.blocks[i]).position)
    }

    /// Whether the plot has a block `id`.
    pub open spec fn has_block(self, id: BlockId) -> bool {
        id < self.blocks.len()
    }

    /// The block `id`.
    pub open spec fn block(self, id: BlockId) -> BlockModel {
        self.blocks[id as int]
    }

    /// The topmost block that the pointer at `p` is on.
    pub open spec fn block_at(self, p: (int, int)) -> Option<BlockId> {
        top_block_at(self.blocks, p)
    }

    /// The plot with `block` in the place of block `id`.
    pub open spec fn with_block(self, id: BlockId, block: BlockModel) -> PlotModel {
        PlotModel { blocks: self.blocks.update(id as int, block), ..self }
    }

    /// The plot with one more block on top, fresh and not highlighted.
    pub open spec fn with_new_block(self, position: (int, int), inputs: u8, outputs: u8) -> PlotModel {
        PlotModel {
            blocks: self.blocks.push(
                BlockModel {
                    id: self.blocks.len() as BlockId,
                    position,
                    start_pos: position,
                    highlighted: false,
                    inputs,
                    outputs,
                },
            ),
            ..self
        }
    }

    /// The plot holding `selection`.
    pub open spec fn with_selection(self, selection: SelectionModel) -> PlotModel {
        PlotModel { selection, ..self }
    }

    /// The plot with no block highlighted.
    pub open spec fn unhighlighted(self) -> PlotModel {
        PlotModel {
            blocks: Seq::new(self.blocks.len(), |i: int| self.blocks[i].with_highlight(false)),
            ..self
        }
    }

    /// The plot with every block highlighted whose rectangle meets the
    /// rectangle between the corners `a` and `b`; the others are as they were.
    pub open spec fn highlighted_in(self, a: (int, int), b: (int, int)) -> PlotModel {
        PlotModel {
            blocks: Seq::new(
                self.blocks.len(),
                |i: int|
                    if self.blocks[i].intersects(a, b) {
                        self.blocks[i].with_highlight(true)
                    } else {
                        self.blocks[i]
                    },
            ),
            ..self
        }
    }

    /// The plot after the rectangle that the pointer spans has been
    /// committed: the blocks that it meets are highlighted. Where the pointer
    /// spans no rectangle, nothing changes.
    pub open spec fn highlight_area(self) -> PlotModel {
        match self.selection {
            SelectionModel::Area(a, b) => self.highlighted_in(a, b),
            _ => self,
        }
    }
}

/// The models of a sequence of blocks.
pub open spec fn models(blocks: Seq<Block>) -> Seq<BlockModel> {
    Seq::new(blocks.len(), |i: int| blocks[i]@)
}

/// The graph of one canvas.
#[derive(Clone, Debug, PartialEq, Eq)]
pub struct Plot {
    blocks: Vec<Block>,
    selection: Selection,
}

impl View for Plot {
    type V = PlotModel;

    closed spec fn view(&self) -> PlotModel {
        PlotModel { blocks: models(self.blocks@), selection: self.selection@ }
    }
}

impl Plot {
    /// A plot is well formed when every block is named by its place and lies
    /// where machine coordinates reach.
    pub open spec fn wf(&self) -> bool {
        self@.wf() && self@.in_range()
    }

    /// A plot without blocks that holds nothing.
    pub fn new() -> (plot: Plot)
        ensures
            plot.wf(),
            plot@.blocks.len() == 0,
            plot@.selection == SelectionModel::Idle,
    {
        Plot { blocks: Vec::new(), selection: Selection::Idle }
    }

    /// Whether the plot is well formed. A plot made by `new` and `add_block`
    /// is; one whose blocks were changed in place is if each was given back
    /// where a block can stand and under its own identity.
    pub fn is_well_formed(&self) -> (ok: bool)
        ensures
            ok == self.wf(),
    {
        if self.blocks.len() > u32::MAX as usize {
            return false;
        }
        let mut i: usize = 0;
        while i < self.blocks.len()
            invariant
                i <= self.blocks.len() <= u32::MAX,
                forall|j: int|
                    0 <= j < i ==> (#[trigger] self@.blocks[j]).id == j && block_fits_at(
                        self@.blocks[j].position,
                    ),
            decreases self.blocks.len() - i,
        {
            let block = &self.blocks[i];
            assert(block@ == self@.blocks[i as int]);
            if block.id() as usize != i || !Block::fits_at(block.position()) {
                return false;
            }
            i += 1;
        }
        true
    }

    /// Puts a new block on top, at `position` and with the given numbers of
    /// ports, and gives its identity. Nothing is added where no block can
    /// stand at `position`, or where the identities have run out.
    pub fn add_block(&mut self, position: Point, inputs: u8, outputs: u8) -> (id: Option<BlockId>)
        requires
            old(self).wf(),
        ensures
            final(self).wf(),
            id is Some <==> block_fits_at(ints(position)) && old(self)@.blocks.len() < u32::MAX,
            id matches Some(i) ==> i == old(self)@.blocks.len() && final(self)@ == old(
                self,
            )@.with_new_block(ints(position), inputs, outputs),
            id is None ==> final(self)@ == old(self)@,
    {
        if self.blocks.len() >= u32::MAX as usize {
            return None;
        }
        let id: BlockId = self.blocks.len() as BlockId;
        match Block::new(id, position, inputs, outputs) {
            Some(block) => {
                self.blocks.push(block);
                assert(self@.blocks =~= old(self)@.with_new_block(
                    ints(position),
                    inputs,
                    outputs,
                ).blocks);
                Some(id)
            },
            None => None,
        }
    }

    /// The number of blocks.
    pub fn len(&self) -> (len: usize)
        ensures
            len == self@.blocks.len(),
    {
        self.blocks.len()
    }

    /// The topmost block that the pointer at `position` is on.
    pub fn get_block_at(&self, position: Point) -> (id: Option<BlockId>)
        requires
            self.wf(),
        ensures
            id == self@.block_at(ints(position)),
    {
        let mut i: usize = self.blocks.len();
        while i > 0
            invariant
                self.wf(),
                i <= self.blocks.len(),
                forall|j: int| i <= j < self@.blocks.len() ==> !(#[trigger] self@.blocks[j]).touches(ints(position)),
            decreases i,
        {
            i -= 1;
            assert(self.blocks[i as int]@ == self@.blocks[i as int]);
            assert(block_fits_at(self@.blocks[i as int].position));
            if self.blocks[i].touches(position) {
                proof {
                    lemma_top_block_at(self@.blocks, ints(position));
                    assert(self@.blocks[i as int].touches(ints(position)));
                }
                return Some(i as BlockId);
            }
        }
        proof {
            lemma_top_block_at(self@.blocks, ints(position));
        }
        None
    }

    /// The block `id`, if the plot has it.
    pub fn get_block(&self, id: BlockId) -> (block: Option<&Block>)
        requires
            self.wf(),
        ensures
            block is Some <==> self@.has_block(id),
            block matches Some(b) ==> b.wf() && b@ == self@.block(id),
    {
        if (id as usize) < self.blocks.len() {
            assert(self.blocks[id as int]@ == self@.blocks[id as int]);
            assert(block_fits_at(self@.blocks[id as int].position));
            Some(&self.blocks[id as usize])
        } else {
            None
        }
    }

    /// The block `id` for changing it in place, if the plot has it. The plot
    /// is well formed again when the block is given back well formed and
    /// under its own identity.
    pub fn get_block_mut(&mut self, id: BlockId) -> (block: Option<&mut Block>)
        requires
            old(self).wf(),
        ensures
            block is Some <==> old(self)@.has_block(id),
            block matches Some(b) ==> b.wf() && b@ == old(self)@.block(id) && final(self)@ == old(
                self,
            )@.with_block(id, final(b)@),
            block is None ==> final(self)@ == old(self)@,
    {
        if (id as usize) < self.blocks.len() {
            assert(self.blocks[id as int]@ == self@.blocks[id as int]);
            assert(block_fits_at(self@.blocks[id as int].position));
            assert forall|block: Block| #[trigger]
                models(self.blocks@.update(id as int, block)) == models(self.blocks@).update(
                    id as int,
                    block@,
                ) by {
                assert(models(self.blocks@.update(id as int, block)) =~= models(
                    self.blocks@,
                ).update(id as int, block@));
            }
            Some(&mut self.blocks[id as usize])
        } else {
            None
        }
    }

    /// Clears the highlight of every block.
    pub fn unhighlight(&mut self)
        requires
            old(self).wf(),
        ensures
            final(self).wf(),
            final(self)@ == old(self)@.unhighlighted(),
    {
        let mut i: usize = 0;
        while i < self.blocks.len()
            invariant
                i <= self.blocks.len(),
                self.blocks.len() == old(self).blocks.len(),
                self.selection == old(self).selection,
                forall|j: int|
                    0 <= j < i ==> (#[trigger] self.blocks[j])@ == old(self).blocks[j]@.with_highlight(
                        false,
                    ),
                forall|j: int| i <= j < self.blocks.len() ==> self.blocks[j] == old(self).blocks[j],
            decreases self.blocks.len() - i,
        {
            self.blocks[i].set_highlighted(false);
            i += 1;
        }
        assert(self@.blocks =~= old(self)@.unhighlighted().blocks);
    }

    /// Commits the rectangle that the pointer spans: highlights every block
    /// whose rectangle meets it. What the pointer holds stays as it is.
    pub fn highlight_area(&mut self)
        requires
            old(self).wf(),
        ensures
            final(self).wf(),
            final(self)@ == old(self)@.highlight_area(),
    {
        if let Selection::Area(a, b) = self.selection {
            let mut i: usize = 0;
            while i < self.blocks.len()
                invariant
                    old(self).wf(),
                    i <= self.blocks.len(),
                    self.blocks.len() == old(self).blocks.len(),
                    self.selection == old(self).selection,
                    forall|j: int|
                        0 <= j < i ==> (#[trigger] self.blocks[j])@ == old(self)@.highlighted_in(
                            ints(a),
                            ints(b),
                        ).blocks[j],
                    forall|j: int|
                        i <= j < self.blocks.len() ==> self.blocks[j] == old(self).blocks[j],
                decreases self.blocks.len() - i,
            {
                assert(old(self).blocks[i as int]@ == old(self)@.blocks[i as int]);
                assert(block_fits_at(old(self)@.blocks[i as int].position));
                if self.blocks[i].is_in_area(a, b) {
                    self.blocks[i].set_highlighted(true);
                }
                i += 1;
            }
            assert(self@.blocks =~= old(self)@.highlight_area().blocks);
        }
    }

    /// What the pointer holds.
    pub fn selection(&self) -> (selection: Selection)
        ensures
            selection@ == self@.selection,
    {
        self.selection
    }

    /// Makes the pointer hold `selection`.
    pub fn set_selection(&mut self, selection: Selection)
        ensures
            final(self)@ == old(self)@.with_selection(selection@),
            final(self).wf() == old(self).wf(),
    {
        self.selection = selection;
    }
}

} // verus!
