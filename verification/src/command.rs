//! What a canvas asks its host to do.

use vstd::prelude::*;
use crate::connection::{BlockId, Connection};
use crate::geometry::{ints, Point};

verus! {

/// An edit of the graph that a finished gesture asks for. The canvas only
/// states it: the host carries it out, and keeps it so that it can be undone.
#[derive(Clone, Copy, Debug, PartialEq, Eq)]
pub enum EditCommand {
    /// Move the block from the second place to the third.
    MoveBlock(BlockId, Point, Point),
    /// Add the connection, which leaves the block.
    NewConnection(BlockId, Connection),
}

/// An edit over the mathematical plane.
pub enum CommandModel {
    MoveBlock(BlockId, (int, int), (int, int)),
    NewConnection(BlockId, Connection),
}

impl View for EditCommand {
    type V = CommandModel;

    open spec fn view(&self) -> CommandModel {
        match *self {
            EditCommand::MoveBlock(id, from, to) => CommandModel::MoveBlock(id, ints(from), ints(to)),
            EditCommand::NewConnection(id, connection) => CommandModel::NewConnection(
                id,
                connection,
            ),
        }
    }
}

/// The model of an edit that may have been asked for.
pub open spec fn asked(command: Option<EditCommand>) -> Option<CommandModel> {
    match command {
        Some(c) => Some(c@),
        None => None,
    }
}

/// What the host does to the translation of its view after a pointer event.
#[derive(Clone, Copy, Debug, PartialEq, Eq, Structural)]
pub enum PanAction {
    /// Leave it.
    Nothing,
    /// Remember it: a pan begins.
    SaveTranslation,
    /// Set it to the remembered translation moved by the pointer's offset.
    Translate,
}

/// The menu that a secondary click opens.
#[derive(Clone, Copy, Debug, PartialEq, Eq, Structural)]
pub enum ContextMenu {
    /// The menu of the block under the pointer.
    Block(BlockId),
    /// The menu of the empty canvas.
    Area,
}

} // verus!
