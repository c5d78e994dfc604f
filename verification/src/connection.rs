//! Ports and the connections between them.

use vstd::prelude::*;

verus! {

/// The identity of a block within its plot.
pub type BlockId = u32;

/// A port of a block: one of its inputs or one of its outputs, by index.
#[derive(Clone, Copy, Debug, PartialEq, Eq, Structural)]
pub enum Connector {
    Input(u8),
    Output(u8),
}

/// One end of a connection: a port of a block.
#[derive(Clone, Copy, Debug, PartialEq, Eq, Structural)]
pub struct Linkage {
    pub block_id: BlockId,
    pub port: u8,
}

/// A connection that leads from the output port `origin` to the port
/// `destination`.
#[derive(Clone, Copy, Debug, PartialEq, Eq, Structural)]
pub struct Connection {
    pub origin: Linkage,
    pub destination: Linkage,
}

impl Connection {
    /// The connection that leads from `origin` to `destination`.
    pub fn new(origin: Linkage, destination: Linkage) -> (connection: Connection)
        ensures
            connection == (Connection { origin, destination }),
    {
        Connection { origin, destination }
    }
}

} // verus!
