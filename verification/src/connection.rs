//! Where a cursor gets its connection from.

use vstd::prelude::*;

verus! {

/// The backing of a cursor: a pool that a connection must first be checked out
/// of, or a connection that the caller already holds.
#[derive(Debug, Clone, Copy, PartialEq, Eq, Structural)]
pub enum ConnectionSource {
    Pool,
    Connection,
}

impl ConnectionSource {
    /// Whether the source hands out its connection without waiting: a held
    /// connection does, a pool may suspend the caller until one is free.
    pub fn resolves_immediately(&self) -> (r: bool)
        ensures
            r == (*self == ConnectionSource::Connection),
    {
        match self {
            ConnectionSource::Pool => false,
            ConnectionSource::Connection => true,
        }
    }
}

/// What to do with a connection when the cursor that used it is given up.
#[derive(Debug, Clone, Copy, PartialEq, Eq, Structural)]
pub enum Release {
    /// No response is outstanding: the connection can serve the next query.
    Reuse,
    /// A response is outstanding: read it to its end before the connection
    /// serves another query, or close the connection.
    Drain,
    /// The state of the exchange is unknown: close the connection.
    Close,
}

} // verus!
