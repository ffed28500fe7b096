//! The outcome of one write statement against the database, as the driver
//! reports it: either the statement failed, or it affected some number of rows.

use vstd::prelude::*;

verus! {

/// What a single INSERT or UPDATE round trip came back with.
#[derive(Clone, Copy, Debug)]
pub enum WriteOutcome {
    /// The statement failed, for whatever reason the driver saw.
    Failed,
    /// The statement succeeded and affected this many rows.
    Rows(u64),
}

} // verus!
