//! Error kinds of the bridge.

use vstd::prelude::*;

verus! {

/// Errors surfaced by the bridge.
#[derive(Debug, Clone)]
pub enum BridgeError {
    /// An unrecovered fault of the underlying store.
    Storage { message: String },
    /// Attaching or detaching a secondary store failed.
    AttachFailed { path: String, reason: String },
    /// A migration step failed; the store stays at `from`.
    Schema { from: u32, to: u32, cause: String },
    /// A required configuration field is absent.
    Configuration { field: String },
}

pub type BridgeResult<T> = Result<T, BridgeError>;

/// A store error as the bridge tells it apart: a query that found no row,
/// or any other failure with its message.
#[derive(Debug, Clone)]
pub enum StoreFault {
    NoRows,
    Failure(String),
}

} // verus!
