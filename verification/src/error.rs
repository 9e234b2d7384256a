//! The errors of the pipeline.

use vstd::prelude::*;

verus! {

/// Why a page could not be had from the remote service.
#[derive(Clone, Copy, Debug, PartialEq, Eq, Structural)]
pub enum FetchError {
    /// The request did not complete.
    Network,
    /// The answer was not a page of the expected shape.
    Decode,
}

/// Why the local store refused an operation.
#[derive(Clone, Copy, Debug, PartialEq, Eq, Structural)]
pub enum StoreError {
    /// The table could not be created.
    SchemaCreation,
    /// A batch could not be written.
    Write,
    /// A row could not be read back.
    Read,
}

} // verus!
