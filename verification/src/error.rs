//! The ways a counter operation can fail.

use vstd::prelude::*;

verus! {

/// Why a counter operation failed. A failed call writes nothing: the stored
/// value, if any, is left as it was.
#[derive(Clone, Copy, Debug, PartialEq, Eq, Structural)]
pub enum ContractError {
    /// `execute` or `query` found no stored value: `instantiate` never ran.
    StateMissing,
    /// The persistence layer rejected a read or a write.
    StorageError,
}

} // verus!
