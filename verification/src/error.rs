//! The ways in which a gateway operation can fail.

use vstd::prelude::*;

verus! {

/// Why an operation was refused. Every failure aborts the whole operation: nothing is
/// retried and nothing is partly applied.
#[derive(Clone, Copy, Debug, PartialEq, Eq, Structural)]
pub enum GatewayError {
    /// The authorizing identity did not sign the request.
    Signature,
    /// A storage location that the operation must allocate is already in use.
    StorageCollision,
    /// The ledger refused the instruction that was delegated to it.
    Delegation,
    /// The initial supply for the requested precision does not fit in 64 bits.
    ArithmeticOverflow,
    /// Name and symbol together do not fit in the space reserved for a metadata record.
    LengthExceeded,
}

} // verus!
