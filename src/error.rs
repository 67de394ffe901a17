use vstd::prelude::*;

verus! {

/// Every way a request to the authority can fail.
#[derive(Debug, Clone, Copy, PartialEq, Eq, Structural)]
pub enum ApiError {
    /// The issuance time of a command lies too far from the current time.
    OutsideIssuanceWindow,
    /// An instruction could not be encoded or decoded.
    SerializationError,
    /// The ledger could not carry out an operation.
    PersistenceFailure,
    /// The ledger holds no row for the requested robot or identity.
    NotFound,
    /// A stored instruction could not be read back.
    CorruptedRecord,
    /// The decision table defines no transition for the pair of instructions.
    InstructionSequenceUnsupported,
}

} // verus!
