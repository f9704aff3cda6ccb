use vstd::prelude::*;

verus! {

/// Failures of the client's operations.
#[derive(Debug, Clone, Copy, PartialEq, Eq, Structural)]
pub enum Error {
    /// An envelope carries a type identifier that no entity of this client has.
    UnrecognizedType,
    /// An envelope's body does not decode as the entity its identifier names.
    MalformedPayload,
    /// The initial consensus payload is not a valid consensus state.
    InvalidConsensusState,
    /// A proof is checked against a height the client has not observed yet.
    InvalidProofHeight,
    /// The client is frozen.
    ClientFrozen,
    /// A membership or non-membership check does not hold.
    CommitmentMismatch,
    /// An upgrade does not validate against the current client.
    UpgradeVerificationFailed,
    /// The operation has no meaning for this client type.
    Unsupported,
    /// A header is not strictly above the client's latest height, or a consensus
    /// state is already stored at its height.
    InvalidHeader,
}

} // verus!
