use vstd::prelude::*;

verus! {

/// Errors surfaced by the swap core.
#[derive(Debug, Clone, PartialEq, Eq)]
pub enum ErrorKind {
    /// The session is not in a state where the request makes sense.
    InvalidState,
    /// The requested action does not fit the session's progress.
    UnexpectedAction,
    /// The request needs the other role.
    UnexpectedRole,
    /// Fewer than two partial commitments are known.
    MultiSigIncomplete,
    /// A peer's commitment is inconsistent with the advertised trade.
    InvalidProof,
    /// A signature or a scalar taken from one is not valid.
    InvalidSignature,
    /// A message belongs to another session.
    InvalidMessageData,
    /// A persisted session could not be decoded.
    Serialization,
    /// The secp256k1 library refused a key, or a sum of keys.
    Secp,
    /// A kernel fee outside the range the chain accepts.
    InvalidFee,
}

} // verus!
