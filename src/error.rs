use vstd::prelude::*;
verus! {
/// Every way an operation can be rejected.
#[derive(Clone, Copy, Debug, PartialEq, Eq, Structural)]
pub enum VotingError {
    InvalidInstruction,
    AddressMismatch,
    AlreadyInitialized,
    NotInitialized,
    AlreadyVoted,
    NameTooLong,
    VoteLimitExceeded,
    CounterOverflow,
    MissingSignature,
}
} // verus!
