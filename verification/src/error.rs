use vstd::prelude::*;

verus! {

/// Every way a command can fail. A failing command mutates nothing: callers
/// return the error to the host, which discards the command's writes.
#[derive(Debug, Clone, PartialEq, Eq)]
pub enum ContractError {
    /// Host-level storage failure surfaced to the caller, such as a lookup of
    /// a proposal id that was never allocated.
    Std(String),
    /// The configured passing percentage lies outside 0..=100.
    InvalidThreshold {},
    /// The caller is neither the required role member nor the contract itself.
    Unauthorized {},
    /// The proposal is not in the `Open` state.
    NotOpen {},
    /// The proposal's voting period has expired.
    Expired {},
    /// The voter already has a ballot for this proposal.
    AlreadyVoted {},
    /// The proposal must have passed and not yet been executed.
    WrongExecuteStatus {},
    /// Instantiation listed no administrators.
    NoAdmins {},
    /// Instantiation listed no operators.
    NoOps {},
    /// The vesting plan is malformed; the payload says how.
    InvalidTranche(String),
    /// A vesting timestamp lies outside the accepted window.
    InvalidTimestamp(String),
    /// The withdrawal request exceeds the matured, unwithdrawn principal.
    NoSufficientUnlockedTokens {},
}

impl ContractError {
    /// An `InvalidTranche` error carrying exactly this message.
    pub open spec fn is_invalid_tranche(self, m: Seq<char>) -> bool {
        &&& self matches ContractError::InvalidTranche(s)
        &&& s@ == m
    }

    /// An `InvalidTimestamp` error carrying exactly this message.
    pub open spec fn is_invalid_timestamp(self, m: Seq<char>) -> bool {
        &&& self matches ContractError::InvalidTimestamp(s)
        &&& s@ == m
    }

    /// A host-storage error carrying exactly this message.
    pub open spec fn is_std(self, m: Seq<char>) -> bool {
        &&& self matches ContractError::Std(s)
        &&& s@ == m
    }
}

} // verus!
