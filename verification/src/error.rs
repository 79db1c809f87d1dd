use vstd::prelude::*;

verus! {

/// The error kinds the registry and the staking ledger report. Every error is
/// terminal for the call that raised it: the host discards all state written
/// by a failed call, so no partial mutation ever survives.
#[derive(Clone, Copy, Debug, PartialEq, Eq, Structural)]
pub enum ContractError {
    /// The caller lacks the role or the ownership that the operation demands.
    Unauthorized,
    /// The collection is absent from the allow list.
    NotWhitelisted,
    /// The collection is already on the allow list. A deposit from a
    /// collection that is *not* allow-listed is also reported with this kind:
    /// the ledger keeps that pairing of condition and error.
    AlreadyWhitelisted,
    /// Unbonding was already requested for this record.
    AlreadyUnstaked,
    /// The record was seized by the admin; depositor operations on it are closed.
    StakedTokenIsBurnedByAdmin,
    /// The claim came before the unbonding deadline, carried here for display.
    StillUnbonding { will_finish: u64 },
    /// No record stands at the given index in the depositor's list.
    RecordNotFound,
}

} // verus!
