//! The error kinds of the ledger. Each one ends the operation in which it
//! arises, with none of that operation's effects kept.

use vstd::prelude::*;

verus! {

#[derive(Clone, Copy, Debug, PartialEq, Eq, Structural)]
pub enum VoteError {
    /// The treasury (or one of the accounts it creates) already exists.
    AlreadyInitialized,
    /// A voter record already exists for this identity.
    AlreadyRegistered,
    /// The voter has already voted on this proposal.
    AlreadyVoted,
    /// The payer holds less native value than the transfer asks for.
    InsufficientFunds,
    /// A derived address does not match the address it is presented for.
    AuthorityProofMismatch,
    /// An asset account or mint is not the treasury's asset.
    MintMismatch,
    /// The asset account is not owned by the buyer.
    OwnerMismatch,
    /// No voter record exists for this identity.
    VoterNotRegistered,
    /// No proposal exists with this id.
    ProposalNotFound,
    /// The proposal's deadline has been reached.
    DeadlinePassed,
    /// A balance, a supply or a count would leave its integer range.
    ArithmeticOverflow,
    /// The purchase would take the supply past the configured cap.
    SupplyCapReached,
    /// No bump yields an address for a fixed seed label.
    DerivationFailed,
}

} // verus!
