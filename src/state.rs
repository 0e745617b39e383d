//! The records the program owns: the treasury configuration, voters and
//! proposals.

use crate::address::Address;
use vstd::prelude::*;

verus! {

/// The singleton treasury configuration, written once at initialization.
#[derive(Clone, Copy, Debug, PartialEq, Eq)]
pub struct TreasuryConfig {
    /// The identity that initialized the treasury.
    pub authority: Address,
    /// The mint of the issued asset.
    pub x_mint: Address,
    /// The treasury's own asset account.
    pub treasury_token_account: Address,
    /// Native value charged per purchase.
    pub sol_price: u64,
    /// Asset units issued per purchase.
    pub tokens_per_purchase: u64,
    /// The bump of the vault's derived address.
    pub bump: u8,
    /// The most the mint's total supply may reach through purchases; `None`
    /// leaves issuance unlimited.
    pub supply_cap: Option<u64>,
}

/// A registered voter and the ids of the proposals it has voted on.
#[derive(Debug)]
pub struct Voter {
    pub voter_id: Address,
    pub proposal_voted: Vec<u8>,
}

/// A time-bounded proposal: open while the current time is before
/// `deadline`, closed from then on.
#[derive(Debug)]
pub struct Proposal {
    pub proposal_id: u8,
    pub number_of_votes: u8,
    pub deadline: i64,
    pub proposal_info: String,
    pub authority: Address,
}

impl Proposal {
    /// Open (accepting votes) while `now` is before the deadline; closed,
    /// and read-only, from the deadline on.
    pub fn is_open(&self, now: i64) -> (r: bool)
        ensures
            r == (now < self.deadline),
    {
        now < self.deadline
    }
}

} // verus!
