//! Token movements. The library never moves tokens itself: an operation that
//! calls for a movement hands back a `TransferIntent`, and whoever holds the
//! tokens carries it out.

use vstd::prelude::*;
use crate::identity::Pubkey;

verus! {

/// A place where tokens are held.
#[derive(Clone, Copy, Debug, PartialEq, Eq)]
pub enum Custody {
    /// The token holdings of one participant.
    Participant(Pubkey),
    /// The escrow that holds all staked tokens.
    StakeEscrow,
    /// The escrow that holds proposal deposits.
    DepositEscrow,
    /// The treasury that proposals may pay out of.
    Treasury,
    /// The beneficiary named by whoever executes a treasury transfer.
    Recipient,
}

/// A request to move `amount` base units from one place to another.
#[derive(Clone, Copy, Debug, PartialEq, Eq)]
pub struct TransferIntent {
    pub from: Custody,
    pub to: Custody,
    pub amount: u64,
}

impl TransferIntent {
    /// The return of a proposal's deposit to its proposer.
    pub open spec fn deposit_refund(proposer: Pubkey, amount: u64) -> TransferIntent {
        TransferIntent { from: Custody::DepositEscrow, to: Custody::Participant(proposer), amount }
    }
}

/// Asks for a proposal's deposit to go back from escrow to its proposer.
pub fn transfer_deposit_to_proposer(proposer: Pubkey, amount: u64) -> (r: TransferIntent)
    ensures
        r == TransferIntent::deposit_refund(proposer, amount),
{
    TransferIntent { from: Custody::DepositEscrow, to: Custody::Participant(proposer), amount }
}

} // verus!
