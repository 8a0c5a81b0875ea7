use vstd::prelude::*;
use solana_program::pubkey::Pubkey;

verus! {

/// The singleton account that hands out escrow ids.
#[derive(Clone, Copy, Debug, PartialEq, Eq)]
pub struct Factory {
    pub last_id: u64,
}

/// The account that reserves one escrow id and its uuid.
#[derive(Debug, PartialEq, Eq)]
pub struct EscrowId {
    pub uuid: String,
    pub id: u64,
}

/// The stage an escrow is in.
#[allow(non_camel_case_types)]
#[derive(Clone, Copy, Debug, PartialEq, Eq, Structural)]
pub enum State {
    INIT,
    FUNDED,
    ACCEPTED,
    RELEASED,
    REFUNDED,
    WITHDRAWN,
}

/// Who an escrow payout goes to.
#[derive(Clone, Copy, Debug, PartialEq, Eq, Structural)]
pub enum Payee {
    /// The account named as the receiver of a release.
    Receiver,
    /// The account that signed the instruction.
    Signer,
    /// The account named as the commission account.
    CommissionAccount,
}

/// One movement of lamports out of the escrow account.
#[derive(Clone, Copy, Debug, PartialEq, Eq, Structural)]
pub struct Payment {
    pub payee: Payee,
    pub lamports: u64,
}

/// The escrow account: a deal between its owner (the buyer, who deposits) and
/// a seller (who accepts).
#[derive(Debug, PartialEq, Eq)]
pub struct Escrow {
    pub owner: Pubkey,
    pub seller: Option<Pubkey>,
    pub realesed_by: Option<Pubkey>,
    pub commissionwallet: Pubkey,
    pub minimumescrow_amount: u64,
    pub commissionrate: u64,
    pub state: State,
    pub deposit_time: i64,
    pub amount_in_escrow: u64,
    pub id: String,
    pub commission_amount: u64,
    pub released_amount: u64,
}

impl Escrow {
    /// The invariant of an escrow that the program created and then only
    /// changed through its instructions.
    pub open spec fn wf(self) -> bool {
        &&& self.commissionrate <= 100
        &&& self.state == State::INIT ==> self.amount_in_escrow == 0 && self.seller is None
        &&& self.state == State::ACCEPTED ==> self.seller is Some && self.seller->0 != self.owner
        &&& (self.state == State::RELEASED || self.state == State::REFUNDED || self.state
            == State::WITHDRAWN) ==> self.amount_in_escrow == 0
    }
}

} // verus!
