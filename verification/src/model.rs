use vstd::prelude::*;
use solana_program::pubkey::Pubkey;
use crate::constants::{COMMISION_RATE, MIN_AMOUNT, SIX_MONTHS};
use crate::data::{Escrow, Factory, Payee, Payment, State};
use crate::error::EscrowError;
use crate::helper::{commission_of, split_defined};
use crate::keys::spec_commission_pubkey;

verus! {

// What each instruction does to an escrow, stated over plain values: the
// escrow after the instruction and the lamports it pays out of the escrow
// account, or the error it fails with.

/// The id that the factory hands out next.
pub open spec fn next_id(f: Factory) -> u64 {
    (f.last_id + 1) as u64
}

/// The escrow that `initialize_deal` creates for `owner` under the uuid `id`.
pub open spec fn initial_escrow(owner: Pubkey, id: String) -> Escrow {
    Escrow {
        owner,
        seller: None,
        realesed_by: None,
        commissionwallet: spec_commission_pubkey(),
        minimumescrow_amount: MIN_AMOUNT,
        commissionrate: COMMISION_RATE,
        state: State::INIT,
        deposit_time: 0,
        amount_in_escrow: 0,
        id,
        commission_amount: 0,
        released_amount: 0,
    }
}

/// Whether the owner may deposit `amount` into the escrow, and if not, why.
pub open spec fn deposit_check(es: Escrow, signer: Pubkey, amount: u64) -> Result<(), EscrowError> {
    if es.state != State::INIT {
        Err(EscrowError::InvalidEscrowState)
    } else if signer != es.owner {
        Err(EscrowError::SameBuyerSeller)
    } else if amount < es.minimumescrow_amount {
        Err(EscrowError::InvalidDeposit)
    } else {
        Ok(())
    }
}

/// The escrow once `amount` has been transferred into it at time `now`.
pub open spec fn funded(es: Escrow, amount: u64, now: i64) -> Escrow {
    Escrow { state: State::FUNDED, deposit_time: now, amount_in_escrow: amount, ..es }
}

/// The escrow after `signer` accepts the deal as seller, or the error.
pub open spec fn accept_outcome(es: Escrow, signer: Pubkey) -> Result<Escrow, EscrowError> {
    if es.state != State::FUNDED {
        Err(EscrowError::InvalidEscrowState)
    } else if es.owner == signer {
        Err(EscrowError::SameBuyerSeller)
    } else {
        Ok(Escrow { seller: Some(signer), state: State::ACCEPTED, ..es })
    }
}

/// The commission taken from the amount held in the escrow.
pub open spec fn commission_share(es: Escrow) -> u64 {
    commission_of(es.amount_in_escrow, es.commissionrate) as u64
}

/// What is left of the amount held in the escrow after the commission.
pub open spec fn payout_share(es: Escrow) -> u64 {
    (es.amount_in_escrow - commission_of(es.amount_in_escrow, es.commissionrate)) as u64
}

/// The escrow once its funds have been paid out by `signer`, ending in `state`.
pub open spec fn settled(es: Escrow, state: State, signer: Pubkey) -> Escrow {
    Escrow {
        amount_in_escrow: 0,
        state,
        commission_amount: commission_share(es),
        released_amount: payout_share(es),
        realesed_by: Some(signer),
        ..es
    }
}

/// The payouts of a release to the receiver: one when the owner releases to
/// the seller, and one when the seller releases to the owner.
pub open spec fn release_payments(es: Escrow, signer: Pubkey, receiver: Pubkey) -> Seq<Payment> {
    let seller = es.seller->0;
    let pay = Payment { payee: Payee::Receiver, lamports: payout_share(es) };
    let by_owner = if es.owner == signer && seller == receiver {
        seq![pay]
    } else {
        Seq::empty()
    };
    let by_seller = if seller == signer && es.owner == receiver {
        seq![pay]
    } else {
        Seq::empty()
    };
    by_owner + by_seller
}

/// The escrow and the payouts of `release_fund`, or the error.
pub open spec fn release_outcome(es: Escrow, signer: Pubkey, receiver: Pubkey, commission_account: Pubkey) -> Result<
    (Escrow, Seq<Payment>),
    EscrowError,
> {
    if es.state != State::ACCEPTED {
        Err(EscrowError::InvalidEscrowState)
    } else if es.commissionwallet != commission_account {
        Err(EscrowError::WrongAddress)
    } else if es.owner != signer && es.seller->0 != signer {
        Err(EscrowError::WrongAddress)
    } else if release_payments(es, signer, receiver).len() == 0 {
        Err(EscrowError::InvalidEscrowState)
    } else {
        Ok(
            (
                settled(es, State::RELEASED, signer),
                release_payments(es, signer, receiver).push(
                    Payment { payee: Payee::CommissionAccount, lamports: commission_share(es) },
                ),
            ),
        )
    }
}

/// The inputs on which `release_fund` runs to completion: it reads the seller
/// of an accepted escrow, and splits the amount once the signer is a party.
pub open spec fn release_defined(es: Escrow, signer: Pubkey, commission_account: Pubkey) -> bool {
    (es.state == State::ACCEPTED && es.commissionwallet == commission_account) ==> {
        &&& es.seller is Some
        &&& (es.owner == signer || es.seller->0 == signer) ==> split_defined(
            es.amount_in_escrow,
            es.commissionrate,
        )
    }
}

/// The escrow and the payouts of `withdraw_fund`, or the error.
pub open spec fn withdraw_outcome(es: Escrow, signer: Pubkey) -> Result<(Escrow, Seq<Payment>), EscrowError> {
    if es.owner != signer {
        Err(EscrowError::InvalidSigner)
    } else if es.state != State::FUNDED {
        Err(EscrowError::InvalidEscrowState)
    } else {
        Ok(
            (
                settled(es, State::REFUNDED, signer),
                seq![
                    Payment { payee: Payee::Signer, lamports: payout_share(es) },
                    Payment { payee: Payee::CommissionAccount, lamports: commission_share(es) },
                ],
            ),
        )
    }
}

/// The inputs on which `withdraw_fund` runs to completion.
pub open spec fn withdraw_defined(es: Escrow, signer: Pubkey) -> bool {
    (es.owner == signer && es.state == State::FUNDED) ==> split_defined(
        es.amount_in_escrow,
        es.commissionrate,
    )
}

/// The escrow and the payout of `post_six_months` at time `now`, or the error.
pub open spec fn post_six_months_outcome(es: Escrow, signer: Pubkey, now: i64) -> Result<
    (Escrow, Seq<Payment>),
    EscrowError,
> {
    if es.owner != signer {
        Err(EscrowError::InvalidSigner)
    } else if now - es.deposit_time < SIX_MONTHS {
        Err(EscrowError::InvalidSigner)
    } else {
        Ok(
            (
                Escrow { amount_in_escrow: 0, state: State::WITHDRAWN, ..es },
                seq![Payment { payee: Payee::Signer, lamports: es.amount_in_escrow }],
            ),
        )
    }
}

/// The inputs on which `post_six_months` runs to completion: the time since
/// the deposit must fit in an `i64`.
pub open spec fn post_six_months_defined(es: Escrow, signer: Pubkey, now: i64) -> bool {
    es.owner == signer ==> i64::MIN <= now - es.deposit_time <= i64::MAX
}

/// The lamports paid out by a sequence of payments.
pub open spec fn total_paid(payments: Seq<Payment>) -> int
    decreases payments.len(),
{
    if payments.len() == 0 {
        0
    } else {
        total_paid(payments.drop_last()) + payments.last().lamports
    }
}

} // verus!
