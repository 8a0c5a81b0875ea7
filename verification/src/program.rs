use vstd::prelude::*;
use solana_program::instruction::Instruction;
use solana_program::pubkey::Pubkey;
use crate::access::{verify_minimumamount, verify_owner, verify_unique_address, verify_wallet};
use crate::constants::{COMMISION_RATE, MIN_AMOUNT, SIX_MONTHS};
use crate::cpi::{system_transfer, transfer_instruction};
use crate::data::{Escrow, EscrowId, Factory, Payee, Payment, State};
use crate::error::EscrowError;
use crate::helper::{calculate_amount_totransfer, split_is_defined};
use crate::keys::{commission_pubkey, keys_equal, spec_commission_pubkey};
use crate::model::{
    accept_outcome, deposit_check, funded, initial_escrow, next_id, post_six_months_defined,
    post_six_months_outcome, release_defined, release_outcome, withdraw_defined, withdraw_outcome,
};

verus! {

/// The id factory as it is first created: no id handed out yet.
pub fn init_factory() -> (f: Factory)
    ensures
        f.last_id == 0,
{
    Factory { last_id: 0 }
}

/// Reserves the next escrow id under `uuid`: the factory's counter goes up by
/// one and the new id is the counter's new value.
pub fn new_escrow_id(factory: &mut Factory, uuid: String) -> (nu: EscrowId)
    requires
        old(factory).last_id < u64::MAX,
    ensures
        final(factory).last_id == next_id(*old(factory)),
        final(factory).last_id == old(factory).last_id + 1,
        nu.id == next_id(*old(factory)),
        nu.uuid == uuid,
{
    factory.last_id = factory.last_id + 1;
    EscrowId { uuid, id: factory.last_id }
}

/// Creates the escrow of the deal reserved by `escrowid`, owned by `payer`,
/// in state `INIT` with the program's commission rate, minimum amount and
/// commission wallet.
pub fn initialize_deal(payer: &Pubkey, escrowid: &EscrowId) -> (es: Escrow)
    ensures
        es == initial_escrow(*payer, escrowid.uuid),
        es.wf(),
        es.owner == *payer,
        es.id == escrowid.uuid,
        es.state == State::INIT,
        es.seller is None,
        es.realesed_by is None,
        es.commissionwallet == spec_commission_pubkey(),
        es.minimumescrow_amount == MIN_AMOUNT,
        es.commissionrate == COMMISION_RATE,
        es.deposit_time == 0,
        es.amount_in_escrow == 0,
        es.commission_amount == 0,
        es.released_amount == 0,
{
    Escrow {
        owner: *payer,
        seller: None,
        realesed_by: None,
        commissionwallet: commission_pubkey(),
        minimumescrow_amount: MIN_AMOUNT,
        commissionrate: COMMISION_RATE,
        state: State::INIT,
        deposit_time: 0,
        amount_in_escrow: 0,
        id: escrowid.uuid.clone(),
        commission_amount: 0,
        released_amount: 0,
    }
}

/// Checks that the owner may deposit `amount` lamports into the escrow at
/// `escrow_key`, and gives the system-program instruction that transfers them
/// from the signer. The escrow is recorded as funded by `record_deposit` once
/// that transfer has been made.
pub fn deposit(es: &Escrow, signer: &Pubkey, escrow_key: &Pubkey, amount: u64) -> (r: Result<Instruction, EscrowError>)
    ensures
        match deposit_check(*es, *signer, amount) {
            Ok(_) => r == Ok::<Instruction, EscrowError>(transfer_instruction(*signer, *escrow_key, amount)),
            Err(e) => r == Err::<Instruction, EscrowError>(e),
        },
{
    if es.state != State::INIT {
        return Err(EscrowError::InvalidEscrowState);
    }
    if !keys_equal(signer, &es.owner) {
        return Err(EscrowError::SameBuyerSeller);
    }
    if let Err(e) = verify_minimumamount(amount, es.minimumescrow_amount) {
        return Err(e);
    }
    Ok(system_transfer(signer, escrow_key, amount))
}

/// Records that `amount` lamports were transferred into the escrow at time
/// `now`: the escrow is funded with that amount.
pub fn record_deposit(es: &mut Escrow, amount: u64, now: i64)
    ensures
        *final(es) == funded(*old(es), amount, now),
{
    es.state = State::FUNDED;
    es.deposit_time = now;
    es.amount_in_escrow = amount;
}

/// `signer` accepts a funded deal as its seller.
pub fn accept_deal(es: &mut Escrow, signer: &Pubkey) -> (r: Result<(), EscrowError>)
    ensures
        match accept_outcome(*old(es), *signer) {
            Ok(next) => r is Ok && *final(es) == next,
            Err(e) => r == Err::<(), EscrowError>(e) && *final(es) == *old(es),
        },
{
    if es.state != State::FUNDED {
        return Err(EscrowError::InvalidEscrowState);
    }
    if let Err(e) = verify_unique_address(es.owner, *signer) {
        return Err(e);
    }
    es.seller = Some(*signer);
    es.state = State::ACCEPTED;
    Ok(())
}

/// Whether `release_fund` is defined on these arguments.
pub fn release_fund_is_defined(es: &Escrow, signer: &Pubkey, commision_account: &Pubkey) -> (r: bool)
    ensures
        r == release_defined(*es, *signer, *commision_account),
{
    if es.state != State::ACCEPTED || !keys_equal(&es.commissionwallet, commision_account) {
        return true;
    }
    match es.seller {
        None => false,
        Some(sk) => {
            if keys_equal(&es.owner, signer) || keys_equal(&sk, signer) {
                split_is_defined(es.amount_in_escrow, es.commissionrate)
            } else {
                true
            }
        },
    }
}

/// A party of an accepted deal releases its funds to the other party: the
/// owner to the seller, or the seller to the owner. The amount less the
/// commission goes to the receiver and the commission to the commission
/// wallet; the escrow ends `RELEASED` and empty.
pub fn release_fund(es: &mut Escrow, signer: &Pubkey, reciever: &Pubkey, commision_account: &Pubkey) -> (r: Result<Vec<Payment>, EscrowError>)
    requires
        release_defined(*old(es), *signer, *commision_account),
    ensures
        match release_outcome(*old(es), *signer, *reciever, *commision_account) {
            Ok((next, payments)) => r matches Ok(p) && p@ == payments && *final(es) == next,
            Err(e) => r == Err::<Vec<Payment>, EscrowError>(e) && *final(es) == *old(es),
        },
{
    if es.state != State::ACCEPTED {
        return Err(EscrowError::InvalidEscrowState);
    }
    if let Err(e) = verify_wallet(es.commissionwallet, *commision_account) {
        return Err(e);
    }
    let sk = es.seller.unwrap();
    if !keys_equal(&es.owner, signer) && !keys_equal(&sk, signer) {
        return Err(EscrowError::WrongAddress);
    }
    let (signer_amount, commision_amount) = calculate_amount_totransfer(
        es.amount_in_escrow,
        es.commissionrate,
    );
    let mut payments: Vec<Payment> = Vec::new();
    if keys_equal(&es.owner, signer) && keys_equal(&sk, reciever) {
        payments.push(Payment { payee: Payee::Receiver, lamports: signer_amount });
    }
    if keys_equal(&sk, signer) && keys_equal(&es.owner, reciever) {
        payments.push(Payment { payee: Payee::Receiver, lamports: signer_amount });
    }
    if payments.len() == 0 {
        return Err(EscrowError::InvalidEscrowState);
    }
    payments.push(Payment { payee: Payee::CommissionAccount, lamports: commision_amount });
    es.amount_in_escrow = 0;
    es.state = State::RELEASED;
    es.commission_amount = commision_amount;
    es.released_amount = signer_amount;
    es.realesed_by = Some(*signer);
    Ok(payments)
}

/// Whether `withdraw_fund` is defined on these arguments.
pub fn withdraw_fund_is_defined(es: &Escrow, signer: &Pubkey) -> (r: bool)
    ensures
        r == withdraw_defined(*es, *signer),
{
    if keys_equal(&es.owner, signer) && es.state == State::FUNDED {
        split_is_defined(es.amount_in_escrow, es.commissionrate)
    } else {
        true
    }
}

/// The owner takes back a funded deal that no seller has accepted yet: the
/// amount less the commission goes back to the owner and the commission to the
/// given commission account; the escrow ends `REFUNDED` and empty.
pub fn withdraw_fund(es: &mut Escrow, signer: &Pubkey) -> (r: Result<Vec<Payment>, EscrowError>)
    requires
        withdraw_defined(*old(es), *signer),
    ensures
        match withdraw_outcome(*old(es), *signer) {
            Ok((next, payments)) => r matches Ok(p) && p@ == payments && *final(es) == next,
            Err(e) => r == Err::<Vec<Payment>, EscrowError>(e) && *final(es) == *old(es),
        },
{
    if let Err(e) = verify_owner(es.owner, *signer) {
        return Err(e);
    }
    if es.state != State::FUNDED {
        return Err(EscrowError::InvalidEscrowState);
    }
    let (signer_amount, commision_amount) = calculate_amount_totransfer(
        es.amount_in_escrow,
        es.commissionrate,
    );
    let mut payments: Vec<Payment> = Vec::new();
    payments.push(Payment { payee: Payee::Signer, lamports: signer_amount });
    payments.push(Payment { payee: Payee::CommissionAccount, lamports: commision_amount });
    es.amount_in_escrow = 0;
    es.state = State::REFUNDED;
    es.commission_amount = commision_amount;
    es.released_amount = signer_amount;
    es.realesed_by = Some(*signer);
    Ok(payments)
}

/// Whether `post_six_months` is defined on these arguments.
pub fn post_six_months_is_defined(es: &Escrow, signer: &Pubkey, now: i64) -> (r: bool)
    ensures
        r == post_six_months_defined(*es, *signer, now),
{
    if keys_equal(&es.owner, signer) {
        now.checked_sub(es.deposit_time).is_some()
    } else {
        true
    }
}

/// Once `SIX_MONTHS` seconds have passed since the deposit, the owner takes
/// the whole amount held back, whatever state the deal is in; the escrow ends
/// `WITHDRAWN` and empty.
pub fn post_six_months(es: &mut Escrow, signer: &Pubkey, now: i64) -> (r: Result<Vec<Payment>, EscrowError>)
    requires
        post_six_months_defined(*old(es), *signer, now),
    ensures
        match post_six_months_outcome(*old(es), *signer, now) {
            Ok((next, payments)) => r matches Ok(p) && p@ == payments && *final(es) == next,
            Err(e) => r == Err::<Vec<Payment>, EscrowError>(e) && *final(es) == *old(es),
        },
{
    if !keys_equal(&es.owner, signer) {
        return Err(EscrowError::InvalidSigner);
    }
    let timer = now - es.deposit_time;
    if timer < SIX_MONTHS {
        return Err(EscrowError::InvalidSigner);
    }
    let tf_amount = es.amount_in_escrow;
    let mut payments: Vec<Payment> = Vec::new();
    payments.push(Payment { payee: Payee::Signer, lamports: tf_amount });
    es.amount_in_escrow = 0;
    es.state = State::WITHDRAWN;
    Ok(payments)
}

} // verus!
