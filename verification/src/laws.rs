use vstd::prelude::*;
use solana_program::pubkey::Pubkey;
use crate::constants::SIX_MONTHS;
use crate::data::{Escrow, Factory, Payee, Payment, State};
use crate::error::EscrowError;
use crate::helper::{commission_of, split_defined};
use crate::model::{
    accept_outcome, deposit_check, funded, initial_escrow, next_id,
    post_six_months_defined, post_six_months_outcome, release_defined, release_outcome, release_payments, total_paid, withdraw_defined,
    withdraw_outcome,
};

verus! {

/// A new escrow satisfies the invariant, and every instruction that succeeds
/// on an escrow satisfying the invariant leaves one that satisfies it.
pub proof fn lemma_instructions_keep_wf(
    es: Escrow,
    signer: Pubkey,
    receiver: Pubkey,
    commission_account: Pubkey,
    amount: u64,
    now: i64,
    id: String,
)
    requires
        es.wf(),
    ensures
        initial_escrow(signer, id).wf(),
        deposit_check(es, signer, amount) is Ok ==> funded(es, amount, now).wf(),
        accept_outcome(es, signer) matches Ok(next) ==> next.wf(),
        release_outcome(es, signer, receiver, commission_account) matches Ok((next, _p)) ==> next.wf(),
        withdraw_outcome(es, signer) matches Ok((next, _p)) ==> next.wf(),
        post_six_months_outcome(es, signer, now) matches Ok((next, _p)) ==> next.wf(),
{
}

/// No instruction changes the terms of a deal: its owner, its id, its
/// commission wallet, commission rate and minimum amount.
pub proof fn lemma_terms_never_change(
    es: Escrow,
    signer: Pubkey,
    receiver: Pubkey,
    commission_account: Pubkey,
    amount: u64,
    now: i64,
)
    ensures
        ({
            let f = funded(es, amount, now);
            same_terms(es, f)
        }),
        accept_outcome(es, signer) matches Ok(next) ==> same_terms(es, next),
        release_outcome(es, signer, receiver, commission_account) matches Ok((next, _p))
            ==> same_terms(es, next),
        withdraw_outcome(es, signer) matches Ok((next, _p)) ==> same_terms(es, next),
        post_six_months_outcome(es, signer, now) matches Ok((next, _p)) ==> same_terms(es, next),
{
}

/// The terms of two escrows agree.
pub open spec fn same_terms(a: Escrow, b: Escrow) -> bool {
    &&& a.owner == b.owner
    &&& a.id == b.id
    &&& a.commissionwallet == b.commissionwallet
    &&& a.commissionrate == b.commissionrate
    &&& a.minimumescrow_amount == b.minimumescrow_amount
}

/// Who may do what, and from which state: only the owner deposits into a new
/// escrow; someone other than the owner accepts a funded one as seller; a
/// party of an accepted deal releases it to the other party, with the
/// commission going to the commission wallet; only the owner withdraws a funded
/// deal, or takes the funds back once `SIX_MONTHS` have passed.
pub proof fn lemma_who_may_act(
    es: Escrow,
    signer: Pubkey,
    receiver: Pubkey,
    commission_account: Pubkey,
    amount: u64,
    now: i64,
)
    ensures
        deposit_check(es, signer, amount) is Ok ==> {
            &&& es.state == State::INIT
            &&& signer == es.owner
            &&& amount >= es.minimumescrow_amount
        },
        accept_outcome(es, signer) matches Ok(next) ==> {
            &&& es.state == State::FUNDED
            &&& signer != es.owner
            &&& next.seller == Some(signer)
            &&& next.state == State::ACCEPTED
        },
        release_defined(es, signer, commission_account) ==> (release_outcome(
            es,
            signer,
            receiver,
            commission_account,
        ) matches Ok((next, _p)) ==> {
            &&& es.state == State::ACCEPTED
            &&& commission_account == es.commissionwallet
            &&& (signer == es.owner && Some(receiver) == es.seller) || (Some(signer) == es.seller
                && receiver == es.owner)
            &&& next.state == State::RELEASED
            &&& next.realesed_by == Some(signer)
        }),
        withdraw_outcome(es, signer) matches Ok((next, _p)) ==> {
            &&& es.state == State::FUNDED
            &&& signer == es.owner
            &&& next.state == State::REFUNDED
        },
        post_six_months_outcome(es, signer, now) matches Ok((next, _p)) ==> {
            &&& signer == es.owner
            &&& now - es.deposit_time >= SIX_MONTHS
            &&& next.state == State::WITHDRAWN
        },
{
}

/// A payout pays out exactly what the escrow holds and leaves it empty; a
/// release or a refund splits that amount into what the other party (or the
/// owner) receives and the commission. A release by a party to itself, on an
/// escrow whose owner is also its seller, is left out: it pays the receiver
/// twice.
pub proof fn lemma_payouts_conserve_funds(
    es: Escrow,
    signer: Pubkey,
    receiver: Pubkey,
    commission_account: Pubkey,
    now: i64,
)
    ensures
        (release_defined(es, signer, commission_account) && es.seller != Some(es.owner)) ==> (
        release_outcome(es, signer, receiver, commission_account) matches Ok((next, payments))
            ==> {
            &&& total_paid(payments) == es.amount_in_escrow
            &&& next.amount_in_escrow == 0
            &&& next.released_amount + next.commission_amount == es.amount_in_escrow
            &&& next.commission_amount == commission_of(es.amount_in_escrow, es.commissionrate)
        }),
        withdraw_defined(es, signer) ==> (withdraw_outcome(es, signer) matches Ok((next, payments))
            ==> {
            &&& total_paid(payments) == es.amount_in_escrow
            &&& next.amount_in_escrow == 0
            &&& next.released_amount + next.commission_amount == es.amount_in_escrow
            &&& next.commission_amount == commission_of(es.amount_in_escrow, es.commissionrate)
        }),
        post_six_months_outcome(es, signer, now) matches Ok((next, payments)) ==> {
            &&& total_paid(payments) == es.amount_in_escrow
            &&& next.amount_in_escrow == 0
        },
{
    reveal_with_fuel(total_paid, 3);
    if let Ok((next, payments)) = release_outcome(es, signer, receiver, commission_account) {
        if es.seller != Some(es.owner) && release_defined(es, signer, commission_account) {
            assert(payments.len() == 2);
            assert(payments.drop_last().drop_last() =~= Seq::<Payment>::empty());
        }
    }
    if let Ok((next, payments)) = withdraw_outcome(es, signer) {
        assert(payments.drop_last().drop_last() =~= Seq::<Payment>::empty());
    }
    if let Ok((next, payments)) = post_six_months_outcome(es, signer, now) {
        assert(payments.drop_last() =~= Seq::<Payment>::empty());
    }
}

/// Funds leave an escrow once: after a release, a refund or a late
/// withdrawal, no release or refund succeeds, and a further late withdrawal
/// pays nothing.
pub proof fn lemma_no_second_payout(
    es: Escrow,
    signer: Pubkey,
    receiver: Pubkey,
    commission_account: Pubkey,
    now: i64,
    signer2: Pubkey,
    receiver2: Pubkey,
    commission_account2: Pubkey,
    now2: i64,
)
    ensures
        release_outcome(es, signer, receiver, commission_account) matches Ok((next, _p))
            ==> no_payout_from(next, signer2, receiver2, commission_account2, now2),
        withdraw_outcome(es, signer) matches Ok((next, _p))
            ==> no_payout_from(next, signer2, receiver2, commission_account2, now2),
        post_six_months_outcome(es, signer, now) matches Ok((next, _p))
            ==> no_payout_from(next, signer2, receiver2, commission_account2, now2),
{
    reveal_with_fuel(total_paid, 2);
    if let Ok((next, _p)) = post_six_months_outcome(es, signer, now) {
        if let Ok((n2, p2)) = post_six_months_outcome(next, signer2, now2) {
            assert(p2.drop_last() =~= Seq::<Payment>::empty());
        }
    }
    if let Ok((next, _p)) = release_outcome(es, signer, receiver, commission_account) {
        if let Ok((n2, p2)) = post_six_months_outcome(next, signer2, now2) {
            assert(p2.drop_last() =~= Seq::<Payment>::empty());
        }
    }
    if let Ok((next, _p)) = withdraw_outcome(es, signer) {
        if let Ok((n2, p2)) = post_six_months_outcome(next, signer2, now2) {
            assert(p2.drop_last() =~= Seq::<Payment>::empty());
        }
    }
}

/// On an emptied escrow, release and refund fail and a late withdrawal pays
/// nothing.
pub open spec fn no_payout_from(es: Escrow, signer: Pubkey, receiver: Pubkey, commission_account: Pubkey, now: i64) -> bool {
    &&& release_outcome(es, signer, receiver, commission_account) is Err
    &&& withdraw_outcome(es, signer) is Err
    &&& post_six_months_outcome(es, signer, now) matches Ok((_n, payments)) ==> total_paid(payments) == 0
}

/// The factory hands out increasing ids, so no two escrow ids it reserves are
/// the same.
pub proof fn lemma_ids_increase(f: Factory)
    requires
        f.last_id < u64::MAX - 1,
    ensures
        next_id(f) < next_id(Factory { last_id: next_id(f) }),
        next_id(f) > f.last_id,
{
}

/// At a rate of at most one hundred percent the commission never exceeds the
/// amount, so the split is defined whenever the product fits in a `u64`.
pub proof fn lemma_commission_bounded(amount: u64, rate: u64)
    requires
        rate <= 100,
        amount * rate <= u64::MAX,
    ensures
        commission_of(amount, rate) <= amount,
        split_defined(amount, rate),
{
    assert(amount * rate <= amount * 100) by (nonlinear_arith)
        requires rate <= 100;
    assert((amount * rate) / 100 <= amount) by (nonlinear_arith)
        requires amount * rate <= amount * 100;
}

/// A deposit is allowed exactly when the escrow is new, the signer is its
/// owner and the amount is at least the escrow's minimum, whatever the amount
/// beyond it; otherwise it fails with the first of these that does not hold.
/// Recording the deposit funds the escrow with that amount at that time and
/// changes nothing else.
pub proof fn lemma_deposit_allowed(es: Escrow, signer: Pubkey, amount: u64, now: i64)
    ensures
        deposit_check(es, signer, amount) is Ok <==> (es.state == State::INIT && signer == es.owner
            && amount >= es.minimumescrow_amount),
        es.state != State::INIT ==> deposit_check(es, signer, amount) == Err::<(), EscrowError>(
            EscrowError::InvalidEscrowState,
        ),
        es.state == State::INIT && signer != es.owner ==> deposit_check(es, signer, amount) == Err::<
            (),
            EscrowError,
        >(EscrowError::SameBuyerSeller),
        es.state == State::INIT && signer == es.owner && amount < es.minimumescrow_amount
            ==> deposit_check(es, signer, amount) == Err::<(), EscrowError>(EscrowError::InvalidDeposit),
        ({
            let f = funded(es, amount, now);
            &&& f.state == State::FUNDED
            &&& f.amount_in_escrow == amount
            &&& f.deposit_time == now
            &&& f.owner == es.owner && f.seller == es.seller && f.realesed_by == es.realesed_by
            &&& f.commissionwallet == es.commissionwallet && f.commissionrate == es.commissionrate
            &&& f.minimumescrow_amount == es.minimumescrow_amount && f.id == es.id
            &&& f.commission_amount == es.commission_amount && f.released_amount == es.released_amount
        }),
{
}

/// A funded deal is accepted by anyone but its owner, whatever amount it
/// holds: the signer becomes the seller and the deal `ACCEPTED`, nothing else
/// changes. Otherwise acceptance fails: `InvalidEscrowState` when the deal is
/// not funded, `SameBuyerSeller` when the owner tries.
pub proof fn lemma_accept_allowed(es: Escrow, signer: Pubkey)
    ensures
        es.state == State::FUNDED && signer != es.owner ==> accept_outcome(es, signer) == Ok::<
            Escrow,
            EscrowError,
        >(Escrow { seller: Some(signer), state: State::ACCEPTED, ..es }),
        es.state != State::FUNDED ==> accept_outcome(es, signer) == Err::<Escrow, EscrowError>(
            EscrowError::InvalidEscrowState,
        ),
        es.state == State::FUNDED && signer == es.owner ==> accept_outcome(es, signer) == Err::<
            Escrow,
            EscrowError,
        >(EscrowError::SameBuyerSeller),
{
}

/// A release succeeds exactly when the deal is accepted, the commission
/// account is the escrow's commission wallet, and the owner releases to the
/// seller or the seller to the owner. Whichever party signs, its payments pay
/// the amount less the commission to the receiver (twice only when the owner
/// is also the seller) and end with one payment of exactly the commission to
/// the commission account; the escrow ends `RELEASED` and empty, recording
/// the split and the signer.
pub proof fn lemma_release_pays_receiver_and_commission(
    es: Escrow,
    signer: Pubkey,
    receiver: Pubkey,
    commission_account: Pubkey,
)
    requires
        release_defined(es, signer, commission_account),
    ensures
        release_outcome(es, signer, receiver, commission_account) is Ok <==> {
            &&& es.state == State::ACCEPTED
            &&& commission_account == es.commissionwallet
            &&& es.seller is Some
            &&& (signer == es.owner && receiver == es.seller->0) || (signer == es.seller->0
                && receiver == es.owner)
        },
        es.state != State::ACCEPTED ==> release_outcome(es, signer, receiver, commission_account)
            == Err::<(Escrow, Seq<Payment>), EscrowError>(EscrowError::InvalidEscrowState),
        es.state == State::ACCEPTED && commission_account != es.commissionwallet ==> release_outcome(
            es,
            signer,
            receiver,
            commission_account,
        ) == Err::<(Escrow, Seq<Payment>), EscrowError>(EscrowError::WrongAddress),
        es.state == State::ACCEPTED && commission_account == es.commissionwallet && signer != es.owner
            && Some(signer) != es.seller ==> release_outcome(es, signer, receiver, commission_account)
            == Err::<(Escrow, Seq<Payment>), EscrowError>(EscrowError::WrongAddress),
        es.state == State::ACCEPTED && commission_account == es.commissionwallet && (signer
            == es.owner || Some(signer) == es.seller) && !((signer == es.owner && Some(receiver)
            == es.seller) || (Some(signer) == es.seller && receiver == es.owner)) ==> release_outcome(
            es,
            signer,
            receiver,
            commission_account,
        ) == Err::<(Escrow, Seq<Payment>), EscrowError>(EscrowError::InvalidEscrowState),
        release_outcome(es, signer, receiver, commission_account) matches Ok((next, payments))
            ==> {
            let c = commission_of(es.amount_in_escrow, es.commissionrate);
            &&& payments.len() >= 2
            &&& payments.last().payee == Payee::CommissionAccount
            &&& payments.last().lamports == c
            &&& forall|i: int|
                0 <= i < payments.len() - 1 ==> #[trigger] payments[i].payee == Payee::Receiver
                    && payments[i].lamports == es.amount_in_escrow - c
            &&& es.seller != Some(es.owner) ==> payments.len() == 2
            &&& es.seller == Some(es.owner) ==> payments.len() == 3
            &&& next.state == State::RELEASED
            &&& next.amount_in_escrow == 0
            &&& next.commission_amount == c
            &&& next.released_amount == es.amount_in_escrow - c
            &&& next.realesed_by == Some(signer)
            &&& next.owner == es.owner && next.seller == es.seller
            &&& next.commissionwallet == es.commissionwallet && next.commissionrate
                == es.commissionrate
            &&& next.minimumescrow_amount == es.minimumescrow_amount && next.id == es.id
            &&& next.deposit_time == es.deposit_time
        },
{
    if let Ok((next, payments)) = release_outcome(es, signer, receiver, commission_account) {
        let c = commission_of(es.amount_in_escrow, es.commissionrate);
        assert forall|i: int| 0 <= i < payments.len() - 1 implies #[trigger] payments[i].payee
            == Payee::Receiver && payments[i].lamports == es.amount_in_escrow - c by {
            assert(payments[i] == release_payments(es, signer, receiver)[i]);
        }
    }
}

/// The owner withdraws a funded deal whatever amount it holds: the amount
/// less the commission goes to the owner and exactly the commission to the
/// commission account, and the escrow ends `REFUNDED` and empty. Anyone else
/// gets `InvalidSigner`; the owner of a deal that is not funded gets
/// `InvalidEscrowState`.
pub proof fn lemma_withdraw_refunds_owner(es: Escrow, signer: Pubkey)
    requires
        withdraw_defined(es, signer),
    ensures
        signer != es.owner ==> withdraw_outcome(es, signer) == Err::<(Escrow, Seq<Payment>), EscrowError>(
            EscrowError::InvalidSigner,
        ),
        signer == es.owner && es.state != State::FUNDED ==> withdraw_outcome(es, signer) == Err::<
            (Escrow, Seq<Payment>),
            EscrowError,
        >(EscrowError::InvalidEscrowState),
        signer == es.owner && es.state == State::FUNDED ==> (withdraw_outcome(es, signer) matches Ok(
            (next, payments),
        ) && {
            let c = commission_of(es.amount_in_escrow, es.commissionrate);
            &&& payments.len() == 2
            &&& payments[0].payee == Payee::Signer
            &&& payments[0].lamports == es.amount_in_escrow - c
            &&& payments[1].payee == Payee::CommissionAccount
            &&& payments[1].lamports == c
            &&& next.state == State::REFUNDED
            &&& next.amount_in_escrow == 0
            &&& next.commission_amount == c
            &&& next.released_amount == es.amount_in_escrow - c
            &&& next.realesed_by == Some(signer)
            &&& next.owner == es.owner && next.seller == es.seller && next.id == es.id
            &&& next.commissionwallet == es.commissionwallet && next.commissionrate
                == es.commissionrate
            &&& next.minimumescrow_amount == es.minimumescrow_amount
            &&& next.deposit_time == es.deposit_time
        }),
{
}

/// Once `SIX_MONTHS` have passed since the deposit, the owner takes back the
/// whole amount held, in every state: one payment of all of it to the signer,
/// and the escrow ends `WITHDRAWN` and empty with nothing else changed. Anyone
/// else, or the owner before that time, gets `InvalidSigner`.
pub proof fn lemma_late_withdrawal_returns_everything(es: Escrow, signer: Pubkey, now: i64)
    ensures
        signer == es.owner && now - es.deposit_time >= SIX_MONTHS ==> post_six_months_outcome(
            es,
            signer,
            now,
        ) == Ok::<(Escrow, Seq<Payment>), EscrowError>(
            (
                Escrow { amount_in_escrow: 0, state: State::WITHDRAWN, ..es },
                seq![Payment { payee: Payee::Signer, lamports: es.amount_in_escrow }],
            ),
        ),
        signer != es.owner ==> post_six_months_outcome(es, signer, now) == Err::<
            (Escrow, Seq<Payment>),
            EscrowError,
        >(EscrowError::InvalidSigner),
        signer == es.owner && now - es.deposit_time < SIX_MONTHS ==> post_six_months_outcome(
            es,
            signer,
            now,
        ) == Err::<(Escrow, Seq<Payment>), EscrowError>(EscrowError::InvalidSigner),
{
}

/// Where each payout is defined: a release needs the seller of an accepted
/// deal, which every well-formed escrow has, and a commission that can be
/// computed; a refund needs only the commission; a late withdrawal needs only
/// the time since the deposit to fit in an `i64`. A split is defined exactly
/// when the product of amount and rate fits and the commission does not
/// exceed the amount.
pub proof fn lemma_payout_domains(es: Escrow, signer: Pubkey, commission_account: Pubkey, now: i64)
    ensures
        es.wf() && es.amount_in_escrow * es.commissionrate <= u64::MAX ==> release_defined(
            es,
            signer,
            commission_account,
        ),
        es.state != State::ACCEPTED ==> release_defined(es, signer, commission_account),
        release_defined(es, signer, commission_account) && es.state == State::ACCEPTED
            && es.commissionwallet == commission_account ==> es.seller is Some,
        es.wf() && es.amount_in_escrow * es.commissionrate <= u64::MAX ==> withdraw_defined(es, signer),
        es.state != State::FUNDED ==> withdraw_defined(es, signer),
        i64::MIN <= now - es.deposit_time <= i64::MAX ==> post_six_months_defined(es, signer, now),
        signer != es.owner ==> post_six_months_defined(es, signer, now),
        forall|amount: u64, rate: u64|
            #![trigger split_defined(amount, rate)]
            split_defined(amount, rate) <==> (amount * rate <= u64::MAX && commission_of(amount, rate)
                <= amount),
{
    if es.wf() && es.amount_in_escrow * es.commissionrate <= u64::MAX {
        lemma_commission_bounded(es.amount_in_escrow, es.commissionrate);
    }
}

} // verus!
