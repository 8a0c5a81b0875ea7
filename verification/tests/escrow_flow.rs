use falt_escrow::access::{
    verify_buyer_seller, verify_minimumamount, verify_owner, verify_seller, verify_unique_address,
    verify_wallet,
};
use falt_escrow::constants::{COMMISION_RATE, MIN_AMOUNT, SIX_MONTHS};
use falt_escrow::data::{Escrow, EscrowId, Payee, Payment, State};
use falt_escrow::error::EscrowError;
use falt_escrow::helper::{calculate_amount_totransfer, split_is_defined};
use falt_escrow::keys::commission_pubkey;
use falt_escrow::program::{
    accept_deal, deposit, init_factory, initialize_deal, new_escrow_id, post_six_months,
    post_six_months_is_defined, record_deposit, release_fund, release_fund_is_defined,
    withdraw_fund, withdraw_fund_is_defined,
};
use solana_program::pubkey::Pubkey;
use solana_program::system_instruction;
use std::str::FromStr;

fn key(b: u8) -> Pubkey {
    Pubkey::new_from_array([b; 32])
}

fn buyer() -> Pubkey {
    key(1)
}

fn seller() -> Pubkey {
    key(2)
}

fn stranger() -> Pubkey {
    key(3)
}

fn escrow_key() -> Pubkey {
    key(9)
}

fn new_deal() -> Escrow {
    let mut factory = init_factory();
    let id = new_escrow_id(&mut factory, String::from("deal-1"));
    initialize_deal(&buyer(), &id)
}

fn funded_deal(amount: u64, at: i64) -> Escrow {
    let mut es = new_deal();
    deposit(&es, &buyer(), &escrow_key(), amount).unwrap();
    record_deposit(&mut es, amount, at);
    es
}

fn accepted_deal(amount: u64) -> Escrow {
    let mut es = funded_deal(amount, 1000);
    accept_deal(&mut es, &seller()).unwrap();
    es
}

#[test]
fn commission_split_exact_values() {
    assert_eq!(calculate_amount_totransfer(1000, 5), (950, 50));
    assert_eq!(calculate_amount_totransfer(MIN_AMOUNT, COMMISION_RATE), (950_000_000, 50_000_000));
    assert_eq!(calculate_amount_totransfer(199, 5), (190, 9));
    assert_eq!(calculate_amount_totransfer(0, 5), (0, 0));
    assert_eq!(calculate_amount_totransfer(7, 100), (0, 7));
    assert_eq!(calculate_amount_totransfer(19, 0), (19, 0));
}

#[test]
fn split_domain() {
    assert!(split_is_defined(1000, 5));
    assert!(split_is_defined(u64::MAX / 5, 5));
    assert!(!split_is_defined(u64::MAX / 5 + 1, 5));
    assert!(split_is_defined(10, 101));
    assert!(!split_is_defined(100, 101));
    assert!(split_is_defined(0, 1000));
}

#[test]
fn checks_report_their_errors() {
    assert_eq!(verify_minimumamount(5, 6), Err(EscrowError::InvalidDeposit));
    assert_eq!(verify_minimumamount(6, 6), Ok(()));
    assert_eq!(verify_owner(buyer(), seller()), Err(EscrowError::InvalidSigner));
    assert_eq!(verify_owner(buyer(), buyer()), Ok(()));
    assert_eq!(verify_wallet(buyer(), seller()), Err(EscrowError::WrongAddress));
    assert_eq!(verify_wallet(seller(), seller()), Ok(()));
    assert_eq!(verify_unique_address(buyer(), buyer()), Err(EscrowError::SameBuyerSeller));
    assert_eq!(verify_unique_address(buyer(), seller()), Ok(()));
    assert_eq!(verify_seller(None), Err(EscrowError::InvalidAdress));
    assert_eq!(verify_seller(Some(seller())), Ok(()));
    assert_eq!(verify_buyer_seller(Some(buyer()), None), Err(EscrowError::InvalidAdress));
    assert_eq!(verify_buyer_seller(None, Some(seller())), Err(EscrowError::InvalidAdress));
    assert_eq!(verify_buyer_seller(Some(buyer()), Some(seller())), Ok(()));
}

#[test]
fn keys_compare_by_value() {
    assert_eq!(verify_wallet(key(4), Pubkey::new_from_array([4; 32])), Ok(()));
    assert_eq!(verify_wallet(key(4), key(5)), Err(EscrowError::WrongAddress));
}

#[test]
fn commission_wallet_is_the_program_address() {
    let expected = Pubkey::from_str("BpvinfQbUZ7HbxnLvFYGvWG1hgqHUL6gQP5REKi5LcJi").unwrap();
    assert_eq!(commission_pubkey(), expected);
}

#[test]
fn ids_increase() {
    let mut factory = init_factory();
    assert_eq!(factory.last_id, 0);
    let a = new_escrow_id(&mut factory, String::from("a"));
    let b = new_escrow_id(&mut factory, String::from("b"));
    assert_eq!(a, EscrowId { uuid: String::from("a"), id: 1 });
    assert_eq!(b, EscrowId { uuid: String::from("b"), id: 2 });
    assert_eq!(factory.last_id, 2);
}

#[test]
fn new_deal_terms() {
    let es = new_deal();
    assert_eq!(es.owner, buyer());
    assert_eq!(es.state, State::INIT);
    assert_eq!(es.commissionrate, COMMISION_RATE);
    assert_eq!(es.minimumescrow_amount, MIN_AMOUNT);
    assert_eq!(es.commissionwallet, commission_pubkey());
    assert_eq!(es.id, "deal-1");
    assert_eq!(es.seller, None);
    assert_eq!(es.realesed_by, None);
    assert_eq!(es.amount_in_escrow, 0);
    assert_eq!(es.deposit_time, 0);
    assert_eq!(es.commission_amount, 0);
    assert_eq!(es.released_amount, 0);
}

#[test]
fn deposit_builds_the_system_transfer() {
    let es = new_deal();
    let ix = deposit(&es, &buyer(), &escrow_key(), MIN_AMOUNT).unwrap();
    assert_eq!(ix, system_instruction::transfer(&buyer(), &escrow_key(), MIN_AMOUNT));
    assert_ne!(ix, system_instruction::transfer(&escrow_key(), &buyer(), MIN_AMOUNT));
}

#[test]
fn deposit_refusals() {
    let es = new_deal();
    assert_eq!(
        deposit(&es, &seller(), &escrow_key(), MIN_AMOUNT).unwrap_err(),
        EscrowError::SameBuyerSeller
    );
    assert_eq!(
        deposit(&es, &buyer(), &escrow_key(), MIN_AMOUNT - 1).unwrap_err(),
        EscrowError::InvalidDeposit
    );
    let funded = funded_deal(MIN_AMOUNT, 10);
    assert_eq!(
        deposit(&funded, &buyer(), &escrow_key(), MIN_AMOUNT).unwrap_err(),
        EscrowError::InvalidEscrowState
    );
}

#[test]
fn record_deposit_funds_the_escrow() {
    let es = funded_deal(2 * MIN_AMOUNT, 77);
    assert_eq!(es.state, State::FUNDED);
    assert_eq!(es.amount_in_escrow, 2 * MIN_AMOUNT);
    assert_eq!(es.deposit_time, 77);
}

#[test]
fn accept_sets_the_seller() {
    let es = accepted_deal(MIN_AMOUNT);
    assert_eq!(es.state, State::ACCEPTED);
    assert_eq!(es.seller, Some(seller()));
}

#[test]
fn accept_refusals_leave_the_escrow() {
    let mut es = funded_deal(MIN_AMOUNT, 5);
    assert_eq!(accept_deal(&mut es, &buyer()), Err(EscrowError::SameBuyerSeller));
    assert_eq!(es, funded_deal(MIN_AMOUNT, 5));
    let mut fresh = new_deal();
    assert_eq!(accept_deal(&mut fresh, &seller()), Err(EscrowError::InvalidEscrowState));
    assert_eq!(fresh, new_deal());
}

#[test]
fn owner_releases_to_seller() {
    let mut es = accepted_deal(MIN_AMOUNT);
    let wallet = commission_pubkey();
    assert!(release_fund_is_defined(&es, &buyer(), &wallet));
    let payments = release_fund(&mut es, &buyer(), &seller(), &wallet).unwrap();
    assert_eq!(
        payments,
        vec![
            Payment { payee: Payee::Receiver, lamports: 950_000_000 },
            Payment { payee: Payee::CommissionAccount, lamports: 50_000_000 },
        ]
    );
    assert_eq!(payments.iter().map(|p| p.lamports).sum::<u64>(), MIN_AMOUNT);
    assert_eq!(es.state, State::RELEASED);
    assert_eq!(es.amount_in_escrow, 0);
    assert_eq!(es.released_amount, 950_000_000);
    assert_eq!(es.commission_amount, 50_000_000);
    assert_eq!(es.realesed_by, Some(buyer()));
}

#[test]
fn seller_releases_to_owner() {
    let mut es = accepted_deal(MIN_AMOUNT);
    let payments = release_fund(&mut es, &seller(), &buyer(), &commission_pubkey()).unwrap();
    assert_eq!(payments[0], Payment { payee: Payee::Receiver, lamports: 950_000_000 });
    assert_eq!(payments.len(), 2);
    assert_eq!(es.realesed_by, Some(seller()));
}

#[test]
fn release_refusals_leave_the_escrow() {
    let wallet = commission_pubkey();
    let mut es = accepted_deal(MIN_AMOUNT);
    assert_eq!(
        release_fund(&mut es, &buyer(), &seller(), &stranger()),
        Err(EscrowError::WrongAddress)
    );
    assert_eq!(
        release_fund(&mut es, &stranger(), &seller(), &wallet),
        Err(EscrowError::WrongAddress)
    );
    assert_eq!(
        release_fund(&mut es, &buyer(), &stranger(), &wallet),
        Err(EscrowError::InvalidEscrowState)
    );
    assert_eq!(es, accepted_deal(MIN_AMOUNT));
    let mut funded = funded_deal(MIN_AMOUNT, 3);
    assert_eq!(
        release_fund(&mut funded, &buyer(), &seller(), &wallet),
        Err(EscrowError::InvalidEscrowState)
    );
}

#[test]
fn release_domain() {
    let wallet = commission_pubkey();
    let mut es = accepted_deal(MIN_AMOUNT);
    assert!(release_fund_is_defined(&es, &buyer(), &wallet));
    es.amount_in_escrow = u64::MAX;
    assert!(!release_fund_is_defined(&es, &buyer(), &wallet));
    assert!(release_fund_is_defined(&es, &stranger(), &wallet));
    es.seller = None;
    assert!(!release_fund_is_defined(&es, &stranger(), &wallet));
    assert!(release_fund_is_defined(&es, &buyer(), &stranger()));
}

#[test]
fn owner_withdraws_funded_deal() {
    let mut es = funded_deal(2 * MIN_AMOUNT, 3);
    assert!(withdraw_fund_is_defined(&es, &buyer()));
    let payments = withdraw_fund(&mut es, &buyer()).unwrap();
    assert_eq!(
        payments,
        vec![
            Payment { payee: Payee::Signer, lamports: 1_900_000_000 },
            Payment { payee: Payee::CommissionAccount, lamports: 100_000_000 },
        ]
    );
    assert_eq!(es.state, State::REFUNDED);
    assert_eq!(es.amount_in_escrow, 0);
    assert_eq!(es.released_amount + es.commission_amount, 2 * MIN_AMOUNT);
    assert_eq!(es.realesed_by, Some(buyer()));
}

#[test]
fn withdraw_refusals() {
    let mut es = funded_deal(2 * MIN_AMOUNT, 3);
    assert_eq!(withdraw_fund(&mut es, &seller()), Err(EscrowError::InvalidSigner));
    let mut accepted = accepted_deal(2 * MIN_AMOUNT);
    assert_eq!(withdraw_fund(&mut accepted, &buyer()), Err(EscrowError::InvalidEscrowState));
    assert_eq!(accepted, accepted_deal(2 * MIN_AMOUNT));
    es.amount_in_escrow = u64::MAX;
    assert!(!withdraw_fund_is_defined(&es, &buyer()));
    assert!(withdraw_fund_is_defined(&es, &seller()));
}

#[test]
fn late_withdrawal_returns_everything() {
    let mut es = accepted_deal(MIN_AMOUNT);
    let at = es.deposit_time + SIX_MONTHS;
    let payments = post_six_months(&mut es, &buyer(), at).unwrap();
    assert_eq!(payments, vec![Payment { payee: Payee::Signer, lamports: MIN_AMOUNT }]);
    assert_eq!(es.state, State::WITHDRAWN);
    assert_eq!(es.amount_in_escrow, 0);
}

#[test]
fn late_withdrawal_refusals() {
    let mut es = funded_deal(MIN_AMOUNT, 100);
    assert_eq!(post_six_months(&mut es, &seller(), 10_000), Err(EscrowError::InvalidSigner));
    assert_eq!(
        post_six_months(&mut es, &buyer(), 100 + SIX_MONTHS - 1),
        Err(EscrowError::InvalidSigner)
    );
    assert_eq!(es, funded_deal(MIN_AMOUNT, 100));
    assert!(post_six_months_is_defined(&es, &buyer(), 0));
    es.deposit_time = i64::MIN;
    assert!(!post_six_months_is_defined(&es, &buyer(), 1));
    assert!(post_six_months_is_defined(&es, &seller(), 1));
}

#[test]
fn funds_leave_once() {
    let wallet = commission_pubkey();
    let mut es = accepted_deal(MIN_AMOUNT);
    release_fund(&mut es, &buyer(), &seller(), &wallet).unwrap();
    assert_eq!(
        release_fund(&mut es, &seller(), &buyer(), &wallet),
        Err(EscrowError::InvalidEscrowState)
    );
    assert_eq!(withdraw_fund(&mut es, &buyer()), Err(EscrowError::InvalidEscrowState));
    let late = post_six_months(&mut es, &buyer(), i64::MAX / 2).unwrap();
    assert_eq!(late, vec![Payment { payee: Payee::Signer, lamports: 0 }]);
    let again = post_six_months(&mut es, &buyer(), i64::MAX / 2).unwrap();
    assert_eq!(again[0].lamports, 0);
}

#[test]
fn terms_survive_the_lifecycle() {
    let mut es = accepted_deal(MIN_AMOUNT);
    release_fund(&mut es, &buyer(), &seller(), &commission_pubkey()).unwrap();
    assert_eq!(es.owner, buyer());
    assert_eq!(es.id, "deal-1");
    assert_eq!(es.commissionwallet, commission_pubkey());
    assert_eq!(es.commissionrate, COMMISION_RATE);
    assert_eq!(es.minimumescrow_amount, MIN_AMOUNT);
}

#[test]
fn self_deal_pays_the_receiver_twice() {
    // An escrow whose seller is its owner: a release by the owner to itself
    // matches both release rules.
    let mut es = funded_deal(MIN_AMOUNT, 0);
    es.seller = Some(buyer());
    es.state = State::ACCEPTED;
    let payments = release_fund(&mut es, &buyer(), &buyer(), &commission_pubkey()).unwrap();
    assert_eq!(
        payments,
        vec![
            Payment { payee: Payee::Receiver, lamports: 950_000_000 },
            Payment { payee: Payee::Receiver, lamports: 950_000_000 },
            Payment { payee: Payee::CommissionAccount, lamports: 50_000_000 },
        ]
    );
}
