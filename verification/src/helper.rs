use vstd::prelude::*;

verus! {

/// The commission on `amount` at `rate` percent, rounded down.
pub open spec fn commission_of(amount: u64, rate: u64) -> int {
    (amount * rate) / 100
}

/// Holds when the commission on `amount` at `rate` can be computed without
/// overflow and does not exceed `amount`, so that the payout split is defined.
pub open spec fn split_defined(amount: u64, rate: u64) -> bool {
    &&& amount * rate <= u64::MAX
    &&& commission_of(amount, rate) <= amount
}

/// Splits `deal_amount` into what goes to the recipient and the commission at
/// `commision_rate` percent (rounded down); the two parts add up to
/// `deal_amount`.
pub fn calculate_amount_totransfer(deal_amount: u64, commision_rate: u64) -> (r: (u64, u64))
    requires
        split_defined(deal_amount, commision_rate),
    ensures
        r.1 == commission_of(deal_amount, commision_rate),
        r.0 == deal_amount - commission_of(deal_amount, commision_rate),
        r.0 + r.1 == deal_amount,
{
    let commition_amount = deal_amount * commision_rate / 100;
    let reciever_amount = deal_amount - commition_amount;
    (reciever_amount, commition_amount)
}

/// Whether `calculate_amount_totransfer` is defined on these arguments.
pub fn split_is_defined(amount: u64, rate: u64) -> (r: bool)
    ensures
        r == split_defined(amount, rate),
{
    match amount.checked_mul(rate) {
        Some(product) => product / 100 <= amount,
        None => false,
    }
}

} // verus!
