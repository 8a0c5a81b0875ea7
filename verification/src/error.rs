use vstd::prelude::*;

verus! {

/// The errors the escrow program reports.
#[derive(Clone, Copy, Debug, PartialEq, Eq, Structural)]
pub enum EscrowError {
    InvalidTimeRange,
    InvalidCommisionRate,
    InvalidEscrowAmount,
    InvalidSigner,
    InvalidEscrowState,
    SameBuyerSeller,
    NoValidBuyer,
    NoValidSeller,
    InvalidDeposit,
    InvalidAdress,
    WrongAddress,
}

} // verus!
