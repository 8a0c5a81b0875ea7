use vstd::prelude::*;
use solana_program::pubkey::Pubkey;
use crate::error::EscrowError;
use crate::keys::keys_equal;

verus! {

/// Fails with `InvalidDeposit` when `f1` is below the minimum `f2`.
pub fn verify_minimumamount(f1: u64, f2: u64) -> (r: Result<(), EscrowError>)
    ensures
        r == (if f1 < f2 { Err(EscrowError::InvalidDeposit) } else { Ok(()) }),
{
    if f1 < f2 {
        return Err(EscrowError::InvalidDeposit);
    }
    Ok(())
}

/// Fails with `InvalidSigner` unless `signer` is `owner`.
pub fn verify_owner(owner: Pubkey, signer: Pubkey) -> (r: Result<(), EscrowError>)
    ensures
        r == (if owner != signer { Err(EscrowError::InvalidSigner) } else { Ok(()) }),
{
    if !keys_equal(&owner, &signer) {
        return Err(EscrowError::InvalidSigner);
    }
    Ok(())
}

/// Fails with `WrongAddress` unless the two addresses are the same.
pub fn verify_wallet(a1: Pubkey, a2: Pubkey) -> (r: Result<(), EscrowError>)
    ensures
        r == (if a1 != a2 { Err(EscrowError::WrongAddress) } else { Ok(()) }),
{
    if !keys_equal(&a1, &a2) {
        return Err(EscrowError::WrongAddress);
    }
    Ok(())
}

/// Fails with `SameBuyerSeller` when the two addresses are the same.
pub fn verify_unique_address(a1: Pubkey, a2: Pubkey) -> (r: Result<(), EscrowError>)
    ensures
        r == (if a1 == a2 { Err(EscrowError::SameBuyerSeller) } else { Ok(()) }),
{
    if keys_equal(&a1, &a2) {
        return Err(EscrowError::SameBuyerSeller);
    }
    Ok(())
}

/// Fails with `InvalidAdress` when no seller is set.
pub fn verify_seller(seller: Option<Pubkey>) -> (r: Result<(), EscrowError>)
    ensures
        r == (if seller is None { Err(EscrowError::InvalidAdress) } else { Ok(()) }),
{
    if seller.is_none() {
        return Err(EscrowError::InvalidAdress);
    }
    Ok(())
}

/// Fails with `InvalidAdress` when the buyer or the seller is missing.
pub fn verify_buyer_seller(buyer: Option<Pubkey>, seller: Option<Pubkey>) -> (r: Result<(), EscrowError>)
    ensures
        r == (if buyer is None || seller is None {
            Err(EscrowError::InvalidAdress)
        } else {
            Ok(())
        }),
{
    if buyer.is_none() || seller.is_none() {
        return Err(EscrowError::InvalidAdress);
    }
    Ok(())
}

} // verus!
