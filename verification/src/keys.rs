use vstd::prelude::*;
use solana_program::pubkey::Pubkey;
use crate::constants::COMMISSION_PUBKEY_BYTES;

verus! {

/// Account addresses are `solana_program`'s `Pubkey`, carried through the
/// library as opaque values.
#[verifier::external_type_specification]
#[verifier::external_body]
pub struct ExPubkey(Pubkey);

/// The address that `Pubkey::new_from_array` builds from the given bytes.
pub uninterp spec fn key_from_bytes(bytes: Seq<u8>) -> Pubkey;

/// Compares two account addresses with `Pubkey`'s `==`.
///
/// `Pubkey` derives `PartialEq` over its 32 bytes, so `==` holds exactly when
/// the two values are the same address.
#[verifier::external_body]
pub(crate) fn keys_equal(a: &Pubkey, b: &Pubkey) -> (r: bool)
    ensures
        r == (*a == *b),
{
    a == b
}

/// Builds an address from its 32 bytes with `Pubkey::new_from_array`; the
/// result is named `key_from_bytes` of those bytes.
#[verifier::external_body]
fn pubkey_from_array(bytes: [u8; 32]) -> (k: Pubkey)
    ensures
        k == key_from_bytes(bytes@),
{
    Pubkey::new_from_array(bytes)
}

/// The commission wallet's address as the library knows it.
pub open spec fn spec_commission_pubkey() -> Pubkey {
    key_from_bytes(COMMISSION_PUBKEY_BYTES@)
}

/// The address of the wallet that receives the commission on payouts.
pub fn commission_pubkey() -> (k: Pubkey)
    ensures
        k == spec_commission_pubkey(),
{
    pubkey_from_array(COMMISSION_PUBKEY_BYTES)
}

} // verus!
