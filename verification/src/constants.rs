use vstd::prelude::*;

verus! {

/// Seed of the program-derived address of the id factory.
pub const FACTORY_SEED: &'static str = "factoryinitone";

/// Seed prefix of the program-derived address of each escrow id.
pub const ESCROW_SEED: &'static str = "escrowinitone";

/// Seconds after a deposit from which the owner may take the funds back
/// unconditionally.
pub const SIX_MONTHS: i64 = 300;

/// Smallest deposit an escrow accepts, in lamports.
pub const MIN_AMOUNT: u64 = 1000000000;

/// Commission taken on every payout, in percent.
pub const COMMISION_RATE: u64 = 5;

/// The 32 bytes of the commission wallet's address
/// (`BpvinfQbUZ7HbxnLvFYGvWG1hgqHUL6gQP5REKi5LcJi` in base58).
pub const COMMISSION_PUBKEY_BYTES: [u8; 32] = [
    160, 219, 232, 194, 155, 241, 33, 50, 41, 76, 12, 206, 136, 211, 167, 164,
    252, 199, 103, 192, 78, 34, 234, 221, 14, 94, 215, 68, 195, 251, 132, 199,
];

} // verus!
