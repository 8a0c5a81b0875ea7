use vstd::prelude::*;
use solana_program::instruction::Instruction;
use solana_program::pubkey::Pubkey;
use solana_program::system_instruction;

verus! {

/// Instructions for cross-program invocation are `solana_program`'s
/// `Instruction`, carried through the library as opaque values.
#[verifier::external_type_specification]
#[verifier::external_body]
pub struct ExInstruction(Instruction);

/// The system-program instruction that `system_instruction::transfer` builds
/// to move `lamports` from `from` to `to`.
pub uninterp spec fn transfer_instruction(from: Pubkey, to: Pubkey, lamports: u64) -> Instruction;

/// Builds the system-program transfer instruction with
/// `system_instruction::transfer`; the result is named `transfer_instruction`
/// of the same arguments. Its accounts and data are not stated.
#[verifier::external_body]
pub(crate) fn system_transfer(from: &Pubkey, to: &Pubkey, lamports: u64) -> (ix: Instruction)
    ensures
        ix == transfer_instruction(*from, *to, lamports),
{
    system_instruction::transfer(from, to, lamports)
}

} // verus!
