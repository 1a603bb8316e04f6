use vstd::prelude::*;
use crate::errors::ErrorCodes;
use crate::pubkey::Pubkey;
use crate::state::accounts::ProgramAdminProof;

verus! {

/// All that the naming of a program admin reads and changes.
#[derive(Clone, Copy, Debug, PartialEq, Eq)]
pub struct AddProgramAdmin {
    /// The wallet that names the admin.
    pub signer: Pubkey,
    /// The wallet that becomes admin.
    pub program_admin: Pubkey,
    /// The wallet that may upgrade the program, if any may.
    pub upgrade_authority: Option<Pubkey>,
    /// The record that the proof is written to.
    pub program_admin_proof: ProgramAdminProof,
}

/// Names a program admin. Only the wallet that may upgrade the program may; any
/// other is refused with `ProgramAuthorityMismatch` and changes nothing.
pub fn add_program_admin(ctx: &mut AddProgramAdmin) -> (r: Result<(), ErrorCodes>)
    ensures
        old(ctx).upgrade_authority == Some(old(ctx).signer) ==> r == Ok::<(), ErrorCodes>(())
            && *final(ctx) == (AddProgramAdmin {
            program_admin_proof: ProgramAdminProof { program_admin: old(ctx).program_admin },
            ..*old(ctx)
        }),
        old(ctx).upgrade_authority != Some(old(ctx).signer) ==> r == Err::<(), ErrorCodes>(
            ErrorCodes::ProgramAuthorityMismatch,
        ) && *final(ctx) == *old(ctx),
{
    if ctx.upgrade_authority != Some(ctx.signer) {
        return Err(ErrorCodes::ProgramAuthorityMismatch);
    }
    ctx.program_admin_proof.program_admin = ctx.program_admin;
    Ok(())
}

} // verus!
