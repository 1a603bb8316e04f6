use vstd::prelude::*;
use crate::errors::ErrorCodes;
use crate::pubkey::Pubkey;
use crate::state::accounts::ProgramAdminProof;

verus! {

/// All that the removal of a program admin reads.
#[derive(Clone, Copy, Debug, PartialEq, Eq)]
pub struct RemoveProgramAdmin {
    /// The wallet that removes the admin.
    pub signer: Pubkey,
    /// The wallet that ceases to be admin.
    pub program_admin: Pubkey,
    /// The wallet that may upgrade the program, if any may.
    pub upgrade_authority: Option<Pubkey>,
    pub program_admin_proof: ProgramAdminProof,
}

/// Allows the removal of a program admin's proof to the wallet that may upgrade
/// the program, and refuses it to any other with `ProgramAuthorityMismatch`.
pub fn remove_program_admin(ctx: &RemoveProgramAdmin) -> (r: Result<(), ErrorCodes>)
    ensures
        r == if ctx.upgrade_authority == Some(ctx.signer) {
            Ok::<(), ErrorCodes>(())
        } else {
            Err::<(), ErrorCodes>(ErrorCodes::ProgramAuthorityMismatch)
        },
{
    if ctx.upgrade_authority != Some(ctx.signer) {
        return Err(ErrorCodes::ProgramAuthorityMismatch);
    }
    Ok(())
}

} // verus!
