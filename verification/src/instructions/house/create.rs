use vstd::prelude::*;
use crate::errors::ErrorCodes;
use crate::ledger::Mint;
use crate::pubkey::Pubkey;
use crate::state::accounts::{House, HouseConfig, ProgramAdminProof};
use crate::state::common::validate_string_spec;

verus! {

/// All that the creation of a house reads and changes.
#[derive(Clone, Debug, PartialEq, Eq)]
pub struct CreateHouse {
    /// The wallet that creates the house.
    pub program_admin: Pubkey,
    pub program_admin_proof: ProgramAdminProof,
    /// The record that the house is written to.
    pub house: House,
    pub house_bump: u8,
    /// The wallet that will run the house.
    pub house_admin: Pubkey,
    pub house_currency_mint: Mint,
}

/// The outcome of creating a house: the records after it, or the reason for
/// which it is refused. Only the wallet that the admin proof names creates a
/// house, and only under a well-formed name.
pub open spec fn create_house_spec(
    ctx: CreateHouse,
    manager_collection: Option<Pubkey>,
    house_config: HouseConfig,
    house_name: String,
) -> Result<CreateHouse, ErrorCodes> {
    if ctx.program_admin_proof.program_admin != ctx.program_admin {
        Err(ErrorCodes::ProgramAuthorityMismatch)
    } else {
        match validate_string_spec(house_name@) {
            Err(e) => Err(e),
            Ok(_) => Ok(
                CreateHouse {
                    house: ctx.house.spec_initialize(
                        ctx.house_admin,
                        manager_collection,
                        ctx.house_currency_mint.key,
                        ctx.house_currency_mint.decimals,
                        house_config,
                        house_name,
                        ctx.house_bump,
                    ),
                    ..ctx
                },
            ),
        }
    }
}

/// Creates a house. A creation that is refused changes nothing.
pub fn create_house(
    ctx: &mut CreateHouse,
    manager_collection: Option<Pubkey>,
    house_config: HouseConfig,
    house_name: String,
) -> (r: Result<(), ErrorCodes>)
    ensures
        match create_house_spec(*old(ctx), manager_collection, house_config, house_name) {
            Ok(next) => r == Ok::<(), ErrorCodes>(()) && *final(ctx) == next,
            Err(e) => r == Err::<(), ErrorCodes>(e) && *final(ctx) == *old(ctx),
        },
        r is Ok ==> final(ctx).house.is_active,
{
    if ctx.program_admin_proof.program_admin != ctx.program_admin {
        return Err(ErrorCodes::ProgramAuthorityMismatch);
    }
    ctx.house.initialize(
        ctx.house_admin,
        manager_collection,
        ctx.house_currency_mint.key,
        ctx.house_currency_mint.decimals,
        house_config,
        house_name,
        ctx.house_bump,
    )
}

} // verus!
