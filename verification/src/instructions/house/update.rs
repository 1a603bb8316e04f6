use vstd::prelude::*;
use crate::errors::ErrorCodes;
use crate::pubkey::Pubkey;
use crate::state::accounts::{House, HouseConfig};

verus! {

/// All that a change of a house's fee schedule reads and changes.
#[derive(Clone, Debug, PartialEq, Eq)]
pub struct UpdateHouse {
    pub house: House,
    /// The wallet that asks for the change.
    pub house_admin: Pubkey,
}

/// Replaces the fee schedule of a house. Only the house's admin may; any other
/// wallet is refused with `NotClubAdmin` and changes nothing. Campaigns created
/// before keep the schedule they were created under.
pub fn update_house(ctx: &mut UpdateHouse, house_config: HouseConfig) -> (r: Result<
    (),
    ErrorCodes,
>)
    ensures
        old(ctx).house.house_admin == old(ctx).house_admin ==> r == Ok::<(), ErrorCodes>(())
            && *final(ctx) == (UpdateHouse {
            house: House { config: house_config, ..old(ctx).house },
            ..*old(ctx)
        }),
        old(ctx).house.house_admin != old(ctx).house_admin ==> r == Err::<(), ErrorCodes>(
            ErrorCodes::NotClubAdmin,
        ) && *final(ctx) == *old(ctx),
{
    if ctx.house.house_admin != ctx.house_admin {
        return Err(ErrorCodes::NotClubAdmin);
    }
    ctx.house.update(house_config);
    Ok(())
}

} // verus!
