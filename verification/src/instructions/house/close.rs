use vstd::prelude::*;
use crate::errors::ErrorCodes;
use crate::ledger::TokenAccount;
use crate::pubkey::Pubkey;
use crate::state::accounts::House;

verus! {

/// All that the closing of a house reads and changes.
#[derive(Clone, Debug, PartialEq, Eq)]
pub struct CloseHouse {
    pub house: House,
    /// The wallet that closes the house, and that is paid.
    pub house_admin: Pubkey,
    pub house_currency_vault: TokenAccount,
}

/// The outcome of closing a house: the records after it and the house currency
/// that is swept from its vault, or the reason for which it is refused.
pub open spec fn close_house_spec(ctx: CloseHouse) -> Result<(CloseHouse, u64), ErrorCodes> {
    if ctx.house.house_admin != ctx.house_admin {
        Err(ErrorCodes::NotClubAdmin)
    } else if ctx.house.open_campaigns > 0 {
        Err(ErrorCodes::ActiveCampaigns)
    } else {
        Ok(
            (
                CloseHouse { house: House { is_active: false, ..ctx.house }, ..ctx },
                ctx.house_currency_vault.amount,
            ),
        )
    }
}

/// Closes a house: marks it inactive and returns the house currency to sweep
/// from its vault to its admin. Only the house's admin may, and only while no
/// campaign of the house is open. A closing that is refused changes nothing.
pub fn close_house(ctx: &mut CloseHouse) -> (r: Result<u64, ErrorCodes>)
    ensures
        match close_house_spec(*old(ctx)) {
            Ok((next, swept)) => r == Ok::<u64, ErrorCodes>(swept) && *final(ctx) == next,
            Err(e) => r == Err::<u64, ErrorCodes>(e) && *final(ctx) == *old(ctx),
        },
{
    if ctx.house.house_admin != ctx.house_admin {
        return Err(ErrorCodes::NotClubAdmin);
    }
    if ctx.house.open_campaigns > 0 {
        return Err(ErrorCodes::ActiveCampaigns);
    }
    ctx.house.is_active = false;
    Ok(ctx.house_currency_vault.amount)
}

} // verus!
