use vstd::prelude::*;
use crate::errors::ErrorCodes;
use crate::ledger::TokenAccount;
use crate::pubkey::Pubkey;
use crate::state::accounts::House;

verus! {

/// All that a withdrawal of a house's fees reads and changes.
#[derive(Clone, Debug, PartialEq, Eq)]
pub struct WithdrawHouseFees {
    pub house: House,
    /// The wallet that asks for the fees, and that is paid.
    pub house_admin: Pubkey,
    pub house_currency_vault: TokenAccount,
    /// The native value that the house's record holds.
    pub house_lamports: u64,
}

/// What goes to the admin when a house's fees are withdrawn.
#[derive(Clone, Copy, Debug, PartialEq, Eq, Structural)]
pub struct HouseWithdrawal {
    /// All the house currency in the house's vault.
    pub tokens: u64,
    /// The native value that the house's record holds above its minimum.
    pub lamports: u64,
}

/// The outcome of withdrawing a house's fees while its record must keep
/// `rent_minimum` of native value: the records after it and what goes to the
/// admin, or the reason for which it is refused.
pub open spec fn withdraw_house_fees_spec(ctx: WithdrawHouseFees, rent_minimum: u64) -> Result<
    (WithdrawHouseFees, HouseWithdrawal),
    ErrorCodes,
> {
    if ctx.house.house_admin != ctx.house_admin {
        Err(ErrorCodes::NotClubAdmin)
    } else if ctx.house_lamports < rent_minimum {
        Err(ErrorCodes::ArithmeticOverflow)
    } else {
        Ok(
            (
                WithdrawHouseFees {
                    house: House { unclaimed_sol_fees: 0, unclaimed_house_fees: 0, ..ctx.house },
                    ..ctx
                },
                HouseWithdrawal {
                    tokens: ctx.house_currency_vault.amount,
                    lamports: (ctx.house_lamports - rent_minimum) as u64,
                },
            ),
        )
    }
}

/// Withdraws a house's fees and says what goes to its admin: the whole vault, and
/// the native value above `rent_minimum`. Only the house's admin may. A withdrawal
/// that is refused changes nothing.
pub fn withdraw_house_fees(ctx: &mut WithdrawHouseFees, rent_minimum: u64) -> (r: Result<
    HouseWithdrawal,
    ErrorCodes,
>)
    ensures
        match withdraw_house_fees_spec(*old(ctx), rent_minimum) {
            Ok((next, withdrawal)) => r == Ok::<HouseWithdrawal, ErrorCodes>(withdrawal)
                && *final(ctx) == next,
            Err(e) => r == Err::<HouseWithdrawal, ErrorCodes>(e) && *final(ctx) == *old(ctx),
        },
{
    if ctx.house.house_admin != ctx.house_admin {
        return Err(ErrorCodes::NotClubAdmin);
    }
    if ctx.house_lamports < rent_minimum {
        return Err(ErrorCodes::ArithmeticOverflow);
    }
    ctx.house.unclaimed_sol_fees = 0;
    ctx.house.unclaimed_house_fees = 0;
    Ok(
        HouseWithdrawal {
            tokens: ctx.house_currency_vault.amount,
            lamports: ctx.house_lamports - rent_minimum,
        },
    )
}

} // verus!
