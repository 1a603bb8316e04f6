use vstd::prelude::*;
use crate::errors::ErrorCodes;
use crate::ledger::{Mint, TokenAccount};
use crate::pubkey::Pubkey;
use crate::state::accounts::{Campaign, House, TokenUse};

verus! {

/// All that the closing of a campaign reads and changes.
#[derive(Clone, Debug, PartialEq, Eq)]
pub struct CloseCampaign {
    pub campaign: Campaign,
    pub house: House,
    /// The wallet that closes the campaign.
    pub creator: Pubkey,
    pub reward_vault: TokenAccount,
    pub game_deposit_vault: Option<TokenAccount>,
    pub deposit_withdrawal_account: Option<TokenAccount>,
    pub game_mint: Option<Mint>,
    /// Whether a token program for the deposits was named.
    pub deposit_token_program: bool,
}

/// What goes back to the creator when a campaign is closed.
#[derive(Clone, Copy, Debug, PartialEq, Eq, Structural)]
pub struct CampaignSweep {
    /// All that is left in the reward escrow.
    pub rewards: u64,
    /// All that is in the deposit escrow, where the campaign took payments.
    pub deposits: Option<u64>,
}

impl CloseCampaign {
    /// The campaign took payments that its creator keeps.
    pub open spec fn is_paid(&self) -> bool {
        self.campaign.token_config matches Some(t) && t.token_use is Pay
    }

    /// The deposit escrow and all that sweeping it needs are at hand.
    pub open spec fn deposits_at_hand(&self) -> bool {
        self.game_deposit_vault is Some && self.game_mint is Some
            && self.deposit_withdrawal_account is Some && self.deposit_token_program
    }

    /// Nothing of the deposit escrow is named.
    pub open spec fn deposits_absent(&self) -> bool {
        self.game_deposit_vault is None && self.game_mint is None
            && self.deposit_withdrawal_account is None && !self.deposit_token_program
    }
}

/// The outcome of closing a campaign at `now`: the records after it and what is
/// swept to the creator, or the reason for which it is refused.
///
/// Only the creator closes a campaign, only while no session is open, and,
/// unless `force` is set, only outside the campaign's window. A campaign that
/// took payments has its deposit escrow swept too, and must name it; any other
/// must name nothing of it.
pub open spec fn close_campaign_spec(ctx: CloseCampaign, now: i64, force: bool) -> Result<
    (CloseCampaign, CampaignSweep),
    ErrorCodes,
> {
    if ctx.campaign.creator != ctx.creator {
        Err(ErrorCodes::NotClubAdmin)
    } else if ctx.campaign.active_games > 0 || (!force && ctx.campaign.time_span.spec_is_active(
        now,
    )) {
        Err(ErrorCodes::ActiveCampaign)
    } else if ctx.is_paid() && !ctx.deposits_at_hand() || !ctx.is_paid()
        && !ctx.deposits_absent() {
        Err(ErrorCodes::InvalidInput)
    } else {
        match ctx.house.spec_remove_campaign() {
            None => Err(ErrorCodes::ArithmeticOverflow),
            Some(house) => Ok(
                (
                    CloseCampaign { house, ..ctx },
                    CampaignSweep {
                        rewards: ctx.reward_vault.amount,
                        deposits: if ctx.is_paid() {
                            Some(ctx.game_deposit_vault->0.amount)
                        } else {
                            None
                        },
                    },
                ),
            ),
        }
    }
}

/// Closes a campaign at `now` and says what is swept to its creator. A closing
/// that is refused changes nothing.
pub fn close_campaign(ctx: &mut CloseCampaign, now: i64, force: bool) -> (r: Result<
    CampaignSweep,
    ErrorCodes,
>)
    ensures
        match close_campaign_spec(*old(ctx), now, force) {
            Ok((next, sweep)) => r == Ok::<CampaignSweep, ErrorCodes>(sweep) && *final(ctx)
                == next,
            Err(e) => r == Err::<CampaignSweep, ErrorCodes>(e) && *final(ctx) == *old(ctx),
        },
{
    if ctx.campaign.creator != ctx.creator {
        return Err(ErrorCodes::NotClubAdmin);
    }
    if ctx.campaign.active_games > 0 || (!force && ctx.campaign.time_span.is_active(now)) {
        return Err(ErrorCodes::ActiveCampaign);
    }
    let is_paid: bool = match ctx.campaign.token_config {
        Some(t) => match t.token_use {
            TokenUse::Pay => true,
            _ => false,
        },
        None => false,
    };
    let deposits: Option<u64> = match (
        &ctx.game_deposit_vault,
        &ctx.game_mint,
        &ctx.deposit_withdrawal_account,
        ctx.deposit_token_program,
        is_paid,
    ) {
        (Some(vault), Some(_), Some(_), true, true) => Some(vault.amount),
        (None, None, None, false, false) => None,
        _ => {
            return Err(ErrorCodes::InvalidInput);
        },
    };
    match ctx.house.remove_campaign() {
        Ok(()) => Ok(CampaignSweep { rewards: ctx.reward_vault.amount, deposits }),
        Err(e) => Err(e),
    }
}

} // verus!
