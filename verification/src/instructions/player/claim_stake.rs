use vstd::prelude::*;
use crate::errors::ErrorCodes;
use crate::pubkey::Pubkey;
use crate::state::accounts::{CampaignPlayer, StakeInfo};

verus! {

/// All that a stake claim reads and changes.
#[derive(Clone, Debug, PartialEq, Eq)]
pub struct ClaimStake {
    pub campaign_player: CampaignPlayer,
    /// The wallet that claims.
    pub user: Pubkey,
}

/// What moves when a stake is claimed.
#[derive(Clone, Copy, Debug, PartialEq, Eq)]
pub struct StakePayout {
    /// Staked tokens that leave the campaign's deposit escrow.
    pub amount: u64,
    /// The wallet that receives them.
    pub recipient: Pubkey,
}

/// The outcome of a stake claim: the record without its stake, and the whole of
/// what was staked on its way to the wallet that claims; or the reason for which
/// the claim is refused.
pub open spec fn claim_stake_spec(ctx: ClaimStake) -> Result<(ClaimStake, StakePayout), ErrorCodes> {
    if ctx.campaign_player.in_game {
        Err(ErrorCodes::PlayerInGame)
    } else {
        match ctx.campaign_player.stake_info {
            None => Err(ErrorCodes::NoStake),
            Some(stake) => Ok(
                (
                    ClaimStake {
                        campaign_player: CampaignPlayer {
                            stake_info: None,
                            ..ctx.campaign_player
                        },
                        ..ctx
                    },
                    StakePayout { amount: stake.amount, recipient: ctx.user },
                ),
            ),
        }
    }
}

/// Hands the player's whole stake back: says that all of it goes from the
/// campaign's deposit escrow to the wallet that claims, and removes the stake
/// record. A claim during a session is refused with `PlayerInGame`, one without a
/// stake record with `NoStake`; a claim that is refused changes nothing.
pub fn claim_stake(ctx: &mut ClaimStake) -> (r: Result<StakePayout, ErrorCodes>)
    ensures
        match claim_stake_spec(*old(ctx)) {
            Ok((next, payout)) => r == Ok::<StakePayout, ErrorCodes>(payout) && *final(ctx)
                == next,
            Err(e) => r == Err::<StakePayout, ErrorCodes>(e) && *final(ctx) == *old(ctx),
        },
        r matches Ok(payout) ==> payout.amount == old(ctx).campaign_player.staked()
            && payout.recipient == old(ctx).user && final(ctx).campaign_player.stake_info is None,
{
    if ctx.campaign_player.in_game {
        return Err(ErrorCodes::PlayerInGame);
    }
    let stake: Option<StakeInfo> = ctx.campaign_player.stake_info.take();
    match stake {
        Some(s) => Ok(StakePayout { amount: s.amount, recipient: ctx.user }),
        None => Err(ErrorCodes::NoStake),
    }
}

} // verus!
