use vstd::prelude::*;
use crate::errors::ErrorCodes;
use crate::identity::{asset_fault, check_core_asset, resolve, resolve_identity};
use crate::ledger::{AssetAccount, MetadataAccount, TokenAccount};
use crate::pubkey::Pubkey;
use crate::state::accounts::{Campaign, CampaignPlayer, House, PlayerIdentity};

verus! {

/// All that a session end reads and changes.
#[derive(Clone, Debug, PartialEq, Eq)]
pub struct EndGame {
    pub house: House,
    pub campaign: Campaign,
    /// The address of `campaign`.
    pub campaign_key: Pubkey,
    pub campaign_player: CampaignPlayer,
    /// The wallet that played.
    pub user: Pubkey,
    /// The key that signed beside the user, if any did.
    pub oracle: Option<Pubkey>,
    pub player_nft_token_account: Option<TokenAccount>,
    pub player_nft_metadata: Option<MetadataAccount>,
    pub player_core_nft: Option<AssetAccount>,
}

/// What moves when a session is settled.
#[derive(Clone, Copy, Debug, PartialEq, Eq, Structural)]
pub struct Settlement {
    /// Reward units that go from the reward escrow to the player.
    pub reward: u64,
    /// Native value that the player pays to the house.
    pub house_fee: u64,
    /// Native value that the player pays to the campaign.
    pub campaign_fee: u64,
}

impl EndGame {
    /// The verdict on the asset of the alternate registry, where one is offered.
    pub open spec fn spec_validate_core_nft(&self) -> Result<(), ErrorCodes> {
        match self.player_core_nft {
            Some(asset) => match asset_fault(self.campaign.nft_config, self.user, asset) {
                Some(e) => Err(e),
                None => Ok(()),
            },
            None => Ok(()),
        }
    }

    /// Checks the asset of the alternate registry, where one is offered.
    pub fn validate_core_nft(&self) -> (r: Result<(), ErrorCodes>)
        ensures
            r == self.spec_validate_core_nft(),
    {
        match &self.player_core_nft {
            Some(asset) => check_core_asset(&self.campaign.nft_config, &self.user, asset),
            None => Ok(()),
        }
    }

    /// The identity that the proofs offered resolve to.
    pub open spec fn spec_get_player_identity(&self) -> Result<PlayerIdentity, ErrorCodes> {
        resolve(
            self.campaign.nft_config,
            self.user,
            self.player_nft_token_account,
            self.player_nft_metadata,
            self.player_core_nft,
        )
    }

    /// The identity under which the user played, told from the proofs offered.
    pub fn get_player_identity(&self) -> (r: Result<PlayerIdentity, ErrorCodes>)
        ensures
            r == self.spec_get_player_identity(),
            r matches Ok(identity) ==> !(identity.identity_type is Unset),
    {
        resolve_identity(
            &self.campaign.nft_config,
            &self.user,
            &self.player_nft_token_account,
            &self.player_nft_metadata,
            &self.player_core_nft,
        )
    }

    /// The campaign asks for its oracle's signature beside the user's: its oracle
    /// key is a key, and not the system program's address, which stands for no
    /// oracle.
    pub open spec fn oracle_configured(&self) -> bool {
        !self.campaign.house_config_snapshot.oracle_key.spec_is_system_program()
    }

    /// The campaign's oracle, where it has one, has signed beside the user. A
    /// campaign without oracle asks for no signature and takes any.
    pub open spec fn oracle_agrees(&self) -> bool {
        self.oracle_configured() ==> self.oracle == Some(
            self.campaign.house_config_snapshot.oracle_key,
        )
    }
}

/// The fee that a payout of `amount_won` costs at the rate `fee`: winners pay,
/// others do not.
pub open spec fn claim_fee(amount_won: u64, fee: u64) -> u64 {
    if amount_won > 0 {
        fee
    } else {
        0
    }
}

/// The outcome of settling the open session with a payout of `amount_won`: the
/// records after it and what moves, or the reason for which it is refused.
///
/// A session must be open, the identity must resolve and own the record, the
/// record must be of this campaign, the campaign's oracle, if it has one, must
/// have signed, and the payout must not exceed the highest payout of one session. Then the reservation is released, the
/// payout leaves escrow, a winner's fees accrue to house and campaign, and the
/// session is closed and counted.
pub open spec fn end_game_spec(ctx: EndGame, amount_won: u64) -> Result<
    (EndGame, Settlement),
    ErrorCodes,
> {
    if !ctx.campaign_player.in_game {
        Err(ErrorCodes::PlayerNotInGame)
    } else {
        match ctx.spec_get_player_identity() {
            Err(e) => Err(e),
            Ok(identity) => {
                let house_fee = claim_fee(amount_won, ctx.campaign.house_config_snapshot.claim_fee);
                let campaign_fee = claim_fee(amount_won, ctx.campaign.rewards_claim_fee);
                if ctx.campaign_player.player_identity != identity {
                    Err(ErrorCodes::PlayerIdentityMismatch)
                } else if ctx.campaign_player.campaign != ctx.campaign_key {
                    Err(ErrorCodes::CollectionProofInvalid)
                } else if !ctx.oracle_agrees() {
                    Err(ErrorCodes::OracleMismatch)
                } else if amount_won > ctx.campaign.max_rewards_per_game {
                    Err(ErrorCodes::AmountTooHigh)
                } else if ctx.house.unclaimed_sol_fees + house_fee > u64::MAX
                    || ctx.campaign.unclaimed_sol_fees + campaign_fee > u64::MAX
                    || ctx.campaign_player.games_played == u32::MAX
                    || ctx.campaign_player.rewards_claimed + amount_won > u64::MAX
                    || ctx.campaign.total_games == u32::MAX {
                    Err(ErrorCodes::ArithmeticOverflow)
                } else {
                    match ctx.campaign.spec_release(ctx.campaign.max_rewards_per_game).spec_settle(
                        amount_won,
                    ) {
                        None => Err(ErrorCodes::InsufficientFunds),
                        Some(settled) => Ok(
                            (
                                EndGame {
                                    house: House {
                                        unclaimed_sol_fees: (ctx.house.unclaimed_sol_fees
                                            + house_fee) as u64,
                                        ..ctx.house
                                    },
                                    campaign: Campaign {
                                        unclaimed_sol_fees: (ctx.campaign.unclaimed_sol_fees
                                            + campaign_fee) as u64,
                                        active_games: if ctx.campaign.active_games > 0 {
                                            (ctx.campaign.active_games - 1) as u32
                                        } else {
                                            0
                                        },
                                        total_games: (ctx.campaign.total_games + 1) as u32,
                                        ..settled
                                    },
                                    campaign_player: CampaignPlayer {
                                        in_game: false,
                                        games_played: (ctx.campaign_player.games_played + 1) as u32,
                                        rewards_claimed: (ctx.campaign_player.rewards_claimed
                                            + amount_won) as u64,
                                        ..ctx.campaign_player
                                    },
                                    ..ctx
                                },
                                Settlement { reward: amount_won, house_fee, campaign_fee },
                            ),
                        ),
                    }
                }
            },
        }
    }
}

/// Settles the user's open session with a payout of `amount_won` and says what
/// moves. An end that is refused changes nothing; one without an open session is
/// refused with `PlayerNotInGame` whatever else holds.
pub fn end_game(ctx: &mut EndGame, amount_won: u64) -> (r: Result<Settlement, ErrorCodes>)
    ensures
        match end_game_spec(*old(ctx), amount_won) {
            Ok((next, settlement)) => r == Ok::<Settlement, ErrorCodes>(settlement) && *final(ctx)
                == next,
            Err(e) => r == Err::<Settlement, ErrorCodes>(e) && *final(ctx) == *old(ctx),
        },
        !old(ctx).campaign_player.in_game ==> r == Err::<Settlement, ErrorCodes>(
            ErrorCodes::PlayerNotInGame,
        ),
        // Only a campaign with an oracle refuses for want of the oracle's signature.
        r == Err::<Settlement, ErrorCodes>(ErrorCodes::OracleMismatch)
            ==> old(ctx).oracle_configured() && !old(ctx).oracle_agrees(),
        r is Ok ==> !final(ctx).campaign_player.in_game,
        r is Ok && old(ctx).campaign.solvent() ==> final(ctx).campaign.solvent(),
        r is Ok ==> final(ctx).campaign.rewards_available == old(ctx).campaign.rewards_available
            - amount_won,
        // What a session reserved and did not win is free for the next one.
        r is Ok && old(ctx).campaign.reserved_rewards >= old(ctx).campaign.max_rewards_per_game
            ==> final(ctx).campaign.rewards_available - final(ctx).campaign.reserved_rewards
            == old(ctx).campaign.rewards_available - old(ctx).campaign.reserved_rewards
            + old(ctx).campaign.max_rewards_per_game - amount_won,
{
    if !ctx.campaign_player.in_game {
        return Err(ErrorCodes::PlayerNotInGame);
    }
    let identity: PlayerIdentity = match ctx.get_player_identity() {
        Ok(i) => i,
        Err(e) => {
            return Err(e);
        },
    };
    if ctx.campaign_player.player_identity != identity {
        return Err(ErrorCodes::PlayerIdentityMismatch);
    }
    if ctx.campaign_player.campaign != ctx.campaign_key {
        return Err(ErrorCodes::CollectionProofInvalid);
    }
    if !ctx.campaign.house_config_snapshot.oracle_key.is_system_program() {
        let signed: bool = match ctx.oracle {
            Some(key) => key == ctx.campaign.house_config_snapshot.oracle_key,
            None => false,
        };
        if !signed {
            return Err(ErrorCodes::OracleMismatch);
        }
    }
    let max_rewards: u64 = ctx.campaign.max_rewards_per_game;
    if amount_won > max_rewards {
        return Err(ErrorCodes::AmountTooHigh);
    }
    let house_fee: u64 = if amount_won > 0 {
        ctx.campaign.house_config_snapshot.claim_fee
    } else {
        0
    };
    let campaign_fee: u64 = if amount_won > 0 {
        ctx.campaign.rewards_claim_fee
    } else {
        0
    };
    let house_fees: u64 = match ctx.house.unclaimed_sol_fees.checked_add(house_fee) {
        Some(v) => v,
        None => {
            return Err(ErrorCodes::ArithmeticOverflow);
        },
    };
    let campaign_fees: u64 = match ctx.campaign.unclaimed_sol_fees.checked_add(campaign_fee) {
        Some(v) => v,
        None => {
            return Err(ErrorCodes::ArithmeticOverflow);
        },
    };
    if ctx.campaign_player.games_played == u32::MAX {
        return Err(ErrorCodes::ArithmeticOverflow);
    }
    let claimed: u64 = match ctx.campaign_player.rewards_claimed.checked_add(amount_won) {
        Some(v) => v,
        None => {
            return Err(ErrorCodes::ArithmeticOverflow);
        },
    };
    if ctx.campaign.total_games == u32::MAX {
        return Err(ErrorCodes::ArithmeticOverflow);
    }
    let reserved: u64 = ctx.campaign.reserved_rewards.saturating_sub(max_rewards);
    if ctx.campaign.rewards_available < reserved || ctx.campaign.rewards_available - reserved
        < amount_won {
        return Err(ErrorCodes::InsufficientFunds);
    }
    // Nothing can fail from here on.
    ctx.house.unclaimed_sol_fees = house_fees;
    ctx.campaign.unclaimed_sol_fees = campaign_fees;
    ctx.campaign.release(max_rewards);
    ctx.campaign.rewards_available = ctx.campaign.rewards_available - amount_won;
    ctx.campaign.active_games = ctx.campaign.active_games.saturating_sub(1);
    ctx.campaign.total_games = ctx.campaign.total_games + 1;
    ctx.campaign_player.in_game = false;
    ctx.campaign_player.games_played = ctx.campaign_player.games_played + 1;
    ctx.campaign_player.rewards_claimed = claimed;
    Ok(Settlement { reward: amount_won, house_fee, campaign_fee })
}

} // verus!
