use vstd::prelude::*;
use crate::errors::ErrorCodes;
use crate::identity::{resolve, resolve_identity};
use crate::ledger::{AssetAccount, MetadataAccount, Mint, TokenAccount};
use crate::energy::recharge;
use crate::pubkey::Pubkey;
use crate::state::accounts::{
    Campaign,
    CampaignPlayer,
    House,
    IdentityType,
    PlayerIdentity,
    StakeInfo,
    TokenCampaignConfig,
    TokenUse,
};

verus! {

/// All that a session start reads and changes.
#[derive(Clone, Debug, PartialEq, Eq)]
pub struct StartGame {
    pub house: House,
    pub campaign: Campaign,
    /// The address of `campaign`.
    pub campaign_key: Pubkey,
    /// The wallet that asks to play.
    pub user: Pubkey,
    pub campaign_player: CampaignPlayer,
    pub player_nft_token_account: Option<TokenAccount>,
    pub player_nft_metadata: Option<MetadataAccount>,
    pub player_core_nft: Option<AssetAccount>,
    pub game_deposit_mint: Option<Mint>,
    pub players_deposit_account: Option<TokenAccount>,
    pub game_deposit_vault: Option<TokenAccount>,
}

/// What the player hands over for a session.
#[derive(Clone, Copy, Debug, PartialEq, Eq, Structural)]
pub enum EntryPayment {
    /// Nothing.
    Free,
    /// `amount` moves from the player's holding to the campaign's deposit escrow.
    Deposit { amount: u64 },
    /// `amount` of the player's holding is destroyed.
    Burn { amount: u64 },
}

/// What `identity` pays to play in `campaign`: the configured price, by the
/// configured mode, where the campaign has a price and the player is a plain
/// wallet; else nothing.
pub open spec fn entry_payment(campaign: &Campaign, identity: PlayerIdentity) -> EntryPayment {
    match campaign.token_config {
        Some(t) => if identity.identity_type is User {
            if t.token_use is Burn {
                EntryPayment::Burn { amount: t.energy_price }
            } else {
                EntryPayment::Deposit { amount: t.energy_price }
            }
        } else {
            EntryPayment::Free
        },
        None => EntryPayment::Free,
    }
}

/// What `identity` adds to its stake by a session start: the price in stake mode
/// for a plain wallet, else nothing.
pub open spec fn stake_added(campaign: &Campaign, identity: PlayerIdentity) -> Option<u64> {
    if identity.identity_type is User {
        campaign.stake_price()
    } else {
        None
    }
}

/// The stake record after `added` has been staked: a missing record starts anew.
/// `None` where the amount would leave its range.
pub open spec fn stake_after(
    stake: Option<StakeInfo>,
    campaign: &Campaign,
    added: Option<u64>,
) -> Option<Option<StakeInfo>> {
    match added {
        None => Some(stake),
        Some(price) => {
            let base = match stake {
                Some(s) => s,
                None => campaign.spec_fresh_stake()->0,
            };
            if base.amount + price <= u64::MAX {
                Some(Some(StakeInfo { amount: (base.amount + price) as u64, ..base }))
            } else {
                None
            }
        },
    }
}

impl StartGame {
    /// The identity that the proofs offered resolve to.
    pub open spec fn spec_get_player_identity(&self) -> Result<PlayerIdentity, ErrorCodes> {
        resolve(
            self.campaign.nft_config,
            self.user,
            self.player_nft_token_account,
            self.player_nft_metadata,
            self.player_core_nft,
        )
    }

    /// The identity under which the user plays, told from the proofs offered.
    pub fn get_player_identity(&self) -> (r: Result<PlayerIdentity, ErrorCodes>)
        ensures
            r == self.spec_get_player_identity(),
            r matches Ok(identity) ==> !(identity.identity_type is Unset),
    {
        resolve_identity(
            &self.campaign.nft_config,
            &self.user,
            &self.player_nft_token_account,
            &self.player_nft_metadata,
            &self.player_core_nft,
        )
    }

    /// The holdings that `payment` moves are at hand.
    pub open spec fn can_pay(&self, payment: EntryPayment) -> bool {
        match payment {
            EntryPayment::Free => true,
            EntryPayment::Deposit { .. } => self.players_deposit_account is Some
                && self.game_deposit_vault is Some,
            EntryPayment::Burn { .. } => self.players_deposit_account is Some
                && self.game_deposit_mint is Some,
        }
    }

    /// The record some session start finds or makes for `identity`: a record that
    /// was never used is made anew.
    pub open spec fn joined(&self, identity: PlayerIdentity, now: i64) -> CampaignPlayer {
        if self.campaign_player.player_identity.identity_type is Unset {
            CampaignPlayer::spec_new(identity, &self.campaign, self.campaign_key, now)
        } else {
            self.campaign_player
        }
    }
}

/// The outcome of a session start at `now`: the records after it and what the
/// player pays, or the reason for which it is refused.
///
/// The identity must resolve, no session may be open, the record must belong to
/// the identity, the holdings for the payment must be at hand and the campaign
/// must not have expired. Then the energy is recharged, one unit is spent, the
/// price is staked in stake mode, and the highest payout of one session is
/// reserved. The session is then open from `now`.
pub open spec fn start_game_spec(ctx: StartGame, now: i64) -> Result<
    (StartGame, EntryPayment),
    ErrorCodes,
> {
    match ctx.spec_get_player_identity() {
        Err(e) => Err(e),
        Ok(identity) => {
            let fresh = ctx.campaign_player.player_identity.identity_type is Unset;
            let joined = ctx.joined(identity, now);
            let payment = entry_payment(&ctx.campaign, identity);
            if ctx.campaign_player.in_game {
                Err(ErrorCodes::PlayerInGame)
            } else if joined.player_identity != identity {
                Err(ErrorCodes::PlayerIdentityMismatch)
            } else if !ctx.can_pay(payment) {
                Err(ErrorCodes::InvalidInput)
            } else if ctx.campaign.time_span.spec_is_expired(now) {
                Err(ErrorCodes::CampaignExpired)
            } else {
                match joined.spec_recharge_energy(ctx.campaign.nft_config, now) {
                    None => Err(ErrorCodes::EnergyCalculationFailed),
                    Some(recharged) => match recharged.spec_spend_energy(1) {
                        Err(e) => Err(e),
                        Ok(spent) => match stake_after(
                            spent.stake_info,
                            &ctx.campaign,
                            stake_added(&ctx.campaign, identity),
                        ) {
                            None => Err(ErrorCodes::ArithmeticOverflow),
                            Some(stake_info) => if ctx.campaign.active_games == u32::MAX || (fresh
                                && (ctx.house.unique_players == u32::MAX
                                || ctx.campaign.player_count == u32::MAX)) {
                                Err(ErrorCodes::ArithmeticOverflow)
                            } else {
                                match ctx.campaign.spec_reserve(ctx.campaign.max_rewards_per_game) {
                                    None => Err(ErrorCodes::RewardsUnavailable),
                                    Some(reserved) => Ok(
                                        (
                                            StartGame {
                                                house: House {
                                                    unique_players: if fresh {
                                                        (ctx.house.unique_players + 1) as u32
                                                    } else {
                                                        ctx.house.unique_players
                                                    },
                                                    ..ctx.house
                                                },
                                                campaign: Campaign {
                                                    player_count: if fresh {
                                                        (ctx.campaign.player_count + 1) as u32
                                                    } else {
                                                        ctx.campaign.player_count
                                                    },
                                                    active_games: (ctx.campaign.active_games
                                                        + 1) as u32,
                                                    ..reserved
                                                },
                                                campaign_player: CampaignPlayer {
                                                    stake_info,
                                                    game_start_time: now,
                                                    in_game: true,
                                                    ..spent
                                                },
                                                ..ctx
                                            },
                                            payment,
                                        ),
                                    ),
                                }
                            },
                        },
                    },
                }
            }
        },
    }
}

/// Opens a session for the user at `now` and says what the user pays for it. A
/// start that is refused changes nothing.
pub fn start_game(ctx: &mut StartGame, now: i64) -> (r: Result<EntryPayment, ErrorCodes>)
    ensures
        match start_game_spec(*old(ctx), now) {
            Ok((next, payment)) => r == Ok::<EntryPayment, ErrorCodes>(payment) && *final(ctx)
                == next,
            Err(e) => r == Err::<EntryPayment, ErrorCodes>(e) && *final(ctx) == *old(ctx),
        },
        r is Ok ==> final(ctx).campaign.solvent(),
        r is Ok ==> final(ctx).campaign_player.in_game,
        r is Ok && (old(ctx).campaign_player.player_identity.identity_type is Unset
            || old(ctx).campaign_player.energy_within(&old(ctx).campaign))
            ==> final(ctx).campaign_player.energy_within(&final(ctx).campaign),
{
    let identity: PlayerIdentity = match ctx.get_player_identity() {
        Ok(i) => i,
        Err(e) => {
            return Err(e);
        },
    };
    if ctx.campaign_player.in_game {
        return Err(ErrorCodes::PlayerInGame);
    }
    let fresh: bool = match ctx.campaign_player.player_identity.identity_type {
        IdentityType::Unset => true,
        _ => false,
    };
    if !fresh && ctx.campaign_player.player_identity != identity {
        return Err(ErrorCodes::PlayerIdentityMismatch);
    }
    let is_user: bool = match identity.identity_type {
        IdentityType::User => true,
        _ => false,
    };
    // What the player pays, and the configuration by which it is staked.
    let mut payment: EntryPayment = EntryPayment::Free;
    let mut staking: Option<TokenCampaignConfig> = None;
    match ctx.campaign.token_config {
        Some(t) => {
            if is_user {
                match t.token_use {
                    TokenUse::Burn => {
                        payment = EntryPayment::Burn { amount: t.energy_price };
                    },
                    TokenUse::Stake => {
                        payment = EntryPayment::Deposit { amount: t.energy_price };
                        staking = Some(t);
                    },
                    TokenUse::Pay => {
                        payment = EntryPayment::Deposit { amount: t.energy_price };
                    },
                }
            }
        },
        None => {},
    }
    let at_hand: bool = match payment {
        EntryPayment::Free => true,
        EntryPayment::Deposit { .. } => ctx.players_deposit_account.is_some()
            && ctx.game_deposit_vault.is_some(),
        EntryPayment::Burn { .. } => ctx.players_deposit_account.is_some()
            && ctx.game_deposit_mint.is_some(),
    };
    if !at_hand {
        return Err(ErrorCodes::InvalidInput);
    }
    if ctx.campaign.time_span.is_expired(now) {
        return Err(ErrorCodes::CampaignExpired);
    }
    // The energy and the tick after recharge and spending.
    let energy_before: u8 = if fresh {
        ctx.campaign.max_energy()
    } else {
        ctx.campaign_player.energy
    };
    let tick_before: i64 = if fresh {
        now
    } else {
        ctx.campaign_player.recharge_start_time
    };
    let recharged: (u8, i64) = match ctx.campaign.nft_config {
        None => (energy_before, tick_before),
        Some(config) => match recharge(
            energy_before,
            tick_before,
            config.energy_recharge_minutes,
            config.max_player_energy,
            now,
        ) {
            Some(pair) => pair,
            None => {
                return Err(ErrorCodes::EnergyCalculationFailed);
            },
        },
    };
    let energy: u8 = if is_user {
        recharged.0
    } else if recharged.0 >= 1 {
        recharged.0 - 1
    } else {
        return Err(ErrorCodes::OutOfEnergy);
    };
    // The stake after this start.
    let staked_before: u64 = if fresh {
        0
    } else {
        match &ctx.campaign_player.stake_info {
            Some(s) => s.amount,
            None => 0,
        }
    };
    let staked: u64 = match staking {
        None => staked_before,
        Some(t) => match staked_before.checked_add(t.energy_price) {
            Some(total) => total,
            None => {
                return Err(ErrorCodes::ArithmeticOverflow);
            },
        },
    };
    if ctx.campaign.active_games == u32::MAX || (fresh && (ctx.house.unique_players == u32::MAX
        || ctx.campaign.player_count == u32::MAX)) {
        return Err(ErrorCodes::ArithmeticOverflow);
    }
    let reserved: u64 = match ctx.campaign.reserved_rewards.checked_add(
        ctx.campaign.max_rewards_per_game,
    ) {
        Some(total) => total,
        None => {
            return Err(ErrorCodes::RewardsUnavailable);
        },
    };
    if reserved > ctx.campaign.rewards_available {
        return Err(ErrorCodes::RewardsUnavailable);
    }
    // Nothing can fail from here on.
    if fresh {
        ctx.campaign_player = CampaignPlayer::new(identity, &ctx.campaign, ctx.campaign_key, now);
        ctx.house.unique_players = ctx.house.unique_players + 1;
        ctx.campaign.player_count = ctx.campaign.player_count + 1;
    }
    ctx.campaign_player.energy = energy;
    ctx.campaign_player.recharge_start_time = recharged.1;
    match staking {
        Some(t) => {
            let stake: Option<StakeInfo> = ctx.campaign_player.stake_info.take();
            let base: StakeInfo = match stake {
                Some(s) => s,
                None => ctx.campaign.empty_stake(&t),
            };
            ctx.campaign_player.stake_info = Some(StakeInfo { amount: staked, ..base });
        },
        None => {},
    }
    ctx.campaign_player.game_start_time = now;
    ctx.campaign_player.in_game = true;
    ctx.campaign.active_games = ctx.campaign.active_games + 1;
    ctx.campaign.reserved_rewards = reserved;
    Ok(payment)
}

} // verus!
