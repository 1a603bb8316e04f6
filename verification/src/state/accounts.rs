use vstd::prelude::*;
use vstd::std_specs::cmp::PartialEqSpecImpl;
use crate::energy::{lemma_trunc_div_bounds, recharge, recharged};
use crate::errors::ErrorCodes;
use crate::pubkey::Pubkey;
use crate::state::common::{validate_string, validate_string_spec};

verus! {

/// Evidence that `program_admin` may register houses.
#[derive(Clone, Copy, Debug, PartialEq, Eq)]
pub struct ProgramAdminProof {
    pub program_admin: Pubkey,
}

/// The fee schedule of a house.
#[derive(Clone, Copy, Debug, PartialEq, Eq)]
pub struct HouseConfig {
    pub oracle_key: Pubkey,
    pub campaign_creation_fee: u64,
    pub campaign_manager_discount: u64,
    pub claim_fee: u64,
    pub rewards_tax: u64,
}

/// Gating of a campaign by a collection, with the energy each member gets.
#[derive(Clone, Copy, Debug, PartialEq, Eq)]
pub struct NftCampaignConfig {
    pub collection: Pubkey,
    pub max_player_energy: u8,
    pub energy_recharge_minutes: Option<i64>,
}

/// What an ungated player pays in tokens to start a session.
#[derive(Clone, Copy, Debug, PartialEq, Eq)]
pub struct TokenCampaignConfig {
    pub spending_mint: Pubkey,
    pub energy_price: u64,
    pub spending_mint_decimals: u8,
    pub token_use: TokenUse,
}

/// What becomes of the tokens a player spends.
#[derive(Clone, Copy, Debug, PartialEq, Eq, Structural)]
pub enum TokenUse {
    Stake,
    Burn,
    Pay,
}

/// The shortest and the longest a session may last, in seconds.
#[derive(Clone, Copy, Debug, PartialEq, Eq, Structural)]
pub struct CampaignConstants {
    pub min_game_duration: i64,
    pub max_game_duration: i64,
}

/// A span of time given by its least and its greatest length, in seconds.
#[derive(Clone, Copy, Debug, PartialEq, Eq, Structural)]
pub struct Duration {
    pub min_duration: i64,
    pub max_duration: i64,
}

/// A time window in seconds, both ends included.
#[derive(Clone, Copy, Debug, PartialEq, Eq, Structural)]
pub struct TimeSpan {
    pub start_time: i64,
    pub end_time: i64,
}

impl TimeSpan {
    /// `now` lies in the window.
    pub open spec fn spec_is_active(&self, now: i64) -> bool {
        self.start_time <= now && now <= self.end_time
    }

    /// The window ended before `now`.
    pub open spec fn spec_is_expired(&self, now: i64) -> bool {
        self.end_time < now
    }

    /// The window begins after `now`.
    pub open spec fn spec_is_pending(&self, now: i64) -> bool {
        self.start_time > now
    }

    /// The window begins before it ends.
    pub open spec fn spec_is_valid(&self) -> bool {
        self.start_time < self.end_time
    }

    /// The window contains `now`.
    #[verifier::when_used_as_spec(spec_is_active)]
    pub fn is_active(&self, now: i64) -> (r: bool)
        ensures
            r == self.spec_is_active(now),
    {
        self.start_time <= now && self.end_time >= now
    }

    /// The window ended before `now`.
    #[verifier::when_used_as_spec(spec_is_expired)]
    pub fn is_expired(&self, now: i64) -> (r: bool)
        ensures
            r == self.spec_is_expired(now),
    {
        self.end_time < now
    }

    /// The window has not begun at `now`.
    #[verifier::when_used_as_spec(spec_is_pending)]
    pub fn is_pending(&self, now: i64) -> (r: bool)
        ensures
            r == self.spec_is_pending(now),
    {
        self.start_time > now
    }

    /// The window begins before it ends.
    #[verifier::when_used_as_spec(spec_is_valid)]
    pub fn is_valid(&self) -> (r: bool)
        ensures
            r == self.spec_is_valid(),
    {
        self.start_time < self.end_time
    }
}

/// An operator that hosts campaigns and collects fees.
#[derive(Clone, Debug, PartialEq, Eq)]
pub struct House {
    pub bump: u8,
    pub house_admin: Pubkey,
    /// Holders of a token of this collection create campaigns without a fee.
    pub manager_collection: Option<Pubkey>,
    /// The currency in which campaign creation is paid.
    pub house_currency: Pubkey,
    pub house_currency_decimals: u8,
    pub total_campaigns: u32,
    pub open_campaigns: u16,
    pub unique_players: u32,
    pub games_played: u32,
    /// Native-value fees collected and not yet withdrawn.
    pub unclaimed_sol_fees: u64,
    /// Creation fees collected and not yet withdrawn.
    pub unclaimed_house_fees: u64,
    pub is_active: bool,
    pub _reserved1: [u64; 16],
    pub config: HouseConfig,
    pub _reserved2: [u64; 16],
    pub house_name: String,
}

impl House {
    /// The house after it has been set up for `house_admin`.
    pub open spec fn spec_initialize(
        self,
        house_admin: Pubkey,
        manager_collection: Option<Pubkey>,
        house_currency: Pubkey,
        house_currency_decimals: u8,
        config: HouseConfig,
        house_name: String,
        bump: u8,
    ) -> House {
        House {
            house_admin,
            manager_collection,
            house_currency,
            house_currency_decimals,
            config,
            house_name,
            bump,
            is_active: true,
            ..self
        }
    }

    /// Sets the house up under a name that `validate_string` accepts; with any other
    /// name the house stays as it was and the name's fault is returned.
    pub fn initialize(
        &mut self,
        house_admin: Pubkey,
        manager_collection: Option<Pubkey>,
        house_currency: Pubkey,
        house_currency_decimals: u8,
        config: HouseConfig,
        house_name: String,
        bump: u8,
    ) -> (r: Result<(), ErrorCodes>)
        ensures
            r == validate_string_spec(house_name@),
            r is Ok ==> *final(self) == old(self).spec_initialize(
                house_admin,
                manager_collection,
                house_currency,
                house_currency_decimals,
                config,
                house_name,
                bump,
            ),
            r is Err ==> *final(self) == *old(self),
    {
        match validate_string(house_name.as_str()) {
            Err(e) => {
                return Err(e);
            },
            Ok(()) => {},
        }
        self.house_admin = house_admin;
        self.manager_collection = manager_collection;
        self.house_currency = house_currency;
        self.house_currency_decimals = house_currency_decimals;
        self.config = config;
        self.house_name = house_name;
        self.bump = bump;
        self.is_active = true;
        Ok(())
    }

    /// Replaces the fee schedule.
    pub fn update(&mut self, new_config: HouseConfig)
        ensures
            *final(self) == (House { config: new_config, ..*old(self) }),
    {
        self.config = new_config;
    }

    /// The house with one more campaign, open and in total.
    pub open spec fn spec_add_campaign(self) -> Option<House> {
        if self.total_campaigns < u32::MAX && self.open_campaigns < u16::MAX {
            Some(
                House {
                    total_campaigns: (self.total_campaigns + 1) as u32,
                    open_campaigns: (self.open_campaigns + 1) as u16,
                    ..self
                },
            )
        } else {
            None
        }
    }

    /// Counts a new campaign, unless a counter is at its limit.
    pub fn add_campaign(&mut self) -> (r: Result<(), ErrorCodes>)
        ensures
            match old(self).spec_add_campaign() {
                Some(h) => r == Ok::<(), ErrorCodes>(()) && *final(self) == h,
                None => r == Err::<(), ErrorCodes>(ErrorCodes::ArithmeticOverflow) && *final(self)
                    == *old(self),
            },
    {
        if self.total_campaigns == u32::MAX || self.open_campaigns == u16::MAX {
            return Err(ErrorCodes::ArithmeticOverflow);
        }
        self.total_campaigns = self.total_campaigns + 1;
        self.open_campaigns = self.open_campaigns + 1;
        Ok(())
    }

    /// The house with one open campaign fewer.
    pub open spec fn spec_remove_campaign(self) -> Option<House> {
        if self.open_campaigns > 0 {
            Some(House { open_campaigns: (self.open_campaigns - 1) as u16, ..self })
        } else {
            None
        }
    }

    /// Counts a campaign as closed, unless none is open.
    pub fn remove_campaign(&mut self) -> (r: Result<(), ErrorCodes>)
        ensures
            match old(self).spec_remove_campaign() {
                Some(h) => r == Ok::<(), ErrorCodes>(()) && *final(self) == h,
                None => r == Err::<(), ErrorCodes>(ErrorCodes::ArithmeticOverflow) && *final(self)
                    == *old(self),
            },
    {
        if self.open_campaigns == 0 {
            return Err(ErrorCodes::ArithmeticOverflow);
        }
        self.open_campaigns = self.open_campaigns - 1;
        Ok(())
    }
}

/// The balance a player has staked in a campaign.
#[derive(Clone, Debug, PartialEq, Eq)]
pub struct StakeInfo {
    pub amount: u64,
    pub campaign_end_time: i64,
    pub staked_mint: Pubkey,
    pub staked_mint_decimals: u8,
    pub campaign_name: String,
}

/// The content of a reserved region of `N` words: all zero.
pub open spec fn zeroed<const N: usize>() -> [u64; N] {
    vstd::array::spec_array_fill_for_copy_type::<u64, N>(0u64)
}

/// A funded, time-windowed reward pool.
#[derive(Clone, Debug, PartialEq, Eq)]
pub struct Campaign {
    pub auth_bump: u8,
    pub house: Pubkey,
    pub creator: Pubkey,
    pub manager_mint: Option<Pubkey>,
    pub reward_mint: Pubkey,
    pub reward_mint_decimals: u8,
    /// The most a single session can pay out.
    pub max_rewards_per_game: u64,
    pub rewards_claim_fee: u64,
    pub player_count: u32,
    pub active_games: u32,
    pub total_games: u32,
    pub time_span: TimeSpan,
    /// The house's fee schedule as it was when the campaign was created.
    pub house_config_snapshot: HouseConfig,
    pub nft_config: Option<NftCampaignConfig>,
    pub unclaimed_sol_fees: u64,
    pub _reserved_config: [u64; 7],
    pub token_config: Option<TokenCampaignConfig>,
    pub _reserved_for_token: [u64; 3],
    /// What is in escrow: the funding less all that was paid out.
    pub rewards_available: u64,
    /// The sum of the highest payouts promised to the sessions now open.
    pub reserved_rewards: u64,
    pub campaign_name: String,
    pub uri: Option<String>,
}

impl Campaign {
    /// The promises to open sessions are covered by what is in escrow.
    pub open spec fn solvent(&self) -> bool {
        self.reserved_rewards <= self.rewards_available
    }

    /// What is reserved is what the open sessions were promised: the highest
    /// payout of one session for each.
    pub open spec fn reserved_for_open_sessions(&self) -> bool {
        self.reserved_rewards == self.active_games * self.max_rewards_per_game
    }

    /// The energy a full player has: none where the campaign is not gated.
    pub open spec fn spec_max_energy(&self) -> u8 {
        match self.nft_config {
            Some(c) => c.max_player_energy,
            None => 0,
        }
    }

    /// The energy a full player has.
    #[verifier::when_used_as_spec(spec_max_energy)]
    pub fn max_energy(&self) -> (r: u8)
        ensures
            r == self.spec_max_energy(),
    {
        match self.nft_config {
            Some(c) => c.max_player_energy,
            None => 0,
        }
    }

    /// The price of a session in stake mode; `None` in every other mode.
    pub open spec fn stake_price(&self) -> Option<u64> {
        match self.token_config {
            Some(t) => if t.token_use is Stake {
                Some(t.energy_price)
            } else {
                None
            },
            None => None,
        }
    }

    /// A stake of nothing in the token that `t` names.
    pub open spec fn spec_empty_stake(&self, t: TokenCampaignConfig) -> StakeInfo {
        StakeInfo {
            amount: 0,
            campaign_end_time: self.time_span.end_time,
            staked_mint: t.spending_mint,
            staked_mint_decimals: t.spending_mint_decimals,
            campaign_name: self.campaign_name,
        }
    }

    /// Makes a stake of nothing in the token that `t` names.
    pub fn empty_stake(&self, t: &TokenCampaignConfig) -> (r: StakeInfo)
        ensures
            r == self.spec_empty_stake(*t),
    {
        StakeInfo {
            amount: 0,
            campaign_end_time: self.time_span.end_time,
            staked_mint: t.spending_mint,
            staked_mint_decimals: t.spending_mint_decimals,
            campaign_name: self.campaign_name.clone(),
        }
    }

    /// The empty stake of a player who joins: present exactly in stake mode.
    pub open spec fn spec_fresh_stake(&self) -> Option<StakeInfo> {
        match self.token_config {
            Some(t) => if t.token_use is Stake {
                Some(self.spec_empty_stake(t))
            } else {
                None
            },
            None => None,
        }
    }

    /// The empty stake of a player who joins, where the campaign is in stake mode.
    pub fn fresh_stake(&self) -> (r: Option<StakeInfo>)
        ensures
            r == self.spec_fresh_stake(),
    {
        match self.token_config {
            Some(t) => match t.token_use {
                TokenUse::Stake => Some(self.empty_stake(&t)),
                _ => None,
            },
            None => None,
        }
    }

    /// The campaign with `amount` more reserved, where escrow covers it.
    pub open spec fn spec_reserve(self, amount: u64) -> Option<Campaign> {
        if self.reserved_rewards + amount <= self.rewards_available {
            Some(Campaign { reserved_rewards: (self.reserved_rewards + amount) as u64, ..self })
        } else {
            None
        }
    }

    /// Promises `amount` to a session that opens. Refused with `RewardsUnavailable`,
    /// and without effect, where the promises would exceed what is in escrow.
    pub fn reserve(&mut self, amount: u64) -> (r: Result<(), ErrorCodes>)
        ensures
            match old(self).spec_reserve(amount) {
                Some(c) => r == Ok::<(), ErrorCodes>(()) && *final(self) == c,
                None => r == Err::<(), ErrorCodes>(ErrorCodes::RewardsUnavailable) && *final(self)
                    == *old(self),
            },
            r is Ok ==> final(self).solvent(),
    {
        match self.reserved_rewards.checked_add(amount) {
            Some(total) => {
                if total <= self.rewards_available {
                    self.reserved_rewards = total;
                    Ok(())
                } else {
                    Err(ErrorCodes::RewardsUnavailable)
                }
            },
            None => Err(ErrorCodes::RewardsUnavailable),
        }
    }

    /// The campaign with `amount` less reserved, and nothing reserved where less
    /// than `amount` was.
    pub open spec fn spec_release(self, amount: u64) -> Campaign {
        Campaign {
            reserved_rewards: if self.reserved_rewards >= amount {
                (self.reserved_rewards - amount) as u64
            } else {
                0
            },
            ..self
        }
    }

    /// Takes back the promise made to a session that ends.
    pub fn release(&mut self, amount: u64)
        ensures
            *final(self) == old(self).spec_release(amount),
            old(self).solvent() ==> final(self).solvent(),
    {
        self.reserved_rewards = self.reserved_rewards.saturating_sub(amount);
    }

    /// The campaign after `payout` has left escrow, where escrow keeps enough for
    /// the promises that stay.
    pub open spec fn spec_settle(self, payout: u64) -> Option<Campaign> {
        if self.reserved_rewards + payout <= self.rewards_available {
            Some(Campaign { rewards_available: (self.rewards_available - payout) as u64, ..self })
        } else {
            None
        }
    }

    /// Books a payout against escrow. Refused with `InsufficientFunds`, and without
    /// effect, where escrow would no longer cover the promises that stay.
    pub fn settle(&mut self, payout: u64) -> (r: Result<(), ErrorCodes>)
        ensures
            match old(self).spec_settle(payout) {
                Some(c) => r == Ok::<(), ErrorCodes>(()) && *final(self) == c,
                None => r == Err::<(), ErrorCodes>(ErrorCodes::InsufficientFunds) && *final(self)
                    == *old(self),
            },
            r is Ok ==> final(self).solvent(),
    {
        if self.rewards_available >= self.reserved_rewards && self.rewards_available
            - self.reserved_rewards >= payout {
            self.rewards_available = self.rewards_available - payout;
            Ok(())
        } else {
            Err(ErrorCodes::InsufficientFunds)
        }
    }
}

/// The kinds of player identity.
#[derive(Clone, Copy, Debug, PartialEq, Eq, Structural)]
pub enum IdentityType {
    /// No identity yet: the record has never been used.
    Unset,
    /// A token of the gating collection.
    Nft,
    /// A plain wallet.
    User,
    /// An asset of the gating collection in the alternate registry.
    MplCore,
}

/// Who plays: a kind and the key that stands for the player.
#[derive(Clone, Copy, Debug)]
pub struct PlayerIdentity {
    pub identity_type: IdentityType,
    pub pubkey: Pubkey,
}

impl PartialEq for PlayerIdentity {
    fn eq(&self, other: &Self) -> (r: bool) {
        self.identity_type == other.identity_type && self.pubkey == other.pubkey
    }
}

impl Eq for PlayerIdentity {

}

impl PartialEqSpecImpl for PlayerIdentity {
    open spec fn obeys_eq_spec() -> bool {
        true
    }

    open spec fn eq_spec(&self, other: &Self) -> bool {
        *self == *other
    }
}

impl PlayerIdentity {
    /// The key of the identity: none for a record that was never used.
    pub open spec fn spec_key(&self) -> Option<Pubkey> {
        match self.identity_type {
            IdentityType::Unset => None,
            _ => Some(self.pubkey),
        }
    }

    /// The key of the identity, where there is one.
    #[verifier::when_used_as_spec(spec_key)]
    pub fn key(&self) -> (r: Option<Pubkey>)
        ensures
            r == self.spec_key(),
    {
        match self.identity_type {
            IdentityType::Unset => None,
            IdentityType::Nft => Some(self.pubkey),
            IdentityType::User => Some(self.pubkey),
            IdentityType::MplCore => Some(self.pubkey),
        }
    }

    /// The identity is gated: it spends energy to play.
    pub open spec fn is_gated(&self) -> bool {
        self.identity_type is Nft || self.identity_type is MplCore
    }
}

/// What a campaign knows of one player.
#[derive(Clone, Debug, PartialEq, Eq)]
pub struct CampaignPlayer {
    pub player_identity: PlayerIdentity,
    pub campaign: Pubkey,
    pub house: Pubkey,
    pub energy: u8,
    pub recharge_start_time: i64,
    pub game_start_time: i64,
    pub games_played: u32,
    pub in_game: bool,
    pub rewards_claimed: u64,
    pub stake_info: Option<StakeInfo>,
}

impl CampaignPlayer {
    /// Seconds in one minute of recharge time.
    pub const SEC_PER_MINUTE: i64 = 60;

    /// The identity the record belongs to.
    pub open spec fn spec_get_identity(&self) -> PlayerIdentity {
        self.player_identity
    }

    /// The identity the record belongs to.
    #[verifier::when_used_as_spec(spec_get_identity)]
    pub fn get_identity(&self) -> (r: PlayerIdentity)
        ensures
            r == self.player_identity,
    {
        self.player_identity
    }

    /// The energy is within what `campaign` allows.
    pub open spec fn energy_within(&self, campaign: &Campaign) -> bool {
        self.energy <= campaign.spec_max_energy()
    }

    /// What is staked: nothing where there is no stake record.
    pub open spec fn staked(&self) -> nat {
        match self.stake_info {
            Some(s) => s.amount as nat,
            None => 0,
        }
    }

    /// The record of a player who joins `campaign` at `now`: full of energy, out of
    /// session, with an empty stake exactly where the campaign is in stake mode.
    pub open spec fn spec_new(
        identity: PlayerIdentity,
        campaign: &Campaign,
        campaign_key: Pubkey,
        now: i64,
    ) -> CampaignPlayer {
        CampaignPlayer {
            player_identity: identity,
            campaign: campaign_key,
            house: campaign.house,
            energy: campaign.spec_max_energy(),
            recharge_start_time: now,
            game_start_time: 0,
            games_played: 0,
            in_game: false,
            rewards_claimed: 0,
            stake_info: campaign.spec_fresh_stake(),
        }
    }

    /// Makes the record of a player who joins `campaign` at `now`.
    pub fn new(identity: PlayerIdentity, campaign: &Campaign, campaign_key: Pubkey, now: i64) -> (r:
        CampaignPlayer)
        ensures
            r == Self::spec_new(identity, campaign, campaign_key, now),
            r.energy_within(campaign),
            r.stake_info is Some <==> campaign.stake_price() is Some,
    {
        CampaignPlayer {
            player_identity: identity,
            campaign: campaign_key,
            house: campaign.house,
            energy: campaign.max_energy(),
            recharge_start_time: now,
            game_start_time: 0,
            games_played: 0,
            in_game: false,
            rewards_claimed: 0,
            stake_info: campaign.fresh_stake(),
        }
    }

    /// The record after its energy has been brought up to `now_ts` under
    /// `energy_config`; `None` where `recharged` gives none.
    pub open spec fn spec_recharge_energy(
        self,
        energy_config: Option<NftCampaignConfig>,
        now_ts: i64,
    ) -> Option<CampaignPlayer> {
        match energy_config {
            None => Some(self),
            Some(config) => match recharged(
                self.energy,
                self.recharge_start_time,
                config.energy_recharge_minutes,
                config.max_player_energy,
                now_ts,
            ) {
                Some((energy, tick)) => Some(
                    CampaignPlayer { energy, recharge_start_time: tick, ..self },
                ),
                None => None,
            },
        }
    }

    /// A recharge under `config` at `now` stays in the range of the clock: the
    /// period is at least a minute and fits in seconds, and the clock is not behind
    /// the tick nor further ahead of it than it can count.
    pub open spec fn recharge_in_range(&self, config: NftCampaignConfig, now: i64) -> bool {
        &&& config.energy_recharge_minutes matches Some(minutes) ==> minutes >= 1 && minutes
            * Self::SEC_PER_MINUTE <= i64::MAX
        &&& self.recharge_start_time <= now
        &&& now - self.recharge_start_time <= i64::MAX
    }

    /// Brings the energy up to `now_ts` and returns it. Where the computation
    /// fails the record stays as it was and `EnergyCalculationFailed` is returned.
    /// A record within the campaign's bound, recharged in the range of the clock,
    /// never fails, loses no energy and stays within the bound.
    pub fn recharge_energy(&mut self, energy_config: &Option<NftCampaignConfig>, now_ts: i64) -> (r:
        Result<u8, ErrorCodes>)
        ensures
            match old(self).spec_recharge_energy(*energy_config, now_ts) {
                Some(p) => r == Ok::<u8, ErrorCodes>(p.energy) && *final(self) == p,
                None => r == Err::<u8, ErrorCodes>(ErrorCodes::EnergyCalculationFailed)
                    && *final(self) == *old(self),
            },
            r is Ok && energy_config is Some && (energy_config->0.energy_recharge_minutes is Some
                || old(self).energy <= energy_config->0.max_player_energy) ==> final(self).energy
                <= energy_config->0.max_player_energy,
            energy_config is Some && old(self).energy <= energy_config->0.max_player_energy
                && old(self).recharge_in_range(energy_config->0, now_ts) ==> r is Ok
                && old(self).energy <= final(self).energy
                && final(self).energy <= energy_config->0.max_player_energy,
    {
        match energy_config {
            None => Ok(self.energy),
            Some(config) => {
                proof {
                    if let Some(minutes) = config.energy_recharge_minutes {
                        if minutes != 0 {
                            lemma_trunc_div_bounds(
                                now_ts - self.recharge_start_time,
                                minutes * Self::SEC_PER_MINUTE,
                            );
                        }
                    }
                }
                match recharge(
                    self.energy,
                    self.recharge_start_time,
                    config.energy_recharge_minutes,
                    config.max_player_energy,
                    now_ts,
                ) {
                    Some((energy, tick)) => {
                        self.energy = energy;
                        self.recharge_start_time = tick;
                        Ok(energy)
                    },
                    None => Err(ErrorCodes::EnergyCalculationFailed),
                }
            },
        }
    }

    /// The record after `energy_to_spend` units have been spent: a gated identity
    /// pays them, a plain wallet pays nothing.
    pub open spec fn spec_spend_energy(self, energy_to_spend: u8) -> Result<
        CampaignPlayer,
        ErrorCodes,
    > {
        match self.player_identity.identity_type {
            IdentityType::Unset => Err(ErrorCodes::InvalidInput),
            IdentityType::User => Ok(self),
            _ => if self.energy >= energy_to_spend {
                Ok(CampaignPlayer { energy: (self.energy - energy_to_spend) as u8, ..self })
            } else {
                Err(ErrorCodes::OutOfEnergy)
            },
        }
    }

    /// Spends energy. A record without identity is refused with `InvalidInput`, a
    /// gated one that has too little with `OutOfEnergy`; the record then stays as
    /// it was.
    pub fn spend_energy(&mut self, energy_to_spend: u8) -> (r: Result<(), ErrorCodes>)
        ensures
            match old(self).spec_spend_energy(energy_to_spend) {
                Ok(p) => r == Ok::<(), ErrorCodes>(()) && *final(self) == p,
                Err(e) => r == Err::<(), ErrorCodes>(e) && *final(self) == *old(self),
            },
            final(self).energy <= old(self).energy,
    {
        match self.player_identity.identity_type {
            IdentityType::Unset => Err(ErrorCodes::InvalidInput),
            IdentityType::Nft | IdentityType::MplCore => {
                if self.energy >= energy_to_spend {
                    self.energy = self.energy - energy_to_spend;
                    Ok(())
                } else {
                    Err(ErrorCodes::OutOfEnergy)
                }
            },
            IdentityType::User => Ok(()),
        }
    }
}

} // verus!
