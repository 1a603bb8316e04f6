use vstd::prelude::*;
use crate::errors::ErrorCodes;
use crate::ledger::{ManagerSlot, MetadataAccount, Mint, TokenAccount};
use crate::pubkey::Pubkey;
use crate::state::accounts::{
    Campaign,
    House,
    NftCampaignConfig,
    TimeSpan,
    TokenCampaignConfig,
    TokenUse,
    zeroed,
};
use crate::state::common::{
    in_collection,
    metadata_is_collection,
    validate_string,
    validate_string_spec,
};

verus! {

/// All that the creation of a campaign reads and changes.
#[derive(Clone, Debug, PartialEq, Eq)]
pub struct CreateCampaign {
    /// The wallet that creates the campaign.
    pub signer: Pubkey,
    /// The record that the campaign is written to.
    pub campaign: Campaign,
    /// The address of `campaign`.
    pub campaign_key: Pubkey,
    pub campaign_auth_bump: u8,
    pub house: House,
    /// The address of `house`.
    pub house_key: Pubkey,
    pub reward_mint: Mint,
    pub game_mint: Option<Mint>,
    pub game_deposit_vault: Option<TokenAccount>,
    pub manager_nft_token_account: Option<TokenAccount>,
    pub manager_nft_metadata: Option<MetadataAccount>,
    /// The record that pairs a manager's token with the campaign.
    pub manager_slot: Option<ManagerSlot>,
}

/// What the creator pays when a campaign is created.
#[derive(Clone, Copy, Debug, PartialEq, Eq, Structural)]
pub struct CampaignFunding {
    /// House currency that goes from the creator to the house's vault. Whoever has
    /// standing to create a campaign owes none.
    pub creation_fee: u64,
    /// Reward units that go from the creator to the campaign's reward escrow.
    pub fund_amount: u64,
}

/// How a creator is entitled to create a campaign. No other wallet creates one.
/// The admin runs the house and owes it nothing; the manager collection grants
/// creation without fee.
#[derive(Clone, Copy, Debug, PartialEq, Eq)]
pub enum CreatorStanding {
    /// The creator is the house's admin.
    Admin,
    /// The creator holds the token `token` of the house's manager collection.
    Manager { token: Pubkey },
}

impl CreateCampaign {
    /// The creator's standing, or why the creator has none.
    ///
    /// The house's admin needs nothing. In a house with a manager collection any
    /// other creator must show a token of that collection, held alone, with its
    /// metadata, and a slot for it. In a house without one, no other wallet has
    /// authority.
    pub open spec fn standing(&self) -> Result<CreatorStanding, ErrorCodes> {
        if self.signer == self.house.house_admin {
            Ok(CreatorStanding::Admin)
        } else {
            match self.house.manager_collection {
                Some(collection) => if self.manager_nft_token_account is None
                    || self.manager_nft_metadata is None {
                    Err(ErrorCodes::MetadataMismatch)
                } else if self.manager_nft_token_account->0.owner != self.signer {
                    Err(ErrorCodes::TokenOwnerMismatch)
                } else if self.manager_nft_token_account->0.amount != 1 {
                    Err(ErrorCodes::OwnerBalanceMismatch)
                } else if !in_collection(&self.manager_nft_metadata->0, &collection) {
                    Err(ErrorCodes::CollectionProofInvalid)
                } else if self.manager_slot is None {
                    Err(ErrorCodes::InvalidInput)
                } else {
                    Ok(CreatorStanding::Manager { token: self.manager_nft_metadata->0.mint })
                },
                None => Err(ErrorCodes::NotClubAdmin),
            }
        }
    }

    /// The creator holds, alone and as its owner, a token that the house's manager
    /// collection has confirmed.
    pub open spec fn holds_manager_token(&self) -> bool {
        &&& self.house.manager_collection matches Some(collection)
        &&& self.manager_nft_token_account matches Some(token)
        &&& self.manager_nft_metadata matches Some(metadata)
        &&& token.owner == self.signer
        &&& token.amount == 1
        &&& in_collection(&metadata, &collection)
    }

    /// Tells the creator's standing. Only the house's admin and a holder of a
    /// manager token have any; in a house without manager collection every other
    /// wallet is refused with `NotClubAdmin`.
    pub fn creator_standing(&self) -> (r: Result<CreatorStanding, ErrorCodes>)
        ensures
            r == self.standing(),
            r is Ok ==> self.signer == self.house.house_admin || self.holds_manager_token(),
            self.signer != self.house.house_admin && self.house.manager_collection is None ==> r
                == Err::<CreatorStanding, ErrorCodes>(ErrorCodes::NotClubAdmin),
    {
        if self.signer == self.house.house_admin {
            return Ok(CreatorStanding::Admin);
        }
        match self.house.manager_collection {
            Some(collection) => {
                match (&self.manager_nft_token_account, &self.manager_nft_metadata) {
                    (Some(token), Some(metadata)) => {
                        if token.owner != self.signer {
                            return Err(ErrorCodes::TokenOwnerMismatch);
                        }
                        if token.amount != 1 {
                            return Err(ErrorCodes::OwnerBalanceMismatch);
                        }
                        if metadata_is_collection(metadata, &collection).is_err() {
                            return Err(ErrorCodes::CollectionProofInvalid);
                        }
                        if self.manager_slot.is_none() {
                            return Err(ErrorCodes::InvalidInput);
                        }
                        Ok(CreatorStanding::Manager { token: metadata.mint })
                    },
                    _ => Err(ErrorCodes::MetadataMismatch),
                }
            },
            None => Err(ErrorCodes::NotClubAdmin),
        }
    }

    /// The token type and the escrow that `token_config` needs are at hand and
    /// are those it names: burning needs the token type only, staking and paying
    /// need the deposit escrow too.
    pub open spec fn token_config_fits(&self, token_config: Option<TokenCampaignConfig>) -> bool {
        match token_config {
            None => true,
            Some(t) => {
                &&& self.game_mint is Some
                &&& self.game_deposit_vault is Some || t.token_use is Burn
                &&& t.spending_mint == self.game_mint->0.key
                &&& t.spending_mint_decimals == self.game_mint->0.decimals
            },
        }
    }

    /// Tells whether `token_config` fits what is at hand.
    pub fn check_token_config(&self, token_config: &Option<TokenCampaignConfig>) -> (r: bool)
        ensures
            r == self.token_config_fits(*token_config),
    {
        match token_config {
            None => true,
            Some(t) => match &self.game_mint {
                None => false,
                Some(mint) => {
                    let escrow: bool = match t.token_use {
                        TokenUse::Burn => true,
                        _ => self.game_deposit_vault.is_some(),
                    };
                    escrow && t.spending_mint == mint.key && t.spending_mint_decimals
                        == mint.decimals
                },
            },
        }
    }
}

/// The campaign that a creation writes: funded with `fund_amount`, with nothing
/// reserved, no players and no sessions, and with the house's fee schedule as it
/// is now.
pub open spec fn created_campaign(
    ctx: CreateCampaign,
    campaign_name: String,
    uri: Option<String>,
    fund_amount: u64,
    max_rewards_per_game: u64,
    player_claim_price: u64,
    time_span: TimeSpan,
    nft_campaign_config: Option<NftCampaignConfig>,
    token_campaign_config: Option<TokenCampaignConfig>,
) -> Campaign {
    Campaign {
        auth_bump: ctx.campaign_auth_bump,
        house: ctx.house_key,
        creator: ctx.signer,
        manager_mint: None,
        reward_mint: ctx.reward_mint.key,
        reward_mint_decimals: ctx.reward_mint.decimals,
        max_rewards_per_game,
        rewards_claim_fee: player_claim_price,
        player_count: 0,
        active_games: 0,
        total_games: 0,
        time_span,
        house_config_snapshot: ctx.house.config,
        nft_config: nft_campaign_config,
        unclaimed_sol_fees: 0,
        _reserved_config: zeroed::<7>(),
        token_config: token_campaign_config,
        _reserved_for_token: zeroed::<3>(),
        rewards_available: fund_amount,
        reserved_rewards: 0,
        campaign_name,
        uri,
    }
}

/// The outcome of creating a campaign at `now`: the records after it and what the
/// creator pays, or the reason for which it is refused.
///
/// The name must be well formed, the window must not have expired and must begin
/// before it ends, the creator must have standing, and the token configuration
/// must fit; the first of these that fails decides the refusal. Then the campaign
/// is written and the house counts it. The creator owes the funding and no fee.
pub open spec fn create_campaign_spec(
    ctx: CreateCampaign,
    campaign_name: String,
    uri: Option<String>,
    fund_amount: u64,
    max_rewards_per_game: u64,
    player_claim_price: u64,
    time_span: TimeSpan,
    nft_campaign_config: Option<NftCampaignConfig>,
    token_campaign_config: Option<TokenCampaignConfig>,
    now: i64,
) -> Result<(CreateCampaign, CampaignFunding), ErrorCodes> {
    match validate_string_spec(campaign_name@) {
        Err(e) => Err(e),
        Ok(_) => if time_span.spec_is_expired(now) {
            Err(ErrorCodes::CampaignExpired)
        } else if !time_span.spec_is_valid() {
            Err(ErrorCodes::InvalidTimeSpan)
        } else {
            match ctx.standing() {
                Err(e) => Err(e),
                Ok(standing) => if !ctx.token_config_fits(token_campaign_config) {
                    Err(ErrorCodes::InvalidInput)
                } else {
                    match ctx.house.spec_add_campaign() {
                        None => Err(ErrorCodes::ArithmeticOverflow),
                        Some(house) => Ok(
                            (
                                CreateCampaign {
                                    campaign: created_campaign(
                                        ctx,
                                        campaign_name,
                                        uri,
                                        fund_amount,
                                        max_rewards_per_game,
                                        player_claim_price,
                                        time_span,
                                        nft_campaign_config,
                                        token_campaign_config,
                                    ),
                                    house,
                                    manager_slot: match standing {
                                        CreatorStanding::Manager { token } => Some(
                                            ManagerSlot {
                                                manager: token,
                                                campaign: ctx.campaign_key,
                                            },
                                        ),
                                        CreatorStanding::Admin => ctx.manager_slot,
                                    },
                                    ..ctx
                                },
                                CampaignFunding { creation_fee: 0, fund_amount },
                            ),
                        ),
                    }
                },
            }
        },
    }
}

/// Creates a campaign at `now` and says what the creator pays. A creation that
/// is refused changes nothing.
pub fn create_campaign(
    ctx: &mut CreateCampaign,
    campaign_name: String,
    uri: Option<String>,
    fund_amount: u64,
    max_rewards_per_game: u64,
    player_claim_price: u64,
    time_span: TimeSpan,
    nft_campaign_config: Option<NftCampaignConfig>,
    token_campaign_config: Option<TokenCampaignConfig>,
    now: i64,
) -> (r: Result<CampaignFunding, ErrorCodes>)
    ensures
        match create_campaign_spec(
            *old(ctx),
            campaign_name,
            uri,
            fund_amount,
            max_rewards_per_game,
            player_claim_price,
            time_span,
            nft_campaign_config,
            token_campaign_config,
            now,
        ) {
            Ok((next, funding)) => r == Ok::<CampaignFunding, ErrorCodes>(funding) && *final(ctx)
                == next,
            Err(e) => r == Err::<CampaignFunding, ErrorCodes>(e) && *final(ctx) == *old(ctx),
        },
        r is Ok ==> final(ctx).campaign.solvent(),
        r is Ok ==> final(ctx).campaign.house_config_snapshot == old(ctx).house.config,
        // Under a name that passes, a window that is over or out of order is refused
        // before anything else is looked at.
        validate_string_spec(campaign_name@) is Ok && time_span.spec_is_expired(now) ==> r
            == Err::<CampaignFunding, ErrorCodes>(ErrorCodes::CampaignExpired),
        validate_string_spec(campaign_name@) is Ok && !time_span.spec_is_expired(now)
            && !time_span.spec_is_valid() ==> r == Err::<CampaignFunding, ErrorCodes>(
            ErrorCodes::InvalidTimeSpan,
        ),
        // With a name and a window that pass, a creator without standing is refused
        // for that.
        old(ctx).standing() matches Err(e) ==> (validate_string_spec(campaign_name@) is Ok
            && !time_span.spec_is_expired(now) && time_span.spec_is_valid() ==> r == Err::<
            CampaignFunding,
            ErrorCodes,
        >(e)),
        r is Ok ==> old(ctx).signer == old(ctx).house.house_admin
            || old(ctx).holds_manager_token(),
{
    match validate_string(campaign_name.as_str()) {
        Err(e) => {
            return Err(e);
        },
        Ok(()) => {},
    }
    if time_span.is_expired(now) {
        return Err(ErrorCodes::CampaignExpired);
    }
    if !time_span.is_valid() {
        return Err(ErrorCodes::InvalidTimeSpan);
    }
    let standing: CreatorStanding = match ctx.creator_standing() {
        Ok(s) => s,
        Err(e) => {
            return Err(e);
        },
    };
    if !ctx.check_token_config(&token_campaign_config) {
        return Err(ErrorCodes::InvalidInput);
    }
    match ctx.house.add_campaign() {
        Ok(()) => {},
        Err(e) => {
            return Err(e);
        },
    }
    // Nothing can fail from here on.
    match standing {
        CreatorStanding::Manager { token } => {
            ctx.manager_slot = Some(ManagerSlot { manager: token, campaign: ctx.campaign_key });
        },
        CreatorStanding::Admin => {},
    }
    ctx.campaign =
    Campaign {
        auth_bump: ctx.campaign_auth_bump,
        house: ctx.house_key,
        creator: ctx.signer,
        manager_mint: None,
        reward_mint: ctx.reward_mint.key,
        reward_mint_decimals: ctx.reward_mint.decimals,
        max_rewards_per_game,
        rewards_claim_fee: player_claim_price,
        player_count: 0,
        active_games: 0,
        total_games: 0,
        time_span,
        house_config_snapshot: ctx.house.config,
        nft_config: nft_campaign_config,
        unclaimed_sol_fees: 0,
        _reserved_config: [0u64; 7],
        token_config: token_campaign_config,
        _reserved_for_token: [0u64; 3],
        rewards_available: fund_amount,
        reserved_rewards: 0,
        campaign_name,
        uri,
    };
    Ok(CampaignFunding { creation_fee: 0, fund_amount })
}

} // verus!
