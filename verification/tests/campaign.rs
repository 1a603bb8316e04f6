use clubhouse::errors::{ErrorCategory, ErrorCodes};
use clubhouse::instructions::campaign::close_campaign::{
    close_campaign, CampaignSweep, CloseCampaign,
};
use clubhouse::instructions::campaign::create_campaign::{
    create_campaign, CampaignFunding, CreateCampaign, CreatorStanding,
};
use clubhouse::ledger::{Collection, ManagerSlot, MetadataAccount, Mint, TokenAccount};
use clubhouse::pubkey::Pubkey;
use clubhouse::state::accounts::{
    Campaign, House, HouseConfig, NftCampaignConfig, TimeSpan, TokenCampaignConfig, TokenUse,
};

const ADMIN: u8 = 5;
const HOUSE: u8 = 200;
const CAMPAIGN: u8 = 201;
const MANAGERS: u8 = 202;
const SPEND_MINT: u8 = 203;
const REWARD_MINT: u8 = 204;

fn ck(n: u8) -> Pubkey {
    Pubkey::new_from_array([n; 32])
}

fn fees() -> HouseConfig {
    HouseConfig {
        oracle_key: ck(77),
        campaign_creation_fee: 50,
        campaign_manager_discount: 10,
        claim_fee: 3,
        rewards_tax: 1,
    }
}

fn the_house(manager_collection: Option<Pubkey>) -> House {
    House {
        bump: 254,
        house_admin: ck(ADMIN),
        manager_collection,
        house_currency: ck(6),
        house_currency_decimals: 9,
        total_campaigns: 4,
        open_campaigns: 2,
        unique_players: 0,
        games_played: 0,
        unclaimed_sol_fees: 0,
        unclaimed_house_fees: 100,
        is_active: true,
        _reserved1: [0; 16],
        config: fees(),
        _reserved2: [0; 16],
        house_name: String::from("Club One"),
    }
}

fn blank_campaign() -> Campaign {
    Campaign {
        auth_bump: 0,
        house: ck(0),
        creator: ck(0),
        manager_mint: None,
        reward_mint: ck(0),
        reward_mint_decimals: 0,
        max_rewards_per_game: 0,
        rewards_claim_fee: 0,
        player_count: 0,
        active_games: 0,
        total_games: 0,
        time_span: TimeSpan { start_time: 0, end_time: 0 },
        house_config_snapshot: HouseConfig {
            oracle_key: ck(0),
            campaign_creation_fee: 0,
            campaign_manager_discount: 0,
            claim_fee: 0,
            rewards_tax: 0,
        },
        nft_config: None,
        unclaimed_sol_fees: 0,
        _reserved_config: [0; 7],
        token_config: None,
        _reserved_for_token: [0; 3],
        rewards_available: 0,
        reserved_rewards: 0,
        campaign_name: String::new(),
        uri: None,
    }
}

fn purse(owner: u8, mint: u8, amount: u64) -> TokenAccount {
    TokenAccount { mint: ck(mint), owner: ck(owner), amount }
}

fn creation(signer: u8, house: House) -> CreateCampaign {
    CreateCampaign {
        signer: ck(signer),
        campaign: blank_campaign(),
        campaign_key: ck(CAMPAIGN),
        campaign_auth_bump: 249,
        house,
        house_key: ck(HOUSE),
        reward_mint: Mint { key: ck(REWARD_MINT), decimals: 6 },
        game_mint: None,
        game_deposit_vault: None,
        manager_nft_token_account: None,
        manager_nft_metadata: None,
        manager_slot: None,
    }
}

fn manager_creation(signer: u8) -> CreateCampaign {
    CreateCampaign {
        manager_nft_token_account: Some(purse(signer, 60, 1)),
        manager_nft_metadata: Some(MetadataAccount {
            mint: ck(60),
            collection: Some(Collection { verified: true, key: ck(MANAGERS) }),
            creators: None,
        }),
        manager_slot: Some(ManagerSlot { manager: ck(0), campaign: ck(0) }),
        ..creation(signer, the_house(Some(ck(MANAGERS))))
    }
}

fn window() -> TimeSpan {
    TimeSpan { start_time: 100, end_time: 200 }
}

fn create_plain(ctx: &mut CreateCampaign, now: i64) -> Result<CampaignFunding, ErrorCodes> {
    create_campaign(
        ctx,
        String::from("Summer Cup"),
        Some(String::from("https://club.example/cup")),
        1000,
        100,
        2,
        window(),
        None,
        None,
        now,
    )
}

fn stake_config() -> Option<TokenCampaignConfig> {
    Some(TokenCampaignConfig {
        spending_mint: ck(SPEND_MINT),
        energy_price: 25,
        spending_mint_decimals: 2,
        token_use: TokenUse::Stake,
    })
}

#[test]
fn admin_creates_a_campaign_without_fee() {
    let mut ctx = creation(ADMIN, the_house(None));
    assert_eq!(ctx.creator_standing(), Ok(CreatorStanding::Admin));
    assert_eq!(
        create_plain(&mut ctx, 50),
        Ok(CampaignFunding { creation_fee: 0, fund_amount: 1000 })
    );
    assert_eq!(
        ctx.campaign,
        Campaign {
            auth_bump: 249,
            house: ck(HOUSE),
            creator: ck(ADMIN),
            manager_mint: None,
            reward_mint: ck(REWARD_MINT),
            reward_mint_decimals: 6,
            max_rewards_per_game: 100,
            rewards_claim_fee: 2,
            player_count: 0,
            active_games: 0,
            total_games: 0,
            time_span: window(),
            house_config_snapshot: fees(),
            nft_config: None,
            unclaimed_sol_fees: 0,
            _reserved_config: [0; 7],
            token_config: None,
            _reserved_for_token: [0; 3],
            rewards_available: 1000,
            reserved_rewards: 0,
            campaign_name: String::from("Summer Cup"),
            uri: Some(String::from("https://club.example/cup")),
        }
    );
    assert_eq!(
        ctx.house,
        House { total_campaigns: 5, open_campaigns: 3, ..the_house(None) }
    );
    assert_eq!(ctx.manager_slot, None);
}

#[test]
fn snapshot_survives_a_later_change_of_fees() {
    let mut ctx = creation(ADMIN, the_house(None));
    assert!(create_plain(&mut ctx, 50).is_ok());
    ctx.house.update(HouseConfig { claim_fee: 999, oracle_key: ck(1), ..fees() });
    assert_eq!(ctx.campaign.house_config_snapshot, fees());
    assert_eq!(ctx.house.config.claim_fee, 999);
}

#[test]
fn other_wallets_create_no_campaign() {
    // A house without manager collection: nobody but the admin has authority.
    let mut stranger = creation(9, the_house(None));
    let untouched = stranger.clone();
    let refused = create_plain(&mut stranger, 50).unwrap_err();
    assert_eq!(refused, ErrorCodes::NotClubAdmin);
    assert_eq!(refused.category(), ErrorCategory::Authorization);
    assert_eq!(stranger, untouched);
    assert_eq!(stranger.creator_standing(), Err(ErrorCodes::NotClubAdmin));
    assert_eq!(stranger.house.total_campaigns, 4);
    assert_eq!(stranger.house.open_campaigns, 2);
    assert_eq!(stranger.campaign, blank_campaign());
}

#[test]
fn a_token_is_no_credential_without_a_manager_collection() {
    // Whatever a stranger shows, a house without manager collection takes none.
    let shown = CreateCampaign {
        house: the_house(None),
        ..manager_creation(9)
    };
    for mut ctx in [
        shown.clone(),
        CreateCampaign { manager_slot: None, ..shown.clone() },
        CreateCampaign { manager_nft_metadata: None, ..shown.clone() },
        CreateCampaign { manager_nft_token_account: None, ..shown.clone() },
    ] {
        let untouched = ctx.clone();
        assert_eq!(create_plain(&mut ctx, 50), Err(ErrorCodes::NotClubAdmin));
        assert_eq!(ctx, untouched);
    }
    // The admin is not hindered by what is shown.
    let mut admin = CreateCampaign { signer: ck(ADMIN), ..shown };
    assert_eq!(
        create_plain(&mut admin, 50),
        Ok(CampaignFunding { creation_fee: 0, fund_amount: 1000 })
    );
}

#[test]
fn creation_costs_no_fee() {
    let mut admin = creation(ADMIN, the_house(None));
    assert_eq!(
        create_plain(&mut admin, 50),
        Ok(CampaignFunding { creation_fee: 0, fund_amount: 1000 })
    );
    assert_eq!(admin.house.unclaimed_house_fees, 100);
    let mut manager = manager_creation(9);
    assert_eq!(
        create_plain(&mut manager, 50),
        Ok(CampaignFunding { creation_fee: 0, fund_amount: 1000 })
    );
    assert_eq!(manager.house.unclaimed_house_fees, 100);
}

#[test]
fn manager_creates_a_campaign_without_fee() {
    let mut ctx = manager_creation(9);
    assert_eq!(ctx.creator_standing(), Ok(CreatorStanding::Manager { token: ck(60) }));
    assert_eq!(
        create_plain(&mut ctx, 50),
        Ok(CampaignFunding { creation_fee: 0, fund_amount: 1000 })
    );
    assert_eq!(
        ctx.manager_slot,
        Some(ManagerSlot { manager: ck(60), campaign: ck(CAMPAIGN) })
    );
    assert_eq!(ctx.house.unclaimed_house_fees, 100);
    assert_eq!(ctx.house.open_campaigns, 3);
    assert_eq!(ctx.campaign.creator, ck(9));
}

#[test]
fn manager_credential_must_hold() {
    let mut no_token = CreateCampaign { manager_nft_token_account: None, ..manager_creation(9) };
    assert_eq!(create_plain(&mut no_token, 50), Err(ErrorCodes::MetadataMismatch));
    let mut no_metadata = CreateCampaign { manager_nft_metadata: None, ..manager_creation(9) };
    assert_eq!(create_plain(&mut no_metadata, 50), Err(ErrorCodes::MetadataMismatch));
    let mut not_owner = CreateCampaign {
        manager_nft_token_account: Some(purse(8, 60, 1)),
        ..manager_creation(9)
    };
    assert_eq!(create_plain(&mut not_owner, 50), Err(ErrorCodes::TokenOwnerMismatch));
    let mut empty = CreateCampaign {
        manager_nft_token_account: Some(purse(9, 60, 0)),
        ..manager_creation(9)
    };
    assert_eq!(create_plain(&mut empty, 50), Err(ErrorCodes::OwnerBalanceMismatch));
    let mut foreign = CreateCampaign {
        manager_nft_metadata: Some(MetadataAccount {
            mint: ck(60),
            collection: Some(Collection { verified: false, key: ck(MANAGERS) }),
            creators: None,
        }),
        ..manager_creation(9)
    };
    assert_eq!(create_plain(&mut foreign, 50), Err(ErrorCodes::CollectionProofInvalid));
    let mut no_slot = CreateCampaign { manager_slot: None, ..manager_creation(9) };
    let untouched = no_slot.clone();
    assert_eq!(create_plain(&mut no_slot, 50), Err(ErrorCodes::InvalidInput));
    assert_eq!(no_slot, untouched);
    // The admin needs no credential even in a house that has managers.
    let mut admin = creation(ADMIN, the_house(Some(ck(MANAGERS))));
    assert_eq!(
        create_plain(&mut admin, 50),
        Ok(CampaignFunding { creation_fee: 0, fund_amount: 1000 })
    );
}

#[test]
fn window_must_be_open_and_ordered() {
    let mut late = creation(ADMIN, the_house(None));
    let untouched = late.clone();
    assert_eq!(create_plain(&mut late, 201), Err(ErrorCodes::CampaignExpired));
    assert_eq!(late, untouched);
    let mut last = creation(ADMIN, the_house(None));
    assert!(create_plain(&mut last, 200).is_ok());
    for (start_time, end_time) in [(100, 100), (200, 100)] {
        let mut ctx = creation(ADMIN, the_house(None));
        let r = create_campaign(
            &mut ctx,
            String::from("Summer Cup"),
            None,
            1000,
            100,
            2,
            TimeSpan { start_time, end_time },
            None,
            None,
            50,
        );
        assert_eq!(r, Err(ErrorCodes::InvalidTimeSpan));
        assert_eq!(ctx, creation(ADMIN, the_house(None)));
    }
    // A window that is both over and out of order is reported as over.
    let mut both = creation(ADMIN, the_house(None));
    let r = create_campaign(
        &mut both,
        String::from("Summer Cup"),
        None,
        1000,
        100,
        2,
        TimeSpan { start_time: 200, end_time: 100 },
        None,
        None,
        150,
    );
    assert_eq!(r, Err(ErrorCodes::CampaignExpired));
}

#[test]
fn name_and_window_are_judged_before_standing() {
    // A stranger with a bad name is refused for the name.
    let mut stranger = creation(9, the_house(None));
    let r = create_campaign(
        &mut stranger,
        String::from(" Cup"),
        None,
        1000,
        100,
        2,
        window(),
        None,
        None,
        500,
    );
    assert_eq!(r, Err(ErrorCodes::StartsWithWhitespace));
    assert_eq!(stranger, creation(9, the_house(None)));
    // A stranger with a window that is over is refused for the window, in a house
    // with managers as in one without.
    for house in [the_house(None), the_house(Some(ck(MANAGERS)))] {
        let mut late = creation(9, house.clone());
        assert_eq!(create_plain(&mut late, 201), Err(ErrorCodes::CampaignExpired));
        assert_eq!(late, creation(9, house.clone()));
        let mut disordered = creation(9, house.clone());
        let r = create_campaign(
            &mut disordered,
            String::from("Summer Cup"),
            None,
            1000,
            100,
            2,
            TimeSpan { start_time: 200, end_time: 200 },
            None,
            None,
            50,
        );
        assert_eq!(r, Err(ErrorCodes::InvalidTimeSpan));
        assert_eq!(disordered, creation(9, house));
    }
    // With name and window in order the stranger is refused as a stranger.
    let mut plain = creation(9, the_house(None));
    assert_eq!(create_plain(&mut plain, 50), Err(ErrorCodes::NotClubAdmin));
    let mut uncredited = creation(9, the_house(Some(ck(MANAGERS))));
    assert_eq!(create_plain(&mut uncredited, 50), Err(ErrorCodes::MetadataMismatch));
    // Standing is judged before the token configuration.
    let mut unfit = creation(9, the_house(None));
    let r = create_campaign(
        &mut unfit,
        String::from("Summer Cup"),
        None,
        1000,
        100,
        2,
        window(),
        None,
        stake_config(),
        50,
    );
    assert_eq!(r, Err(ErrorCodes::NotClubAdmin));
    // The empty name is accepted.
    let mut unnamed = creation(ADMIN, the_house(None));
    let r = create_campaign(
        &mut unnamed,
        String::new(),
        None,
        0,
        0,
        0,
        window(),
        None,
        None,
        50,
    );
    assert_eq!(r, Ok(CampaignFunding { creation_fee: 0, fund_amount: 0 }));
    assert_eq!(unnamed.campaign.rewards_available, 0);
}

#[test]
fn token_configuration_must_fit() {
    let make = |mint: Option<Mint>, vault: bool, config: Option<TokenCampaignConfig>| {
        let mut ctx = CreateCampaign {
            game_mint: mint,
            game_deposit_vault: if vault { Some(purse(CAMPAIGN, SPEND_MINT, 0)) } else { None },
            ..creation(ADMIN, the_house(None))
        };
        let r = create_campaign(
            &mut ctx,
            String::from("Summer Cup"),
            None,
            1000,
            100,
            2,
            window(),
            None,
            config,
            50,
        );
        (r, ctx)
    };
    let mint = Some(Mint { key: ck(SPEND_MINT), decimals: 2 });
    let (ok, ctx) = make(mint, true, stake_config());
    assert!(ok.is_ok());
    assert_eq!(ctx.campaign.token_config, stake_config());
    assert!(ctx.check_token_config(&stake_config()));

    assert_eq!(make(None, true, stake_config()).0, Err(ErrorCodes::InvalidInput));
    assert_eq!(make(mint, false, stake_config()).0, Err(ErrorCodes::InvalidInput));
    let pay = stake_config().map(|t| TokenCampaignConfig { token_use: TokenUse::Pay, ..t });
    assert_eq!(make(mint, false, pay).0, Err(ErrorCodes::InvalidInput));
    assert!(make(mint, true, pay).0.is_ok());
    let burn = stake_config().map(|t| TokenCampaignConfig { token_use: TokenUse::Burn, ..t });
    assert!(make(mint, false, burn).0.is_ok());
    assert!(make(mint, true, burn).0.is_ok());
    assert_eq!(make(None, false, burn).0, Err(ErrorCodes::InvalidInput));
    let other_mint = Some(Mint { key: ck(1), decimals: 2 });
    assert_eq!(make(other_mint, true, stake_config()).0, Err(ErrorCodes::InvalidInput));
    let other_decimals = Some(Mint { key: ck(SPEND_MINT), decimals: 3 });
    assert_eq!(make(other_decimals, true, stake_config()).0, Err(ErrorCodes::InvalidInput));
    // Without configuration nothing is asked of the token type.
    assert!(make(other_mint, false, None).0.is_ok());
}

#[test]
fn gating_is_recorded() {
    let gate = Some(NftCampaignConfig {
        collection: ck(90),
        max_player_energy: 5,
        energy_recharge_minutes: Some(10),
    });
    let mut ctx = creation(ADMIN, the_house(None));
    let r = create_campaign(
        &mut ctx,
        String::from("Summer Cup"),
        None,
        1000,
        100,
        2,
        window(),
        gate,
        None,
        50,
    );
    assert!(r.is_ok());
    assert_eq!(ctx.campaign.nft_config, gate);
    assert_eq!(ctx.campaign.max_energy(), 5);
}

#[test]
fn creation_refuses_counter_overflow() {
    let mut crowded =
        creation(ADMIN, House { open_campaigns: u16::MAX, ..the_house(None) });
    let untouched = crowded.clone();
    assert_eq!(create_plain(&mut crowded, 50), Err(ErrorCodes::ArithmeticOverflow));
    assert_eq!(crowded, untouched);
    let mut lifetime =
        creation(ADMIN, House { total_campaigns: u32::MAX, ..the_house(None) });
    let untouched = lifetime.clone();
    assert_eq!(create_plain(&mut lifetime, 50), Err(ErrorCodes::ArithmeticOverflow));
    assert_eq!(lifetime, untouched);
}

fn running_campaign(mode: Option<TokenUse>) -> Campaign {
    Campaign {
        creator: ck(9),
        house: ck(HOUSE),
        time_span: window(),
        rewards_available: 700,
        token_config: mode.map(|token_use| TokenCampaignConfig {
            spending_mint: ck(SPEND_MINT),
            energy_price: 25,
            spending_mint_decimals: 2,
            token_use,
        }),
        campaign_name: String::from("Summer Cup"),
        ..blank_campaign()
    }
}

fn closing(campaign: Campaign, creator: u8) -> CloseCampaign {
    CloseCampaign {
        campaign,
        house: the_house(None),
        creator: ck(creator),
        reward_vault: purse(CAMPAIGN, REWARD_MINT, 700),
        game_deposit_vault: None,
        deposit_withdrawal_account: None,
        game_mint: None,
        deposit_token_program: false,
    }
}

fn paid_closing() -> CloseCampaign {
    CloseCampaign {
        game_deposit_vault: Some(purse(CAMPAIGN, SPEND_MINT, 325)),
        deposit_withdrawal_account: Some(purse(9, SPEND_MINT, 0)),
        game_mint: Some(Mint { key: ck(SPEND_MINT), decimals: 2 }),
        deposit_token_program: true,
        ..closing(running_campaign(Some(TokenUse::Pay)), 9)
    }
}

#[test]
fn closing_sweeps_the_reward_escrow() {
    let mut ctx = closing(running_campaign(None), 9);
    assert_eq!(
        close_campaign(&mut ctx, 500, false),
        Ok(CampaignSweep { rewards: 700, deposits: None })
    );
    assert_eq!(ctx.house, House { open_campaigns: 1, ..the_house(None) });
    assert_eq!(ctx.campaign, running_campaign(None));
}

#[test]
fn closing_a_paid_campaign_sweeps_deposits_too() {
    let mut ctx = paid_closing();
    assert_eq!(
        close_campaign(&mut ctx, 500, false),
        Ok(CampaignSweep { rewards: 700, deposits: Some(325) })
    );
    let mut bare = closing(running_campaign(Some(TokenUse::Pay)), 9);
    let untouched = bare.clone();
    assert_eq!(close_campaign(&mut bare, 500, false), Err(ErrorCodes::InvalidInput));
    assert_eq!(bare, untouched);
    let mut half = CloseCampaign { deposit_token_program: false, ..paid_closing() };
    assert_eq!(close_campaign(&mut half, 500, false), Err(ErrorCodes::InvalidInput));
}

#[test]
fn closing_other_modes_names_no_deposits() {
    for mode in [None, Some(TokenUse::Stake), Some(TokenUse::Burn)] {
        let mut bare = closing(running_campaign(mode), 9);
        assert_eq!(
            close_campaign(&mut bare, 500, false),
            Ok(CampaignSweep { rewards: 700, deposits: None })
        );
        let mut named = CloseCampaign { campaign: running_campaign(mode), ..paid_closing() };
        assert_eq!(close_campaign(&mut named, 500, false), Err(ErrorCodes::InvalidInput));
    }
}

#[test]
fn closing_respects_the_window_unless_forced() {
    for now in [100, 150, 200] {
        let mut ctx = closing(running_campaign(None), 9);
        let untouched = ctx.clone();
        assert_eq!(close_campaign(&mut ctx, now, false), Err(ErrorCodes::ActiveCampaign));
        assert_eq!(ctx, untouched);
        assert!(close_campaign(&mut ctx, now, true).is_ok());
    }
    for now in [99, 201] {
        let mut ctx = closing(running_campaign(None), 9);
        assert!(close_campaign(&mut ctx, now, false).is_ok());
    }
}

#[test]
fn closing_waits_for_open_sessions() {
    let busy = Campaign { active_games: 1, reserved_rewards: 100, ..running_campaign(None) };
    let mut ctx = closing(busy.clone(), 9);
    assert_eq!(close_campaign(&mut ctx, 500, false), Err(ErrorCodes::ActiveCampaign));
    let mut forced = closing(busy, 9);
    let untouched = forced.clone();
    assert_eq!(close_campaign(&mut forced, 500, true), Err(ErrorCodes::ActiveCampaign));
    assert_eq!(forced, untouched);
}

#[test]
fn closing_is_for_the_creator() {
    let mut ctx = closing(running_campaign(None), ADMIN);
    let untouched = ctx.clone();
    assert_eq!(close_campaign(&mut ctx, 500, true), Err(ErrorCodes::NotClubAdmin));
    assert_eq!(ctx, untouched);
}

#[test]
fn closing_refuses_when_house_counts_none_open() {
    let mut ctx = CloseCampaign {
        house: House { open_campaigns: 0, ..the_house(None) },
        ..closing(running_campaign(None), 9)
    };
    let untouched = ctx.clone();
    assert_eq!(close_campaign(&mut ctx, 500, false), Err(ErrorCodes::ArithmeticOverflow));
    assert_eq!(ctx, untouched);
}
