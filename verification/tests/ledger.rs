use clubhouse::errors::ErrorCodes;
use clubhouse::pubkey::Pubkey;
use clubhouse::state::accounts::{
    Campaign, CampaignPlayer, House, HouseConfig, IdentityType, NftCampaignConfig,
    PlayerIdentity, StakeInfo, TimeSpan, TokenCampaignConfig, TokenUse,
};

fn ledger_key(n: u8) -> Pubkey {
    Pubkey::new_from_array([n; 32])
}

fn ledger_config() -> HouseConfig {
    HouseConfig {
        oracle_key: ledger_key(0),
        campaign_creation_fee: 50,
        campaign_manager_discount: 0,
        claim_fee: 3,
        rewards_tax: 0,
    }
}

fn ledger_campaign(available: u64, reserved: u64) -> Campaign {
    Campaign {
        auth_bump: 255,
        house: ledger_key(2),
        creator: ledger_key(3),
        manager_mint: None,
        reward_mint: ledger_key(4),
        reward_mint_decimals: 6,
        max_rewards_per_game: 100,
        rewards_claim_fee: 2,
        player_count: 0,
        active_games: 0,
        total_games: 0,
        time_span: TimeSpan { start_time: 0, end_time: 1_000 },
        house_config_snapshot: ledger_config(),
        nft_config: None,
        unclaimed_sol_fees: 0,
        _reserved_config: [0; 7],
        token_config: None,
        _reserved_for_token: [0; 3],
        rewards_available: available,
        reserved_rewards: reserved,
        campaign_name: String::from("Summer Cup"),
        uri: None,
    }
}

fn ledger_house() -> House {
    House {
        bump: 254,
        house_admin: ledger_key(5),
        manager_collection: None,
        house_currency: ledger_key(6),
        house_currency_decimals: 9,
        total_campaigns: 0,
        open_campaigns: 0,
        unique_players: 0,
        games_played: 0,
        unclaimed_sol_fees: 0,
        unclaimed_house_fees: 0,
        is_active: false,
        _reserved1: [0; 16],
        config: ledger_config(),
        _reserved2: [0; 16],
        house_name: String::new(),
    }
}

#[test]
fn reserve_adds_up_to_what_is_available() {
    let mut c = ledger_campaign(250, 0);
    assert_eq!(c.reserve(100), Ok(()));
    assert_eq!(c.reserved_rewards, 100);
    assert_eq!(c.reserve(150), Ok(()));
    assert_eq!(c.reserved_rewards, 250);
    assert_eq!(c.rewards_available, 250);
    assert_eq!(c.reserve(1), Err(ErrorCodes::RewardsUnavailable));
    assert_eq!(c.reserved_rewards, 250);
    assert_eq!(c.reserve(0), Ok(()));
    assert_eq!(c.reserved_rewards, 250);
}

#[test]
fn reserve_refuses_overflow() {
    let mut c = ledger_campaign(u64::MAX, u64::MAX - 1);
    assert_eq!(c.reserve(2), Err(ErrorCodes::RewardsUnavailable));
    assert_eq!(c, ledger_campaign(u64::MAX, u64::MAX - 1));
    assert_eq!(c.reserve(1), Ok(()));
    assert_eq!(c.reserved_rewards, u64::MAX);
}

#[test]
fn release_saturates_at_zero() {
    let mut c = ledger_campaign(250, 120);
    c.release(100);
    assert_eq!(c.reserved_rewards, 20);
    c.release(100);
    assert_eq!(c.reserved_rewards, 0);
    c.release(100);
    assert_eq!(c.reserved_rewards, 0);
    assert_eq!(c.rewards_available, 250);
}

#[test]
fn settle_debits_the_actual_payout() {
    let mut c = ledger_campaign(1000, 900);
    assert_eq!(c.settle(30), Ok(()));
    assert_eq!(c.rewards_available, 970);
    assert_eq!(c.reserved_rewards, 900);
    assert_eq!(c.settle(70), Ok(()));
    assert_eq!(c.rewards_available, 900);
    assert_eq!(c.settle(1), Err(ErrorCodes::InsufficientFunds));
    assert_eq!(c.rewards_available, 900);
    assert_eq!(c.settle(0), Ok(()));
}

#[test]
fn settle_refuses_on_insolvent_ledger() {
    let mut c = ledger_campaign(10, 20);
    assert_eq!(c.settle(0), Err(ErrorCodes::InsufficientFunds));
    assert_eq!(c, ledger_campaign(10, 20));
    let mut d = ledger_campaign(10, 0);
    assert_eq!(d.settle(11), Err(ErrorCodes::InsufficientFunds));
    assert_eq!(d.settle(10), Ok(()));
    assert_eq!(d.rewards_available, 0);
}

#[test]
fn ledger_stays_solvent_over_a_mixed_run() {
    let mut c = ledger_campaign(500, 0);
    let steps: Vec<(u8, u64)> = vec![
        (0, 100), (0, 100), (1, 100), (2, 40), (0, 400), (0, 300), (2, 200), (1, 500),
        (2, 160), (0, 1), (0, 100), (2, 100), (1, 1),
    ];
    for (kind, amount) in steps {
        match kind {
            0 => {
                let _ = c.reserve(amount);
            }
            1 => c.release(amount),
            _ => {
                let _ = c.settle(amount);
            }
        }
        assert!(c.reserved_rewards <= c.rewards_available);
    }
    assert_eq!(c.rewards_available, 200);
    assert_eq!(c.reserved_rewards, 100);
}

#[test]
fn max_energy_follows_gating() {
    let mut c = ledger_campaign(0, 0);
    assert_eq!(c.max_energy(), 0);
    c.nft_config = Some(NftCampaignConfig {
        collection: ledger_key(9),
        max_player_energy: 7,
        energy_recharge_minutes: None,
    });
    assert_eq!(c.max_energy(), 7);
}

#[test]
fn fresh_stake_only_in_stake_mode() {
    let mut c = ledger_campaign(0, 0);
    assert_eq!(c.fresh_stake(), None);
    for mode in [TokenUse::Burn, TokenUse::Pay] {
        c.token_config = Some(TokenCampaignConfig {
            spending_mint: ledger_key(8),
            energy_price: 25,
            spending_mint_decimals: 2,
            token_use: mode,
        });
        assert_eq!(c.fresh_stake(), None);
    }
    c.token_config = Some(TokenCampaignConfig {
        spending_mint: ledger_key(8),
        energy_price: 25,
        spending_mint_decimals: 2,
        token_use: TokenUse::Stake,
    });
    assert_eq!(
        c.fresh_stake(),
        Some(StakeInfo {
            amount: 0,
            campaign_end_time: 1_000,
            staked_mint: ledger_key(8),
            staked_mint_decimals: 2,
            campaign_name: String::from("Summer Cup"),
        })
    );
}

#[test]
fn new_player_is_full_and_out_of_session() {
    let mut c = ledger_campaign(0, 0);
    c.nft_config = Some(NftCampaignConfig {
        collection: ledger_key(9),
        max_player_energy: 7,
        energy_recharge_minutes: Some(10),
    });
    let identity = PlayerIdentity { identity_type: IdentityType::Nft, pubkey: ledger_key(11) };
    let p = CampaignPlayer::new(identity, &c, ledger_key(1), 777);
    assert_eq!(
        p,
        CampaignPlayer {
            player_identity: identity,
            campaign: ledger_key(1),
            house: ledger_key(2),
            energy: 7,
            recharge_start_time: 777,
            game_start_time: 0,
            games_played: 0,
            in_game: false,
            rewards_claimed: 0,
            stake_info: None,
        }
    );
    let plain = ledger_campaign(0, 0);
    let user = PlayerIdentity { identity_type: IdentityType::User, pubkey: ledger_key(12) };
    assert_eq!(CampaignPlayer::new(user, &plain, ledger_key(1), 5).energy, 0);
}

#[test]
fn house_initialize_sets_fields_and_activates() {
    let mut h = ledger_house();
    let config = HouseConfig { claim_fee: 9, ..ledger_config() };
    assert_eq!(
        h.initialize(
            ledger_key(20),
            Some(ledger_key(21)),
            ledger_key(22),
            6,
            config,
            String::from("Club One"),
            17,
        ),
        Ok(())
    );
    assert_eq!(h.house_admin, ledger_key(20));
    assert_eq!(h.manager_collection, Some(ledger_key(21)));
    assert_eq!(h.house_currency, ledger_key(22));
    assert_eq!(h.house_currency_decimals, 6);
    assert_eq!(h.config, config);
    assert_eq!(h.house_name, "Club One");
    assert_eq!(h.bump, 17);
    assert!(h.is_active);
    assert_eq!(h.total_campaigns, 0);
}

#[test]
fn house_initialize_refuses_bad_name() {
    let mut h = ledger_house();
    assert_eq!(
        h.initialize(
            ledger_key(20),
            None,
            ledger_key(22),
            6,
            ledger_config(),
            String::from("abc"),
            17,
        ),
        Err(ErrorCodes::StringTooShort)
    );
    assert_eq!(h, ledger_house());
}

#[test]
fn house_counts_campaigns() {
    let mut h = ledger_house();
    assert_eq!(h.remove_campaign(), Err(ErrorCodes::ArithmeticOverflow));
    assert_eq!(h.add_campaign(), Ok(()));
    assert_eq!(h.add_campaign(), Ok(()));
    assert_eq!((h.total_campaigns, h.open_campaigns), (2, 2));
    assert_eq!(h.remove_campaign(), Ok(()));
    assert_eq!((h.total_campaigns, h.open_campaigns), (2, 1));
    h.open_campaigns = u16::MAX;
    assert_eq!(h.add_campaign(), Err(ErrorCodes::ArithmeticOverflow));
    assert_eq!((h.total_campaigns, h.open_campaigns), (2, u16::MAX));
    h.open_campaigns = 0;
    h.total_campaigns = u32::MAX;
    assert_eq!(h.add_campaign(), Err(ErrorCodes::ArithmeticOverflow));
    assert_eq!((h.total_campaigns, h.open_campaigns), (u32::MAX, 0));
}

#[test]
fn house_update_replaces_config_only() {
    let mut h = ledger_house();
    let config = HouseConfig { rewards_tax: 5, campaign_creation_fee: 1, ..ledger_config() };
    h.update(config);
    assert_eq!(h, House { config, ..ledger_house() });
}

#[test]
fn time_span_window() {
    let span = TimeSpan { start_time: 10, end_time: 20 };
    assert!(span.is_valid());
    assert!(!span.is_active(9));
    assert!(span.is_active(10));
    assert!(span.is_active(20));
    assert!(!span.is_active(21));
    assert!(!span.is_expired(20));
    assert!(span.is_expired(21));
    assert!(span.is_pending(9));
    assert!(!span.is_pending(10));
    assert!(!TimeSpan { start_time: 5, end_time: 5 }.is_valid());
    assert!(!TimeSpan { start_time: 6, end_time: 5 }.is_valid());
}
