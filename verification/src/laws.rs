use vstd::prelude::*;
use vstd::arithmetic::div_mod::{lemma_div_is_ordered, lemma_hoist_over_denominator};
use crate::energy::{lemma_trunc_div_bounds, recharged, trunc_div};
use crate::errors::{ErrorCategory, ErrorCodes};
use crate::instructions::campaign::close_campaign::{close_campaign_spec, CloseCampaign};
use crate::instructions::campaign::create_campaign::{
    create_campaign_spec,
    CampaignFunding,
    CreateCampaign,
};
use crate::instructions::game::end::{end_game_spec, EndGame, Settlement};
use crate::instructions::game::start::{
    entry_payment,
    stake_added,
    stake_after,
    start_game_spec,
    EntryPayment,
    StartGame,
};
use crate::instructions::player::claim_stake::{claim_stake_spec, ClaimStake};
use crate::state::common::validate_string_spec;
use crate::state::accounts::{
    Campaign,
    CampaignPlayer,
    NftCampaignConfig,
    PlayerIdentity,
    TimeSpan,
    TokenCampaignConfig,
};

verus! {

/// Reserving, releasing and settling each leave a campaign solvent: a
/// reservation or a settlement that succeeds makes it so, and a release keeps it
/// so.
pub proof fn lemma_ledger_solvent(campaign: Campaign, amount: u64)
    ensures
        campaign.spec_reserve(amount) matches Some(c) ==> c.solvent(),
        campaign.spec_settle(amount) matches Some(c) ==> c.solvent(),
        campaign.solvent() ==> campaign.spec_release(amount).solvent(),
{
}

/// A campaign that has been created is solvent, and nothing of it is reserved.
pub proof fn lemma_created_solvent(
    creation: CreateCampaign,
    campaign_name: String,
    uri: Option<String>,
    fund_amount: u64,
    max_rewards_per_game: u64,
    player_claim_price: u64,
    time_span: TimeSpan,
    nft_campaign_config: Option<NftCampaignConfig>,
    token_campaign_config: Option<TokenCampaignConfig>,
    now: i64,
)
    ensures
        create_campaign_spec(
            creation,
            campaign_name,
            uri,
            fund_amount,
            max_rewards_per_game,
            player_claim_price,
            time_span,
            nft_campaign_config,
            token_campaign_config,
            now,
        ) matches Ok((next, _)) ==> next.campaign.solvent()
            && next.campaign.reserved_for_open_sessions(),
{
    assert(0 * max_rewards_per_game == 0);
}

/// A session start that succeeds leaves the campaign solvent. Where what was
/// reserved before was what the open sessions had been promised, it is so again
/// with the new session counted.
pub proof fn lemma_started_solvent(start: StartGame, now: i64)
    ensures
        start_game_spec(start, now) matches Ok((next, _)) ==> next.campaign.solvent() && (
        start.campaign.reserved_for_open_sessions()
            ==> next.campaign.reserved_for_open_sessions()),
{
    if let Ok((next, _)) = start_game_spec(start, now) {
        if start.campaign.reserved_for_open_sessions() {
            let sessions = start.campaign.active_games as int;
            let promise = start.campaign.max_rewards_per_game as int;
            assert((sessions + 1) * promise == sessions * promise + promise)
                by (nonlinear_arith);
        }
    }
}

/// A session end that succeeds leaves a solvent campaign solvent, and leaves the
/// player's identity and stake as they were. Where what was reserved before was
/// what the open sessions had been promised, it is so again without the session
/// that ended.
pub proof fn lemma_ended_solvent(end: EndGame, amount_won: u64)
    requires
        end.campaign.solvent(),
    ensures
        end_game_spec(end, amount_won) matches Ok((next, _)) ==> next.campaign.solvent()
            && next.campaign_player.player_identity == end.campaign_player.player_identity
            && next.campaign_player.stake_info == end.campaign_player.stake_info && (
        end.campaign.reserved_for_open_sessions()
            ==> next.campaign.reserved_for_open_sessions()),
{
    if let Ok((next, _)) = end_game_spec(end, amount_won) {
        if end.campaign.reserved_for_open_sessions() {
            let sessions = end.campaign.active_games as int;
            let promise = end.campaign.max_rewards_per_game as int;
            if sessions > 0 {
                assert((sessions - 1) * promise == sessions * promise - promise)
                    by (nonlinear_arith);
                assert(sessions * promise >= promise) by (nonlinear_arith)
                    requires
                        sessions >= 1,
                        promise >= 0,
                ;
            } else {
                assert(0 * promise == 0);
            }
        }
    }
}

/// The closing of a campaign leaves the campaign's record as it was, and so
/// leaves a solvent campaign solvent.
pub proof fn lemma_closed_solvent(close: CloseCampaign, now: i64, force: bool)
    requires
        close.campaign.solvent(),
    ensures
        close_campaign_spec(close, now, force) matches Ok((next, _)) ==> next.campaign
            == close.campaign && next.campaign.solvent(),
{
}

/// A player's energy stays within what the campaign allows: a record that is new
/// is full, a session start that succeeds keeps a record within bounds, and a
/// session end or a stake claim leaves the energy and the bound as they were.
pub proof fn lemma_energy_within(
    start: StartGame,
    now: i64,
    end: EndGame,
    amount_won: u64,
    claim: ClaimStake,
)
    requires
        start.campaign_player.player_identity.identity_type is Unset
            || start.campaign_player.energy_within(&start.campaign),
    ensures
        forall|identity: PlayerIdentity|
            (#[trigger] CampaignPlayer::spec_new(
                identity,
                &start.campaign,
                start.campaign_key,
                now,
            )).energy_within(&start.campaign),
        start_game_spec(start, now) matches Ok((next, _)) ==> next.campaign_player.energy_within(
            &next.campaign,
        ),
        end_game_spec(end, amount_won) matches Ok((next, _)) ==> next.campaign_player.energy
            == end.campaign_player.energy && next.campaign.spec_max_energy()
            == end.campaign.spec_max_energy(),
        claim_stake_spec(claim) matches Ok((next, _)) ==> next.campaign_player.energy
            == claim.campaign_player.energy,
{
}

/// A recharge of a record within the campaign's bound succeeds and leaves the
/// energy between what it was and the bound, and the tick between what it was and
/// now: for a period of at least a minute and a clock that is not behind the tick,
/// where the period in seconds and the time since the tick fit the clock's range.
pub proof fn lemma_recharge_within_bounds(
    player: CampaignPlayer,
    config: NftCampaignConfig,
    now: i64,
)
    requires
        player.energy <= config.max_player_energy,
        player.recharge_in_range(config, now),
    ensures
        player.spec_recharge_energy(Some(config), now) matches Some(next) && player.energy
            <= next.energy <= config.max_player_energy && player.recharge_start_time
            <= next.recharge_start_time <= now,
{
    if let Some(minutes) = config.energy_recharge_minutes {
        lemma_trunc_div_bounds(
            now - player.recharge_start_time,
            minutes * CampaignPlayer::SEC_PER_MINUTE,
        );
    }
}

/// To recharge at `t1` and then at `t2` is to recharge at `t2`: where the first
/// recharge gives a state, the second gives from it what a single recharge at
/// `t2` gives; where the first fails, so does the single one. With a recharge
/// period this is so for a period that is not negative, a clock that is not
/// behind the tick, and a span to `t2` that fits the clock's range.
pub proof fn lemma_recharge_twice(
    energy: u8,
    last_tick: i64,
    recharge_minutes: Option<i64>,
    max_energy: u8,
    t1: i64,
    t2: i64,
)
    requires
        t1 < t2,
        recharge_minutes matches Some(minutes) ==> {
            &&& minutes >= 0
            &&& last_tick <= t1
            &&& t2 - last_tick <= i64::MAX
        },
    ensures
        match recharged(energy, last_tick, recharge_minutes, max_energy, t1) {
            Some((e1, k1)) => recharged(e1, k1, recharge_minutes, max_energy, t2) == recharged(
                energy,
                last_tick,
                recharge_minutes,
                max_energy,
                t2,
            ),
            None => recharged(energy, last_tick, recharge_minutes, max_energy, t2) is None,
        },
{
    if let Some(minutes) = recharge_minutes {
        let period: int = minutes * 60;
        if 0 < period <= i64::MAX {
            let x1: int = t1 - last_tick;
            let x2: int = t2 - last_tick;
            let u1: int = trunc_div(x1, period);
            let u2: int = trunc_div(x2, period);
            // No fewer periods fit in the longer span; a player full at `t1` is so
            // full at `t2` either way.
            lemma_trunc_div_bounds(x1, period);
            lemma_div_is_ordered(x1, x2, period);
            if energy + u1 < max_energy {
                // From the new tick `k1` the periods still to count are `u2 - u1`,
                // and they lead to the same tick as `u2` periods from the old one.
                let k1: int = last_tick + u1 * period;
                lemma_hoist_over_denominator(x2, -u1, period as nat);
                assert(x2 + (-u1) * period == t2 - k1) by (nonlinear_arith)
                    requires
                        x2 == t2 - last_tick,
                        k1 == last_tick + u1 * period,
                ;
                assert(k1 + (u2 - u1) * period == last_tick + u2 * period) by (nonlinear_arith)
                    requires
                        k1 == last_tick + u1 * period,
                ;
            }
        }
    }
}

/// The same of a player's record: to bring its energy up to `t1` and then to
/// `t2` is to bring it up to `t2`.
pub proof fn lemma_recharge_energy_twice(
    player: CampaignPlayer,
    energy_config: Option<NftCampaignConfig>,
    t1: i64,
    t2: i64,
)
    requires
        t1 < t2,
        energy_config matches Some(config) ==> (config.energy_recharge_minutes is Some ==> {
            &&& config.energy_recharge_minutes->0 >= 0
            &&& player.recharge_start_time <= t1
            &&& t2 - player.recharge_start_time <= i64::MAX
        }),
    ensures
        match player.spec_recharge_energy(energy_config, t1) {
            Some(first) => first.spec_recharge_energy(energy_config, t2)
                == player.spec_recharge_energy(energy_config, t2),
            None => player.spec_recharge_energy(energy_config, t2) is None,
        },
{
    if let Some(config) = energy_config {
        lemma_recharge_twice(
            player.energy,
            player.recharge_start_time,
            config.energy_recharge_minutes,
            config.max_player_energy,
            t1,
            t2,
        );
    }
}

/// A session end without an open session is refused, and what refuses it is the
/// session's state, whatever else is offered; an end that succeeds closes the
/// session, so that a second end is refused in the same way.
pub proof fn lemma_end_needs_open_session(end: EndGame, amount_won: u64, again: u64)
    ensures
        !end.campaign_player.in_game ==> end_game_spec(end, amount_won) == Err::<
            (EndGame, Settlement),
            ErrorCodes,
        >(ErrorCodes::PlayerNotInGame),
        ErrorCodes::PlayerNotInGame.spec_category() == ErrorCategory::Lifecycle,
        end_game_spec(end, amount_won) matches Ok((next, _)) ==> end.campaign_player.in_game
            && end_game_spec(next, again) is Err && end_game_spec(next, again)->Err_0
            == ErrorCodes::PlayerNotInGame,
{
}

/// A session end is refused for want of the oracle's signature only where the
/// campaign has an oracle and that oracle has not signed. Where a session is open,
/// the identity owns the record and the record is of this campaign, it is refused
/// so exactly then; a campaign without oracle takes an end with or without a
/// second signature.
pub proof fn lemma_oracle_refusal(end: EndGame, amount_won: u64)
    ensures
        end_game_spec(end, amount_won) == Err::<(EndGame, Settlement), ErrorCodes>(
            ErrorCodes::OracleMismatch,
        ) ==> end.oracle_configured() && end.oracle != Some(
            end.campaign.house_config_snapshot.oracle_key,
        ),
        end.campaign_player.in_game && end.spec_get_player_identity() == Ok::<
            PlayerIdentity,
            ErrorCodes,
        >(end.campaign_player.player_identity) && end.campaign_player.campaign
            == end.campaign_key ==> (end_game_spec(end, amount_won) == Err::<
            (EndGame, Settlement),
            ErrorCodes,
        >(ErrorCodes::OracleMismatch) <==> end.oracle_configured() && end.oracle != Some(
            end.campaign.house_config_snapshot.oracle_key,
        )),
        ErrorCodes::OracleMismatch.spec_category() == ErrorCategory::Authorization,
{
}

/// Only the house's admin and a holder of a token of the house's manager
/// collection create a campaign. Any other wallet is refused whatever else it
/// offers; where the name and the window pass, in a house without manager
/// collection, it is refused for want of authority. A creation that succeeds
/// costs no fee.
pub proof fn lemma_only_authorized_create(
    creation: CreateCampaign,
    campaign_name: String,
    uri: Option<String>,
    fund_amount: u64,
    max_rewards_per_game: u64,
    player_claim_price: u64,
    time_span: TimeSpan,
    nft_campaign_config: Option<NftCampaignConfig>,
    token_campaign_config: Option<TokenCampaignConfig>,
    now: i64,
)
    ensures
        ({
            let outcome = create_campaign_spec(
                creation,
                campaign_name,
                uri,
                fund_amount,
                max_rewards_per_game,
                player_claim_price,
                time_span,
                nft_campaign_config,
                token_campaign_config,
                now,
            );
            &&& creation.signer != creation.house.house_admin && !creation.holds_manager_token()
                ==> outcome is Err
            &&& validate_string_spec(campaign_name@) is Ok && !time_span.spec_is_expired(now)
                && time_span.spec_is_valid() && creation.signer != creation.house.house_admin
                && creation.house.manager_collection is None ==> outcome == Err::<
                (CreateCampaign, CampaignFunding),
                ErrorCodes,
            >(ErrorCodes::NotClubAdmin)
            &&& outcome matches Ok((next, funding)) ==> funding.creation_fee == 0
                && next.house.unclaimed_house_fees == creation.house.unclaimed_house_fees
        }),
        ErrorCodes::NotClubAdmin.spec_category() == ErrorCategory::Authorization,
{
}

/// A campaign under a well-formed name is refused for its window before anything
/// else is looked at: with `CampaignExpired` where the window is over, else with
/// `InvalidTimeSpan` where it does not begin before it ends. A window that is
/// neither brings neither refusal.
pub proof fn lemma_window_refusals(
    creation: CreateCampaign,
    campaign_name: String,
    uri: Option<String>,
    fund_amount: u64,
    max_rewards_per_game: u64,
    player_claim_price: u64,
    time_span: TimeSpan,
    nft_campaign_config: Option<NftCampaignConfig>,
    token_campaign_config: Option<TokenCampaignConfig>,
    now: i64,
)
    requires
        validate_string_spec(campaign_name@) is Ok,
    ensures
        ({
            let outcome = create_campaign_spec(
                creation,
                campaign_name,
                uri,
                fund_amount,
                max_rewards_per_game,
                player_claim_price,
                time_span,
                nft_campaign_config,
                token_campaign_config,
                now,
            );
            let expired = Err::<(CreateCampaign, CampaignFunding), ErrorCodes>(
                ErrorCodes::CampaignExpired,
            );
            let disordered = Err::<(CreateCampaign, CampaignFunding), ErrorCodes>(
                ErrorCodes::InvalidTimeSpan,
            );
            &&& time_span.end_time < now ==> outcome == expired
            &&& time_span.end_time >= now && time_span.start_time >= time_span.end_time
                ==> outcome == disordered
            &&& time_span.end_time >= now && time_span.start_time < time_span.end_time
                ==> outcome != expired && outcome != disordered
        }),
{
}

/// All that a session start asks for before it reserves is in order: the identity
/// resolves and owns the record, no session is open, the holdings for the payment
/// are at hand, the campaign has not expired, the energy suffices, and neither the
/// energy nor the stake nor a counter leaves its range.
pub open spec fn start_ready(start: StartGame, now: i64) -> bool {
    match start.spec_get_player_identity() {
        Err(_) => false,
        Ok(identity) => {
            let joined = start.joined(identity, now);
            let fresh = start.campaign_player.player_identity.identity_type is Unset;
            &&& !start.campaign_player.in_game
            &&& joined.player_identity == identity
            &&& start.can_pay(entry_payment(&start.campaign, identity))
            &&& !start.campaign.time_span.spec_is_expired(now)
            &&& joined.spec_recharge_energy(start.campaign.nft_config, now) matches Some(recharged)
            &&& recharged.spec_spend_energy(1) matches Ok(spent)
            &&& stake_after(
                spent.stake_info,
                &start.campaign,
                stake_added(&start.campaign, identity),
            ) is Some
            &&& start.campaign.active_games < u32::MAX
            &&& fresh ==> start.house.unique_players < u32::MAX && start.campaign.player_count
                < u32::MAX
        },
    }
}

/// With all else in order a session start succeeds exactly when what is reserved
/// and the highest payout of one session fit together in what is in escrow, and
/// is refused with `RewardsUnavailable` when they do not. A start that succeeds
/// reserves just that payout and leaves the escrow as it was.
pub proof fn lemma_start_when_reservation_fits(start: StartGame, now: i64)
    requires
        start_ready(start, now),
    ensures
        ({
            let outcome = start_game_spec(start, now);
            let fits = start.campaign.reserved_rewards + start.campaign.max_rewards_per_game
                <= start.campaign.rewards_available;
            &&& outcome is Ok <==> fits
            &&& !fits ==> outcome == Err::<(StartGame, EntryPayment), ErrorCodes>(
                ErrorCodes::RewardsUnavailable,
            )
            &&& outcome matches Ok((next, _)) ==> next.campaign.reserved_rewards
                == start.campaign.reserved_rewards + start.campaign.max_rewards_per_game
                && next.campaign.rewards_available == start.campaign.rewards_available
                && next.campaign.reserved_rewards <= next.campaign.rewards_available
        }),
{
}

/// A session start that succeeds opens the session, and a record that is new
/// has none open: only a start makes an end possible.
pub proof fn lemma_start_opens_session(start: StartGame, now: i64)
    ensures
        start_game_spec(start, now) matches Ok((next, _)) ==> !start.campaign_player.in_game
            && next.campaign_player.in_game,
        forall|identity: PlayerIdentity|
            !(#[trigger] CampaignPlayer::spec_new(
                identity,
                &start.campaign,
                start.campaign_key,
                now,
            )).in_game,
{
}

/// The session starts `starts`, each at its time in `times`, are `n` starts of
/// one plain wallet in stake mode at the price `price`, each of which succeeds:
/// the first finds a record that was never used, and each later one finds the
/// identity and the stake that the one before it left.
pub open spec fn stake_starts(starts: Seq<StartGame>, times: Seq<i64>, price: u64, n: nat) -> bool
    decreases n,
{
    if n == 0 {
        true
    } else {
        let i = n - 1;
        &&& stake_starts(starts, times, price, i as nat)
        &&& i < starts.len()
        &&& i < times.len()
        &&& starts[i].campaign.stake_price() == Some(price)
        &&& starts[i].campaign.nft_config is None
        &&& start_game_spec(starts[i], times[i]) is Ok
        &&& if i == 0 {
            starts[i].campaign_player.player_identity.identity_type is Unset
        } else {
            let before = start_game_spec(starts[i - 1], times[i - 1])->Ok_0.0.campaign_player;
            &&& starts[i].campaign_player.player_identity == before.player_identity
            &&& starts[i].campaign_player.stake_info == before.stake_info
        }
    }
}

/// After `n` session starts in stake mode at the price `price` the player has
/// staked `n * price`.
pub proof fn lemma_stake_accumulates(starts: Seq<StartGame>, times: Seq<i64>, price: u64, n: nat)
    requires
        n > 0,
        stake_starts(starts, times, price, n),
    ensures
        start_game_spec(starts[n - 1], times[n - 1]) matches Ok((last, _))
            && last.campaign_player.stake_info is Some && last.campaign_player.staked() == n
            * price && !(last.campaign_player.player_identity.identity_type is Unset),
    decreases n,
{
    if n > 1 {
        lemma_stake_accumulates(starts, times, price, (n - 1) as nat);
        assert((n - 1) * price + price == n * price) by (nonlinear_arith);
    } else {
    }
}

/// What is staked comes back whole: after `n` session starts in stake mode at
/// the price `price`, a claim, once the session is over, pays exactly `n * price`
/// to the wallet that claims and leaves no stake record.
pub proof fn lemma_stake_round_trip(
    starts: Seq<StartGame>,
    times: Seq<i64>,
    price: u64,
    n: nat,
    claim: ClaimStake,
)
    requires
        n > 0,
        stake_starts(starts, times, price, n),
        !claim.campaign_player.in_game,
        claim.campaign_player.stake_info == start_game_spec(
            starts[n - 1],
            times[n - 1],
        )->Ok_0.0.campaign_player.stake_info,
    ensures
        claim_stake_spec(claim) matches Ok((next, paid)) && paid.amount == n * price
            && paid.recipient == claim.user && next.campaign_player.stake_info is None,
{
    lemma_stake_accumulates(starts, times, price, n);
}

} // verus!
