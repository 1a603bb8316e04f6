use vstd::prelude::*;
use crate::state::accounts::CampaignPlayer;

verus! {

/// The quotient of `x` by `d` rounded toward zero.
pub open spec fn trunc_div(x: int, d: int) -> int
    recommends
        d != 0,
{
    if x >= 0 && d > 0 {
        x / d
    } else if x < 0 && d < 0 {
        (-x) / (-d)
    } else if x < 0 {
        -((-x) / d)
    } else {
        -(x / (-d))
    }
}

/// The energy level and recharge tick that a player has at `now`, or `None` where
/// the computation leaves the range of its types or the recharge period is zero.
///
/// Without a recharge period nothing changes. Otherwise one unit returns for each
/// whole period since `last_tick`. A player who reaches `max_energy` is full from
/// `now` on; one who does not keeps the unfinished part of the running period.
pub open spec fn recharged(
    energy: u8,
    last_tick: i64,
    recharge_minutes: Option<i64>,
    max_energy: u8,
    now: i64,
) -> Option<(u8, i64)> {
    match recharge_minutes {
        None => Some((energy, last_tick)),
        Some(minutes) => {
            let period = minutes * CampaignPlayer::SEC_PER_MINUTE;
            let elapsed = now - last_tick;
            if period == 0 || period < i64::MIN || period > i64::MAX || elapsed < i64::MIN
                || elapsed > i64::MAX {
                None
            } else {
                let units = trunc_div(elapsed, period);
                if energy + units >= max_energy {
                    Some((max_energy, now))
                } else if energy + units < 0 {
                    None
                } else {
                    Some(((energy + units) as u8, (last_tick + units * period) as i64))
                }
            }
        },
    }
}

/// The whole periods that fit in a span lie between zero and the span.
pub proof fn lemma_trunc_div_bounds(x: int, d: int)
    requires
        d != 0,
    ensures
        x >= 0 ==> 0 <= trunc_div(x, d) * d <= x,
        x <= 0 ==> x <= trunc_div(x, d) * d <= 0,
        (d >= 60 || d <= -60) && x >= 0 ==> -x <= trunc_div(x, d) * 60 <= x,
        (d >= 60 || d <= -60) && x <= 0 ==> x <= trunc_div(x, d) * 60 <= -x,
{
    let ax: int = if x >= 0 { x } else { -x };
    let ad: int = if d > 0 { d } else { -d };
    let q: int = ax / ad;
    assert(0 <= q * ad <= ax && (ad >= 60 ==> q * 60 <= ax)) by (nonlinear_arith)
        requires
            ax >= 0,
            ad > 0,
            q == ax / ad,
    ;
    assert(q * ad == (-q) * (-ad) && -(q * ad) == (-q) * ad && -(q * ad) == q * (-ad))
        by (nonlinear_arith);
}

/// Brings an energy level and its tick up to `now`: computes `recharged`.
#[verifier::when_used_as_spec(recharged)]
pub fn recharge(
    energy: u8,
    last_tick: i64,
    recharge_minutes: Option<i64>,
    max_energy: u8,
    now: i64,
) -> (r: Option<(u8, i64)>)
    ensures
        r == recharged(energy, last_tick, recharge_minutes, max_energy, now),
{
    let minutes: i64 = match recharge_minutes {
        None => {
            return Some((energy, last_tick));
        },
        Some(m) => m,
    };
    let period: i64 = match minutes.checked_mul(CampaignPlayer::SEC_PER_MINUTE) {
        None => {
            return None;
        },
        Some(p) => p,
    };
    let elapsed: i64 = match now.checked_sub(last_tick) {
        None => {
            return None;
        },
        Some(e) => e,
    };
    if period == 0 {
        return None;
    }
    proof {
        lemma_trunc_div_bounds(elapsed as int, period as int);
    }
    let units: i64 = match elapsed.checked_div(period) {
        None => {
            return None;
        },
        Some(u) => u,
    };
    let estimated: i64 = energy as i64 + units;
    if estimated >= max_energy as i64 {
        Some((max_energy, now))
    } else if estimated < 0 {
        None
    } else {
        let tick: i64 = last_tick + units * period;
        Some((estimated as u8, tick))
    }
}

} // verus!
