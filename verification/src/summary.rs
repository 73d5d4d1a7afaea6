//! The compact per-tick summary shown in the diagnostics panel.

use vstd::prelude::*;

use crate::model::GameState;
use crate::ui::{RawMap, RawPlayer, RawRound, RawSummary};

verus! {

/// `r` summarises `state`: which blocks are present, how many players and
/// grenades there are, and the main fields of the map, round and local
/// player blocks.
pub open spec fn is_summary_of(state: GameState, r: RawSummary) -> bool {
    &&& r.has_map == state.map is Some
    &&& r.has_round == state.round is Some
    &&& r.has_player == state.player is Some
    &&& r.allplayers_len == state.allplayers.len()
    &&& r.grenades_len == state.grenade_count
    &&& r.has_bomb == state.has_bomb
    &&& match (r.map, state.map) {
        (Some(rm), Some(m)) => {
            &&& rm.name@ == m.name@
            &&& rm.mode@ == m.mode@
            &&& rm.phase == m.phase
            &&& rm.round == m.round
            &&& rm.ct_score == m.score_ct
            &&& rm.t_score == m.score_t
        },
        (None, None) => true,
        _ => false,
    }
    &&& match (r.round, state.round) {
        (Some(rr), Some(sr)) => rr.phase == sr.phase && rr.bomb == sr.bomb && rr.win_team
            == sr.win_team,
        (None, None) => true,
        _ => false,
    }
    &&& match (r.player, state.player) {
        (Some(rp), Some(p)) => {
            &&& rp.steamid@ == p.steamid@
            &&& rp.name@ == p.name@
            &&& rp.team == p.team
            &&& rp.activity == p.activity
            &&& rp.health == p.health
            &&& rp.armor == p.armor
            &&& rp.money == p.money
            &&& rp.round_kills == p.round_kills
            &&& rp.round_hs == p.round_killhs
            &&& rp.match_kills == p.kills
            &&& rp.match_deaths == p.deaths
            &&& rp.weapons == p.weapons.len()
        },
        (None, None) => true,
        _ => false,
    }
}

/// Compact summary of a game state for the diagnostics panel.
pub fn raw_summary(state: &GameState) -> (r: RawSummary)
    ensures
        is_summary_of(*state, r),
{
    let map = match &state.map {
        Some(m) => Some(
            RawMap {
                name: m.name.clone(),
                mode: m.mode.clone(),
                phase: m.phase,
                round: m.round,
                ct_score: m.score_ct,
                t_score: m.score_t,
            },
        ),
        None => None,
    };
    let round = match &state.round {
        Some(r) => Some(RawRound { phase: r.phase, bomb: r.bomb, win_team: r.win_team }),
        None => None,
    };
    let player = match &state.player {
        Some(p) => Some(
            RawPlayer {
                steamid: p.steamid.clone(),
                name: p.name.clone(),
                team: p.team,
                activity: p.activity,
                health: p.health,
                armor: p.armor,
                money: p.money,
                round_kills: p.round_kills,
                round_hs: p.round_killhs,
                match_kills: p.kills,
                match_deaths: p.deaths,
                weapons: p.weapons.len(),
            },
        ),
        None => None,
    };
    RawSummary {
        has_map: state.map.is_some(),
        has_round: state.round.is_some(),
        has_player: state.player.is_some(),
        allplayers_len: state.allplayers.len(),
        grenades_len: state.grenade_count,
        has_bomb: state.has_bomb,
        map,
        round,
        player,
    }
}

/// A diagnostics summary reports the state as it is: each presence flag is
/// set exactly when its block is present; the counts are the numbers of
/// known players and of grenades; and the map, round and local-player parts
/// carry each field from its own source field (match kills from kills, match
/// deaths from deaths, round headshots from round headshot kills, weapons as
/// the number of weapon slots).
pub proof fn lemma_summary_reports_state(state: GameState, r: RawSummary)
    requires
        is_summary_of(state, r),
    ensures
        r.has_map <==> state.map is Some,
        r.has_round <==> state.round is Some,
        r.has_player <==> state.player is Some,
        r.has_bomb == state.has_bomb,
        r.allplayers_len == state.allplayers.len(),
        r.grenades_len == state.grenade_count,
        r.map is Some <==> state.map is Some,
        r.round is Some <==> state.round is Some,
        r.player is Some <==> state.player is Some,
        r.map is Some ==> {
            let (rm, m) = (r.map.unwrap(), state.map.unwrap());
            rm.name@ == m.name@ && rm.mode@ == m.mode@ && rm.phase == m.phase && rm.round == m.round
                && rm.ct_score == m.score_ct && rm.t_score == m.score_t
        },
        r.round is Some ==> {
            let (rr, sr) = (r.round.unwrap(), state.round.unwrap());
            rr.phase == sr.phase && rr.bomb == sr.bomb && rr.win_team == sr.win_team
        },
        r.player is Some ==> {
            let (rp, p) = (r.player.unwrap(), state.player.unwrap());
            &&& rp.steamid@ == p.steamid@ && rp.name@ == p.name@
            &&& rp.team == p.team && rp.activity == p.activity
            &&& rp.health == p.health && rp.armor == p.armor && rp.money == p.money
            &&& rp.round_kills == p.round_kills && rp.round_hs == p.round_killhs
            &&& rp.match_kills == p.kills && rp.match_deaths == p.deaths
            &&& rp.weapons == p.weapons.len()
        },
{
}

} // verus!
