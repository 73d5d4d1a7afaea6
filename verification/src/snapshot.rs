//! The per-tick match snapshot sent to browsers.

use vstd::prelude::*;

use crate::clock::now_ts;
use crate::labels::{map_phase_label, map_phase_str, round_phase_label, round_phase_str};
use crate::model::GameState;
use crate::text::lemma_seq_lt_irreflexive;
use crate::roster::{
    lemma_sorted_rows_unique, player_row, player_view, rows_sorted, sort_players, steamids_identify,
};
use crate::ui::{rows, PlayerRow, PlayerView, UiEvent, UiMessage};

verus! {

broadcast use vstd::seq_lib::group_to_multiset_ensures;

/// Whether the local player's SteamID is `sid`.
pub open spec fn is_local_steamid(state: GameState, sid: Seq<char>) -> bool {
    match state.player {
        Some(p) => p.steamid@ == sid,
        None => false,
    }
}

/// The player-table rows of a state before ordering: every entry of
/// `allplayers` when there is any (spectator view), else the local player
/// alone, else none.
pub open spec fn roster_rows(state: GameState) -> Seq<PlayerRow> {
    if state.allplayers.len() > 0 {
        Seq::new(
            state.allplayers.len() as nat,
            |i: int|
                player_row(
                    state.allplayers@[i].1,
                    state.allplayers@[i].0@,
                    is_local_steamid(state, state.allplayers@[i].0@),
                ),
        )
    } else {
        match state.player {
            Some(p) => seq![player_row(p, p.steamid@, true)],
            None => Seq::empty(),
        }
    }
}

/// The phase shown: the round's phase when a round is present, else the
/// map's phase when a map is present, else `unknown`.
pub open spec fn phase_text(state: GameState) -> Seq<char> {
    match state.round {
        Some(r) => round_phase_label(r.phase),
        None => match state.map {
            Some(m) => map_phase_label(m.phase),
            None => "unknown"@,
        },
    }
}

/// `m` is the snapshot of `state`, at whatever time stamp it carries.
pub open spec fn is_snapshot_of(state: GameState, m: UiMessage) -> bool {
    &&& m matches UiMessage::Snapshot {
        map,
        mode,
        phase,
        round,
        score_ct,
        score_t,
        spectator_view,
        players,
        ..
    }
    &&& map == match state.map {
        Some(mi) => mi.name@,
        None => Seq::<char>::empty(),
    }
    &&& mode == match state.map {
        Some(mi) => mi.mode@,
        None => Seq::<char>::empty(),
    }
    &&& phase == phase_text(state)
    &&& round == match state.map {
        Some(mi) => mi.round,
        None => 0u32,
    }
    &&& score_ct == match state.map {
        Some(mi) => mi.score_ct,
        None => 0u32,
    }
    &&& score_t == match state.map {
        Some(mi) => mi.score_t,
        None => 0u32,
    }
    &&& spectator_view == (state.allplayers.len() > 0)
    &&& players.to_multiset() == roster_rows(state).to_multiset()
    &&& rows_sorted(players)
}

/// The snapshot of `state` stamped `ts`: when each SteamID occurs once
/// there is exactly one (see `lemma_snapshot_determined`).
pub open spec fn snapshot_of(state: GameState, ts: u64) -> UiMessage {
    choose|m: UiMessage| is_snapshot_of(state, m) && stamp(m) == ts
}

/// The time stamp of a browser event.
pub open spec fn stamp(m: UiMessage) -> u64 {
    match m {
        UiMessage::Killfeed { ts, .. } => ts,
        UiMessage::SelfDied { ts, .. } => ts,
        UiMessage::SelfDamage { ts, .. } => ts,
        UiMessage::Snapshot { ts, .. } => ts,
        UiMessage::Round { ts, .. } => ts,
        UiMessage::RoundEnd { ts, .. } => ts,
        UiMessage::Bomb { ts, .. } => ts,
        UiMessage::Score { ts, .. } => ts,
        UiMessage::Match { ts, .. } => ts,
        UiMessage::System { ts, .. } => ts,
        UiMessage::Raw { ts, .. } => ts,
    }
}

fn roster(state: &GameState) -> (r: Vec<PlayerView>)
    ensures
        rows(r@) == roster_rows(*state),
{
    let mut players: Vec<PlayerView> = Vec::new();
    let n = state.allplayers.len();
    if n > 0 {
        for i in 0..n
            invariant
                n == state.allplayers.len(),
                rows(players@) =~= roster_rows(*state).take(i as int),
        {
            let entry = &state.allplayers[i];
            let is_local = match &state.player {
                Some(lp) => lp.steamid == entry.0,
                None => false,
            };
            let pv = player_view(&entry.1, entry.0.as_str(), is_local);
            assert(is_local == is_local_steamid(*state, entry.0@));
            assert(roster_rows(*state)[i as int] == pv@);
            let ghost before = players@;
            players.push(pv);
            assert(rows(players@) =~= rows(before).push(pv@));
            assert(rows(players@) =~= roster_rows(*state).take(i + 1));
        }
        assert(roster_rows(*state).take(n as int) =~= roster_rows(*state));
    } else {
        match &state.player {
            Some(p) => {
                players.push(player_view(p, p.steamid.as_str(), true));
            },
            None => {},
        }
        assert(rows(players@) =~= roster_rows(*state));
    }
    players
}

/// The snapshot of `state` stamped `ts`, when a map or a local player is
/// present; `None` otherwise. Full spectator data is not needed.
pub fn snapshot_at(state: &GameState, ts: u64) -> (r: Option<UiEvent>)
    ensures
        r is None <==> (state.map is None && state.player is None),
        r matches Some(e) ==> is_snapshot_of(*state, e@) && stamp(e@) == ts,
        r matches Some(e) ==> (state.wf() ==> e@ == snapshot_of(*state, ts)),
{
    if state.map.is_none() && state.player.is_none() {
        return None;
    }
    let map_name = match &state.map {
        Some(m) => m.name.clone(),
        None => String::new(),
    };
    let mode = match &state.map {
        Some(m) => m.mode.clone(),
        None => String::new(),
    };
    let round = match &state.map {
        Some(m) => m.round,
        None => 0,
    };
    let score_ct = match &state.map {
        Some(m) => m.score_ct,
        None => 0,
    };
    let score_t = match &state.map {
        Some(m) => m.score_t,
        None => 0,
    };
    let phase = match &state.round {
        Some(r) => round_phase_str(&r.phase),
        None => match &state.map {
            Some(m) => map_phase_str(&m.phase),
            None => "unknown".to_string(),
        },
    };
    let players = sort_players(roster(state));
    let e = UiEvent::Snapshot {
        ts,
        map: map_name,
        mode,
        phase,
        round,
        score_ct,
        score_t,
        spectator_view: state.allplayers.len() > 0,
        players,
    };
    proof {
        if state.wf() {
            assert(is_snapshot_of(*state, e@) && stamp(e@) == ts);
            lemma_snapshot_determined(*state, e@, snapshot_of(*state, ts));
        }
    }
    Some(e)
}

/// The snapshot of `state` stamped with the current time, when a map or a
/// local player is present; `None` otherwise.
pub fn build_snapshot(state: &GameState) -> (r: Option<UiEvent>)
    ensures
        r is None <==> (state.map is None && state.player is None),
        r matches Some(e) ==> is_snapshot_of(*state, e@),
{
    snapshot_at(state, now_ts())
}

/// Under distinct SteamIDs, distinct rows of a state's table carry
/// distinct SteamIDs.
proof fn lemma_roster_steamids_identify(state: GameState)
    requires
        state.wf(),
    ensures
        steamids_identify(roster_rows(state).to_multiset()),
{
    let r = roster_rows(state);
    assert forall|x: PlayerRow, y: PlayerRow|
        r.to_multiset().contains(x) && r.to_multiset().contains(y) && x != y implies #[trigger] x.steamid
        != #[trigger] y.steamid by {
        assert(r.contains(x));
        assert(r.contains(y));
        let i = choose|i: int| 0 <= i < r.len() && r[i] == x;
        let j = choose|j: int| 0 <= j < r.len() && r[j] == y;
        if state.allplayers.len() > 0 {
            assert(i != j);
            if i < j {
                lemma_seq_lt_irreflexive(state.allplayers@[i].0@);
            } else {
                lemma_seq_lt_irreflexive(state.allplayers@[j].0@);
            }
            assert(x.steamid == state.allplayers@[i].0@);
            assert(y.steamid == state.allplayers@[j].0@);
        }
    }
}

/// A snapshot is determined by the state and its time stamp: when each
/// SteamID occurs once, two snapshots of one state with one stamp are equal,
/// the order of the player table included.
pub proof fn lemma_snapshot_determined(state: GameState, m1: UiMessage, m2: UiMessage)
    requires
        state.wf(),
        is_snapshot_of(state, m1),
        is_snapshot_of(state, m2),
        stamp(m1) == stamp(m2),
    ensures
        m1 == m2,
{
    lemma_roster_steamids_identify(state);
    let p1 = m1->Snapshot_players;
    let p2 = m2->Snapshot_players;
    lemma_sorted_rows_unique(p1, p2);
}

/// Outside spectator view the table holds the local player alone, marked
/// local.
pub proof fn lemma_local_only_table(state: GameState, m: UiMessage)
    requires
        state.allplayers.len() == 0,
        state.player is Some,
        is_snapshot_of(state, m),
    ensures
        m->Snapshot_players == seq![
            player_row(state.player.unwrap(), state.player.unwrap().steamid@, true),
        ],
{
    let p = state.player.unwrap();
    let one = seq![player_row(p, p.steamid@, true)];
    assert(roster_rows(state) == one);
    assert forall|x: PlayerRow, y: PlayerRow|
        one.to_multiset().contains(x) && one.to_multiset().contains(y) && x != y implies #[trigger] x.steamid
        != #[trigger] y.steamid by {
        assert(one.contains(x));
        assert(one.contains(y));
    }
    assert forall|i: int, j: int| 0 <= i < j < one.len() implies !crate::roster::row_before(
        #[trigger] one[j],
        #[trigger] one[i],
    ) by {}
    lemma_sorted_rows_unique(one, m->Snapshot_players);
}

/// In spectator view the table has a row per known player, and a row is
/// marked local exactly when its SteamID is the local player's.
pub proof fn lemma_spectator_table(state: GameState, m: UiMessage)
    requires
        state.allplayers.len() > 0,
        is_snapshot_of(state, m),
    ensures
        m->Snapshot_players.len() == state.allplayers.len(),
        forall|i: int|
            0 <= i < m->Snapshot_players.len() ==> (#[trigger] m->Snapshot_players[i]).is_local
                == (state.player is Some && state.player.unwrap().steamid@
                == m->Snapshot_players[i].steamid),
{
    let ps = m->Snapshot_players;
    let r = roster_rows(state);
    assert(ps.len() == ps.to_multiset().len());
    assert(r.len() == r.to_multiset().len());
    assert forall|i: int| 0 <= i < ps.len() implies (#[trigger] ps[i]).is_local == is_local_steamid(
        state,
        ps[i].steamid,
    ) by {
        assert(ps.contains(ps[i]));
        assert(ps.to_multiset().count(ps[i]) > 0);
        assert(r.contains(ps[i]));
        let j = choose|j: int| 0 <= j < r.len() && r[j] == ps[i];
        assert(ps[i].steamid == state.allplayers@[j].0@);
    }
}

/// The header of a snapshot: the phase is the round's phase label whenever
/// a round block is present, whatever the map says; else the map's phase
/// label; else `unknown`. Map name, mode, round number and scores come from
/// the map block, or are empty and 0 without one; the spectator flag is set
/// exactly when the all-players block is non-empty.
pub proof fn lemma_snapshot_header(state: GameState, m: UiMessage)
    requires
        is_snapshot_of(state, m),
    ensures
        state.round is Some ==> m->Snapshot_phase == round_phase_label(state.round.unwrap().phase),
        state.round is None && state.map is Some ==> m->Snapshot_phase == map_phase_label(
            state.map.unwrap().phase,
        ),
        state.round is None && state.map is None ==> m->Snapshot_phase == "unknown"@,
        state.map is Some ==> {
            let mi = state.map.unwrap();
            &&& m->Snapshot_map == mi.name@
            &&& m->Snapshot_mode == mi.mode@
            &&& m->Snapshot_round == mi.round
            &&& m->Snapshot_score_ct == mi.score_ct
            &&& m->Snapshot_score_t == mi.score_t
        },
        state.map is None ==> {
            &&& m->Snapshot_map.len() == 0
            &&& m->Snapshot_mode.len() == 0
            &&& m->Snapshot_round == 0
            &&& m->Snapshot_score_ct == 0
            &&& m->Snapshot_score_t == 0
        },
        m->Snapshot_spectator_view == (state.allplayers.len() > 0),
{
}

} // verus!
