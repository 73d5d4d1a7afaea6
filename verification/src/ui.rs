//! The events sent to browsers, with their mathematical views.

use vstd::prelude::*;

use crate::model::{BombRoundState, MapPhase, PlayerActivity, PlayerTeam, RoundPhase, WinningTeam};

verus! {

/// One row of the player table.
pub struct PlayerView {
    pub steamid: String,
    pub name: String,
    pub team: String,
    pub health: i32,
    pub armor: i32,
    pub money: i32,
    pub kills: i32,
    pub assists: i32,
    pub deaths: i32,
    pub mvps: i32,
    pub score: i32,
    pub round_kills: i32,
    pub round_hs: i32,
    pub is_alive: bool,
    pub is_local: bool,
    pub weapon_active: Option<String>,
}

/// The view of a player-table row: its strings as character sequences.
pub struct PlayerRow {
    pub steamid: Seq<char>,
    pub name: Seq<char>,
    pub team: Seq<char>,
    pub health: i32,
    pub armor: i32,
    pub money: i32,
    pub kills: i32,
    pub assists: i32,
    pub deaths: i32,
    pub mvps: i32,
    pub score: i32,
    pub round_kills: i32,
    pub round_hs: i32,
    pub is_alive: bool,
    pub is_local: bool,
    pub weapon_active: Option<Seq<char>>,
}

pub open spec fn opt_string_view(o: Option<String>) -> Option<Seq<char>> {
    match o {
        Some(s) => Some(s@),
        None => None,
    }
}

impl View for PlayerView {
    type V = PlayerRow;

    open spec fn view(&self) -> PlayerRow {
        PlayerRow {
            steamid: self.steamid@,
            name: self.name@,
            team: self.team@,
            health: self.health,
            armor: self.armor,
            money: self.money,
            kills: self.kills,
            assists: self.assists,
            deaths: self.deaths,
            mvps: self.mvps,
            score: self.score,
            round_kills: self.round_kills,
            round_hs: self.round_hs,
            is_alive: self.is_alive,
            is_local: self.is_local,
            weapon_active: opt_string_view(self.weapon_active),
        }
    }
}

/// The rows of a player table.
pub open spec fn rows(s: Seq<PlayerView>) -> Seq<PlayerRow> {
    s.map_values(|p: PlayerView| p@)
}

/// Map part of the diagnostics summary.
pub struct RawMap {
    pub name: String,
    pub mode: String,
    pub phase: MapPhase,
    pub round: u32,
    pub ct_score: u32,
    pub t_score: u32,
}

/// Round part of the diagnostics summary.
pub struct RawRound {
    pub phase: RoundPhase,
    pub bomb: BombRoundState,
    pub win_team: WinningTeam,
}

/// Local-player part of the diagnostics summary.
pub struct RawPlayer {
    pub steamid: String,
    pub name: String,
    pub team: PlayerTeam,
    pub activity: PlayerActivity,
    pub health: i32,
    pub armor: i32,
    pub money: i32,
    pub round_kills: i32,
    pub round_hs: i32,
    pub match_kills: i32,
    pub match_deaths: i32,
    pub weapons: usize,
}

/// Compact per-tick summary of a game state for the diagnostics panel.
pub struct RawSummary {
    pub has_map: bool,
    pub has_round: bool,
    pub has_player: bool,
    pub allplayers_len: usize,
    pub grenades_len: usize,
    pub has_bomb: bool,
    pub map: Option<RawMap>,
    pub round: Option<RawRound>,
    pub player: Option<RawPlayer>,
}

/// Normalised event sent to browsers.
#[allow(inconsistent_fields)]
pub enum UiEvent {
    /// A kill; `source` is `killfeed` for the synthesised all-player feed
    /// and `self` for the local player's own kills.
    Killfeed {
        ts: u64,
        source: &'static str,
        killer: String,
        killer_team: String,
        victim: String,
        victim_team: String,
        weapon: String,
        weapon_kind: String,
        headshot: bool,
        knife: bool,
        grenade: bool,
    },
    /// The local player died.
    SelfDied { ts: u64, player: String, previous_health: i32 },
    /// The local player took non-lethal damage.
    SelfDamage { ts: u64, player: String, previous: i32, new: i32 },
    /// Lightweight match snapshot.
    Snapshot {
        ts: u64,
        map: String,
        mode: String,
        phase: String,
        round: u32,
        score_ct: u32,
        score_t: u32,
        spectator_view: bool,
        players: Vec<PlayerView>,
    },
    /// Round phase transition.
    Round { ts: u64, phase: String, round: u32 },
    /// Round ended with a winner.
    RoundEnd { ts: u64, winner: String },
    /// Bomb lifecycle event.
    Bomb { ts: u64, state: String },
    /// Team score change.
    Score { ts: u64, team: String, previous: u32, new: u32 },
    /// Match started or ended.
    Match { ts: u64, kind: String },
    /// System message.
    System { ts: u64, message: String },
    /// Diagnostics summary.
    Raw { ts: u64, payload: RawSummary },
}

/// The view of a browser event: its strings as character sequences; the
/// diagnostics summary is kept as it is.
#[allow(inconsistent_fields)]
pub enum UiMessage {
    Killfeed {
        ts: u64,
        source: Seq<char>,
        killer: Seq<char>,
        killer_team: Seq<char>,
        victim: Seq<char>,
        victim_team: Seq<char>,
        weapon: Seq<char>,
        weapon_kind: Seq<char>,
        headshot: bool,
        knife: bool,
        grenade: bool,
    },
    SelfDied { ts: u64, player: Seq<char>, previous_health: i32 },
    SelfDamage { ts: u64, player: Seq<char>, previous: i32, new: i32 },
    Snapshot {
        ts: u64,
        map: Seq<char>,
        mode: Seq<char>,
        phase: Seq<char>,
        round: u32,
        score_ct: u32,
        score_t: u32,
        spectator_view: bool,
        players: Seq<PlayerRow>,
    },
    Round { ts: u64, phase: Seq<char>, round: u32 },
    RoundEnd { ts: u64, winner: Seq<char> },
    Bomb { ts: u64, state: Seq<char> },
    Score { ts: u64, team: Seq<char>, previous: u32, new: u32 },
    Match { ts: u64, kind: Seq<char> },
    System { ts: u64, message: Seq<char> },
    Raw { ts: u64, payload: RawSummary },
}

impl View for UiEvent {
    type V = UiMessage;

    open spec fn view(&self) -> UiMessage {
        match self {
            UiEvent::Killfeed {
                ts,
                source,
                killer,
                killer_team,
                victim,
                victim_team,
                weapon,
                weapon_kind,
                headshot,
                knife,
                grenade,
            } => UiMessage::Killfeed {
                ts: *ts,
                source: source@,
                killer: killer@,
                killer_team: killer_team@,
                victim: victim@,
                victim_team: victim_team@,
                weapon: weapon@,
                weapon_kind: weapon_kind@,
                headshot: *headshot,
                knife: *knife,
                grenade: *grenade,
            },
            UiEvent::SelfDied { ts, player, previous_health } => UiMessage::SelfDied {
                ts: *ts,
                player: player@,
                previous_health: *previous_health,
            },
            UiEvent::SelfDamage { ts, player, previous, new } => UiMessage::SelfDamage {
                ts: *ts,
                player: player@,
                previous: *previous,
                new: *new,
            },
            UiEvent::Snapshot {
                ts,
                map,
                mode,
                phase,
                round,
                score_ct,
                score_t,
                spectator_view,
                players,
            } => UiMessage::Snapshot {
                ts: *ts,
                map: map@,
                mode: mode@,
                phase: phase@,
                round: *round,
                score_ct: *score_ct,
                score_t: *score_t,
                spectator_view: *spectator_view,
                players: rows(players@),
            },
            UiEvent::Round { ts, phase, round } => UiMessage::Round {
                ts: *ts,
                phase: phase@,
                round: *round,
            },
            UiEvent::RoundEnd { ts, winner } => UiMessage::RoundEnd { ts: *ts, winner: winner@ },
            UiEvent::Bomb { ts, state } => UiMessage::Bomb { ts: *ts, state: state@ },
            UiEvent::Score { ts, team, previous, new } => UiMessage::Score {
                ts: *ts,
                team: team@,
                previous: *previous,
                new: *new,
            },
            UiEvent::Match { ts, kind } => UiMessage::Match { ts: *ts, kind: kind@ },
            UiEvent::System { ts, message } => UiMessage::System { ts: *ts, message: message@ },
            UiEvent::Raw { ts, payload } => UiMessage::Raw { ts: *ts, payload: *payload },
        }
    }
}

/// The messages of a sequence of browser events.
pub open spec fn messages(s: Seq<UiEvent>) -> Seq<UiMessage> {
    s.map_values(|e: UiEvent| e@)
}

} // verus!
