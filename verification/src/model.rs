//! The parts of a Game State Integration payload that the dashboard reads,
//! held as plain values.

use vstd::prelude::*;

use crate::text::seq_lt;

verus! {

/// Side a player is on.
#[derive(Clone, Copy, Debug, PartialEq, Eq, Structural)]
pub enum PlayerTeam {
    CT,
    T,
    Unassigned,
}

/// Phase of the active round.
#[derive(Clone, Copy, Debug, PartialEq, Eq, Structural)]
pub enum RoundPhase {
    Freezetime,
    Live,
    Over,
    Unknown,
}

/// Phase of the current map.
#[derive(Clone, Copy, Debug, PartialEq, Eq, Structural)]
pub enum MapPhase {
    Warmup,
    Live,
    Intermission,
    Gameover,
    Unknown,
}

/// Side that won the latest round.
#[derive(Clone, Copy, Debug, PartialEq, Eq, Structural)]
pub enum WinningTeam {
    Ct,
    T,
    NoWinner,
}

/// Bomb state as reported for the current round.
#[derive(Clone, Copy, Debug, PartialEq, Eq, Structural)]
pub enum BombRoundState {
    Planted,
    Defused,
    Exploded,
    NoBombEvent,
}

/// What a player is doing.
#[derive(Clone, Copy, Debug, PartialEq, Eq, Structural)]
pub enum PlayerActivity {
    Menu,
    Playing,
    Textinput,
    Unknown,
}

/// State of a weapon slot.
#[derive(Clone, Copy, Debug, PartialEq, Eq, Structural)]
pub enum WeaponState {
    Holstered,
    Active,
    Reloading,
    Unknown,
}

/// Map / series-level state.
pub struct MapInfo {
    pub mode: String,
    pub name: String,
    pub phase: MapPhase,
    pub round: u32,
    pub score_ct: u32,
    pub score_t: u32,
}

/// Per-round state.
#[derive(Clone, Copy, Debug)]
pub struct RoundInfo {
    pub phase: RoundPhase,
    pub bomb: BombRoundState,
    pub win_team: WinningTeam,
}

/// One weapon slot.
pub struct WeaponInfo {
    pub name: String,
    pub state: WeaponState,
}

/// One player snapshot.
pub struct PlayerInfo {
    pub steamid: String,
    pub name: String,
    pub team: PlayerTeam,
    pub activity: PlayerActivity,
    pub health: i32,
    pub armor: i32,
    pub money: i32,
    pub round_kills: i32,
    pub round_killhs: i32,
    pub kills: i32,
    pub assists: i32,
    pub deaths: i32,
    pub mvps: i32,
    pub score: i32,
    /// Inventory, in slot-key order.
    pub weapons: Vec<WeaponInfo>,
}

/// One game-state payload.
pub struct GameState {
    pub map: Option<MapInfo>,
    pub round: Option<RoundInfo>,
    pub player: Option<PlayerInfo>,
    /// All known players with their SteamIDs, in SteamID order; each
    /// SteamID occurs once.
    pub allplayers: Vec<(String, PlayerInfo)>,
    /// Number of live grenades.
    pub grenade_count: usize,
    /// Whether the root-level bomb block is present.
    pub has_bomb: bool,
}

impl GameState {
    /// `allplayers` is in strictly increasing SteamID order, as the entries
    /// of a map keyed by SteamID come; so each SteamID occurs once.
    pub open spec fn wf(&self) -> bool {
        forall|i: int, j: int|
            0 <= i < j < self.allplayers.len() ==> seq_lt(
                #[trigger] self.allplayers@[i].0@,
                #[trigger] self.allplayers@[j].0@,
            )
    }
}

} // verus!
