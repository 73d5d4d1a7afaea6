//! The text labels the dashboard shows for teams, phases and winners.

use vstd::prelude::*;

use crate::model::{MapPhase, PlayerTeam, RoundPhase, WinningTeam};
use crate::text::seq_lt;

verus! {

pub open spec fn team_label(t: PlayerTeam) -> Seq<char> {
    match t {
        PlayerTeam::CT => "CT"@,
        PlayerTeam::T => "T"@,
        PlayerTeam::Unassigned => "SPEC"@,
    }
}

pub open spec fn round_phase_label(p: RoundPhase) -> Seq<char> {
    match p {
        RoundPhase::Freezetime => "freezetime"@,
        RoundPhase::Live => "live"@,
        RoundPhase::Over => "over"@,
        RoundPhase::Unknown => "unknown"@,
    }
}

pub open spec fn map_phase_label(p: MapPhase) -> Seq<char> {
    match p {
        MapPhase::Warmup => "warmup"@,
        MapPhase::Live => "live"@,
        MapPhase::Intermission => "intermission"@,
        MapPhase::Gameover => "gameover"@,
        MapPhase::Unknown => "unknown"@,
    }
}

pub open spec fn winning_team_label(w: WinningTeam) -> Seq<char> {
    match w {
        WinningTeam::Ct => "ct"@,
        WinningTeam::T => "t"@,
        WinningTeam::NoWinner => "none"@,
    }
}

/// Team label: `CT`, `T`, or `SPEC` for a player without a side.
pub fn team_str(t: &PlayerTeam) -> (r: String)
    ensures
        r@ == team_label(*t),
{
    match t {
        PlayerTeam::CT => "CT".to_string(),
        PlayerTeam::T => "T".to_string(),
        PlayerTeam::Unassigned => "SPEC".to_string(),
    }
}

/// Round phase label.
pub fn round_phase_str(p: &RoundPhase) -> (r: String)
    ensures
        r@ == round_phase_label(*p),
{
    match p {
        RoundPhase::Freezetime => "freezetime".to_string(),
        RoundPhase::Live => "live".to_string(),
        RoundPhase::Over => "over".to_string(),
        RoundPhase::Unknown => "unknown".to_string(),
    }
}

/// Map phase label.
pub fn map_phase_str(p: &MapPhase) -> (r: String)
    ensures
        r@ == map_phase_label(*p),
{
    match p {
        MapPhase::Warmup => "warmup".to_string(),
        MapPhase::Live => "live".to_string(),
        MapPhase::Intermission => "intermission".to_string(),
        MapPhase::Gameover => "gameover".to_string(),
        MapPhase::Unknown => "unknown".to_string(),
    }
}

/// Round-winner label.
pub fn winning_team_str(w: &WinningTeam) -> (r: String)
    ensures
        r@ == winning_team_label(*w),
{
    match w {
        WinningTeam::Ct => "ct".to_string(),
        WinningTeam::T => "t".to_string(),
        WinningTeam::NoWinner => "none".to_string(),
    }
}

/// The team labels are `CT`, `T` and `SPEC`, distinct teams get distinct
/// labels, and in the table's order `CT` comes before `SPEC` before `T`.
pub proof fn lemma_team_labels()
    ensures
        team_label(PlayerTeam::CT) == "CT"@,
        team_label(PlayerTeam::T) == "T"@,
        team_label(PlayerTeam::Unassigned) == "SPEC"@,
        forall|a: PlayerTeam, b: PlayerTeam| a != b ==> team_label(a) != team_label(b),
        seq_lt(team_label(PlayerTeam::CT), team_label(PlayerTeam::Unassigned)),
        seq_lt(team_label(PlayerTeam::Unassigned), team_label(PlayerTeam::T)),
{
    reveal_strlit("CT");
    reveal_strlit("T");
    reveal_strlit("SPEC");
    assert(team_label(PlayerTeam::CT).drop_first() =~= seq!['T']);
}

/// The round-phase labels are `freezetime`, `live`, `over` and `unknown`,
/// and distinct phases get distinct labels.
pub proof fn lemma_round_phase_labels()
    ensures
        round_phase_label(RoundPhase::Freezetime) == "freezetime"@,
        round_phase_label(RoundPhase::Live) == "live"@,
        round_phase_label(RoundPhase::Over) == "over"@,
        round_phase_label(RoundPhase::Unknown) == "unknown"@,
        forall|a: RoundPhase, b: RoundPhase| a != b ==> round_phase_label(a) != round_phase_label(b),
{
    reveal_strlit("freezetime");
    reveal_strlit("live");
    reveal_strlit("over");
    reveal_strlit("unknown");
    assert forall|a: RoundPhase, b: RoundPhase| a != b implies round_phase_label(a) != round_phase_label(b) by {
        if round_phase_label(a) == round_phase_label(b) {
            assert(round_phase_label(a).len() == round_phase_label(b).len());
            assert(round_phase_label(a)[0] == round_phase_label(b)[0]);
        }
    }
}

/// The map-phase labels are `warmup`, `live`, `intermission`, `gameover`
/// and `unknown`, and distinct phases get distinct labels.
pub proof fn lemma_map_phase_labels()
    ensures
        map_phase_label(MapPhase::Warmup) == "warmup"@,
        map_phase_label(MapPhase::Live) == "live"@,
        map_phase_label(MapPhase::Intermission) == "intermission"@,
        map_phase_label(MapPhase::Gameover) == "gameover"@,
        map_phase_label(MapPhase::Unknown) == "unknown"@,
        forall|a: MapPhase, b: MapPhase| a != b ==> map_phase_label(a) != map_phase_label(b),
{
    reveal_strlit("warmup");
    reveal_strlit("live");
    reveal_strlit("intermission");
    reveal_strlit("gameover");
    reveal_strlit("unknown");
    assert forall|a: MapPhase, b: MapPhase| a != b implies map_phase_label(a) != map_phase_label(b) by {
        if map_phase_label(a) == map_phase_label(b) {
            assert(map_phase_label(a).len() == map_phase_label(b).len());
            assert(map_phase_label(a)[0] == map_phase_label(b)[0]);
        }
    }
}

/// The round-winner labels are `ct`, `t` and `none`, and distinct winners
/// get distinct labels.
pub proof fn lemma_winning_team_labels()
    ensures
        winning_team_label(WinningTeam::Ct) == "ct"@,
        winning_team_label(WinningTeam::T) == "t"@,
        winning_team_label(WinningTeam::NoWinner) == "none"@,
        forall|a: WinningTeam, b: WinningTeam|
            a != b ==> winning_team_label(a) != winning_team_label(b),
{
    reveal_strlit("ct");
    reveal_strlit("t");
    reveal_strlit("none");
    assert forall|a: WinningTeam, b: WinningTeam| a != b implies winning_team_label(a) != winning_team_label(b) by {
        if winning_team_label(a) == winning_team_label(b) {
            assert(winning_team_label(a).len() == winning_team_label(b).len());
            assert(winning_team_label(a)[0] == winning_team_label(b)[0]);
        }
    }
}

} // verus!
