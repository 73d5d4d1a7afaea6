//! The mapping from game events to the events broadcast to browsers.

use vstd::prelude::*;

use crate::clock::now_ts;
use crate::labels::{round_phase_label, round_phase_str, team_label, team_str, winning_team_label, winning_team_str};
use crate::model::{GameState, PlayerTeam, RoundPhase, WinningTeam};
use crate::snapshot::{is_snapshot_of, snapshot_at, snapshot_of, stamp};
use crate::summary::{is_summary_of, raw_summary};
use crate::ui::{messages, UiEvent, UiMessage};
use crate::weapon::{lemma_labels_distinct, lowercase, weapon_class, weapon_class_of, WeaponClass};

verus! {

/// A game event the dashboard listens to, with the fields it reads.
#[allow(inconsistent_fields)]
pub enum GsiEvent {
    /// A kill attributed end-to-end (spectator data only).
    KillFeed {
        killer_name: String,
        killer_team: PlayerTeam,
        victim_name: String,
        victim_team: PlayerTeam,
        weapon: Option<String>,
        is_headshot: bool,
    },
    /// The local player's round-kill counter went up.
    PlayerGotKill {
        player_name: String,
        player_team: PlayerTeam,
        weapon: Option<String>,
        is_headshot: bool,
    },
    /// The local player died.
    PlayerDied { player_name: String, previous_health: i32 },
    /// The local player took non-lethal damage.
    PlayerTookDamage { player_name: String, previous_health: i32, new_health: i32 },
    /// The round phase changed.
    RoundPhaseUpdated { new: RoundPhase },
    /// The round went live.
    RoundStarted,
    /// The round ended.
    RoundConcluded { winning_team: WinningTeam },
    /// A side's score changed.
    TeamScoreChanged { team: PlayerTeam, previous: u32, new: u32 },
    BombPlanting,
    BombPlanted,
    BombDefused,
    BombExploded,
    BombDropped,
    BombPickedUp,
    /// The match left warmup.
    MatchStarted,
    /// The match ended.
    GameOver,
    /// A new payload arrived.
    NewGameState { state: GameState },
}

/// The weapon name shown for a kill: the weapon, or `unknown` when none
/// was observed.
pub open spec fn weapon_text(weapon: Option<String>) -> Seq<char> {
    match weapon {
        Some(w) => w@,
        None => "unknown"@,
    }
}

/// The kill message for the given parties and weapon.
pub open spec fn kill_message(
    ts: u64,
    source: Seq<char>,
    killer: Seq<char>,
    killer_team: Seq<char>,
    victim: Seq<char>,
    victim_team: Seq<char>,
    weapon: Option<String>,
    headshot: bool,
) -> UiMessage {
    let name = weapon_text(weapon);
    let class = weapon_class(lowercase(name));
    UiMessage::Killfeed {
        ts,
        source,
        killer,
        killer_team,
        victim,
        victim_team,
        weapon: name,
        weapon_kind: class.label(),
        headshot,
        knife: class == WeaponClass::Knife,
        grenade: class == WeaponClass::Grenade,
    }
}

/// A kill event: the weapon defaults to `unknown`, its bucket is its
/// classification, and the knife and grenade tags follow the bucket.
pub fn killfeed_event(
    ts: u64,
    source: &'static str,
    killer: String,
    killer_team: String,
    victim: String,
    victim_team: String,
    weapon: Option<String>,
    headshot: bool,
) -> (e: UiEvent)
    ensures
        e@ == kill_message(
            ts,
            source@,
            killer@,
            killer_team@,
            victim@,
            victim_team@,
            weapon,
            headshot,
        ),
{
    let name = match weapon {
        Some(w) => w,
        None => "unknown".to_string(),
    };
    let class = weapon_class_of(name.as_str());
    let kind = class.as_str().to_string();
    UiEvent::Killfeed {
        ts,
        source,
        killer,
        killer_team,
        victim,
        victim_team,
        weapon: name,
        weapon_kind: kind,
        headshot,
        knife: class == WeaponClass::Knife,
        grenade: class == WeaponClass::Grenade,
    }
}

/// The bomb-lifecycle label of an event, for the six bomb events.
pub open spec fn bomb_label(ev: GsiEvent) -> Option<Seq<char>> {
    match ev {
        GsiEvent::BombPlanting => Some("planting"@),
        GsiEvent::BombPlanted => Some("planted"@),
        GsiEvent::BombDefused => Some("defused"@),
        GsiEvent::BombExploded => Some("exploded"@),
        GsiEvent::BombDropped => Some("dropped"@),
        GsiEvent::BombPickedUp => Some("pickedup"@),
        _ => None,
    }
}

/// `ms` are the browser events answering `ev` at time `ts`, with the
/// diagnostics summary on or off.
pub open spec fn answers(ev: GsiEvent, ts: u64, raw_enabled: bool, ms: Seq<UiMessage>) -> bool {
    match ev {
        GsiEvent::KillFeed {
            killer_name,
            killer_team,
            victim_name,
            victim_team,
            weapon,
            is_headshot,
        } => ms == seq![
            kill_message(
                ts,
                "killfeed"@,
                killer_name@,
                team_label(killer_team),
                victim_name@,
                team_label(victim_team),
                weapon,
                is_headshot,
            ),
        ],
        GsiEvent::PlayerGotKill { player_name, player_team, weapon, is_headshot } => ms == seq![
            kill_message(
                ts,
                "self"@,
                player_name@,
                team_label(player_team),
                "(unknown)"@,
                "?"@,
                weapon,
                is_headshot,
            ),
        ],
        GsiEvent::PlayerDied { player_name, previous_health } => ms == seq![
            UiMessage::SelfDied { ts, player: player_name@, previous_health },
        ],
        GsiEvent::PlayerTookDamage { player_name, previous_health, new_health } => ms == seq![
            UiMessage::SelfDamage {
                ts,
                player: player_name@,
                previous: previous_health,
                new: new_health,
            },
        ],
        GsiEvent::RoundPhaseUpdated { new } => ms == seq![
            UiMessage::Round { ts, phase: round_phase_label(new), round: 0 },
        ],
        GsiEvent::RoundStarted => ms == seq![UiMessage::Round { ts, phase: "live"@, round: 0 }],
        GsiEvent::RoundConcluded { winning_team } => ms == seq![
            UiMessage::RoundEnd { ts, winner: winning_team_label(winning_team) },
        ],
        GsiEvent::TeamScoreChanged { team, previous, new } => ms == seq![
            UiMessage::Score { ts, team: team_label(team), previous, new },
        ],
        GsiEvent::MatchStarted => ms == seq![UiMessage::Match { ts, kind: "started"@ }],
        GsiEvent::GameOver => ms == seq![UiMessage::Match { ts, kind: "gameover"@ }],
        GsiEvent::NewGameState { state } => {
            let snaps: int = if state.map is None && state.player is None {
                0
            } else {
                1
            };
            &&& ms.len() == snaps + if raw_enabled {
                1int
            } else {
                0int
            }
            &&& snaps == 1 ==> is_snapshot_of(state, ms[0]) && stamp(ms[0]) == ts
            &&& snaps == 1 && state.wf() ==> ms[0] == snapshot_of(state, ts)
            &&& raw_enabled ==> (ms[snaps] matches UiMessage::Raw { ts: t, payload } && t == ts
                && is_summary_of(state, payload))
        },
        _ => ms == seq![UiMessage::Bomb { ts, state: bomb_label(ev).unwrap() }],
    }
}

/// The browser events answering a game event, stamped `ts`; the
/// diagnostics summary follows each new payload when `raw_enabled`.
pub fn ui_events_at(ev: &GsiEvent, ts: u64, raw_enabled: bool) -> (r: Vec<UiEvent>)
    ensures
        answers(*ev, ts, raw_enabled, messages(r@)),
{
    let mut out: Vec<UiEvent> = Vec::new();
    match ev {
        GsiEvent::KillFeed {
            killer_name,
            killer_team,
            victim_name,
            victim_team,
            weapon,
            is_headshot,
        } => {
            out.push(
                killfeed_event(
                    ts,
                    "killfeed",
                    killer_name.clone(),
                    team_str(killer_team),
                    victim_name.clone(),
                    team_str(victim_team),
                    weapon.clone(),
                    *is_headshot,
                ),
            );
        },
        GsiEvent::PlayerGotKill { player_name, player_team, weapon, is_headshot } => {
            out.push(
                killfeed_event(
                    ts,
                    "self",
                    player_name.clone(),
                    team_str(player_team),
                    "(unknown)".to_string(),
                    "?".to_string(),
                    weapon.clone(),
                    *is_headshot,
                ),
            );
        },
        GsiEvent::PlayerDied { player_name, previous_health } => {
            out.push(
                UiEvent::SelfDied {
                    ts,
                    player: player_name.clone(),
                    previous_health: *previous_health,
                },
            );
        },
        GsiEvent::PlayerTookDamage { player_name, previous_health, new_health } => {
            out.push(
                UiEvent::SelfDamage {
                    ts,
                    player: player_name.clone(),
                    previous: *previous_health,
                    new: *new_health,
                },
            );
        },
        GsiEvent::RoundPhaseUpdated { new } => {
            out.push(UiEvent::Round { ts, phase: round_phase_str(new), round: 0 });
        },
        GsiEvent::RoundStarted => {
            out.push(UiEvent::Round { ts, phase: "live".to_string(), round: 0 });
        },
        GsiEvent::RoundConcluded { winning_team } => {
            out.push(UiEvent::RoundEnd { ts, winner: winning_team_str(winning_team) });
        },
        GsiEvent::TeamScoreChanged { team, previous, new } => {
            out.push(
                UiEvent::Score { ts, team: team_str(team), previous: *previous, new: *new },
            );
        },
        GsiEvent::BombPlanting => {
            out.push(UiEvent::Bomb { ts, state: "planting".to_string() });
        },
        GsiEvent::BombPlanted => {
            out.push(UiEvent::Bomb { ts, state: "planted".to_string() });
        },
        GsiEvent::BombDefused => {
            out.push(UiEvent::Bomb { ts, state: "defused".to_string() });
        },
        GsiEvent::BombExploded => {
            out.push(UiEvent::Bomb { ts, state: "exploded".to_string() });
        },
        GsiEvent::BombDropped => {
            out.push(UiEvent::Bomb { ts, state: "dropped".to_string() });
        },
        GsiEvent::BombPickedUp => {
            out.push(UiEvent::Bomb { ts, state: "pickedup".to_string() });
        },
        GsiEvent::MatchStarted => {
            out.push(UiEvent::Match { ts, kind: "started".to_string() });
        },
        GsiEvent::GameOver => {
            out.push(UiEvent::Match { ts, kind: "gameover".to_string() });
        },
        GsiEvent::NewGameState { state } => {
            match snapshot_at(state, ts) {
                Some(snap) => {
                    out.push(snap);
                },
                None => {},
            }
            if raw_enabled {
                out.push(UiEvent::Raw { ts, payload: raw_summary(state) });
            }
        },
    }
    assert(messages(out@).len() == out@.len());
    assert(forall|i: int| 0 <= i < out@.len() ==> #[trigger] messages(out@)[i] == out@[i]@);
    proof {
        if !(*ev is NewGameState) {
            assert(messages(out@) =~= seq![out@[0]@]);
        }
    }
    out
}

/// The browser events answering a game event, stamped with the current
/// time.
pub fn ui_events(ev: &GsiEvent, raw_enabled: bool) -> (r: Vec<UiEvent>)
    ensures
        exists|ts: u64| answers(*ev, ts, raw_enabled, messages(r@)),
{
    let ts = now_ts();
    ui_events_at(ev, ts, raw_enabled)
}

/// The knife and grenade tags of a kill are set exactly when its weapon
/// bucket's label is `knife`, respectively `grenade`.
pub proof fn lemma_kill_tags_follow_kind(
    ts: u64,
    source: Seq<char>,
    killer: Seq<char>,
    killer_team: Seq<char>,
    victim: Seq<char>,
    victim_team: Seq<char>,
    weapon: Option<String>,
    headshot: bool,
)
    ensures
        ({
            let m = kill_message(ts, source, killer, killer_team, victim, victim_team, weapon, headshot);
            &&& m->Killfeed_knife == (m->Killfeed_weapon_kind == "knife"@)
            &&& m->Killfeed_grenade == (m->Killfeed_weapon_kind == "grenade"@)
        }),
{
    let class = weapon_class(lowercase(weapon_text(weapon)));
    lemma_labels_distinct(class, WeaponClass::Knife);
    lemma_labels_distinct(class, WeaponClass::Grenade);
}

/// Every browser event answering a game event carries the time stamp it
/// was produced with.
pub proof fn lemma_answers_carry_stamp(ev: GsiEvent, ts: u64, raw_enabled: bool, ms: Seq<UiMessage>)
    requires
        answers(ev, ts, raw_enabled, ms),
    ensures
        forall|i: int| 0 <= i < ms.len() ==> stamp(#[trigger] ms[i]) == ts,
{
}

/// A diagnostics summary is sent only when the diagnostics panel is
/// enabled, and only for new payloads.
pub proof fn lemma_raw_only_when_enabled(ev: GsiEvent, ts: u64, raw_enabled: bool, ms: Seq<UiMessage>)
    requires
        answers(ev, ts, raw_enabled, ms),
    ensures
        (exists|i: int| 0 <= i < ms.len() && #[trigger] ms[i] is Raw) ==> raw_enabled
            && ev is NewGameState,
{
    if exists|i: int| 0 <= i < ms.len() && #[trigger] ms[i] is Raw {
        let i = choose|i: int| 0 <= i < ms.len() && #[trigger] ms[i] is Raw;
        if ev is NewGameState {
            if !raw_enabled {
                let state = ev->NewGameState_state;
                assert(is_snapshot_of(state, ms[0]));
            }
        }
    }
}

/// `ms` are the browser events sent to a newly connected browser at time
/// `ts`: the snapshot of the current state first, when there is a state with
/// a map or a local player, then the `connected` acknowledgement.
pub open spec fn greets(current: Option<&GameState>, ts: u64, ms: Seq<UiMessage>) -> bool {
    let snaps: int = match current {
        Some(state) => if state.map is None && state.player is None {
            0
        } else {
            1
        },
        None => 0,
    };
    &&& ms.len() == snaps + 1
    &&& snaps == 1 ==> is_snapshot_of(*current.unwrap(), ms[0]) && stamp(ms[0]) == ts
    &&& snaps == 1 && current.unwrap().wf() ==> ms[0] == snapshot_of(*current.unwrap(), ts)
    &&& ms[snaps] == UiMessage::System { ts, message: "connected"@ }
}

/// The browser events for a newly connected browser, stamped `ts`, so that
/// a reconnecting client catches up with the current state.
pub fn connect_events_at(current: Option<&GameState>, ts: u64) -> (r: Vec<UiEvent>)
    ensures
        greets(current, ts, messages(r@)),
{
    let mut out: Vec<UiEvent> = Vec::new();
    match current {
        Some(state) => match snapshot_at(state, ts) {
            Some(snap) => {
                out.push(snap);
            },
            None => {},
        },
        None => {},
    }
    out.push(UiEvent::System { ts, message: "connected".to_string() });
    assert(messages(out@).len() == out@.len());
    assert(forall|i: int| 0 <= i < out@.len() ==> #[trigger] messages(out@)[i] == out@[i]@);
    out
}

/// The browser events for a newly connected browser, stamped with the
/// current time.
pub fn connect_events(current: Option<&GameState>) -> (r: Vec<UiEvent>)
    ensures
        exists|ts: u64| greets(current, ts, messages(r@)),
{
    let ts = now_ts();
    connect_events_at(current, ts)
}

/// A kill is answered by one kill message stamped with the time: from the
/// spectator feed it has source `killfeed` and both parties with their
/// team labels; from the local player's own kill it has source `self`, the
/// player as killer and `(unknown)` / `?` as victim and victim team. The
/// weapon is the event's weapon or `unknown`, and the headshot flag is the
/// event's.
pub proof fn lemma_kill_answers(ev: GsiEvent, ts: u64, raw_enabled: bool, ms: Seq<UiMessage>)
    requires
        answers(ev, ts, raw_enabled, ms),
        ev is KillFeed || ev is PlayerGotKill,
    ensures
        ms.len() == 1,
        ms[0] is Killfeed,
        ms[0]->Killfeed_ts == ts,
        ev is KillFeed ==> {
            &&& ms[0]->Killfeed_source == "killfeed"@
            &&& ms[0]->Killfeed_killer == ev->KillFeed_killer_name@
            &&& ms[0]->Killfeed_killer_team == team_label(ev->KillFeed_killer_team)
            &&& ms[0]->Killfeed_victim == ev->KillFeed_victim_name@
            &&& ms[0]->Killfeed_victim_team == team_label(ev->KillFeed_victim_team)
            &&& ms[0]->Killfeed_headshot == ev->KillFeed_is_headshot
            &&& ms[0]->Killfeed_weapon == match ev->KillFeed_weapon {
                Some(w) => w@,
                None => "unknown"@,
            }
        },
        ev is PlayerGotKill ==> {
            &&& ms[0]->Killfeed_source == "self"@
            &&& ms[0]->Killfeed_killer == ev->PlayerGotKill_player_name@
            &&& ms[0]->Killfeed_killer_team == team_label(ev->PlayerGotKill_player_team)
            &&& ms[0]->Killfeed_victim == "(unknown)"@
            &&& ms[0]->Killfeed_victim_team == "?"@
            &&& ms[0]->Killfeed_headshot == ev->PlayerGotKill_is_headshot
            &&& ms[0]->Killfeed_weapon == match ev->PlayerGotKill_weapon {
                Some(w) => w@,
                None => "unknown"@,
            }
        },
        ms[0]->Killfeed_weapon_kind == weapon_class(lowercase(ms[0]->Killfeed_weapon)).label(),
{
}

/// Each bomb event is answered by one bomb message stamped with the time,
/// naming the lifecycle step: `planting`, `planted`, `defused`, `exploded`,
/// `dropped` or `pickedup`; distinct steps carry distinct names.
pub proof fn lemma_bomb_answers(ev: GsiEvent, ts: u64, raw_enabled: bool, ms: Seq<UiMessage>)
    requires
        answers(ev, ts, raw_enabled, ms),
        bomb_label(ev) is Some,
    ensures
        ms.len() == 1,
        ms[0] is Bomb,
        ms[0]->Bomb_ts == ts,
        ev is BombPlanting ==> ms[0]->Bomb_state == "planting"@,
        ev is BombPlanted ==> ms[0]->Bomb_state == "planted"@,
        ev is BombDefused ==> ms[0]->Bomb_state == "defused"@,
        ev is BombExploded ==> ms[0]->Bomb_state == "exploded"@,
        ev is BombDropped ==> ms[0]->Bomb_state == "dropped"@,
        ev is BombPickedUp ==> ms[0]->Bomb_state == "pickedup"@,
        forall|a: GsiEvent, b: GsiEvent|
            #![trigger bomb_label(a), bomb_label(b)]
            bomb_label(a) is Some && bomb_label(a) == bomb_label(b) ==> (a is BombPlanting <==> b is BombPlanting) && (a is BombPlanted <==> b is BombPlanted)
                && (a is BombDefused <==> b is BombDefused) && (a is BombExploded <==> b is BombExploded)
                && (a is BombDropped <==> b is BombDropped) && (a is BombPickedUp <==> b is BombPickedUp),
{
    reveal_strlit("planting");
    reveal_strlit("planted");
    reveal_strlit("defused");
    reveal_strlit("exploded");
    reveal_strlit("dropped");
    reveal_strlit("pickedup");
    assert forall|a: GsiEvent, b: GsiEvent|
        #![trigger bomb_label(a), bomb_label(b)]
        bomb_label(a) is Some && bomb_label(a) == bomb_label(b) implies (a is BombPlanting <==> b is BombPlanting) && (a is BombPlanted <==> b is BombPlanted)
        && (a is BombDefused <==> b is BombDefused) && (a is BombExploded <==> b is BombExploded)
        && (a is BombDropped <==> b is BombDropped) && (a is BombPickedUp <==> b is BombPickedUp) by {
        let la = bomb_label(a).unwrap();
        let lb = bomb_label(b).unwrap();
        assert(la.len() == lb.len());
        assert(la[0] == lb[0]);
        assert(la[1] == lb[1]);
        assert(la[la.len() - 1] == lb[lb.len() - 1]);
    }
}

/// The other single events: a death carries the player and the health
/// before it; damage the player and the health before and after; a round
/// phase change its phase label with round 0; a live round `live` with
/// round 0; a round end its winner's label; a score change the team label
/// with the scores before and after; a match start `started` and a match
/// end `gameover`. Each is one message stamped with the time.
pub proof fn lemma_single_answers(ev: GsiEvent, ts: u64, raw_enabled: bool, ms: Seq<UiMessage>)
    requires
        answers(ev, ts, raw_enabled, ms),
    ensures
        ev is PlayerDied ==> ms == seq![
            UiMessage::SelfDied {
                ts,
                player: ev->PlayerDied_player_name@,
                previous_health: ev->PlayerDied_previous_health,
            },
        ],
        ev is PlayerTookDamage ==> ms == seq![
            UiMessage::SelfDamage {
                ts,
                player: ev->PlayerTookDamage_player_name@,
                previous: ev->PlayerTookDamage_previous_health,
                new: ev->PlayerTookDamage_new_health,
            },
        ],
        ev is RoundPhaseUpdated ==> ms == seq![
            UiMessage::Round { ts, phase: round_phase_label(ev->RoundPhaseUpdated_new), round: 0 },
        ],
        ev is RoundStarted ==> ms == seq![UiMessage::Round { ts, phase: "live"@, round: 0 }],
        ev is RoundConcluded ==> ms == seq![
            UiMessage::RoundEnd { ts, winner: winning_team_label(ev->RoundConcluded_winning_team) },
        ],
        ev is TeamScoreChanged ==> ms == seq![
            UiMessage::Score {
                ts,
                team: team_label(ev->TeamScoreChanged_team),
                previous: ev->TeamScoreChanged_previous,
                new: ev->TeamScoreChanged_new,
            },
        ],
        ev is MatchStarted ==> ms == seq![UiMessage::Match { ts, kind: "started"@ }],
        ev is GameOver ==> ms == seq![UiMessage::Match { ts, kind: "gameover"@ }],
{
}

} // verus!
