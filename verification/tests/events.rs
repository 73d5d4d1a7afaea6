use cs2_gsi_webui::events::{connect_events, connect_events_at, killfeed_event, ui_events, ui_events_at, GsiEvent};
use cs2_gsi_webui::model::{GameState, MapInfo, MapPhase, PlayerTeam, RoundPhase, WinningTeam};
use cs2_gsi_webui::ui::UiEvent;

fn state_with_map() -> GameState {
    GameState {
        map: Some(MapInfo {
            mode: "casual".to_string(),
            name: "de_inferno".to_string(),
            phase: MapPhase::Live,
            round: 2,
            score_ct: 1,
            score_t: 0,
        }),
        round: None,
        player: None,
        allplayers: vec![],
        grenade_count: 0,
        has_bomb: false,
    }
}

fn one(ev: GsiEvent) -> UiEvent {
    let mut v = ui_events_at(&ev, 11, false);
    assert_eq!(v.len(), 1);
    v.pop().unwrap()
}

#[test]
fn killfeed_from_spectator_feed() {
    let e = one(GsiEvent::KillFeed {
        killer_name: "a".to_string(),
        killer_team: PlayerTeam::CT,
        victim_name: "b".to_string(),
        victim_team: PlayerTeam::T,
        weapon: Some("weapon_knife_m9_bayonet".to_string()),
        is_headshot: true,
    });
    match e {
        UiEvent::Killfeed { ts, source, killer, killer_team, victim, victim_team, weapon, weapon_kind, headshot, knife, grenade } => {
            assert_eq!(ts, 11);
            assert_eq!(source, "killfeed");
            assert_eq!((killer.as_str(), killer_team.as_str()), ("a", "CT"));
            assert_eq!((victim.as_str(), victim_team.as_str()), ("b", "T"));
            assert_eq!(weapon, "weapon_knife_m9_bayonet");
            assert_eq!(weapon_kind, "knife");
            assert!(headshot && knife && !grenade);
        }
        _ => panic!("not a kill"),
    }
}

#[test]
fn self_kill_has_unknown_victim_and_default_weapon() {
    let e = one(GsiEvent::PlayerGotKill {
        player_name: "me".to_string(),
        player_team: PlayerTeam::Unassigned,
        weapon: None,
        is_headshot: false,
    });
    match e {
        UiEvent::Killfeed { source, killer, killer_team, victim, victim_team, weapon, weapon_kind, knife, grenade, .. } => {
            assert_eq!(source, "self");
            assert_eq!((killer.as_str(), killer_team.as_str()), ("me", "SPEC"));
            assert_eq!((victim.as_str(), victim_team.as_str()), ("(unknown)", "?"));
            assert_eq!(weapon, "unknown");
            assert_eq!(weapon_kind, "other");
            assert!(!knife && !grenade);
        }
        _ => panic!("not a kill"),
    }
}

#[test]
fn grenade_kill_tag() {
    match killfeed_event(3, "self", "k".to_string(), "T".to_string(), "v".to_string(), "CT".to_string(), Some("weapon_molotov".to_string()), false) {
        UiEvent::Killfeed { weapon_kind, knife, grenade, .. } => {
            assert_eq!(weapon_kind, "grenade");
            assert!(grenade && !knife);
        }
        _ => panic!("not a kill"),
    }
}

#[test]
fn self_death_and_damage() {
    match one(GsiEvent::PlayerDied { player_name: "me".to_string(), previous_health: 40 }) {
        UiEvent::SelfDied { ts, player, previous_health } => assert_eq!((ts, player.as_str(), previous_health), (11, "me", 40)),
        _ => panic!(),
    }
    match one(GsiEvent::PlayerTookDamage { player_name: "me".to_string(), previous_health: 100, new_health: 73 }) {
        UiEvent::SelfDamage { player, previous, new, .. } => assert_eq!((player.as_str(), previous, new), ("me", 100, 73)),
        _ => panic!(),
    }
}

#[test]
fn round_events() {
    match one(GsiEvent::RoundPhaseUpdated { new: RoundPhase::Freezetime }) {
        UiEvent::Round { phase, round, .. } => assert_eq!((phase.as_str(), round), ("freezetime", 0)),
        _ => panic!(),
    }
    match one(GsiEvent::RoundStarted) {
        UiEvent::Round { phase, round, .. } => assert_eq!((phase.as_str(), round), ("live", 0)),
        _ => panic!(),
    }
    match one(GsiEvent::RoundConcluded { winning_team: WinningTeam::Ct }) {
        UiEvent::RoundEnd { winner, .. } => assert_eq!(winner, "ct"),
        _ => panic!(),
    }
}

#[test]
fn score_and_match_events() {
    match one(GsiEvent::TeamScoreChanged { team: PlayerTeam::T, previous: 3, new: 4 }) {
        UiEvent::Score { team, previous, new, .. } => assert_eq!((team.as_str(), previous, new), ("T", 3, 4)),
        _ => panic!(),
    }
    match one(GsiEvent::MatchStarted) {
        UiEvent::Match { kind, .. } => assert_eq!(kind, "started"),
        _ => panic!(),
    }
    match one(GsiEvent::GameOver) {
        UiEvent::Match { kind, .. } => assert_eq!(kind, "gameover"),
        _ => panic!(),
    }
}

#[test]
fn bomb_events() {
    let cases = vec![
        (GsiEvent::BombPlanting, "planting"),
        (GsiEvent::BombPlanted, "planted"),
        (GsiEvent::BombDefused, "defused"),
        (GsiEvent::BombExploded, "exploded"),
        (GsiEvent::BombDropped, "dropped"),
        (GsiEvent::BombPickedUp, "pickedup"),
    ];
    for (ev, label) in cases {
        match one(ev) {
            UiEvent::Bomb { ts, state } => assert_eq!((ts, state.as_str()), (11, label)),
            _ => panic!(),
        }
    }
}

#[test]
fn new_state_gives_snapshot_and_optional_raw() {
    let ev = GsiEvent::NewGameState { state: state_with_map() };
    let plain = ui_events_at(&ev, 5, false);
    assert_eq!(plain.len(), 1);
    assert!(matches!(plain[0], UiEvent::Snapshot { ts: 5, .. }));
    let with_raw = ui_events_at(&ev, 5, true);
    assert_eq!(with_raw.len(), 2);
    assert!(matches!(with_raw[1], UiEvent::Raw { ts: 5, .. }));
    let menu = GsiEvent::NewGameState {
        state: GameState { map: None, round: None, player: None, allplayers: vec![], grenade_count: 0, has_bomb: false },
    };
    assert!(ui_events_at(&menu, 5, false).is_empty());
    let raw_only = ui_events_at(&menu, 5, true);
    assert_eq!(raw_only.len(), 1);
    match &raw_only[0] {
        UiEvent::Raw { payload, .. } => assert!(!payload.has_map && !payload.has_player),
        _ => panic!(),
    }
}

#[test]
fn stamped_with_current_time() {
    let v = ui_events(&GsiEvent::RoundStarted, false);
    match &v[0] {
        UiEvent::Round { ts, .. } => assert!(*ts > 1_600_000_000),
        _ => panic!(),
    }
}

#[test]
fn connecting_browser_gets_snapshot_then_ack() {
    let state = state_with_map();
    let v = connect_events_at(Some(&state), 9);
    assert_eq!(v.len(), 2);
    assert!(matches!(v[0], UiEvent::Snapshot { ts: 9, .. }));
    match &v[1] {
        UiEvent::System { ts, message } => assert_eq!((*ts, message.as_str()), (9, "connected")),
        _ => panic!(),
    }
    let none = connect_events_at(None, 9);
    assert_eq!(none.len(), 1);
    assert!(matches!(none[0], UiEvent::System { ts: 9, .. }));
    let menu = GameState { map: None, round: None, player: None, allplayers: vec![], grenade_count: 0, has_bomb: false };
    assert_eq!(connect_events_at(Some(&menu), 9).len(), 1);
    assert!(matches!(connect_events(None)[0], UiEvent::System { .. }));
}
