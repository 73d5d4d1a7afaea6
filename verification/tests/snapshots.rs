use cs2_gsi_webui::clock::{now_ts, seconds_or_zero};
use cs2_gsi_webui::labels::{map_phase_str, round_phase_str, team_str, winning_team_str};
use cs2_gsi_webui::model::{
    BombRoundState, GameState, MapInfo, MapPhase, PlayerActivity, PlayerInfo, PlayerTeam,
    RoundInfo, RoundPhase, WeaponInfo, WeaponState, WinningTeam,
};
use cs2_gsi_webui::roster::{player_view, sort_players};
use cs2_gsi_webui::snapshot::{build_snapshot, snapshot_at};
use cs2_gsi_webui::summary::raw_summary;
use cs2_gsi_webui::ui::{PlayerView, UiEvent};

fn player(sid: &str, name: &str, team: PlayerTeam, score: i32, health: i32) -> PlayerInfo {
    PlayerInfo {
        steamid: sid.to_string(),
        name: name.to_string(),
        team,
        activity: PlayerActivity::Playing,
        health,
        armor: 50,
        money: 800,
        round_kills: 1,
        round_killhs: 0,
        kills: 3,
        assists: 1,
        deaths: 2,
        mvps: 0,
        score,
        weapons: vec![],
    }
}

fn map(phase: MapPhase) -> MapInfo {
    MapInfo {
        mode: "competitive".to_string(),
        name: "de_dust2".to_string(),
        phase,
        round: 7,
        score_ct: 4,
        score_t: 3,
    }
}

fn empty_state() -> GameState {
    GameState {
        map: None,
        round: None,
        player: None,
        allplayers: vec![],
        grenade_count: 0,
        has_bomb: false,
    }
}

fn snapshot_fields(e: UiEvent) -> (u64, String, String, String, u32, u32, u32, bool, Vec<PlayerView>) {
    match e {
        UiEvent::Snapshot { ts, map, mode, phase, round, score_ct, score_t, spectator_view, players } => {
            (ts, map, mode, phase, round, score_ct, score_t, spectator_view, players)
        }
        _ => panic!("not a snapshot"),
    }
}

#[test]
fn labels() {
    assert_eq!(team_str(&PlayerTeam::CT), "CT");
    assert_eq!(team_str(&PlayerTeam::T), "T");
    assert_eq!(team_str(&PlayerTeam::Unassigned), "SPEC");
    assert_eq!(round_phase_str(&RoundPhase::Freezetime), "freezetime");
    assert_eq!(round_phase_str(&RoundPhase::Unknown), "unknown");
    assert_eq!(map_phase_str(&MapPhase::Intermission), "intermission");
    assert_eq!(map_phase_str(&MapPhase::Gameover), "gameover");
    assert_eq!(winning_team_str(&WinningTeam::Ct), "ct");
    assert_eq!(winning_team_str(&WinningTeam::NoWinner), "none");
}

#[test]
fn clock_is_after_epoch() {
    assert!(now_ts() > 1_600_000_000);
}

#[test]
fn main_menu_has_no_snapshot() {
    assert!(snapshot_at(&empty_state(), 1).is_none());
    assert!(build_snapshot(&empty_state()).is_none());
}

#[test]
fn map_only_snapshot_uses_map_phase() {
    let mut s = empty_state();
    s.map = Some(map(MapPhase::Warmup));
    let (ts, m, mode, phase, round, ct, t, spec, players) = snapshot_fields(snapshot_at(&s, 42).unwrap());
    assert_eq!(ts, 42);
    assert_eq!(m, "de_dust2");
    assert_eq!(mode, "competitive");
    assert_eq!(phase, "warmup");
    assert_eq!((round, ct, t), (7, 4, 3));
    assert!(!spec);
    assert!(players.is_empty());
}

#[test]
fn round_phase_wins_over_map_phase() {
    let mut s = empty_state();
    s.map = Some(map(MapPhase::Live));
    s.round = Some(RoundInfo { phase: RoundPhase::Over, bomb: BombRoundState::NoBombEvent, win_team: WinningTeam::T });
    let (_, _, _, phase, _, _, _, _, _) = snapshot_fields(snapshot_at(&s, 0).unwrap());
    assert_eq!(phase, "over");
}

#[test]
fn player_only_snapshot_defaults() {
    let mut s = empty_state();
    s.player = Some(player("76561198000000001", "me", PlayerTeam::T, 10, 0));
    let (_, m, mode, phase, round, ct, t, spec, players) = snapshot_fields(snapshot_at(&s, 0).unwrap());
    assert_eq!(m, "");
    assert_eq!(mode, "");
    assert_eq!(phase, "unknown");
    assert_eq!((round, ct, t), (0, 0, 0));
    assert!(!spec);
    assert_eq!(players.len(), 1);
    assert!(players[0].is_local);
    assert!(!players[0].is_alive);
    assert_eq!(players[0].team, "T");
    assert_eq!(players[0].steamid, "76561198000000001");
}

#[test]
fn spectator_roster_is_sorted_and_marks_local() {
    let mut s = empty_state();
    s.map = Some(map(MapPhase::Live));
    s.player = Some(player("3", "carol", PlayerTeam::T, 5, 100));
    s.allplayers = vec![
        ("1".to_string(), player("1", "alice", PlayerTeam::T, 5, 100)),
        ("2".to_string(), player("2", "bob", PlayerTeam::CT, 1, 100)),
        ("3".to_string(), player("3", "carol", PlayerTeam::T, 9, 100)),
        ("4".to_string(), player("4", "dave", PlayerTeam::CT, 7, 0)),
        ("5".to_string(), player("5", "alice", PlayerTeam::T, 5, 100)),
    ];
    let (_, _, _, _, _, _, _, spec, players) = snapshot_fields(snapshot_at(&s, 0).unwrap());
    assert!(spec);
    let order: Vec<&str> = players.iter().map(|p| p.steamid.as_str()).collect();
    assert_eq!(order, vec!["4", "2", "3", "1", "5"]);
    let local: Vec<bool> = players.iter().map(|p| p.is_local).collect();
    assert_eq!(local, vec![false, false, true, false, false]);
    assert!(!players[0].is_alive);
}

#[test]
fn player_row_fields_and_active_weapon() {
    let mut p = player("9", "eve", PlayerTeam::Unassigned, 2, 37);
    p.weapons = vec![
        WeaponInfo { name: "weapon_knife".to_string(), state: WeaponState::Holstered },
        WeaponInfo { name: "weapon_glock".to_string(), state: WeaponState::Active },
        WeaponInfo { name: "weapon_ak47".to_string(), state: WeaponState::Active },
    ];
    let v = player_view(&p, "listed", false);
    assert_eq!(v.steamid, "listed");
    assert_eq!(v.name, "eve");
    assert_eq!(v.team, "SPEC");
    assert_eq!(v.health, 37);
    assert!(v.is_alive);
    assert!(!v.is_local);
    assert_eq!(v.weapon_active.as_deref(), Some("weapon_glock"));
    assert_eq!((v.kills, v.assists, v.deaths, v.mvps, v.score), (3, 1, 2, 0, 2));
    assert_eq!((v.round_kills, v.round_hs, v.money, v.armor), (1, 0, 800, 50));
    p.weapons = vec![WeaponInfo { name: "weapon_c4".to_string(), state: WeaponState::Reloading }];
    assert_eq!(player_view(&p, "x", true).weapon_active, None);
}

#[test]
fn sort_orders_team_then_score_then_name() {
    let rows = vec![
        player_view(&player("a", "zed", PlayerTeam::T, 1, 1), "a", false),
        player_view(&player("b", "amy", PlayerTeam::T, 1, 1), "b", false),
        player_view(&player("c", "bo", PlayerTeam::Unassigned, 50, 1), "c", false),
        player_view(&player("d", "cy", PlayerTeam::CT, 0, 1), "d", false),
        player_view(&player("e", "dee", PlayerTeam::T, 8, 1), "e", false),
    ];
    let sorted = sort_players(rows);
    let order: Vec<&str> = sorted.iter().map(|p| p.steamid.as_str()).collect();
    assert_eq!(order, vec!["d", "c", "e", "b", "a"]);
    assert!(sort_players(vec![]).is_empty());
}

#[test]
fn raw_summary_fields() {
    let mut s = empty_state();
    assert!(raw_summary(&s).map.is_none());
    s.map = Some(map(MapPhase::Live));
    s.round = Some(RoundInfo { phase: RoundPhase::Live, bomb: BombRoundState::Planted, win_team: WinningTeam::NoWinner });
    let mut p = player("7", "me", PlayerTeam::CT, 1, 90);
    p.weapons = vec![WeaponInfo { name: "weapon_p250".to_string(), state: WeaponState::Active }];
    s.player = Some(p);
    s.grenade_count = 2;
    s.has_bomb = true;
    let r = raw_summary(&s);
    assert!(r.has_map && r.has_round && r.has_player && r.has_bomb);
    assert_eq!((r.allplayers_len, r.grenades_len), (0, 2));
    let m = r.map.unwrap();
    assert_eq!((m.name.as_str(), m.mode.as_str(), m.round, m.ct_score, m.t_score), ("de_dust2", "competitive", 7, 4, 3));
    assert_eq!(m.phase, MapPhase::Live);
    let rr = r.round.unwrap();
    assert_eq!(rr.bomb, BombRoundState::Planted);
    let rp = r.player.unwrap();
    assert_eq!((rp.steamid.as_str(), rp.health, rp.match_kills, rp.match_deaths, rp.weapons), ("7", 90, 3, 2, 1));
    assert_eq!(rp.team, PlayerTeam::CT);
}

#[test]
fn clock_outcome_to_stamp() {
    assert_eq!(seconds_or_zero(Some(1_725_029_869)), 1_725_029_869);
    assert_eq!(seconds_or_zero(Some(0)), 0);
    assert_eq!(seconds_or_zero(None), 0);
}
