use raycer::net::protocol::{ClientMessage, GameSettings, PeerAddr, ServerMessage, GAME_PORT, MAX_PLAYERS};
use raycer::net::server::{all_players_ready, GameServer};

fn addr(n: u32) -> PeerAddr {
    PeerAddr::V4 { ip: 0x0a00_0000 + n, port: 5000 + n as u16 }
}

fn hello(name: &str) -> ClientMessage {
    ClientMessage::Hello { username: name.to_string(), car_index: 2, blaster_index: 3 }
}

#[test]
fn default_settings_match_lobby_defaults() {
    let s = GameSettings::default();
    assert_eq!(s.max_hp, 3);
    assert_eq!(s.ai_count, 3);
    assert!(!s.respawn_enabled);
    assert!(!s.teams_enabled);
}

#[test]
fn hello_admits_client_under_next_id_and_replies() {
    let mut s = GameServer::new(GameSettings::default(), "srv".to_string());
    let out = s.handle_message(addr(1), hello("ann"));
    assert_eq!(s.clients.len(), 1);
    assert_eq!(s.next_client_id, 2);
    assert_eq!(s.clients[0].info.client_id, 1);
    assert_eq!(s.clients[0].info.username, "ann");
    assert_eq!(s.clients[0].info.health, 3);
    assert!(!s.clients[0].info.ready);
    assert_eq!(s.player_info.len(), 1);
    assert_eq!(out.len(), 2);
    assert_eq!(out[0].to, vec![addr(1)]);
    match &out[0].msg {
        ServerMessage::Accept { client_id, settings } => {
            assert_eq!(*client_id, 1);
            assert_eq!(settings.max_hp, 3);
        }
        other => panic!("unexpected {:?}", other),
    }
    assert_eq!(out[1].to, vec![addr(1)]);
    match &out[1].msg {
        ServerMessage::LobbyUpdate { players, .. } => assert_eq!(players.len(), 1),
        other => panic!("unexpected {:?}", other),
    }
}

#[test]
fn lobby_update_goes_to_every_client() {
    let mut s = GameServer::new(GameSettings::default(), "srv".to_string());
    s.handle_message(addr(1), hello("a"));
    let out = s.handle_message(addr(2), hello("b"));
    assert_eq!(out[1].to, vec![addr(1), addr(2)]);
    assert_eq!(s.clients[1].info.client_id, 2);
}

#[test]
fn full_server_ignores_hello() {
    let mut s = GameServer::new(GameSettings::default(), "srv".to_string());
    for i in 0..MAX_PLAYERS as u32 {
        s.handle_message(addr(i), hello("p"));
    }
    assert_eq!(s.clients.len(), MAX_PLAYERS);
    let out = s.handle_message(addr(99), hello("late"));
    assert!(out.is_empty());
    assert_eq!(s.clients.len(), MAX_PLAYERS);
    assert_eq!(s.next_client_id, MAX_PLAYERS as u64 + 1);
}

#[test]
fn newer_input_replaces_older_and_stale_is_dropped() {
    let mut s = GameServer::new(GameSettings::default(), "srv".to_string());
    s.handle_message(addr(1), hello("a"));
    let input = |seq: u64, t: f32| ClientMessage::Input {
        sequence: seq,
        throttle_bits: t.to_bits(),
        steer_bits: 0.5f32.to_bits(),
        braking: true,
        boosting: false,
        shoot: true,
    };
    let out = s.handle_message(addr(1), input(5, 1.0));
    assert!(out.is_empty());
    assert_eq!(s.clients[0].input.sequence, 5);
    assert_eq!(f32::from_bits(s.clients[0].input.throttle_bits), 1.0);
    s.handle_message(addr(1), input(3, -0.5));
    assert_eq!(s.clients[0].input.sequence, 5);
    assert_eq!(f32::from_bits(s.clients[0].input.throttle_bits), 1.0);
    s.handle_message(addr(1), input(6, -0.5));
    assert_eq!(s.clients[0].input.sequence, 6);
    assert_eq!(f32::from_bits(s.clients[0].input.throttle_bits), -0.5);
}

#[test]
fn input_from_stranger_is_ignored() {
    let mut s = GameServer::new(GameSettings::default(), "srv".to_string());
    s.handle_message(addr(1), hello("a"));
    let out = s.handle_message(
        addr(7),
        ClientMessage::Input { sequence: 9, throttle_bits: 0, steer_bits: 0, braking: false, boosting: false, shoot: false },
    );
    assert!(out.is_empty());
    assert_eq!(s.clients[0].input.sequence, 0);
}

#[test]
fn ready_marks_client_and_roster() {
    let mut s = GameServer::host_lobby(4, 2, &"host".to_string(), 1, 1);
    s.handle_message(addr(1), hello("a"));
    s.handle_message(addr(2), hello("b"));
    assert!(!all_players_ready(&s));
    let out = s.handle_message(addr(2), ClientMessage::Ready);
    assert_eq!(out.len(), 1);
    assert!(s.clients[1].info.ready);
    assert!(s.player_info[2].ready);
    assert!(!s.player_info[1].ready);
    assert!(!all_players_ready(&s));
    s.handle_message(addr(1), ClientMessage::Ready);
    assert!(all_players_ready(&s));
}

#[test]
fn ready_from_stranger_sends_nothing() {
    let mut s = GameServer::new(GameSettings::default(), "srv".to_string());
    let out = s.handle_message(addr(3), ClientMessage::Ready);
    assert!(out.is_empty());
    assert!(all_players_ready(&s));
}

#[test]
fn team_change_needs_teams_and_is_capped() {
    let mut s = GameServer::new(GameSettings::default(), "srv".to_string());
    s.handle_message(addr(1), hello("a"));
    let out = s.handle_message(addr(1), ClientMessage::TeamChange { team: 1 });
    assert!(out.is_empty());
    assert_eq!(s.clients[0].info.team, 0);

    let settings = GameSettings { teams_enabled: true, ..GameSettings::default() };
    let mut s = GameServer::new(settings, "srv".to_string());
    s.handle_message(addr(1), hello("a"));
    let out = s.handle_message(addr(1), ClientMessage::TeamChange { team: 9 });
    assert_eq!(out.len(), 1);
    assert_eq!(s.clients[0].info.team, 2);
    assert_eq!(s.player_info[0].team, 2);
    s.handle_message(addr(1), ClientMessage::TeamChange { team: 1 });
    assert_eq!(s.clients[0].info.team, 1);
}

#[test]
fn respawn_request_changes_nothing() {
    let mut s = GameServer::new(GameSettings::default(), "srv".to_string());
    s.handle_message(addr(1), hello("a"));
    let out = s.handle_message(addr(1), ClientMessage::Respawn);
    assert!(out.is_empty());
    assert_eq!(s.clients.len(), 1);
}

#[test]
fn host_lobby_holds_host_entry() {
    let s = GameServer::host_lobby(7, 5, &"Zed".to_string(), 4, 2);
    assert_eq!(s.settings.max_hp, 7);
    assert_eq!(s.settings.ai_count, 5);
    assert!(!s.settings.teams_enabled);
    assert_eq!(s.server_name, "Zed");
    assert_eq!(s.player_info.len(), 1);
    let host = &s.player_info[0];
    assert_eq!((host.client_id, host.car_index, host.blaster_index, host.health), (0, 4, 2, 7));
    assert!(host.ready && host.alive);
    assert_eq!(s.next_client_id, 1);
}

#[test]
fn host_entry_stays_first_and_ids_stay_distinct() {
    let mut s = GameServer::host_lobby(3, 3, &"h".to_string(), 0, 0);
    for i in 1..5u32 {
        s.handle_message(addr(i), hello("x"));
    }
    let ids: Vec<u64> = s.player_info.iter().map(|p| p.client_id).collect();
    assert_eq!(ids, vec![0, 1, 2, 3, 4]);
}

#[test]
fn send_to_finds_client_by_id() {
    let mut s = GameServer::new(GameSettings::default(), "srv".to_string());
    s.handle_message(addr(1), hello("a"));
    s.handle_message(addr(2), hello("b"));
    let p = s.send_to(2, ServerMessage::PlayerLeft { client_id: 9 }).unwrap();
    assert_eq!(p.to, vec![addr(2)]);
    assert!(s.send_to(5, ServerMessage::PlayerLeft { client_id: 9 }).is_none());
}

#[test]
fn snapshot_only_when_clients() {
    let mut s = GameServer::new(GameSettings::default(), "srv".to_string());
    assert!(s.send_snapshot(Vec::new(), Vec::new()).is_none());
    s.handle_message(addr(1), hello("a"));
    s.tick = 42;
    let p = s.send_snapshot(Vec::new(), Vec::new()).unwrap();
    assert_eq!(p.to, vec![addr(1)]);
    match p.msg {
        ServerMessage::Snapshot { tick, .. } => assert_eq!(tick, 42),
        other => panic!("unexpected {:?}", other),
    }
}

#[test]
fn start_and_stop_game() {
    let mut s = GameServer::new(GameSettings::default(), "srv".to_string());
    s.handle_message(addr(1), hello("a"));
    assert!(s.announcement().is_none());
    let p = s.start_game();
    assert!(s.game_started);
    assert_eq!(p.to, vec![addr(1)]);
    assert!(matches!(p.msg, ServerMessage::GameStarting { tick: 0 }));
    let adv = s.announcement().unwrap();
    assert_eq!(adv.name, "srv");
    assert_eq!(adv.port, GAME_PORT);
    assert_eq!(adv.player_count, 2);
    assert_eq!(adv.max_players, MAX_PLAYERS);
    s.stop_game();
    assert!(!s.game_started);
    assert!(s.announcement().is_none());
}
