use raycer::net::client::{plan_remote_cars, DiscoveredServers, GameClient, LobbyData, ReceivedSnapshot};
use raycer::net::protocol::{
    CarSnapshot, ClientMessage, GameSettings, PeerAddr, PlayerInfo, ServerAdvertisement, ServerMessage,
    GAME_PORT,
};

fn car(id: u64) -> CarSnapshot {
    CarSnapshot {
        client_id: id,
        position_bits: [0; 3],
        rotation_bits: [0; 4],
        velocity_bits: [0; 3],
        health: 3,
        car_index: 0,
        blaster_index: 0,
        team: 0,
        username: String::new(),
    }
}

#[test]
fn ipv4_client_talks_to_game_port() {
    let c = GameClient::connect(PeerAddr::V4 { ip: 0x7f00_0001, port: 1234 });
    let p = c.send_ready();
    assert_eq!(p.to, vec![PeerAddr::V4 { ip: 0x7f00_0001, port: GAME_PORT }]);
    assert!(matches!(p.msg, ClientMessage::Ready));
    assert!(!c.connected);
    assert_eq!(c.settings.max_hp, 3);
}

#[test]
fn ipv6_client_keeps_server_address() {
    let server = PeerAddr::V6 { ip: 1, port: 777, flowinfo: 0, scope_id: 2 };
    let c = GameClient::connect(server);
    let p = c.send_hello("bob", 4, 5);
    assert_eq!(p.to, vec![server]);
    match p.msg {
        ClientMessage::Hello { username, car_index, blaster_index } => {
            assert_eq!(username, "bob");
            assert_eq!((car_index, blaster_index), (4, 5));
        }
        other => panic!("unexpected {:?}", other),
    }
}

#[test]
fn inputs_are_numbered_from_one() {
    let mut c = GameClient::connect(PeerAddr::V4 { ip: 1, port: 1 });
    for expected in 1..=3u64 {
        let p = c.send_input(1.0f32.to_bits(), 0, false, true, false);
        match p.msg {
            ClientMessage::Input { sequence, boosting, .. } => {
                assert_eq!(sequence, expected);
                assert!(boosting);
            }
            other => panic!("unexpected {:?}", other),
        }
    }
    assert_eq!(c.sequence, 3);
}

#[test]
fn receive_applies_server_messages() {
    let mut c = GameClient::connect(PeerAddr::V4 { ip: 1, port: 1 });
    let mut lobby = LobbyData::new();
    let mut snap = ReceivedSnapshot::new();
    let settings = GameSettings { max_hp: 9, ..GameSettings::default() };
    assert!(!c.receive(&mut lobby, &mut snap, ServerMessage::Accept { client_id: 4, settings }));
    assert!(c.connected);
    assert_eq!(c.client_id, 4);
    assert_eq!(c.settings.max_hp, 9);
    let players = vec![PlayerInfo {
        client_id: 4,
        username: "me".to_string(),
        car_index: 0,
        blaster_index: 0,
        team: 0,
        health: 9,
        alive: true,
        ready: false,
    }];
    assert!(!c.receive(&mut lobby, &mut snap, ServerMessage::LobbyUpdate { players, settings }));
    assert_eq!(lobby.players.len(), 1);
    assert_eq!(lobby.settings.max_hp, 9);
    assert!(!c.receive(&mut lobby, &mut snap, ServerMessage::Snapshot { tick: 8, cars: vec![car(4)], bullets: vec![] }));
    assert_eq!(snap.tick, 8);
    assert_eq!(snap.cars.len(), 1);
    assert!(!c.receive(&mut lobby, &mut snap, ServerMessage::PlayerLeft { client_id: 4 }));
    assert_eq!(snap.tick, 8);
    assert!(c.receive(&mut lobby, &mut snap, ServerMessage::GameStarting { tick: 0 }));
}

fn adv(port: u16, name: &str) -> ServerAdvertisement {
    ServerAdvertisement { name: name.to_string(), port, player_count: 1, max_players: 8, settings: GameSettings::default() }
}

#[test]
fn discovery_keeps_one_server_per_port() {
    let mut d = DiscoveredServers::new();
    let a = PeerAddr::V4 { ip: 5, port: 42069 };
    d.record(adv(GAME_PORT, "one"), a);
    d.record(adv(GAME_PORT, "one"), a);
    d.record(adv(GAME_PORT, "two"), PeerAddr::V4 { ip: 6, port: 42069 });
    assert_eq!(d.0.len(), 1);
    assert_eq!(d.0[0].adv.name, "one");
    d.record(adv(1000, "three"), a);
    assert_eq!(d.0.len(), 2);
}

#[test]
fn remote_cars_follow_snapshot() {
    let existing = vec![7, 3, 7, 9];
    let cars = vec![car(3), car(5), car(7), car(5)];
    let plan = plan_remote_cars(&existing, &cars);
    assert_eq!(plan.spawn, vec![1, 3]);
    assert_eq!(plan.update, vec![(1, 0), (0, 2), (2, 2)]);
    assert_eq!(plan.despawn, vec![3]);
}

#[test]
fn empty_snapshot_removes_everything() {
    let plan = plan_remote_cars(&vec![1, 2], &Vec::new());
    assert!(plan.spawn.is_empty() && plan.update.is_empty());
    assert_eq!(plan.despawn, vec![0, 1]);
}
