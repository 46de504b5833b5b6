use vstd::prelude::*;

verus! {

/// UDP port on which a hosting server receives game packets.
pub const GAME_PORT: u16 = 42070;

/// UDP port on which servers announce themselves to the local network.
pub const DISCOVERY_PORT: u16 = 42069;

/// Largest number of remote clients a server admits.
pub const MAX_PLAYERS: usize = 8;

/// The rules of a match, chosen by the host.
#[derive(Clone, Copy, Debug)]
pub struct GameSettings {
    pub max_hp: u8,
    pub ai_count: usize,
    pub respawn_enabled: bool,
    pub teams_enabled: bool,
}

impl GameSettings {
    /// The settings of a match nobody has configured.
    pub open spec fn spec_default() -> GameSettings {
        GameSettings { max_hp: 3, ai_count: 3, respawn_enabled: false, teams_enabled: false }
    }
}

impl Default for GameSettings {
    fn default() -> (s: Self)
        ensures
            s == GameSettings::spec_default(),
    {
        GameSettings { max_hp: 3, ai_count: 3, respawn_enabled: false, teams_enabled: false }
    }
}

/// A UDP peer address, as the plain values that identify it.
///
/// Two addresses are the same peer exactly when all their fields agree.
#[allow(inconsistent_fields)]
#[derive(Clone, Copy, Debug, PartialEq, Eq, Structural)]
pub enum PeerAddr {
    V4 { ip: u32, port: u16 },
    V6 { ip: u128, port: u16, flowinfo: u32, scope_id: u32 },
}

impl PeerAddr {
    pub open spec fn spec_is_ipv4(self) -> bool {
        self is V4
    }

    pub open spec fn spec_port(self) -> u16 {
        match self {
            PeerAddr::V4 { port, .. } => port,
            PeerAddr::V6 { port, .. } => port,
        }
    }

    /// Whether the address is an IPv4 address.
    pub fn is_ipv4(&self) -> (b: bool)
        ensures
            b == self.spec_is_ipv4(),
    {
        match self {
            PeerAddr::V4 { .. } => true,
            PeerAddr::V6 { .. } => false,
        }
    }

    /// The port of the address.
    pub fn port(&self) -> (p: u16)
        ensures
            p == self.spec_port(),
    {
        match self {
            PeerAddr::V4 { port, .. } => *port,
            PeerAddr::V6 { port, .. } => *port,
        }
    }
}

/// One participant of a lobby as every peer sees it.
#[derive(Clone, Debug)]
pub struct PlayerInfo {
    pub client_id: u64,
    pub username: String,
    pub car_index: usize,
    pub blaster_index: usize,
    pub team: u8,
    pub health: u8,
    pub alive: bool,
    pub ready: bool,
}

impl PlayerInfo {
    /// A field-by-field copy.
    pub fn duplicate(&self) -> (r: PlayerInfo)
        ensures
            r == *self,
    {
        PlayerInfo {
            client_id: self.client_id,
            username: self.username.clone(),
            car_index: self.car_index,
            blaster_index: self.blaster_index,
            team: self.team,
            health: self.health,
            alive: self.alive,
            ready: self.ready,
        }
    }
}

/// A copy of a roster, entry by entry.
pub fn copy_roster(players: &Vec<PlayerInfo>) -> (r: Vec<PlayerInfo>)
    ensures
        r@ == players@,
{
    let mut r: Vec<PlayerInfo> = Vec::new();
    let mut i: usize = 0;
    while i < players.len()
        invariant
            i <= players.len(),
            r@ == players@.take(i as int),
        decreases players.len() - i,
    {
        r.push(players[i].duplicate());
        i = i + 1;
        assert(r@ =~= players@.take(i as int));
    }
    assert(players@.take(players.len() as int) =~= players@);
    r
}

/// The state of one car in a world snapshot. Coordinates are carried as
/// the IEEE-754 bit patterns of the `f32` values the game computes with.
#[derive(Clone, Debug)]
pub struct CarSnapshot {
    pub client_id: u64,
    pub position_bits: [u32; 3],
    pub rotation_bits: [u32; 4],
    pub velocity_bits: [u32; 3],
    pub health: u8,
    pub car_index: usize,
    pub blaster_index: usize,
    pub team: u8,
    pub username: String,
}

/// The state of one bullet in a world snapshot (bit patterns of `f32`s).
#[derive(Clone, Copy, Debug)]
pub struct BulletSnapshot {
    pub id: u64,
    pub position_bits: [u32; 3],
    pub velocity_bits: [u32; 3],
}

/// What a client sends to the server.
#[derive(Clone, Debug)]
pub enum ClientMessage {
    Hello { username: String, car_index: usize, blaster_index: usize },
    /// Driving input; `throttle_bits` and `steer_bits` are `f32` bit patterns.
    Input {
        sequence: u64,
        throttle_bits: u32,
        steer_bits: u32,
        braking: bool,
        boosting: bool,
        shoot: bool,
    },
    Ready,
    Respawn,
    TeamChange { team: u8 },
}

/// What the server sends to its clients.
#[derive(Clone, Debug)]
pub enum ServerMessage {
    Accept { client_id: u64, settings: GameSettings },
    LobbyUpdate { players: Vec<PlayerInfo>, settings: GameSettings },
    GameStarting { tick: u64 },
    Snapshot { tick: u64, cars: Vec<CarSnapshot>, bullets: Vec<BulletSnapshot> },
    GameOver { winner_team: Option<u8> },
    PlayerJoined { info: PlayerInfo },
    PlayerLeft { client_id: u64 },
}

/// A message together with every peer it is to be sent to.
#[derive(Clone, Debug)]
pub struct Outgoing<M> {
    pub to: Vec<PeerAddr>,
    pub msg: M,
}

/// What a hosting server announces on the discovery port.
#[derive(Clone, Debug)]
pub struct ServerAdvertisement {
    pub name: String,
    pub port: u16,
    pub player_count: usize,
    pub max_players: usize,
    pub settings: GameSettings,
}

/// An advertisement and the address it came from.
#[derive(Clone, Debug)]
pub struct DiscoveredServer {
    pub adv: ServerAdvertisement,
    pub addr: PeerAddr,
}

} // verus!
