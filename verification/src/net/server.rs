use vstd::prelude::*;
use crate::net::protocol::{
    copy_roster, ClientMessage, GameSettings, Outgoing, PeerAddr, PlayerInfo, ServerAdvertisement,
    ServerMessage, CarSnapshot, BulletSnapshot, GAME_PORT, MAX_PLAYERS,
};

verus! {

/// The latest driving input a client sent; `throttle_bits` and `steer_bits`
/// are `f32` bit patterns.
#[derive(Clone, Copy, Debug)]
pub struct ClientInputState {
    pub throttle_bits: u32,
    pub steer_bits: u32,
    pub braking: bool,
    pub boosting: bool,
    pub shoot: bool,
    pub sequence: u64,
}

impl ClientInputState {
    pub open spec fn spec_default() -> ClientInputState {
        ClientInputState {
            throttle_bits: 0,
            steer_bits: 0,
            braking: false,
            boosting: false,
            shoot: false,
            sequence: 0,
        }
    }
}

impl Default for ClientInputState {
    fn default() -> (s: Self)
        ensures
            s == ClientInputState::spec_default(),
    {
        ClientInputState {
            throttle_bits: 0,
            steer_bits: 0,
            braking: false,
            boosting: false,
            shoot: false,
            sequence: 0,
        }
    }
}

/// A remote client the server has admitted.
#[derive(Clone, Debug)]
pub struct ClientConnection {
    pub addr: PeerAddr,
    pub info: PlayerInfo,
    pub input: ClientInputState,
}

/// The state of a hosting server: its admitted clients (in the order they
/// joined, each under its own id), the lobby roster and the match settings.
pub struct GameServer {
    pub clients: Vec<ClientConnection>,
    pub next_client_id: u64,
    pub settings: GameSettings,
    pub tick: u64,
    pub game_started: bool,
    pub player_info: Vec<PlayerInfo>,
    pub server_name: String,
}

/// The addresses of the given clients, in order.
pub open spec fn addrs_of(clients: Seq<ClientConnection>) -> Seq<PeerAddr> {
    clients.map_values(|c: ClientConnection| c.addr)
}

/// `k` is the first client at `addr`.
pub open spec fn is_first_at(clients: Seq<ClientConnection>, addr: PeerAddr, k: int) -> bool {
    &&& 0 <= k < clients.len()
    &&& clients[k].addr == addr
    &&& forall|j: int| 0 <= j < k ==> clients[j].addr != addr
}

pub open spec fn has_client_at(clients: Seq<ClientConnection>, addr: PeerAddr) -> bool {
    exists|k: int| 0 <= k < clients.len() && clients[k].addr == addr
}

/// The first client at `addr` (meaningful when there is one).
pub open spec fn first_at(clients: Seq<ClientConnection>, addr: PeerAddr) -> int {
    choose|k: int| is_first_at(clients, addr, k)
}

/// `k` is the first roster entry with id `id`.
pub open spec fn is_first_with_id(players: Seq<PlayerInfo>, id: u64, k: int) -> bool {
    &&& 0 <= k < players.len()
    &&& players[k].client_id == id
    &&& forall|j: int| 0 <= j < k ==> players[j].client_id != id
}

pub open spec fn has_player(players: Seq<PlayerInfo>, id: u64) -> bool {
    exists|k: int| 0 <= k < players.len() && players[k].client_id == id
}

/// The first roster entry with id `id` (meaningful when there is one).
pub open spec fn first_with_id(players: Seq<PlayerInfo>, id: u64) -> int {
    choose|k: int| is_first_with_id(players, id, k)
}

/// `m` announces the given roster and settings.
pub open spec fn is_lobby_update(m: ServerMessage, players: Seq<PlayerInfo>, settings: GameSettings) -> bool {
    match m {
        ServerMessage::LobbyUpdate { players: p, settings: s } => p@ == players && s == settings,
        _ => false,
    }
}

/// `m` is a world snapshot with the given contents.
pub open spec fn is_snapshot(
    m: ServerMessage,
    tick: u64,
    cars: Seq<CarSnapshot>,
    bullets: Seq<BulletSnapshot>,
) -> bool {
    match m {
        ServerMessage::Snapshot { tick: t, cars: c, bullets: b } => t == tick && c@ == cars
            && b@ == bullets,
        _ => false,
    }
}

/// A client with its ready flag raised.
pub open spec fn readied(c: ClientConnection) -> ClientConnection {
    ClientConnection { info: PlayerInfo { ready: true, ..c.info }, ..c }
}

/// A client moved to team `team`.
pub open spec fn on_team(c: ClientConnection, team: u8) -> ClientConnection {
    ClientConnection { info: PlayerInfo { team: team, ..c.info }, ..c }
}

/// A client after an input message: the input is kept only when it is newer.
pub open spec fn with_input(c: ClientConnection, input: ClientInputState) -> ClientConnection {
    if input.sequence > c.input.sequence {
        ClientConnection { input: input, ..c }
    } else {
        c
    }
}

/// The lowest of a team number and 2.
pub open spec fn capped_team(team: u8) -> u8 {
    if team < 2 { team } else { 2 }
}

impl GameServer {
    /// The clients form a map from id to connection: their ids grow in
    /// the order they joined and stay below `next_client_id`, so an id is
    /// never given twice.
    pub open spec fn keys_ok(self) -> bool {
        let c = self.clients@;
        &&& forall|i: int| 0 <= i < c.len() ==> #[trigger] c[i].info.client_id < self.next_client_id
        &&& forall|i: int, j: int|
            0 <= i < j < c.len() ==> #[trigger] c[i].info.client_id < #[trigger] c[j].info.client_id
    }

    /// The server's well-formedness: the clients form a map by id; at most
    /// `MAX_PLAYERS` clients are admitted; roster ids are distinct and below
    /// `next_client_id`; and the last entries of the roster are the
    /// admitted clients' infos, in the order they joined.
    pub open spec fn wf(self) -> bool {
        let c = self.clients@;
        let p = self.player_info@;
        &&& self.keys_ok()
        &&& c.len() <= MAX_PLAYERS
        &&& forall|i: int| 0 <= i < p.len() ==> #[trigger] p[i].client_id < self.next_client_id
        &&& forall|i: int, j: int|
            0 <= i < j < p.len() ==> #[trigger] p[i].client_id != #[trigger] p[j].client_id
        &&& c.len() <= p.len()
        &&& forall|i: int| 0 <= i < c.len() ==> #[trigger] p[p.len() - c.len() + i] == c[i].info
    }

    /// Everything but the clients, the roster and the id counter is as in `old`.
    pub open spec fn same_config(self, old: GameServer) -> bool {
        &&& self.settings == old.settings
        &&& self.tick == old.tick
        &&& self.game_started == old.game_started
        &&& self.server_name == old.server_name
    }

    /// Nothing observable changed.
    pub open spec fn unchanged_from(self, old: GameServer) -> bool {
        &&& self.same_config(old)
        &&& self.clients@ == old.clients@
        &&& self.player_info@ == old.player_info@
        &&& self.next_client_id == old.next_client_id
    }

    /// A lobby update of this server's roster and settings, addressed to
    /// every admitted client.
    pub open spec fn is_lobby_broadcast(self, p: Outgoing<ServerMessage>) -> bool {
        &&& p.to@ == addrs_of(self.clients@)
        &&& is_lobby_update(p.msg, self.player_info@, self.settings)
    }

    /// A fresh server state: no clients, empty roster, first id 1.
    pub fn new(settings: GameSettings, name: String) -> (s: GameServer)
        ensures
            s.clients@.len() == 0,
            s.player_info@.len() == 0,
            s.next_client_id == 1,
            s.settings == settings,
            s.tick == 0,
            !s.game_started,
            s.server_name == name,
            s.wf(),
    {
        GameServer {
            clients: Vec::new(),
            next_client_id: 1,
            settings,
            tick: 0,
            game_started: false,
            player_info: Vec::new(),
            server_name: name,
        }
    }

    /// The addresses of all admitted clients, in the order they joined.
    pub fn client_addrs(&self) -> (r: Vec<PeerAddr>)
        ensures
            r@ == addrs_of(self.clients@),
    {
        let mut r: Vec<PeerAddr> = Vec::new();
        let mut i: usize = 0;
        while i < self.clients.len()
            invariant
                i <= self.clients.len(),
                r@ == addrs_of(self.clients@.take(i as int)),
            decreases self.clients.len() - i,
        {
            r.push(self.clients[i].addr);
            i = i + 1;
            assert(addrs_of(self.clients@.take(i as int)) =~= addrs_of(
                self.clients@.take((i - 1) as int),
            ).push(self.clients@[i - 1].addr));
        }
        assert(self.clients@.take(self.clients.len() as int) =~= self.clients@);
        r
    }

    /// The packet that delivers `msg` to the client with id `client_id`,
    /// or `None` when no admitted client has that id.
    pub fn send_to(&self, client_id: u64, msg: ServerMessage) -> (r: Option<Outgoing<ServerMessage>>)
        ensures
            match r {
                Some(p) => exists|k: int|
                    0 <= k < self.clients@.len() && self.clients@[k].info.client_id == client_id
                        && (forall|j: int|
                        0 <= j < k ==> self.clients@[j].info.client_id != client_id)
                        && p.to@ == seq![self.clients@[k].addr] && p.msg == msg,
                None => forall|k: int|
                    0 <= k < self.clients@.len() ==> self.clients@[k].info.client_id != client_id,
            },
    {
        let mut i: usize = 0;
        while i < self.clients.len()
            invariant
                i <= self.clients.len(),
                forall|j: int| 0 <= j < i ==> self.clients@[j].info.client_id != client_id,
            decreases self.clients.len() - i,
        {
            if self.clients[i].info.client_id == client_id {
                let mut to: Vec<PeerAddr> = Vec::new();
                to.push(self.clients[i].addr);
                assert(to@ =~= seq![self.clients@[i as int].addr]);
                return Some(Outgoing { to, msg });
            }
            i = i + 1;
        }
        None
    }

    /// The packet that delivers `msg` to every admitted client.
    pub fn broadcast(&self, msg: ServerMessage) -> (r: Outgoing<ServerMessage>)
        ensures
            r.to@ == addrs_of(self.clients@),
            r.msg == msg,
    {
        Outgoing { to: self.client_addrs(), msg }
    }

    /// The lobby update (roster and settings) for every admitted client.
    pub fn broadcast_lobby_update(&self) -> (r: Outgoing<ServerMessage>)
        ensures
            self.is_lobby_broadcast(r),
    {
        let msg = ServerMessage::LobbyUpdate {
            players: copy_roster(&self.player_info),
            settings: self.settings,
        };
        self.broadcast(msg)
    }

    /// The world snapshot for every admitted client, or `None` when no
    /// client is connected.
    pub fn send_snapshot(&self, cars: Vec<CarSnapshot>, bullets: Vec<BulletSnapshot>) -> (r: Option<
        Outgoing<ServerMessage>,
    >)
        ensures
            match r {
                Some(p) => self.clients@.len() > 0 && p.to@ == addrs_of(self.clients@)
                    && is_snapshot(p.msg, self.tick, cars@, bullets@),
                None => self.clients@.len() == 0,
            },
    {
        if self.clients.len() == 0 {
            return None;
        }
        let msg = ServerMessage::Snapshot { tick: self.tick, cars, bullets };
        Some(self.broadcast(msg))
    }

    /// The state of a server just opened by the local player: the settings
    /// carry the chosen health and opponent count (the rest as by default),
    /// the server is named after the player, and the roster holds the host
    /// itself under id 0, ready, alive, on team 0 and at full health.
    pub fn host_lobby(
        max_hp: u8,
        ai_count: usize,
        player_name: &String,
        car_index: usize,
        blaster_index: usize,
    ) -> (s: GameServer)
        ensures
            s.settings == (GameSettings { max_hp, ai_count, ..GameSettings::spec_default() }),
            s.server_name == *player_name,
            s.player_info@ == seq![
                PlayerInfo {
                    client_id: 0,
                    username: *player_name,
                    car_index,
                    blaster_index,
                    team: 0,
                    health: max_hp,
                    alive: true,
                    ready: true,
                },
            ],
            s.clients@.len() == 0,
            s.next_client_id == 1,
            s.tick == 0,
            !s.game_started,
            s.wf(),
    {
        let settings = GameSettings { max_hp, ai_count, ..GameSettings::default() };
        let mut s = GameServer::new(settings, player_name.clone());
        s.player_info.push(
            PlayerInfo {
                client_id: 0,
                username: player_name.clone(),
                car_index,
                blaster_index,
                team: 0,
                health: max_hp,
                alive: true,
                ready: true,
            },
        );
        assert(s.player_info@ =~= seq![s.player_info@[0]]);
        s
    }

    /// Marks the match as started and returns the start announcement for
    /// every admitted client.
    pub fn start_game(&mut self) -> (r: Outgoing<ServerMessage>)
        ensures
            final(self).game_started,
            final(self).clients@ == old(self).clients@,
            final(self).player_info@ == old(self).player_info@,
            final(self).next_client_id == old(self).next_client_id,
            final(self).settings == old(self).settings,
            final(self).tick == old(self).tick,
            final(self).server_name == old(self).server_name,
            r.to@ == addrs_of(old(self).clients@),
            r.msg == (ServerMessage::GameStarting { tick: 0 }),
    {
        self.game_started = true;
        self.broadcast(ServerMessage::GameStarting { tick: 0 })
    }

    /// Marks the match as over.
    pub fn stop_game(&mut self)
        ensures
            !final(self).game_started,
            final(self).clients@ == old(self).clients@,
            final(self).player_info@ == old(self).player_info@,
            final(self).next_client_id == old(self).next_client_id,
            final(self).settings == old(self).settings,
            final(self).tick == old(self).tick,
            final(self).server_name == old(self).server_name,
    {
        self.game_started = false;
    }

    /// What the server announces on the discovery port: nothing before the
    /// match has started, then its name, the game port, the number of
    /// players (its clients and the host), the player limit and the settings.
    pub fn announcement(&self) -> (r: Option<ServerAdvertisement>)
        requires
            self.clients@.len() < usize::MAX,
        ensures
            match r {
                Some(adv) => self.game_started && adv.name == self.server_name && adv.port
                    == GAME_PORT && adv.player_count == self.clients@.len() + 1
                    && adv.max_players == MAX_PLAYERS && adv.settings == self.settings,
                None => !self.game_started,
            },
    {
        if !self.game_started {
            return None;
        }
        Some(
            ServerAdvertisement {
                name: self.server_name.clone(),
                port: GAME_PORT,
                player_count: self.clients.len() + 1,
                max_players: MAX_PLAYERS,
                settings: self.settings,
            },
        )
    }

    /// Handles one decoded client message that arrived from `from` and
    /// returns the packets to send in reply, in order.
    #[verifier::rlimit(30)]
    pub fn handle_message(&mut self, from: PeerAddr, msg: ClientMessage) -> (out: Vec<
        Outgoing<ServerMessage>,
    >)
        requires
            old(self).keys_ok(),
            (msg is Hello && old(self).clients@.len() < MAX_PLAYERS) ==> old(self).next_client_id
                < u64::MAX,
        ensures
            final(self).keys_ok(),
            old(self).wf() ==> final(self).wf(),
            final(self).same_config(*old(self)),
            final(self).clients@.len() >= old(self).clients@.len(),
            forall|i: int|
                0 <= i < old(self).clients@.len() ==> {
                    &&& #[trigger] final(self).clients@[i].addr == old(self).clients@[i].addr
                    &&& final(self).clients@[i].info.client_id
                        == old(self).clients@[i].info.client_id
                    &&& final(self).clients@[i].input.sequence
                        >= old(self).clients@[i].input.sequence
                },
            match msg {
                ClientMessage::Hello { username, car_index, blaster_index } => if old(
                    self,
                ).clients@.len() >= MAX_PLAYERS {
                    final(self).unchanged_from(*old(self)) && out@.len() == 0
                } else {
                    let id = old(self).next_client_id;
                    let info = PlayerInfo {
                        client_id: id,
                        username: username,
                        car_index: car_index,
                        blaster_index: blaster_index,
                        team: 0,
                        health: old(self).settings.max_hp,
                        alive: true,
                        ready: false,
                    };
                    &&& final(self).next_client_id == id + 1
                    &&& final(self).clients@ == old(self).clients@.push(
                        ClientConnection {
                            addr: from,
                            info: info,
                            input: ClientInputState::spec_default(),
                        },
                    )
                    &&& final(self).player_info@ == old(self).player_info@.push(info)
                    &&& out@.len() == 2
                    &&& out@[0].to@ == seq![from]
                    &&& out@[0].msg == ServerMessage::Accept {
                        client_id: id,
                        settings: old(self).settings,
                    }
                    &&& final(self).is_lobby_broadcast(out@[1])
                },
                ClientMessage::Input { sequence, throttle_bits, steer_bits, braking, boosting, shoot } => {
                    let input = ClientInputState {
                        throttle_bits,
                        steer_bits,
                        braking,
                        boosting,
                        shoot,
                        sequence,
                    };
                    &&& out@.len() == 0
                    &&& final(self).player_info@ == old(self).player_info@
                    &&& final(self).next_client_id == old(self).next_client_id
                    &&& final(self).clients@ == if has_client_at(old(self).clients@, from) {
                        let k = first_at(old(self).clients@, from);
                        old(self).clients@.update(k, with_input(old(self).clients@[k], input))
                    } else {
                        old(self).clients@
                    }
                },
                ClientMessage::Ready => if has_client_at(old(self).clients@, from) {
                    let k = first_at(old(self).clients@, from);
                    let c = old(self).clients@[k];
                    let p = old(self).player_info@;
                    &&& final(self).clients@ == old(self).clients@.update(k, readied(c))
                    &&& final(self).player_info@ == if has_player(p, c.info.client_id) {
                        let j = first_with_id(p, c.info.client_id);
                        p.update(j, PlayerInfo { ready: true, ..p[j] })
                    } else {
                        p
                    }
                    &&& final(self).next_client_id == old(self).next_client_id
                    &&& out@.len() == 1
                    &&& final(self).is_lobby_broadcast(out@[0])
                } else {
                    final(self).unchanged_from(*old(self)) && out@.len() == 0
                },
                ClientMessage::Respawn => final(self).unchanged_from(*old(self)) && out@.len() == 0,
                ClientMessage::TeamChange { team } => if has_client_at(old(self).clients@, from)
                    && old(self).settings.teams_enabled {
                    let k = first_at(old(self).clients@, from);
                    let c = old(self).clients@[k];
                    let p = old(self).player_info@;
                    let t = capped_team(team);
                    &&& final(self).clients@ == old(self).clients@.update(k, on_team(c, t))
                    &&& final(self).player_info@ == if has_player(p, c.info.client_id) {
                        let j = first_with_id(p, c.info.client_id);
                        p.update(j, PlayerInfo { team: t, ..p[j] })
                    } else {
                        p
                    }
                    &&& final(self).next_client_id == old(self).next_client_id
                    &&& out@.len() == 1
                    &&& final(self).is_lobby_broadcast(out@[0])
                } else {
                    final(self).unchanged_from(*old(self)) && out@.len() == 0
                },
            },
            msg matches ClientMessage::Input {
                sequence,
                throttle_bits,
                steer_bits,
                braking,
                boosting,
                shoot,
            } ==> has_client_at(old(self).clients@, from) ==> {
                let k = first_at(old(self).clients@, from);
                let before = old(self).clients@[k].input;
                let after = final(self).clients@[k].input;
                if sequence > before.sequence {
                    &&& after.sequence == sequence
                    &&& after.throttle_bits == throttle_bits
                    &&& after.steer_bits == steer_bits
                    &&& after.braking == braking
                    &&& after.boosting == boosting
                    &&& after.shoot == shoot
                } else {
                    after == before
                }
            },
            msg matches ClientMessage::TeamChange { team } ==> (has_client_at(old(self).clients@, from)
                && old(self).settings.teams_enabled) ==> {
                let k = first_at(old(self).clients@, from);
                let id = old(self).clients@[k].info.client_id;
                let t = final(self).clients@[k].info.team;
                &&& t <= 2
                &&& t <= team
                &&& (t == team || t == 2)
                &&& (team < 2 ==> t == team)
                &&& has_player(old(self).player_info@, id) ==> final(self).player_info@[first_with_id(
                    old(self).player_info@,
                    id,
                )].team == t
            },
    {
        let mut out: Vec<Outgoing<ServerMessage>> = Vec::new();
        match msg {
            ClientMessage::Hello { username, car_index, blaster_index } => {
                if self.clients.len() >= MAX_PLAYERS {
                    return out;
                }
                let id = self.next_client_id;
                self.next_client_id = id + 1;
                let info = PlayerInfo {
                    client_id: id,
                    username,
                    car_index,
                    blaster_index,
                    team: 0,
                    health: self.settings.max_hp,
                    alive: true,
                    ready: false,
                };
                let entry = info.duplicate();
                self.clients.push(
                    ClientConnection { addr: from, info, input: ClientInputState::default() },
                );
                self.player_info.push(entry);
                let mut to: Vec<PeerAddr> = Vec::new();
                to.push(from);
                assert(to@ =~= seq![from]);
                out.push(
                    Outgoing {
                        to,
                        msg: ServerMessage::Accept { client_id: id, settings: self.settings },
                    },
                );
                proof {
                    assert(self.clients@.drop_last() =~= old(self).clients@);
                    lemma_push_keeps_keys(*old(self), *self);
                    if old(self).wf() {
                        lemma_push_keeps_wf(*old(self), *self);
                    }
                }
                out.push(self.broadcast_lobby_update());
            },
            ClientMessage::Input { sequence, throttle_bits, steer_bits, braking, boosting, shoot } => {
                match find_client_at(&self.clients, from) {
                    Some(k) => {
                        proof {
                            lemma_first_at_unique(self.clients@, from, k as int);
                        }
                        if sequence > self.clients[k].input.sequence {
                            let mut c = self.clients.remove(k);
                            c.input = ClientInputState {
                                throttle_bits,
                                steer_bits,
                                braking,
                                boosting,
                                shoot,
                                sequence,
                            };
                            self.clients.insert(k, c);
                            proof {
                                assert(self.clients@ =~= old(self).clients@.update(
                                    k as int,
                                    c,
                                ));
                                lemma_same_ids_keep_keys(*old(self), *self);
                                if old(self).wf() {
                                    lemma_same_infos_keep_wf(*old(self), *self);
                                }
                            }
                        }
                    },
                    None => {},
                }
            },
            ClientMessage::Ready => {
                match find_client_at(&self.clients, from) {
                    Some(k) => {
                        proof {
                            lemma_first_at_unique(self.clients@, from, k as int);
                        }
                        let mut c = self.clients.remove(k);
                        c.info.ready = true;
                        let id = c.info.client_id;
                        self.clients.insert(k, c);
                        assert(self.clients@ =~= old(self).clients@.update(k as int, c));
                        let ghost mid = self.player_info@;
                        match find_player(&self.player_info, id) {
                            Some(j) => {
                                proof {
                                    lemma_first_with_id_unique(mid, id, j as int);
                                    if old(self).wf() {
                                        lemma_roster_slot(*old(self), k as int, j as int);
                                    }
                                }
                                let mut p = self.player_info.remove(j);
                                p.ready = true;
                                self.player_info.insert(j, p);
                                assert(self.player_info@ =~= mid.update(j as int, p));
                            },
                            None => {
                                proof {
                                    if old(self).wf() {
                                        lemma_roster_slot_exists(*old(self), k as int);
                                    }
                                }
                            },
                        }
                        proof {
                            lemma_same_ids_keep_keys(*old(self), *self);
                            if old(self).wf() {
                                lemma_roster_edit_keeps_wf(*old(self), *self, k as int);
                            }
                        }
                        out.push(self.broadcast_lobby_update());
                    },
                    None => {},
                }
            },
            ClientMessage::Respawn => {},
            ClientMessage::TeamChange { team } => {
                match find_client_at(&self.clients, from) {
                    Some(k) => {
                        proof {
                            lemma_first_at_unique(self.clients@, from, k as int);
                        }
                        if self.settings.teams_enabled {
                            let t = if team < 2 {
                                team
                            } else {
                                2
                            };
                            let mut c = self.clients.remove(k);
                            c.info.team = t;
                            let id = c.info.client_id;
                            self.clients.insert(k, c);
                            assert(self.clients@ =~= old(self).clients@.update(k as int, c));
                            let ghost mid = self.player_info@;
                            match find_player(&self.player_info, id) {
                                Some(j) => {
                                    proof {
                                        lemma_first_with_id_unique(mid, id, j as int);
                                        if old(self).wf() {
                                            lemma_roster_slot(*old(self), k as int, j as int);
                                        }
                                    }
                                    let mut p = self.player_info.remove(j);
                                    p.team = t;
                                    self.player_info.insert(j, p);
                                    assert(self.player_info@ =~= mid.update(j as int, p));
                                },
                                None => {
                                    proof {
                                        if old(self).wf() {
                                            lemma_roster_slot_exists(*old(self), k as int);
                                        }
                                    }
                                },
                            }
                            proof {
                                lemma_same_ids_keep_keys(*old(self), *self);
                                if old(self).wf() {
                                    lemma_roster_edit_keeps_wf(*old(self), *self, k as int);
                                }
                            }
                            out.push(self.broadcast_lobby_update());
                        }
                    },
                    None => {},
                }
            },
        }
        out
    }
}

/// A team request is capped at 2: the team given is the smaller of the
/// request and 2, so teams 0 and 1 are granted as asked.
pub proof fn lemma_team_request_is_capped_at_two(team: u8)
    ensures
        capped_team(team) <= 2,
        capped_team(team) <= team,
        capped_team(team) == team || capped_team(team) == 2,
        team <= 2 ==> capped_team(team) == team,
        team >= 2 ==> capped_team(team) == 2,
{
}

/// A newer input replaces the stored one field by field, each from its own
/// field of the message; an input that is not newer changes nothing; and
/// the stored sequence never goes back. The address and info are untouched.
pub proof fn lemma_newer_input_is_stored_as_sent(c: ClientConnection, input: ClientInputState)
    ensures
        input.sequence > c.input.sequence ==> {
            let n = with_input(c, input).input;
            &&& n.sequence == input.sequence
            &&& n.throttle_bits == input.throttle_bits
            &&& n.steer_bits == input.steer_bits
            &&& n.braking == input.braking
            &&& n.boosting == input.boosting
            &&& n.shoot == input.shoot
        },
        input.sequence <= c.input.sequence ==> with_input(c, input) == c,
        with_input(c, input).input.sequence >= c.input.sequence,
        with_input(c, input).addr == c.addr,
        with_input(c, input).info == c.info,
{
}

/// Whether every admitted client has declared itself ready.
pub fn all_players_ready(server: &GameServer) -> (r: bool)
    ensures
        r == (forall|i: int| 0 <= i < server.clients@.len() ==> #[trigger] server.clients@[i].info.ready),
{
    let mut i: usize = 0;
    while i < server.clients.len()
        invariant
            i <= server.clients.len(),
            forall|j: int| 0 <= j < i ==> #[trigger] server.clients@[j].info.ready,
        decreases server.clients.len() - i,
    {
        if !server.clients[i].info.ready {
            return false;
        }
        i = i + 1;
    }
    true
}

/// The first client at `addr`, if any.
fn find_client_at(clients: &Vec<ClientConnection>, addr: PeerAddr) -> (r: Option<usize>)
    ensures
        match r {
            Some(k) => is_first_at(clients@, addr, k as int),
            None => !has_client_at(clients@, addr),
        },
{
    let mut i: usize = 0;
    while i < clients.len()
        invariant
            i <= clients.len(),
            forall|j: int| 0 <= j < i ==> clients@[j].addr != addr,
        decreases clients.len() - i,
    {
        if clients[i].addr == addr {
            return Some(i);
        }
        i = i + 1;
    }
    None
}

/// The first roster entry with id `id`, if any.
fn find_player(players: &Vec<PlayerInfo>, id: u64) -> (r: Option<usize>)
    ensures
        match r {
            Some(k) => is_first_with_id(players@, id, k as int),
            None => !has_player(players@, id),
        },
{
    let mut i: usize = 0;
    while i < players.len()
        invariant
            i <= players.len(),
            forall|j: int| 0 <= j < i ==> players@[j].client_id != id,
        decreases players.len() - i,
    {
        if players[i].client_id == id {
            return Some(i);
        }
        i = i + 1;
    }
    None
}

/// A client that is the first at `addr` is the one `first_at` names.
pub proof fn lemma_first_at_unique(clients: Seq<ClientConnection>, addr: PeerAddr, k: int)
    requires
        is_first_at(clients, addr, k),
    ensures
        has_client_at(clients, addr),
        first_at(clients, addr) == k,
{
    let c = first_at(clients, addr);
    assert(is_first_at(clients, addr, c));
    if c < k {
        assert(clients[c].addr != addr);
    } else if c > k {
        assert(clients[k].addr != addr);
    }
}

/// A roster entry that is the first with `id` is the one `first_with_id`
/// names.
pub proof fn lemma_first_with_id_unique(players: Seq<PlayerInfo>, id: u64, k: int)
    requires
        is_first_with_id(players, id, k),
    ensures
        has_player(players, id),
        first_with_id(players, id) == k,
{
    let c = first_with_id(players, id);
    assert(is_first_with_id(players, id, c));
    if c < k {
        assert(players[c].client_id != id);
    } else if c > k {
        assert(players[k].client_id != id);
    }
}

/// In a well-formed server the roster entry of client `k` is the first
/// (indeed the only) one with its id.
proof fn lemma_roster_slot(s: GameServer, k: int, j: int)
    requires
        s.wf(),
        0 <= k < s.clients@.len(),
        is_first_with_id(s.player_info@, s.clients@[k].info.client_id, j),
    ensures
        j == s.player_info@.len() - s.clients@.len() + k,
{
    let p = s.player_info@;
    let off = p.len() - s.clients@.len();
    assert(p[off + k] == s.clients@[k].info);
    if j < off + k {
        assert(p[j].client_id != p[off + k].client_id);
    } else if j > off + k {
        assert(p[off + k].client_id != s.clients@[k].info.client_id);
    }
}

/// In a well-formed server every client has a roster entry.
proof fn lemma_roster_slot_exists(s: GameServer, k: int)
    requires
        s.wf(),
        0 <= k < s.clients@.len(),
    ensures
        has_player(s.player_info@, s.clients@[k].info.client_id),
{
    let p = s.player_info@;
    let off = p.len() - s.clients@.len();
    assert(p[off + k] == s.clients@[k].info);
}

/// Admitting a client under the next id keeps the clients a map by id.
proof fn lemma_push_keeps_keys(old: GameServer, new: GameServer)
    requires
        old.keys_ok(),
        new.next_client_id == old.next_client_id + 1,
        new.clients@.len() == old.clients@.len() + 1,
        new.clients@.drop_last() == old.clients@,
        new.clients@.last().info.client_id == old.next_client_id,
    ensures
        new.keys_ok(),
{
    let c = new.clients@;
    assert forall|i: int| 0 <= i < c.len() implies #[trigger] c[i].info.client_id
        < new.next_client_id by {
        if i < c.len() - 1 {
            assert(c[i] == old.clients@[i]);
        }
    }
    assert forall|i: int, j: int|
        0 <= i < j < c.len() implies #[trigger] c[i].info.client_id
        < #[trigger] c[j].info.client_id by {
        assert(c[i] == old.clients@[i]);
        if j < c.len() - 1 {
            assert(c[j] == old.clients@[j]);
        }
    }
}

/// Changing anything of the clients but their ids keeps them a map by id.
proof fn lemma_same_ids_keep_keys(old: GameServer, new: GameServer)
    requires
        old.keys_ok(),
        new.next_client_id == old.next_client_id,
        new.clients@.len() == old.clients@.len(),
        forall|i: int| 0 <= i < old.clients@.len() ==> #[trigger] new.clients@[i].info.client_id
            == old.clients@[i].info.client_id,
    ensures
        new.keys_ok(),
{
    let c = new.clients@;
    assert forall|i: int| 0 <= i < c.len() implies #[trigger] c[i].info.client_id
        < new.next_client_id by {
        assert(new.clients@[i].info.client_id == old.clients@[i].info.client_id);
    }
    assert forall|i: int, j: int|
        0 <= i < j < c.len() implies #[trigger] c[i].info.client_id
        < #[trigger] c[j].info.client_id by {
        assert(new.clients@[i].info.client_id == old.clients@[i].info.client_id);
        assert(new.clients@[j].info.client_id == old.clients@[j].info.client_id);
    }
}

/// Admitting a client under the next id keeps the server well formed.
proof fn lemma_push_keeps_wf(old: GameServer, new: GameServer)
    requires
        old.wf(),
        old.clients@.len() < MAX_PLAYERS,
        new.next_client_id == old.next_client_id + 1,
        new.clients@.len() == old.clients@.len() + 1,
        new.clients@.drop_last() == old.clients@,
        new.player_info@ == old.player_info@.push(new.clients@.last().info),
        new.clients@.last().info.client_id == old.next_client_id,
    ensures
        new.wf(),
{
    let c = new.clients@;
    let p = new.player_info@;
    assert forall|i: int| 0 <= i < c.len() implies #[trigger] c[i].info.client_id
        < new.next_client_id by {
        if i < c.len() - 1 {
            assert(c[i] == old.clients@[i]);
        }
    }
    assert forall|i: int, j: int|
        0 <= i < j < c.len() implies #[trigger] c[i].info.client_id
        < #[trigger] c[j].info.client_id by {
        assert(c[i] == old.clients@[i]);
        if j < c.len() - 1 {
            assert(c[j] == old.clients@[j]);
        }
    }
    assert forall|i: int| 0 <= i < p.len() implies #[trigger] p[i].client_id
        < new.next_client_id by {
        if i < p.len() - 1 {
            assert(p[i] == old.player_info@[i]);
        }
    }
    assert forall|i: int, j: int|
        0 <= i < j < p.len() implies #[trigger] p[i].client_id != #[trigger] p[j].client_id by {
        assert(p[i] == old.player_info@[i]);
        if j < p.len() - 1 {
            assert(p[j] == old.player_info@[j]);
        }
    }
    assert forall|i: int| 0 <= i < c.len() implies #[trigger] p[p.len() - c.len() + i]
        == c[i].info by {
        if i < c.len() - 1 {
            assert(c[i] == old.clients@[i]);
            assert(p[p.len() - c.len() + i] == old.player_info@[old.player_info@.len()
                - old.clients@.len() + i]);
        }
    }
}

/// Changing only the inputs of clients keeps the server well formed.
proof fn lemma_same_infos_keep_wf(old: GameServer, new: GameServer)
    requires
        old.wf(),
        new.next_client_id == old.next_client_id,
        new.player_info@ == old.player_info@,
        new.clients@.len() == old.clients@.len(),
        forall|i: int| 0 <= i < old.clients@.len() ==> #[trigger] new.clients@[i].info
            == old.clients@[i].info,
    ensures
        new.wf(),
{
    let c = new.clients@;
    let p = new.player_info@;
    assert forall|i: int| 0 <= i < c.len() implies #[trigger] c[i].info.client_id
        < new.next_client_id by {
        assert(new.clients@[i].info == old.clients@[i].info);
    }
    assert forall|i: int, j: int|
        0 <= i < j < c.len() implies #[trigger] c[i].info.client_id
        < #[trigger] c[j].info.client_id by {
        assert(new.clients@[i].info == old.clients@[i].info);
        assert(new.clients@[j].info == old.clients@[j].info);
    }
    assert forall|i: int| 0 <= i < c.len() implies #[trigger] p[p.len() - c.len() + i]
        == c[i].info by {
        assert(new.clients@[i].info == old.clients@[i].info);
    }
}

/// Editing the ready flag or team of client `k` and, the same way, of its
/// roster entry keeps the server well formed.
proof fn lemma_roster_edit_keeps_wf(old: GameServer, new: GameServer, k: int)
    requires
        old.wf(),
        0 <= k < old.clients@.len(),
        new.next_client_id == old.next_client_id,
        new.clients@.len() == old.clients@.len(),
        forall|i: int| 0 <= i < old.clients@.len() && i != k ==> #[trigger] new.clients@[i]
            == old.clients@[i],
        new.clients@[k].info.client_id == old.clients@[k].info.client_id,
        new.player_info@ == old.player_info@.update(
            old.player_info@.len() - old.clients@.len() + k,
            new.clients@[k].info,
        ),
    ensures
        new.wf(),
{
    let c = new.clients@;
    let p = new.player_info@;
    let off = p.len() - c.len();
    assert forall|i: int| 0 <= i < c.len() implies #[trigger] c[i].info.client_id
        < new.next_client_id by {
        if i != k {
            assert(c[i] == old.clients@[i]);
        }
    }
    assert forall|i: int, j: int|
        0 <= i < j < c.len() implies #[trigger] c[i].info.client_id
        < #[trigger] c[j].info.client_id by {
        if i != k {
            assert(c[i] == old.clients@[i]);
        }
        if j != k {
            assert(c[j] == old.clients@[j]);
        }
        assert(old.clients@[i].info.client_id < old.clients@[j].info.client_id);
    }
    assert forall|i: int| 0 <= i < p.len() implies #[trigger] p[i].client_id
        < new.next_client_id by {
        if i != off + k {
            assert(p[i] == old.player_info@[i]);
        } else {
            assert(old.player_info@[off + k] == old.clients@[k].info);
        }
    }
    assert forall|i: int, j: int|
        0 <= i < j < p.len() implies #[trigger] p[i].client_id != #[trigger] p[j].client_id by {
        assert(old.player_info@[off + k] == old.clients@[k].info);
        assert(old.player_info@[i].client_id != old.player_info@[j].client_id);
    }
    assert forall|i: int| 0 <= i < c.len() implies #[trigger] p[p.len() - c.len() + i]
        == c[i].info by {
        if i != k {
            assert(c[i] == old.clients@[i]);
            assert(old.player_info@[off + i] == old.clients@[i].info);
        }
    }
}

} // verus!
