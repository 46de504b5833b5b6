use vstd::prelude::*;
use crate::net::protocol::{
    BulletSnapshot, CarSnapshot, ClientMessage, DiscoveredServer, GameSettings,
    Outgoing, PeerAddr, PlayerInfo, ServerAdvertisement, ServerMessage, GAME_PORT,
};

verus! {

/// The state of a client connected (or connecting) to a server.
pub struct GameClient {
    pub client_id: u64,
    pub server_addr: PeerAddr,
    pub settings: GameSettings,
    pub connected: bool,
    pub sequence: u64,
}

/// The lobby as the server last described it.
pub struct LobbyData {
    pub players: Vec<PlayerInfo>,
    pub settings: GameSettings,
}

/// The last world snapshot the server sent.
pub struct ReceivedSnapshot {
    pub tick: u64,
    pub cars: Vec<CarSnapshot>,
    pub bullets: Vec<BulletSnapshot>,
}

/// The servers heard on the discovery port, at most one per game port.
pub struct DiscoveredServers(pub Vec<DiscoveredServer>);

/// Where game packets for a server at `server` go: to the game port of an
/// IPv4 server, to the very address of an IPv6 one.
pub open spec fn game_addr_of(server: PeerAddr) -> PeerAddr {
    match server {
        PeerAddr::V4 { ip, .. } => PeerAddr::V4 { ip, port: GAME_PORT },
        _ => server,
    }
}

impl GameClient {
    /// The state of a client that has just opened a connection to `server`.
    pub fn connect(server: PeerAddr) -> (c: GameClient)
        ensures
            c.client_id == 0,
            c.server_addr == server,
            c.settings == GameSettings::spec_default(),
            !c.connected,
            c.sequence == 0,
    {
        GameClient {
            client_id: 0,
            server_addr: server,
            settings: GameSettings::default(),
            connected: false,
            sequence: 0,
        }
    }

    /// The address game packets are sent to.
    pub fn game_addr(&self) -> (a: PeerAddr)
        ensures
            a == game_addr_of(self.server_addr),
    {
        match self.server_addr {
            PeerAddr::V4 { ip, .. } => PeerAddr::V4 { ip, port: GAME_PORT },
            _ => self.server_addr,
        }
    }

    /// The packet that delivers `msg` to the server.
    pub fn send(&self, msg: ClientMessage) -> (p: Outgoing<ClientMessage>)
        ensures
            p.to@ == seq![game_addr_of(self.server_addr)],
            p.msg == msg,
    {
        let mut to: Vec<PeerAddr> = Vec::new();
        to.push(self.game_addr());
        assert(to@ =~= seq![game_addr_of(self.server_addr)]);
        Outgoing { to, msg }
    }

    /// The greeting that asks the server to admit this player.
    pub fn send_hello(&self, username: &str, car_index: usize, blaster_index: usize) -> (p: Outgoing<
        ClientMessage,
    >)
        ensures
            p.to@ == seq![game_addr_of(self.server_addr)],
            match p.msg {
                ClientMessage::Hello { username: u, car_index: c, blaster_index: b } => u@
                    == username@ && c == car_index && b == blaster_index,
                _ => false,
            },
    {
        self.send(
            ClientMessage::Hello {
                username: String::from_str(username),
                car_index,
                blaster_index,
            },
        )
    }

    /// Numbers the next driving input and returns its packet; inputs are
    /// numbered 1, 2, 3, ... in the order they are sent.
    pub fn send_input(
        &mut self,
        throttle_bits: u32,
        steer_bits: u32,
        braking: bool,
        boosting: bool,
        shoot: bool,
    ) -> (p: Outgoing<ClientMessage>)
        requires
            old(self).sequence < u64::MAX,
        ensures
            final(self).sequence == old(self).sequence + 1,
            final(self).client_id == old(self).client_id,
            final(self).server_addr == old(self).server_addr,
            final(self).settings == old(self).settings,
            final(self).connected == old(self).connected,
            p.to@ == seq![game_addr_of(old(self).server_addr)],
            p.msg == (ClientMessage::Input {
                sequence: final(self).sequence,
                throttle_bits,
                steer_bits,
                braking,
                boosting,
                shoot,
            }),
    {
        self.sequence = self.sequence + 1;
        let seq = self.sequence;
        self.send(
            ClientMessage::Input { sequence: seq, throttle_bits, steer_bits, braking, boosting, shoot },
        )
    }

    /// The packet that tells the server this player is ready.
    pub fn send_ready(&self) -> (p: Outgoing<ClientMessage>)
        ensures
            p.to@ == seq![game_addr_of(self.server_addr)],
            p.msg == ClientMessage::Ready,
    {
        self.send(ClientMessage::Ready)
    }

    /// Applies one message from the server to the client, the lobby and the
    /// snapshot, and tells whether the match is starting.
    pub fn receive(
        &mut self,
        lobby: &mut LobbyData,
        snapshot: &mut ReceivedSnapshot,
        msg: ServerMessage,
    ) -> (starting: bool)
        ensures
            final(self).server_addr == old(self).server_addr,
            final(self).sequence == old(self).sequence,
            starting == (msg is GameStarting),
            match msg {
                ServerMessage::Accept { client_id, settings } => {
                    &&& final(self).client_id == client_id
                    &&& final(self).settings == settings
                    &&& final(self).connected
                },
                _ => {
                    &&& final(self).client_id == old(self).client_id
                    &&& final(self).settings == old(self).settings
                    &&& final(self).connected == old(self).connected
                },
            },
            match msg {
                ServerMessage::LobbyUpdate { players, settings } => final(lobby).players@
                    == players@ && final(lobby).settings == settings,
                _ => final(lobby).players@ == old(lobby).players@ && final(lobby).settings
                    == old(lobby).settings,
            },
            match msg {
                ServerMessage::Snapshot { tick, cars, bullets } => final(snapshot).tick == tick
                    && final(snapshot).cars@ == cars@ && final(snapshot).bullets@ == bullets@,
                _ => final(snapshot).tick == old(snapshot).tick && final(snapshot).cars@ == old(
                    snapshot,
                ).cars@ && final(snapshot).bullets@ == old(snapshot).bullets@,
            },
    {
        match msg {
            ServerMessage::Accept { client_id, settings } => {
                self.client_id = client_id;
                self.settings = settings;
                self.connected = true;
                false
            },
            ServerMessage::LobbyUpdate { players, settings } => {
                lobby.players = players;
                lobby.settings = settings;
                false
            },
            ServerMessage::Snapshot { tick, cars, bullets } => {
                snapshot.tick = tick;
                snapshot.cars = cars;
                snapshot.bullets = bullets;
                false
            },
            ServerMessage::GameStarting { .. } => true,
            ServerMessage::GameOver { .. } => false,
            ServerMessage::PlayerJoined { .. } => false,
            ServerMessage::PlayerLeft { .. } => false,
        }
    }
}

impl LobbyData {
    pub fn new() -> (l: LobbyData)
        ensures
            l.players@.len() == 0,
            l.settings == GameSettings::spec_default(),
    {
        LobbyData { players: Vec::new(), settings: GameSettings::default() }
    }
}

impl ReceivedSnapshot {
    pub fn new() -> (s: ReceivedSnapshot)
        ensures
            s.tick == 0,
            s.cars@.len() == 0,
            s.bullets@.len() == 0,
    {
        ReceivedSnapshot { tick: 0, cars: Vec::new(), bullets: Vec::new() }
    }
}

/// `servers` already holds a server announced on `port`.
pub open spec fn knows_port(servers: Seq<DiscoveredServer>, port: u16) -> bool {
    exists|i: int| 0 <= i < servers.len() && servers[i].adv.port == port
}

/// The list after hearing `d`: unchanged when a server on the same game
/// port is already known, else with `d` appended.
pub open spec fn after_hearing(servers: Seq<DiscoveredServer>, d: DiscoveredServer) -> Seq<
    DiscoveredServer,
> {
    if knows_port(servers, d.adv.port) {
        servers
    } else {
        servers.push(d)
    }
}

/// No two known servers share a game port.
pub open spec fn ports_distinct(servers: Seq<DiscoveredServer>) -> bool {
    forall|i: int, j: int|
        0 <= i < j < servers.len() ==> #[trigger] servers[i].adv.port != #[trigger] servers[j].adv.port
}

impl DiscoveredServers {
    pub fn new() -> (d: DiscoveredServers)
        ensures
            d.0@.len() == 0,
    {
        DiscoveredServers(Vec::new())
    }

    /// Records the advertisement `adv` heard from `addr`, unless a server on
    /// the same game port is already known.
    pub fn record(&mut self, adv: ServerAdvertisement, addr: PeerAddr)
        ensures
            final(self).0@ == after_hearing(old(self).0@, DiscoveredServer { adv, addr }),
            ports_distinct(old(self).0@) ==> ports_distinct(final(self).0@),
    {
        let mut i: usize = 0;
        while i < self.0.len()
            invariant
                i <= self.0.len(),
                forall|j: int| 0 <= j < i ==> self.0@[j].adv.port != adv.port,
            decreases self.0.len() - i,
        {
            if self.0[i].adv.port == adv.port {
                return;
            }
            i = i + 1;
        }
        self.0.push(DiscoveredServer { adv, addr });
    }
}

/// Hearing the same announcement twice leaves the list as hearing it once.
pub proof fn lemma_hearing_is_idempotent(servers: Seq<DiscoveredServer>, d: DiscoveredServer)
    ensures
        after_hearing(after_hearing(servers, d), d) == after_hearing(servers, d),
{
    if !knows_port(servers, d.adv.port) {
        let s2 = servers.push(d);
        assert(s2[servers.len() as int].adv.port == d.adv.port);
    }
}

/// How to bring the remote cars on screen in line with a snapshot: which
/// snapshot cars to spawn, which (on-screen entity, snapshot car) pairs to
/// move, and which on-screen entities to remove. Entities are named by
/// their position in the list of on-screen owner ids, cars by their
/// position in the snapshot.
pub struct RemotePlan {
    pub spawn: Vec<usize>,
    pub update: Vec<(usize, usize)>,
    pub despawn: Vec<usize>,
}

/// Some snapshot car belongs to `id`.
pub open spec fn has_car_of(cars: Seq<CarSnapshot>, id: u64) -> bool {
    exists|c: int| 0 <= c < cars.len() && cars[c].client_id == id
}

/// `r` lists, in increasing order and without repetition, exactly the
/// indices below `n` that satisfy `p`.
pub open spec fn lists_exactly(r: Seq<usize>, n: int, p: spec_fn(int) -> bool) -> bool {
    &&& forall|k: int| 0 <= k < r.len() ==> #[trigger] r[k] < n && p(r[k] as int)
    &&& forall|k: int, l: int| 0 <= k < l < r.len() ==> #[trigger] r[k] < #[trigger] r[l]
    &&& forall|i: int| 0 <= i < n && #[trigger] p(i) ==> exists|k: int| 0 <= k < r.len() && r[k] == i
}

/// `(e, c)` comes before `(e2, c2)`: by car first, then by entity.
pub open spec fn pair_before(a: (usize, usize), b: (usize, usize)) -> bool {
    a.1 < b.1 || (a.1 == b.1 && a.0 < b.0)
}

/// `r` lists, ordered by car then entity, exactly the pairs of an on-screen
/// entity and a snapshot car of the same owner.
pub open spec fn lists_matches(r: Seq<(usize, usize)>, existing: Seq<u64>, cars: Seq<CarSnapshot>) -> bool {
    &&& forall|k: int|
        0 <= k < r.len() ==> (#[trigger] r[k]).0 < existing.len() && r[k].1 < cars.len()
            && existing[r[k].0 as int] == cars[r[k].1 as int].client_id
    &&& forall|k: int, l: int| 0 <= k < l < r.len() ==> pair_before(#[trigger] r[k], #[trigger] r[l])
    &&& forall|e: int, c: int|
        0 <= e < existing.len() && 0 <= c < cars.len() && #[trigger] existing[e]
            == #[trigger] cars[c].client_id ==> exists|k: int|
            0 <= k < r.len() && r[k] == (e as usize, c as usize)
}

/// Plans how the remote cars on screen (`existing`, the owner id of each
/// on-screen remote car) follow a snapshot: a snapshot car whose owner has
/// no car on screen is spawned; otherwise every on-screen car of that owner
/// is moved to it; on-screen cars whose owner is absent from the snapshot
/// are removed.
pub fn plan_remote_cars(existing: &Vec<u64>, cars: &Vec<CarSnapshot>) -> (plan: RemotePlan)
    ensures
        lists_exactly(
            plan.spawn@,
            cars@.len() as int,
            |c: int| !existing@.contains(cars@[c].client_id),
        ),
        lists_matches(plan.update@, existing@, cars@),
        lists_exactly(
            plan.despawn@,
            existing@.len() as int,
            |e: int| !has_car_of(cars@, existing@[e]),
        ),
{
    let ghost spawn_pred = |c: int| !existing@.contains(cars@[c].client_id);
    let ghost despawn_pred = |e: int| !has_car_of(cars@, existing@[e]);
    let mut spawn: Vec<usize> = Vec::new();
    let mut update: Vec<(usize, usize)> = Vec::new();
    let mut c: usize = 0;
    while c < cars.len()
        invariant
            c <= cars.len(),
            spawn_pred == (|c: int| !existing@.contains(cars@[c].client_id)),
            forall|k: int| 0 <= k < spawn@.len() ==> #[trigger] spawn@[k] < c && spawn_pred(spawn@[k] as int),
            forall|k: int, l: int| 0 <= k < l < spawn@.len() ==> #[trigger] spawn@[k] < #[trigger] spawn@[l],
            forall|i: int| 0 <= i < c && #[trigger] spawn_pred(i) ==> exists|k: int| 0 <= k < spawn@.len() && spawn@[k] == i,
            forall|k: int|
                0 <= k < update@.len() ==> (#[trigger] update@[k]).0 < existing@.len() && update@[k].1 < c
                    && existing@[update@[k].0 as int] == cars@[update@[k].1 as int].client_id,
            forall|k: int, l: int| 0 <= k < l < update@.len() ==> pair_before(#[trigger] update@[k], #[trigger] update@[l]),
            forall|e: int, i: int|
                0 <= e < existing@.len() && 0 <= i < c && #[trigger] existing@[e]
                    == #[trigger] cars@[i].client_id ==> exists|k: int|
                    0 <= k < update@.len() && update@[k] == (e as usize, i as usize),
        decreases cars.len() - c,
    {
        let id = cars[c].client_id;
        let mut found = false;
        let mut e: usize = 0;
        let ghost before = update@;
        while e < existing.len()
            invariant
                c < cars.len(),
                id == cars@[c as int].client_id,
                e <= existing.len(),
                found == exists|j: int| 0 <= j < e && existing@[j] == id,
                update@.len() >= before.len(),
                forall|k: int| 0 <= k < before.len() ==> update@[k] == before[k],
                forall|k: int| 0 <= k < before.len() ==> (#[trigger] before[k]).1 < c,
                forall|k: int|
                    before.len() <= k < update@.len() ==> (#[trigger] update@[k]).1 == c && update@[k].0 < e,
                forall|k: int|
                    0 <= k < update@.len() ==> (#[trigger] update@[k]).0 < existing@.len() && update@[k].1 <= c
                        && existing@[update@[k].0 as int] == cars@[update@[k].1 as int].client_id,
                forall|k: int, l: int| 0 <= k < l < update@.len() ==> pair_before(#[trigger] update@[k], #[trigger] update@[l]),
                forall|e2: int, i: int|
                    0 <= e2 < existing@.len() && 0 <= i < c && #[trigger] existing@[e2]
                        == #[trigger] cars@[i].client_id ==> exists|k: int|
                        0 <= k < update@.len() && update@[k] == (e2 as usize, i as usize),
                forall|e2: int|
                    0 <= e2 < e && #[trigger] existing@[e2] == id ==> exists|k: int|
                        0 <= k < update@.len() && update@[k] == (e2 as usize, c),
            decreases existing.len() - e,
        {
            if existing[e] == id {
                found = true;
                let ghost prev = update@;
                update.push((e, c));
                proof {
                    assert forall|e2: int, i: int|
                        0 <= e2 < existing@.len() && 0 <= i < c && #[trigger] existing@[e2]
                            == #[trigger] cars@[i].client_id implies exists|k: int|
                            0 <= k < update@.len() && update@[k] == (e2 as usize, i as usize) by {
                        let k = choose|k: int| 0 <= k < prev.len() && prev[k] == (e2 as usize, i as usize);
                        assert(update@[k] == prev[k]);
                    }
                    assert forall|e2: int|
                        0 <= e2 < e + 1 && #[trigger] existing@[e2] == id implies exists|k: int|
                            0 <= k < update@.len() && update@[k] == (e2 as usize, c) by {
                        if e2 < e {
                            let k = choose|k: int| 0 <= k < prev.len() && prev[k] == (e2 as usize, c);
                            assert(update@[k] == prev[k]);
                        } else {
                            assert(update@[prev.len() as int] == (e2 as usize, c));
                        }
                    }
                    assert forall|k: int, l: int| 0 <= k < l < update@.len() implies pair_before(#[trigger] update@[k], #[trigger] update@[l]) by {
                        if l == prev.len() {
                            if k < before.len() {
                                assert(before[k].1 < c);
                            } else {
                                assert(prev[k].0 < e);
                            }
                        } else {
                            assert(update@[k] == prev[k] && update@[l] == prev[l]);
                        }
                    }
                }
            }
            e = e + 1;
        }
        proof {
            if found {
                let j = choose|j: int| 0 <= j < e && existing@[j] == id;
                assert(existing@.contains(id));
            }
            assert(found == existing@.contains(id));
            assert(spawn_pred(c as int) == !found);
        }
        let ghost prev_spawn = spawn@;
        if !found {
            spawn.push(c);
        }
        proof {
            assert forall|i: int| 0 <= i < c + 1 && #[trigger] spawn_pred(i) implies exists|k: int|
                0 <= k < spawn@.len() && spawn@[k] == i by {
                if i < c {
                    let k = choose|k: int| 0 <= k < prev_spawn.len() && prev_spawn[k] == i;
                    assert(spawn@[k] == prev_spawn[k]);
                } else {
                    assert(spawn@[prev_spawn.len() as int] == i);
                }
            }
        }
        c = c + 1;
    }
    let mut despawn: Vec<usize> = Vec::new();
    let mut e: usize = 0;
    while e < existing.len()
        invariant
            e <= existing.len(),
            despawn_pred == (|e: int| !has_car_of(cars@, existing@[e])),
            forall|k: int| 0 <= k < despawn@.len() ==> #[trigger] despawn@[k] < e && despawn_pred(despawn@[k] as int),
            forall|k: int, l: int| 0 <= k < l < despawn@.len() ==> #[trigger] despawn@[k] < #[trigger] despawn@[l],
            forall|i: int| 0 <= i < e && #[trigger] despawn_pred(i) ==> exists|k: int| 0 <= k < despawn@.len() && despawn@[k] == i,
        decreases existing.len() - e,
    {
        let id = existing[e];
        let mut seen = false;
        let mut i: usize = 0;
        while i < cars.len()
            invariant
                i <= cars.len(),
                seen == exists|j: int| 0 <= j < i && cars@[j].client_id == id,
            decreases cars.len() - i,
        {
            if cars[i].client_id == id {
                seen = true;
            }
            i = i + 1;
        }
        proof {
            if seen {
                let j = choose|j: int| 0 <= j < i && cars@[j].client_id == id;
                assert(has_car_of(cars@, id));
            }
            assert(despawn_pred(e as int) == !seen);
        }
        let ghost prev_despawn = despawn@;
        if !seen {
            despawn.push(e);
        }
        proof {
            assert forall|i: int| 0 <= i < e + 1 && #[trigger] despawn_pred(i) implies exists|k: int|
                0 <= k < despawn@.len() && despawn@[k] == i by {
                if i < e {
                    let k = choose|k: int| 0 <= k < prev_despawn.len() && prev_despawn[k] == i;
                    assert(despawn@[k] == prev_despawn[k]);
                } else {
                    assert(despawn@[prev_despawn.len() as int] == i);
                }
            }
        }
        e = e + 1;
    }
    RemotePlan { spawn, update, despawn }
}

/// Snapshot car `c` is in the spawn list.
pub open spec fn is_spawned(spawn: Seq<usize>, c: int) -> bool {
    exists|k: int| 0 <= k < spawn.len() && spawn[k] == c
}

/// Snapshot car `c` is followed by some on-screen car.
pub open spec fn is_followed(update: Seq<(usize, usize)>, c: int) -> bool {
    exists|k: int| 0 <= k < update.len() && update[k].1 == c
}

/// Every snapshot car is either spawned or followed by an on-screen car of
/// its owner (never both), and an on-screen car is removed exactly when its
/// owner is absent from the snapshot, so it is never both moved and removed.
pub proof fn lemma_plan_covers_snapshot(
    existing: Seq<u64>,
    cars: Seq<CarSnapshot>,
    plan_spawn: Seq<usize>,
    plan_update: Seq<(usize, usize)>,
    plan_despawn: Seq<usize>,
)
    requires
        cars.len() <= usize::MAX,
        existing.len() <= usize::MAX,
        lists_exactly(plan_spawn, cars.len() as int, |c: int| !existing.contains(cars[c].client_id)),
        lists_matches(plan_update, existing, cars),
        lists_exactly(plan_despawn, existing.len() as int, |e: int| !has_car_of(cars, existing[e])),
    ensures
        forall|c: int| 0 <= c < cars.len() ==> (#[trigger] is_spawned(plan_spawn, c) <==> !is_followed(plan_update, c)),
        forall|k: int, d: int| 0 <= k < plan_update.len() && 0 <= d < plan_despawn.len() ==> #[trigger] plan_update[k].0 != #[trigger] plan_despawn[d],
{
    let sp = |c: int| !existing.contains(cars[c].client_id);
    let dp = |e: int| !has_car_of(cars, existing[e]);
    assert forall|c: int| 0 <= c < cars.len() implies (#[trigger] is_spawned(plan_spawn, c) <==> !is_followed(plan_update, c)) by {
        if is_spawned(plan_spawn, c) {
            let k = choose|k: int| 0 <= k < plan_spawn.len() && plan_spawn[k] == c;
            assert(sp(plan_spawn[k] as int));
            if is_followed(plan_update, c) {
                let k2 = choose|k2: int| 0 <= k2 < plan_update.len() && plan_update[k2].1 == c;
                let e = plan_update[k2].0 as int;
                assert(existing[e] == cars[c].client_id);
                assert(existing.contains(cars[c].client_id));
            }
        } else {
            if !sp(c) {
                let e = choose|e: int| 0 <= e < existing.len() && existing[e] == cars[c].client_id;
                assert(existing[e] == cars[c].client_id);
                let k = choose|k: int| 0 <= k < plan_update.len() && plan_update[k] == (e as usize, c as usize);
                assert(plan_update[k].1 == c);
            }
        }
    }
    assert forall|k: int, d: int| 0 <= k < plan_update.len() && 0 <= d < plan_despawn.len() implies #[trigger] plan_update[k].0 != #[trigger] plan_despawn[d] by {
        let c = plan_update[k].1 as int;
        assert(dp(plan_despawn[d] as int));
        assert(existing[plan_update[k].0 as int] == cars[c].client_id);
    }
}

} // verus!
