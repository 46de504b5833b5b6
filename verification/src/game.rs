use vstd::prelude::*;
use crate::rng::random_in;

verus! {

/// The screens and phases of the game.
#[derive(Clone, Copy, Debug, PartialEq, Eq, Structural)]
pub enum GameState {
    Loading,
    PreGame,
    MultiplayerLobby,
    Playing,
    Eliminated,
}

impl Default for GameState {
    fn default() -> (s: Self)
        ensures
            s == GameState::Loading,
    {
        GameState::Loading
    }
}

/// A phase change requested by the interface, applied on the next frame.
pub struct PendingState(pub Option<GameState>);

impl PendingState {
    /// Takes the requested phase, leaving no request behind.
    pub fn take(&mut self) -> (r: Option<GameState>)
        ensures
            r == old(self).0,
            final(self).0 is None,
    {
        self.0.take()
    }
}

/// Whether this game hosts a match, joins one, or plays alone.
pub enum NetMode {
    Solo,
    Host { server_name: String },
    Client,
}

impl NetMode {
    /// Whether this game is a client of another's match (a client leaves
    /// bullets and aiming to the server).
    pub fn is_client(&self) -> (b: bool)
        ensures
            b == (*self is Client),
    {
        match self {
            NetMode::Client => true,
            _ => false,
        }
    }
}

/// Whether local gameplay systems run: everywhere but on a client.
pub fn not_client(mode: &NetMode) -> (b: bool)
    ensures
        b == !(*mode is Client),
{
    !mode.is_client()
}

/// The largest number of opponents the selector offers.
pub const MAX_SELECTABLE_OPPONENTS: usize = 10;

/// The lowest and highest health the selector offers.
pub const MIN_SELECTABLE_HP: u8 = 2;
pub const MAX_SELECTABLE_HP: u8 = 10;

/// The highest value the host's adjusters reach.
pub const MAX_HOST_SETTING: u8 = 20;

/// How many computer-driven opponents a single-player match has, or
/// whether that number is drawn at random when the match starts.
pub struct AiEnemyCount {
    pub count: usize,
    pub random: bool,
}

/// How much health every car starts with, or whether it is drawn at random.
pub struct MaxHealthPoints {
    pub hp: u8,
    pub random: bool,
}

/// Whether the last match was won.
pub struct GameOutcome(pub bool);

/// The local player's display name.
pub struct PlayerName(pub String);

impl Default for PlayerName {
    fn default() -> (n: Self)
        ensures
            n.0@ == "Player"@,
    {
        PlayerName(String::from_str("Player"))
    }
}

/// Position of a selector on its ring: a value, or the "random" slot after
/// the last value.
pub open spec fn ring_position(random: bool, value: int, first: int, last: int) -> int {
    if random {
        last - first + 1
    } else {
        value - first
    }
}

impl Default for AiEnemyCount {
    fn default() -> (s: Self)
        ensures
            s.count == 3,
            !s.random,
    {
        AiEnemyCount { count: 3, random: false }
    }
}

impl AiEnemyCount {
    pub open spec fn position(self) -> int {
        ring_position(self.random, self.count as int, 0, MAX_SELECTABLE_OPPONENTS as int)
    }

    /// The selector shows a value it offers (or random).
    pub open spec fn on_ring(self) -> bool {
        self.random || self.count <= MAX_SELECTABLE_OPPONENTS
    }

    pub open spec fn stepped_back(self) -> AiEnemyCount {
        if self.random {
            AiEnemyCount { count: MAX_SELECTABLE_OPPONENTS, random: false }
        } else if self.count == 0 {
            AiEnemyCount { count: 0, random: true }
        } else {
            AiEnemyCount { count: (self.count - 1) as usize, random: false }
        }
    }

    pub open spec fn stepped_forward(self) -> AiEnemyCount {
        if self.random {
            AiEnemyCount { count: 0, random: false }
        } else if self.count == MAX_SELECTABLE_OPPONENTS {
            AiEnemyCount { count: self.count, random: true }
        } else {
            AiEnemyCount { count: (self.count + 1) as usize, random: false }
        }
    }

    /// The "<" button: random goes to the highest count, 0 goes to random,
    /// any other count goes one down.
    pub fn select_prev(&mut self)
        ensures
            *final(self) == old(self).stepped_back(),
    {
        if self.random {
            self.random = false;
            self.count = MAX_SELECTABLE_OPPONENTS;
        } else if self.count == 0 {
            self.random = true;
        } else {
            self.count = self.count - 1;
        }
    }

    /// The ">" button: random goes to 0, the highest count goes to random,
    /// any other count goes one up.
    pub fn select_next(&mut self)
        requires
            old(self).random || old(self).count < usize::MAX,
        ensures
            *final(self) == old(self).stepped_forward(),
    {
        if self.random {
            self.random = false;
            self.count = 0;
        } else if self.count == MAX_SELECTABLE_OPPONENTS {
            self.random = true;
        } else {
            self.count = self.count + 1;
        }
    }

    /// The host's "-" button: one fewer opponent, never below 0.
    pub fn host_decrement(&mut self)
        ensures
            final(self).count == if old(self).count == 0 { 0 } else { (old(self).count - 1) as usize },
            final(self).random == old(self).random,
    {
        self.count = self.count.saturating_sub(1);
    }

    /// The host's "+" button: one more opponent, never above 20.
    pub fn host_increment(&mut self)
        ensures
            final(self).count == if old(self).count + 1 > MAX_HOST_SETTING {
                MAX_HOST_SETTING as usize
            } else {
                (old(self).count + 1) as usize
            },
            final(self).random == old(self).random,
    {
        let up = self.count.saturating_add(1);
        self.count = if up < MAX_HOST_SETTING as usize {
            up
        } else {
            MAX_HOST_SETTING as usize
        };
    }
}

impl Default for MaxHealthPoints {
    fn default() -> (s: Self)
        ensures
            s.hp == 3,
            !s.random,
    {
        MaxHealthPoints { hp: 3, random: false }
    }
}

impl MaxHealthPoints {
    pub open spec fn position(self) -> int {
        ring_position(self.random, self.hp as int, MIN_SELECTABLE_HP as int, MAX_SELECTABLE_HP as int)
    }

    /// The selector shows a value it offers (or random).
    pub open spec fn on_ring(self) -> bool {
        self.random || (MIN_SELECTABLE_HP <= self.hp <= MAX_SELECTABLE_HP)
    }

    pub open spec fn stepped_back(self) -> MaxHealthPoints {
        if self.random {
            MaxHealthPoints { hp: MAX_SELECTABLE_HP, random: false }
        } else if self.hp == MIN_SELECTABLE_HP {
            MaxHealthPoints { hp: self.hp, random: true }
        } else {
            MaxHealthPoints { hp: (self.hp - 1) as u8, random: false }
        }
    }

    pub open spec fn stepped_forward(self) -> MaxHealthPoints {
        if self.random {
            MaxHealthPoints { hp: MIN_SELECTABLE_HP, random: false }
        } else if self.hp == MAX_SELECTABLE_HP {
            MaxHealthPoints { hp: self.hp, random: true }
        } else {
            MaxHealthPoints { hp: (self.hp + 1) as u8, random: false }
        }
    }

    /// The "<" button: random goes to the highest health, the lowest goes to
    /// random, any other value goes one down.
    pub fn select_prev(&mut self)
        requires
            old(self).random || old(self).hp > 0,
        ensures
            *final(self) == old(self).stepped_back(),
    {
        if self.random {
            self.random = false;
            self.hp = MAX_SELECTABLE_HP;
        } else if self.hp == MIN_SELECTABLE_HP {
            self.random = true;
        } else {
            self.hp = self.hp - 1;
        }
    }

    /// The ">" button: random goes to the lowest health, the highest goes to
    /// random, any other value goes one up.
    pub fn select_next(&mut self)
        requires
            old(self).random || old(self).hp < u8::MAX,
        ensures
            *final(self) == old(self).stepped_forward(),
    {
        if self.random {
            self.random = false;
            self.hp = MIN_SELECTABLE_HP;
        } else if self.hp == MAX_SELECTABLE_HP {
            self.random = true;
        } else {
            self.hp = self.hp + 1;
        }
    }

    /// The host's "-" button: one point less, never below 1.
    pub fn host_decrement(&mut self)
        ensures
            final(self).hp == if old(self).hp <= 1 { 1 } else { (old(self).hp - 1) as u8 },
            final(self).random == old(self).random,
    {
        let down = self.hp.saturating_sub(1);
        self.hp = if down > 1 {
            down
        } else {
            1
        };
    }

    /// The host's "+" button: one point more, never above 20.
    pub fn host_increment(&mut self)
        ensures
            final(self).hp == if old(self).hp + 1 > MAX_HOST_SETTING {
                MAX_HOST_SETTING
            } else {
                (old(self).hp + 1) as u8
            },
            final(self).random == old(self).random,
    {
        let up = self.hp.saturating_add(1);
        self.hp = if up < MAX_HOST_SETTING {
            up
        } else {
            MAX_HOST_SETTING
        };
    }
}

/// The opponent selector is a ring of 12 slots (0..=10 and random): ">"
/// moves one slot on, "<" one slot back, each undoes the other, and both
/// keep the selector on the ring.
pub proof fn lemma_opponent_selector_ring(s: AiEnemyCount)
    requires
        s.on_ring(),
    ensures
        s.stepped_forward().on_ring(),
        s.stepped_back().on_ring(),
        s.stepped_forward().position() == (s.position() + 1) % 12,
        s.stepped_back().position() == (s.position() + 11) % 12,
        s.stepped_forward().stepped_back().position() == s.position(),
        s.stepped_back().stepped_forward().position() == s.position(),
        !s.random ==> s.stepped_forward().stepped_back() == s,
        !s.random ==> s.stepped_back().stepped_forward() == s,
{
}

/// The health selector is a ring of 10 slots (2..=10 and random): ">"
/// moves one slot on, "<" one slot back, each undoes the other, and both
/// keep the selector on the ring.
pub proof fn lemma_health_selector_ring(s: MaxHealthPoints)
    requires
        s.on_ring(),
    ensures
        s.stepped_forward().on_ring(),
        s.stepped_back().on_ring(),
        s.stepped_forward().position() == (s.position() + 1) % 10,
        s.stepped_back().position() == (s.position() + 9) % 10,
        s.stepped_forward().stepped_back().position() == s.position(),
        s.stepped_back().stepped_forward().position() == s.position(),
        !s.random ==> s.stepped_forward().stepped_back() == s,
        !s.random ==> s.stepped_back().stepped_forward() == s,
{
}

/// Draws the opponent count and the starting health where they are set to
/// random (count in 0..=10, health in 2..=10) and clears the random flags;
/// fixed values stay as they are.
pub fn resolve_random_options(enemy_count: &mut AiEnemyCount, max_hp: &mut MaxHealthPoints)
    ensures
        !final(enemy_count).random,
        !final(max_hp).random,
        old(enemy_count).random ==> final(enemy_count).count <= MAX_SELECTABLE_OPPONENTS,
        !old(enemy_count).random ==> final(enemy_count).count == old(enemy_count).count,
        old(max_hp).random ==> MIN_SELECTABLE_HP <= final(max_hp).hp <= MAX_SELECTABLE_HP,
        !old(max_hp).random ==> final(max_hp).hp == old(max_hp).hp,
{
    if enemy_count.random {
        enemy_count.count = random_in(0, MAX_SELECTABLE_OPPONENTS);
        enemy_count.random = false;
    }
    if max_hp.random {
        let drawn = random_in(MIN_SELECTABLE_HP as usize, MAX_SELECTABLE_HP as usize);
        max_hp.hp = drawn as u8;
        max_hp.random = false;
    }
}

/// What the match referee sees of the local player's car this frame.
#[derive(Clone, Copy, Debug)]
pub struct PlayerStatus {
    /// The car has fallen below the world (height under -20).
    pub fell: bool,
    pub health: u8,
    /// The car is already exploding.
    pub exploding: bool,
}

/// The referee's verdict for a frame of a match.
#[derive(Clone, Copy, Debug, PartialEq, Eq, Structural)]
pub enum GameCheck {
    /// The match goes on.
    Continue,
    /// The player car at this position is destroyed: it blows up and the
    /// match is lost.
    Defeat { player: usize },
    /// Every opponent is gone while a player car still has health: won.
    Victory,
}

/// The player car is lost: it fell off the world, or it has no health left
/// and is not yet exploding.
pub open spec fn is_lost(p: PlayerStatus) -> bool {
    p.fell || (p.health == 0 && !p.exploding)
}

/// A car is lost exactly when it fell off the world or has no health left
/// while not yet exploding; a car on the track with health left is never
/// lost, whatever else holds.
pub proof fn lemma_lost_exactly_when_fallen_or_empty(p: PlayerStatus)
    ensures
        is_lost(p) <==> (p.fell || (p.health == 0 && !p.exploding)),
        !p.fell && p.health >= 1 ==> !is_lost(p),
        p.fell ==> is_lost(p),
        p.exploding && !p.fell ==> !is_lost(p),
{
}

/// Decides the frame of a match: the first lost player car (in the order
/// given) ends it as a defeat; otherwise, when opponents were requested
/// and none is left while some player car has health, it is a victory.
pub fn check_game_state(players: &Vec<PlayerStatus>, ai_cars_left: usize, enemy_count: usize) -> (r:
    GameCheck)
    ensures
        match r {
            GameCheck::Defeat { player } => {
                &&& player < players@.len()
                &&& is_lost(players@[player as int])
                &&& forall|j: int| 0 <= j < player ==> !is_lost(#[trigger] players@[j])
            },
            GameCheck::Victory => {
                &&& forall|j: int| 0 <= j < players@.len() ==> !is_lost(#[trigger] players@[j])
                &&& enemy_count > 0
                &&& ai_cars_left == 0
                &&& exists|j: int| 0 <= j < players@.len() && #[trigger] players@[j].health > 0
            },
            GameCheck::Continue => {
                &&& forall|j: int| 0 <= j < players@.len() ==> !is_lost(#[trigger] players@[j])
                &&& !(enemy_count > 0 && ai_cars_left == 0 && exists|j: int|
                    0 <= j < players@.len() && #[trigger] players@[j].health > 0)
            },
        },
        r matches GameCheck::Defeat { player } ==> player < players@.len() && (
        players@[player as int].fell || (players@[player as int].health == 0
            && !players@[player as int].exploding)),
        (forall|j: int|
            0 <= j < players@.len() ==> !(#[trigger] players@[j]).fell && (players@[j].health
                >= 1 || players@[j].exploding)) ==> !(r is Defeat),
{
    let mut i: usize = 0;
    while i < players.len()
        invariant
            i <= players.len(),
            forall|j: int| 0 <= j < i ==> !is_lost(#[trigger] players@[j]),
        decreases players.len() - i,
    {
        let p = players[i];
        if p.fell {
            return GameCheck::Defeat { player: i };
        }
        if p.health == 0 && !p.exploding {
            return GameCheck::Defeat { player: i };
        }
        i = i + 1;
    }
    if enemy_count > 0 && ai_cars_left == 0 {
        let mut k: usize = 0;
        while k < players.len()
            invariant
                k <= players.len(),
                enemy_count > 0,
                ai_cars_left == 0,
                forall|j: int| 0 <= j < players@.len() ==> !is_lost(#[trigger] players@[j]),
                forall|j: int| 0 <= j < k ==> #[trigger] players@[j].health == 0,
            decreases players.len() - k,
        {
            if players[k].health > 0 {
                return GameCheck::Victory;
            }
            k = k + 1;
        }
    }
    GameCheck::Continue
}

} // verus!
