use vstd::prelude::*;
use crate::rng::random_in;

verus! {

/// How many blaster models there are to choose from.
pub const BLASTER_DEF_COUNT: usize = 6;

/// How a blaster fires. `spread_bits` is the bit pattern of the `f32`
/// spread of a shotgun's pellets.
#[derive(Clone, Copy, Debug)]
pub enum BlasterType {
    Single,
    Shotgun { pellets: u32, spread_bits: u32 },
    Burst { count: u32 },
    Sniper,
}

impl BlasterType {
    /// Bullets in one shot: one for single-shot and sniper blasters, the
    /// pellets of a shotgun, the rounds of a burst.
    pub open spec fn spec_bullets_per_shot(self) -> u32 {
        match self {
            BlasterType::Single => 1,
            BlasterType::Sniper => 1,
            BlasterType::Shotgun { pellets, .. } => pellets,
            BlasterType::Burst { count } => count,
        }
    }

    /// How many bullets one shot fires; a shot costs that much charge.
    pub fn shot_cost(&self) -> (n: u32)
        ensures
            n == self.spec_bullets_per_shot(),
    {
        match self {
            BlasterType::Single | BlasterType::Sniper => 1,
            BlasterType::Shotgun { pellets, .. } => *pellets,
            BlasterType::Burst { count } => *count,
        }
    }
}

/// The local player's blaster model, or whether it is drawn at random, and
/// whether the blaster on screen has yet to be swapped for it.
pub struct BlasterSelection {
    pub index: usize,
    pub pending_change: bool,
    pub random: bool,
}

impl Default for BlasterSelection {
    fn default() -> (s: Self)
        ensures
            s.index == 0,
            !s.pending_change,
            !s.random,
    {
        BlasterSelection { index: 0, pending_change: false, random: false }
    }
}

impl BlasterSelection {
    /// Slot on the selector ring: a model, or random after the last model.
    pub open spec fn position(self) -> int {
        if self.random {
            BLASTER_DEF_COUNT as int
        } else {
            self.index as int
        }
    }

    /// The selector shows an existing model (or random).
    pub open spec fn on_ring(self) -> bool {
        self.random || self.index < BLASTER_DEF_COUNT
    }

    pub open spec fn stepped_back(self) -> BlasterSelection {
        if self.random {
            BlasterSelection {
                index: (BLASTER_DEF_COUNT - 1) as usize,
                pending_change: true,
                random: false,
            }
        } else if self.index == 0 {
            BlasterSelection { index: self.index, pending_change: true, random: true }
        } else {
            BlasterSelection { index: (self.index - 1) as usize, pending_change: true, random: false }
        }
    }

    pub open spec fn stepped_forward(self) -> BlasterSelection {
        if self.random {
            BlasterSelection { index: 0, pending_change: true, random: false }
        } else if self.index == BLASTER_DEF_COUNT - 1 {
            BlasterSelection { index: self.index, pending_change: true, random: true }
        } else {
            BlasterSelection { index: (self.index + 1) as usize, pending_change: true, random: false }
        }
    }

    pub open spec fn spec_display_index(self) -> usize {
        if self.random {
            0
        } else {
            self.index
        }
    }

    /// The model shown while the choice is random is the first one.
    pub fn display_index(&self) -> (i: usize)
        ensures
            i == self.spec_display_index(),
    {
        if self.random {
            0
        } else {
            self.index
        }
    }

    /// Whether the model on screen is to be swapped; the request is
    /// consumed.
    pub fn take_change(&mut self) -> (b: bool)
        ensures
            b == old(self).pending_change,
            !final(self).pending_change,
            final(self).index == old(self).index,
            final(self).random == old(self).random,
    {
        let b = self.pending_change;
        self.pending_change = false;
        b
    }

    /// The "<" button; the blaster on screen is then to be swapped.
    pub fn select_prev(&mut self)
        ensures
            *final(self) == old(self).stepped_back(),
    {
        if self.random {
            self.random = false;
            self.index = BLASTER_DEF_COUNT - 1;
        } else if self.index == 0 {
            self.random = true;
        } else {
            self.index = self.index - 1;
        }
        self.pending_change = true;
    }

    /// The ">" button; the blaster on screen is then to be swapped.
    pub fn select_next(&mut self)
        requires
            old(self).random || old(self).index < usize::MAX,
        ensures
            *final(self) == old(self).stepped_forward(),
    {
        if self.random {
            self.random = false;
            self.index = 0;
        } else if self.index == BLASTER_DEF_COUNT - 1 {
            self.random = true;
        } else {
            self.index = self.index + 1;
        }
        self.pending_change = true;
    }

    /// The blaster a match starts with: drawn among all models when the
    /// choice is random, else the chosen one.
    pub fn resolve_index(&self) -> (i: usize)
        ensures
            self.random ==> i < BLASTER_DEF_COUNT,
            !self.random ==> i == self.index,
    {
        if self.random {
            random_in(0, BLASTER_DEF_COUNT - 1)
        } else {
            self.index
        }
    }
}

/// The blaster selector is a ring of 7 slots (6 models and random): ">"
/// moves one slot on, "<" one slot back, each undoes the other, and both
/// keep the selector on the ring.
pub proof fn lemma_blaster_selector_ring(s: BlasterSelection)
    requires
        s.on_ring(),
    ensures
        s.stepped_forward().on_ring(),
        s.stepped_back().on_ring(),
        s.stepped_forward().position() == (s.position() + 1) % 7,
        s.stepped_back().position() == (s.position() + 6) % 7,
        s.stepped_forward().stepped_back().position() == s.position(),
        s.stepped_back().stepped_forward().position() == s.position(),
        s.stepped_forward().spec_display_index() < BLASTER_DEF_COUNT,
        s.stepped_back().spec_display_index() < BLASTER_DEF_COUNT,
{
}

/// A blaster model index as received from a peer, clamped to the last model.
pub fn clamp_blaster_index(index: usize) -> (i: usize)
    ensures
        i == if index < BLASTER_DEF_COUNT { index } else { (BLASTER_DEF_COUNT - 1) as usize },
{
    if index < BLASTER_DEF_COUNT {
        index
    } else {
        BLASTER_DEF_COUNT - 1
    }
}

/// A car's team.
#[derive(Clone, Copy, Debug)]
pub struct Team(pub u8);

/// Who fired a bullet.
#[derive(Clone, Copy, Debug)]
pub struct BulletOwner {
    pub client_id: u64,
    pub team: u8,
}

/// A hit is friendly when the shooter and the car hit are on the same team
/// and that team is not team 0 (the team of everyone when teams are off).
pub open spec fn is_friendly(owner_team: Option<u8>, target_team: Option<u8>) -> bool {
    match (owner_team, target_team) {
        (Some(a), Some(b)) => a == b && a != 0,
        _ => false,
    }
}

/// A hit is friendly only between two cars that both have a team, the same
/// one, other than team 0: a bullet without an owner team (an opponent's),
/// or a car without a team, always takes damage.
pub proof fn lemma_friendly_needs_one_nonzero_team(owner_team: Option<u8>, target_team: Option<u8>)
    ensures
        is_friendly(owner_team, target_team) <==> (owner_team is Some && target_team
            == owner_team && owner_team->0 != 0),
        owner_team is None ==> !is_friendly(owner_team, target_team),
        target_team is None ==> !is_friendly(owner_team, target_team),
        !is_friendly(Some(0u8), Some(0u8)),
{
}

/// The health of a car after a bullet of `damage` hits it: friendly hits
/// do nothing, others take the damage, down to 0 at most.
pub fn health_after_hit(health: u8, damage: u8, owner_team: Option<u8>, target_team: Option<u8>) -> (h:
    u8)
    ensures
        h == if is_friendly(owner_team, target_team) {
            health
        } else if damage >= health {
            0
        } else {
            (health - damage) as u8
        },
        h <= health,
        (owner_team is None || target_team is None) ==> h == (if damage >= health {
            0
        } else {
            (health - damage) as u8
        }),
        (owner_team is Some && target_team is Some && (owner_team->0 != target_team->0
            || owner_team->0 == 0)) ==> h == (if damage >= health {
            0
        } else {
            (health - damage) as u8
        }),
        (owner_team is Some && target_team == owner_team && owner_team->0 != 0) ==> h == health,
        (damage > 0 && health > 0 && h == health) ==> (owner_team is Some && target_team
            == owner_team && owner_team->0 != 0),
{
    let friendly = match (owner_team, target_team) {
        (Some(a), Some(b)) => a == b && a != 0,
        _ => false,
    };
    if friendly {
        health
    } else {
        health.saturating_sub(damage)
    }
}

/// How many smoke puffs an impact shows: as many as asked, at most 3.
pub fn smoke_puffs(count: u32) -> (n: u32)
    ensures
        n == if count < 3 { count } else { 3 },
{
    if count < 3 {
        count
    } else {
        3
    }
}

} // verus!
