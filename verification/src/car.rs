use vstd::prelude::*;
use crate::rng::random_in;

verus! {

/// How many car models there are to choose from.
pub const CAR_DEF_COUNT: usize = 20;

/// A car's remaining health.
pub struct Health(pub u8);

/// One of the health squares above a car; the first square is 0.
pub struct HealthSegment(pub u8);

/// The local player's car model, or whether it is drawn at random, and
/// whether the model on screen has yet to be swapped for it.
pub struct CarSelection {
    pub index: usize,
    pub pending_change: bool,
    pub random: bool,
}

impl Default for CarSelection {
    fn default() -> (s: Self)
        ensures
            s.index == 0,
            !s.pending_change,
            !s.random,
    {
        CarSelection { index: 0, pending_change: false, random: false }
    }
}

impl CarSelection {
    /// Slot on the selector ring: a model, or random after the last model.
    pub open spec fn position(self) -> int {
        if self.random {
            CAR_DEF_COUNT as int
        } else {
            self.index as int
        }
    }

    /// The selector shows an existing model (or random).
    pub open spec fn on_ring(self) -> bool {
        self.random || self.index < CAR_DEF_COUNT
    }

    pub open spec fn stepped_back(self) -> CarSelection {
        if self.random {
            CarSelection { index: (CAR_DEF_COUNT - 1) as usize, pending_change: true, random: false }
        } else if self.index == 0 {
            CarSelection { index: self.index, pending_change: true, random: true }
        } else {
            CarSelection { index: (self.index - 1) as usize, pending_change: true, random: false }
        }
    }

    pub open spec fn stepped_forward(self) -> CarSelection {
        if self.random {
            CarSelection { index: 0, pending_change: true, random: false }
        } else if self.index == CAR_DEF_COUNT - 1 {
            CarSelection { index: self.index, pending_change: true, random: true }
        } else {
            CarSelection { index: (self.index + 1) as usize, pending_change: true, random: false }
        }
    }

    pub open spec fn spec_display_index(self) -> usize {
        if self.random {
            0
        } else {
            self.index
        }
    }

    /// The model shown while the choice is random is the first one.
    pub fn display_index(&self) -> (i: usize)
        ensures
            i == self.spec_display_index(),
    {
        if self.random {
            0
        } else {
            self.index
        }
    }

    /// Whether the model on screen is to be swapped; the request is
    /// consumed.
    pub fn take_change(&mut self) -> (b: bool)
        ensures
            b == old(self).pending_change,
            !final(self).pending_change,
            final(self).index == old(self).index,
            final(self).random == old(self).random,
    {
        let b = self.pending_change;
        self.pending_change = false;
        b
    }

    /// The "<" button; the model on screen is then to be swapped.
    pub fn select_prev(&mut self)
        ensures
            *final(self) == old(self).stepped_back(),
    {
        if self.random {
            self.random = false;
            self.index = CAR_DEF_COUNT - 1;
        } else if self.index == 0 {
            self.random = true;
        } else {
            self.index = self.index - 1;
        }
        self.pending_change = true;
    }

    /// The ">" button; the model on screen is then to be swapped.
    pub fn select_next(&mut self)
        requires
            old(self).random || old(self).index < usize::MAX,
        ensures
            *final(self) == old(self).stepped_forward(),
    {
        if self.random {
            self.random = false;
            self.index = 0;
        } else if self.index == CAR_DEF_COUNT - 1 {
            self.random = true;
        } else {
            self.index = self.index + 1;
        }
        self.pending_change = true;
    }

    /// The model a match starts with: drawn among all models when the
    /// choice is random, else the chosen one.
    pub fn resolve_index(&self) -> (i: usize)
        ensures
            self.random ==> i < CAR_DEF_COUNT,
            !self.random ==> i == self.index,
    {
        if self.random {
            random_in(0, CAR_DEF_COUNT - 1)
        } else {
            self.index
        }
    }
}

/// The car selector is a ring of 21 slots (20 models and random): ">" moves
/// one slot on, "<" one slot back, each undoes the other, and both keep the
/// selector on the ring.
pub proof fn lemma_car_selector_ring(s: CarSelection)
    requires
        s.on_ring(),
    ensures
        s.stepped_forward().on_ring(),
        s.stepped_back().on_ring(),
        s.stepped_forward().position() == (s.position() + 1) % 21,
        s.stepped_back().position() == (s.position() + 20) % 21,
        s.stepped_forward().stepped_back().position() == s.position(),
        s.stepped_back().stepped_forward().position() == s.position(),
        s.stepped_forward().spec_display_index() < CAR_DEF_COUNT,
        s.stepped_back().spec_display_index() < CAR_DEF_COUNT,
{
}

/// A car model index as received from a peer, clamped to the last model.
pub fn clamp_car_index(index: usize) -> (i: usize)
    ensures
        i == if index < CAR_DEF_COUNT { index } else { (CAR_DEF_COUNT - 1) as usize },
{
    if index < CAR_DEF_COUNT {
        index
    } else {
        CAR_DEF_COUNT - 1
    }
}

/// Whether health square `segment` is removed from a car with `hp` health
/// out of `max_hp`: a damaged car loses the squares at and beyond its health.
pub fn segment_removed(hp: u8, max_hp: u8, segment: u8) -> (b: bool)
    ensures
        b == (hp < max_hp && segment >= hp),
{
    if hp >= max_hp {
        return false;
    }
    segment >= hp
}

/// How much damage an opponent has shown as smoke so far.
pub struct DamageTracker {
    pub total_damage_taken: u8,
}

impl Default for DamageTracker {
    fn default() -> (t: Self)
        ensures
            t.total_damage_taken == 0,
    {
        DamageTracker { total_damage_taken: 0 }
    }
}

impl DamageTracker {
    /// Looks at a car with `health` left of `max_hp` and returns how many
    /// smoke puffs its new damage asks for: three per point of damage taken
    /// since the last look. The tracked total never goes down.
    pub fn observe(&mut self, max_hp: u8, health: u8) -> (puffs: u32)
        ensures
            final(self).total_damage_taken == if max_hp - health > old(self).total_damage_taken {
                (max_hp - health) as u8
            } else {
                old(self).total_damage_taken
            },
            final(self).total_damage_taken >= old(self).total_damage_taken,
            puffs == 3 * (final(self).total_damage_taken - old(self).total_damage_taken),
    {
        let damage_taken = max_hp.saturating_sub(health);
        if damage_taken > self.total_damage_taken {
            let new_damage = damage_taken - self.total_damage_taken;
            self.total_damage_taken = damage_taken;
            (new_damage as u32) * 3
        } else {
            0
        }
    }
}

/// The last samples of the player car's speed, steering and yaw, oldest
/// first, at most `max_samples` of each. Samples are kept as given.
pub struct Telemetry<T> {
    pub speed_history: Vec<T>,
    pub steer_history: Vec<T>,
    pub yaw_rate_history: Vec<T>,
    pub max_samples: usize,
}

/// A history after one more sample: the sample is appended and, when that
/// makes `reference_len + 1` exceed the limit, the oldest sample is dropped.
pub open spec fn after_sample<T>(h: Seq<T>, x: T, reference_len: int, max: int) -> Seq<T> {
    if reference_len + 1 > max {
        h.push(x).drop_first()
    } else {
        h.push(x)
    }
}

/// The last `max` of all samples ever taken (all of them while fewer).
pub open spec fn window<T>(all: Seq<T>, max: int) -> Seq<T> {
    if all.len() <= max {
        all
    } else {
        all.subrange(all.len() - max, all.len() as int)
    }
}

impl<T> Default for Telemetry<T> {
    fn default() -> (t: Self)
        ensures
            t.speed_history@.len() == 0,
            t.steer_history@.len() == 0,
            t.yaw_rate_history@.len() == 0,
            t.spec_max_samples() == 300,
    {
        Telemetry {
            speed_history: Vec::new(),
            steer_history: Vec::new(),
            yaw_rate_history: Vec::new(),
            max_samples: 300,
        }
    }
}

impl<T> Telemetry<T> {
    pub open spec fn spec_max_samples(self) -> usize {
        self.max_samples
    }

    /// The three histories are equally long and within the limit.
    pub open spec fn in_step(self) -> bool {
        &&& self.steer_history@.len() == self.speed_history@.len()
        &&& self.yaw_rate_history@.len() == self.speed_history@.len()
        &&& self.speed_history@.len() <= self.spec_max_samples()
    }

    /// Records one sample of each quantity, dropping the oldest once more
    /// than `max_samples` speed samples are held.
    pub fn record(&mut self, speed: T, steer: T, yaw_rate: T)
        ensures
            final(self).spec_max_samples() == old(self).spec_max_samples(),
            final(self).speed_history@ == after_sample(
                old(self).speed_history@,
                speed,
                old(self).speed_history@.len() as int,
                old(self).spec_max_samples() as int,
            ),
            final(self).steer_history@ == after_sample(
                old(self).steer_history@,
                steer,
                old(self).speed_history@.len() as int,
                old(self).spec_max_samples() as int,
            ),
            final(self).yaw_rate_history@ == after_sample(
                old(self).yaw_rate_history@,
                yaw_rate,
                old(self).speed_history@.len() as int,
                old(self).spec_max_samples() as int,
            ),
            old(self).in_step() ==> final(self).in_step(),
    {
        self.speed_history.push(speed);
        self.steer_history.push(steer);
        self.yaw_rate_history.push(yaw_rate);
        if self.speed_history.len() > self.max_samples {
            self.speed_history.remove(0);
            self.steer_history.remove(0);
            self.yaw_rate_history.remove(0);
            assert(self.speed_history@ =~= old(self).speed_history@.push(speed).drop_first());
            assert(self.steer_history@ =~= old(self).steer_history@.push(steer).drop_first());
            assert(self.yaw_rate_history@ =~= old(self).yaw_rate_history@.push(
                yaw_rate,
            ).drop_first());
        }
    }
}

/// Recording keeps exactly the last `max` samples of everything recorded,
/// and the newest sample is always the last one held.
pub proof fn lemma_history_is_window<T>(all: Seq<T>, x: T, max: int)
    requires
        max >= 1,
    ensures
        after_sample(window(all, max), x, window(all, max).len() as int, max) == window(
            all.push(x),
            max,
        ),
        window(all.push(x), max).last() == x,
        window(all.push(x), max).len() <= max,
{
    let w = window(all, max);
    let a2 = all.push(x);
    if all.len() + 1 <= max {
        assert(w == all);
        assert(window(a2, max) == a2);
    } else if all.len() <= max {
        assert(w == all);
        assert(all.len() == max);
        assert(all.push(x).drop_first() =~= a2.subrange(a2.len() - max, a2.len() as int));
    } else {
        assert(w.len() == max);
        assert(w.push(x).drop_first() =~= a2.subrange(a2.len() - max, a2.len() as int));
    }
}

/// The four steerable/driven wheels a car model's parts are recognised as.
#[derive(Clone, Copy, Debug, PartialEq, Eq, Structural)]
pub enum WheelPosition {
    FrontLeft,
    FrontRight,
    RearLeft,
    RearRight,
}

/// What `str::to_lowercase` makes of a string (Unicode lower-casing).
pub uninterp spec fn lowercase_of(s: Seq<char>) -> Seq<char>;

/// `str::to_lowercase`: the contract names its result `lowercase_of`, a
/// function of the text alone; what lower-casing does to each character
/// (Unicode's tables) is not stated.
#[verifier::external_body]
fn to_lowercase(s: &str) -> (r: String)
    ensures
        r@ == lowercase_of(s@),
{
    s.to_lowercase()
}

/// A text without its '-' and '_' characters.
pub open spec fn without_separators(s: Seq<char>) -> Seq<char> {
    s.filter(|c: char| c != '-' && c != '_')
}

/// The wheel a normalised part name designates.
pub open spec fn wheel_named(n: Seq<char>) -> Option<WheelPosition> {
    if n == "wheelfrontleft"@ || n == "fl"@ {
        Some(WheelPosition::FrontLeft)
    } else if n == "wheelfrontright"@ || n == "fr"@ {
        Some(WheelPosition::FrontRight)
    } else if n == "wheelbackleft"@ || n == "wheelrearleft"@ || n == "bl"@ {
        Some(WheelPosition::RearLeft)
    } else if n == "wheelbackright"@ || n == "wheelrearright"@ || n == "br"@ {
        Some(WheelPosition::RearRight)
    } else {
        None
    }
}

/// Each of the four wheels is designated by exactly its own names: the
/// long and the short front-left, front-right, rear-left ("back" or "rear")
/// and rear-right names; the four short names "fl", "fr", "bl", "br" name
/// four different wheels, and every other name designates none.
pub proof fn lemma_wheel_names_designate_their_wheel(n: Seq<char>)
    ensures
        wheel_named(n) == Some(WheelPosition::FrontLeft) <==> (n == "wheelfrontleft"@
            || n == "fl"@),
        wheel_named(n) == Some(WheelPosition::FrontRight) <==> (n == "wheelfrontright"@
            || n == "fr"@),
        wheel_named(n) == Some(WheelPosition::RearLeft) <==> (n == "wheelbackleft"@
            || n == "wheelrearleft"@ || n == "bl"@),
        wheel_named(n) == Some(WheelPosition::RearRight) <==> (n == "wheelbackright"@
            || n == "wheelrearright"@ || n == "br"@),
        wheel_named(n) is None <==> !(n == "wheelfrontleft"@ || n == "fl"@
            || n == "wheelfrontright"@ || n == "fr"@ || n == "wheelbackleft"@
            || n == "wheelrearleft"@ || n == "bl"@ || n == "wheelbackright"@
            || n == "wheelrearright"@ || n == "br"@),
{
    reveal_strlit("wheelfrontleft");
    assert("wheelfrontleft"@.len() == 14);
    reveal_strlit("fl");
    assert("fl"@.len() == 2);
    reveal_strlit("wheelfrontright");
    assert("wheelfrontright"@.len() == 15);
    reveal_strlit("fr");
    assert("fr"@.len() == 2);
    reveal_strlit("wheelbackleft");
    assert("wheelbackleft"@.len() == 13);
    reveal_strlit("wheelrearleft");
    assert("wheelrearleft"@.len() == 13);
    reveal_strlit("bl");
    assert("bl"@.len() == 2);
    reveal_strlit("wheelbackright");
    assert("wheelbackright"@.len() == 14);
    reveal_strlit("wheelrearright");
    assert("wheelrearright"@.len() == 14);
    reveal_strlit("br");
    assert("br"@.len() == 2);
    assert("fl"@[1] != "fr"@[1]);
    assert("fl"@[0] != "bl"@[0]);
    assert("wheelfrontleft"@[5] != "wheelbackright"@[5]);
    assert("wheelfrontleft"@[5] != "wheelrearright"@[5]);
    assert("fl"@[0] != "br"@[0]);
    assert("fr"@[0] != "bl"@[0]);
    assert("fr"@[0] != "br"@[0]);
    assert("bl"@[1] != "br"@[1]);
}

/// Whether the characters `v` spell the text `lit`.
fn spells(v: &Vec<char>, lit: &str) -> (b: bool)
    ensures
        b == (v@ == lit@),
{
    let n = lit.unicode_len();
    if v.len() != n {
        return false;
    }
    let mut i: usize = 0;
    while i < n
        invariant
            n == lit@.len(),
            v@.len() == n,
            i <= n,
            forall|j: int| 0 <= j < i ==> v@[j] == lit@[j],
        decreases n - i,
    {
        if v[i] != lit.get_char(i) {
            return false;
        }
        i = i + 1;
    }
    assert(v@ =~= lit@);
    true
}

/// The characters of `s` other than '-' and '_', in order.
pub fn strip_separators(s: &str) -> (r: Vec<char>)
    ensures
        r@ == without_separators(s@),
{
    let n = s.unicode_len();
    let mut r: Vec<char> = Vec::new();
    let mut i: usize = 0;
    while i < n
        invariant
            n == s@.len(),
            i <= n,
            r@ == without_separators(s@.take(i as int)),
        decreases n - i,
    {
        let c = s.get_char(i);
        proof {
            assert(s@.take(i + 1) == s@.take(i as int).push(c));
            s@.take(i as int).lemma_filter_push(c, |c: char| c != '-' && c != '_');
        }
        if c != '-' && c != '_' {
            r.push(c);
        }
        i = i + 1;
    }
    assert(s@.take(n as int) == s@);
    r
}

/// The wheel a part whose name has already been lower-cased designates:
/// after dropping '-' and '_', "wheelfrontleft" or "fl" is the front-left
/// wheel, "wheelfrontright" or "fr" the front-right one, "wheelbackleft",
/// "wheelrearleft" or "bl" the rear-left one, "wheelbackright",
/// "wheelrearright" or "br" the rear-right one; any other name none.
pub fn wheel_of_lowercased(lower: &str) -> (w: Option<WheelPosition>)
    ensures
        w == wheel_named(without_separators(lower@)),
        w == Some(WheelPosition::FrontLeft) <==> (without_separators(lower@) == "wheelfrontleft"@
            || without_separators(lower@) == "fl"@),
        w == Some(WheelPosition::FrontRight) <==> (without_separators(lower@) == "wheelfrontright"@
            || without_separators(lower@) == "fr"@),
        w == Some(WheelPosition::RearLeft) <==> (without_separators(lower@) == "wheelbackleft"@
            || without_separators(lower@) == "wheelrearleft"@
            || without_separators(lower@) == "bl"@),
        w == Some(WheelPosition::RearRight) <==> (without_separators(lower@) == "wheelbackright"@
            || without_separators(lower@) == "wheelrearright"@
            || without_separators(lower@) == "br"@),
{
    proof {
        lemma_wheel_names_designate_their_wheel(without_separators(lower@));
    }
    let n = strip_separators(lower);
    if spells(&n, "wheelfrontleft") || spells(&n, "fl") {
        Some(WheelPosition::FrontLeft)
    } else if spells(&n, "wheelfrontright") || spells(&n, "fr") {
        Some(WheelPosition::FrontRight)
    } else if spells(&n, "wheelbackleft") || spells(&n, "wheelrearleft") || spells(&n, "bl") {
        Some(WheelPosition::RearLeft)
    } else if spells(&n, "wheelbackright") || spells(&n, "wheelrearright") || spells(&n, "br") {
        Some(WheelPosition::RearRight)
    } else {
        None
    }
}

/// The wheel a part of a car model designates by its name, compared
/// without regard to case and without '-' and '_'.
pub fn classify_wheel_name(name: &str) -> (w: Option<WheelPosition>)
    ensures
        w == wheel_named(without_separators(lowercase_of(name@))),
        w == Some(WheelPosition::FrontLeft) <==> (without_separators(lowercase_of(name@)) == "wheelfrontleft"@
            || without_separators(lowercase_of(name@)) == "fl"@),
        w == Some(WheelPosition::FrontRight) <==> (without_separators(lowercase_of(name@)) == "wheelfrontright"@
            || without_separators(lowercase_of(name@)) == "fr"@),
        w == Some(WheelPosition::RearLeft) <==> (without_separators(lowercase_of(name@)) == "wheelbackleft"@
            || without_separators(lowercase_of(name@)) == "wheelrearleft"@
            || without_separators(lowercase_of(name@)) == "bl"@),
        w == Some(WheelPosition::RearRight) <==> (without_separators(lowercase_of(name@)) == "wheelbackright"@
            || without_separators(lowercase_of(name@)) == "wheelrearright"@
            || without_separators(lowercase_of(name@)) == "br"@),
{
    let lower = to_lowercase(name);
    wheel_of_lowercased(lower.as_str())
}

} // verus!
