//! The pet's mood: active and resting phases that alternate, and sleep while
//! the user is away.
use rand::rngs::SmallRng;
use vstd::prelude::*;

use crate::random::draw_in_range;

verus! {

#[derive(Clone, Copy, Debug, PartialEq, Eq, Structural)]
pub enum Mood {
    /// Active phase, alternating with the resting one.
    Active,
    /// Resting phase, alternating with the active one.
    Resting,
    /// The user has been idle for at least `IDLE_THRESHOLD_SECS`.
    Sleepy,
}

/// A user idle for this long sends the pet to sleep.
pub const IDLE_THRESHOLD_SECS: u64 = 180;
/// Seconds between two mood ticks.
pub const MOOD_TICK_SECS: u64 = 30;
/// Least time spent in a waking mood before it flips.
pub const MOOD_SWITCH_MIN_SECS: u64 = 150;
/// Bound (excluded) of the time spent in a waking mood before it flips.
pub const MOOD_SWITCH_MAX_SECS: u64 = 300;

/// What the mood ticker remembers between ticks.
#[derive(Clone, Copy, Debug)]
pub struct MoodClock {
    /// The waking mood to restore when the user comes back.
    pub prev_mood: Mood,
    /// Seconds since the last flip or wake-up.
    pub elapsed: u64,
    /// Seconds after which the next active/resting flip is due.
    pub next_flip_in: u64,
}

/// The waking mood that follows `m` at a flip.
pub open spec fn flipped(m: Mood) -> Mood {
    match m {
        Mood::Active => Mood::Resting,
        Mood::Resting => Mood::Active,
        Mood::Sleepy => Mood::Active,
    }
}

/// A delay between two flips that the ticker may draw.
pub open spec fn valid_flip_delay(d: u64) -> bool {
    MOOD_SWITCH_MIN_SECS <= d < MOOD_SWITCH_MAX_SECS
}

impl MoodClock {
    /// The ticker's invariant: it remembers a waking mood and a delay that it
    /// may have drawn.
    pub open spec fn wf(self) -> bool {
        &&& self.prev_mood != Mood::Sleepy
        &&& valid_flip_delay(self.next_flip_in)
    }

    /// Whether a tick at mood `current` with the user idle for `idle_secs`
    /// ends with a new flip delay: at a wake-up or at a flip.
    pub open spec fn spec_needs_fresh_delay(self, current: Mood, idle_secs: u64) -> bool {
        idle_secs < IDLE_THRESHOLD_SECS && (current == Mood::Sleepy || self.elapsed
            + MOOD_TICK_SECS >= self.next_flip_in)
    }

    /// One tick: the ticker after it, and the mood to store if it changes.
    /// `fresh` is the delay drawn for the next flip, used only where
    /// `spec_needs_fresh_delay` holds.
    pub open spec fn spec_step(self, current: Mood, idle_secs: u64, fresh: u64) -> (
        MoodClock,
        Option<Mood>,
    ) {
        let elapsed = (self.elapsed + MOOD_TICK_SECS) as u64;
        if idle_secs >= IDLE_THRESHOLD_SECS {
            if current != Mood::Sleepy {
                (MoodClock { prev_mood: current, elapsed, ..self }, Some(Mood::Sleepy))
            } else {
                (MoodClock { elapsed, ..self }, None)
            }
        } else if current == Mood::Sleepy {
            (MoodClock { elapsed: 0, next_flip_in: fresh, ..self }, Some(self.prev_mood))
        } else if elapsed >= self.next_flip_in {
            (MoodClock { elapsed: 0, next_flip_in: fresh, ..self }, Some(flipped(current)))
        } else {
            (MoodClock { elapsed, ..self }, None)
        }
    }

    /// A ticker for a pet that starts active, with a first flip delay drawn
    /// from `rng`.
    pub fn new(rng: &mut SmallRng) -> (c: MoodClock)
        ensures
            c.wf(),
            c.prev_mood == Mood::Active,
            c.elapsed == 0,
    {
        let next_flip_in = draw_in_range(rng, MOOD_SWITCH_MIN_SECS, MOOD_SWITCH_MAX_SECS);
        MoodClock { prev_mood: Mood::Active, elapsed: 0, next_flip_in }
    }

    /// Whether the next tick needs a new flip delay.
    pub fn needs_fresh_delay(&self, current: Mood, idle_secs: u64) -> (r: bool)
        requires
            self.elapsed + MOOD_TICK_SECS <= u64::MAX,
        ensures
            r == self.spec_needs_fresh_delay(current, idle_secs),
    {
        idle_secs < IDLE_THRESHOLD_SECS && (current == Mood::Sleepy || self.elapsed
            + MOOD_TICK_SECS >= self.next_flip_in)
    }

    /// One tick with a given next flip delay `fresh`; returns the mood to
    /// store, if it changes.
    pub fn step(&mut self, current: Mood, idle_secs: u64, fresh: u64) -> (r: Option<Mood>)
        requires
            old(self).elapsed + MOOD_TICK_SECS <= u64::MAX,
        ensures
            (*final(self), r) == old(self).spec_step(current, idle_secs, fresh),
    {
        let elapsed = self.elapsed + MOOD_TICK_SECS;
        if idle_secs >= IDLE_THRESHOLD_SECS {
            self.elapsed = elapsed;
            if current != Mood::Sleepy {
                self.prev_mood = current;
                return Some(Mood::Sleepy);
            }
            return None;
        }
        if current == Mood::Sleepy {
            self.elapsed = 0;
            self.next_flip_in = fresh;
            return Some(self.prev_mood);
        }
        if elapsed >= self.next_flip_in {
            let next = match current {
                Mood::Active => Mood::Resting,
                Mood::Resting => Mood::Active,
                Mood::Sleepy => Mood::Active,
            };
            self.elapsed = 0;
            self.next_flip_in = fresh;
            return Some(next);
        }
        self.elapsed = elapsed;
        None
    }

    /// One tick of the mood ticker, every `MOOD_TICK_SECS`: `current` is the
    /// stored mood and `idle_secs` how long the user has been idle. A new
    /// flip delay is drawn from `rng` exactly where the tick needs one.
    /// Returns the mood to store, if it changes.
    pub fn tick(&mut self, current: Mood, idle_secs: u64, rng: &mut SmallRng) -> (r: Option<Mood>)
        requires
            old(self).wf(),
            old(self).elapsed + MOOD_TICK_SECS <= u64::MAX,
        ensures
            (*final(self), r) == old(self).spec_step(current, idle_secs, final(self).next_flip_in),
            old(self).spec_needs_fresh_delay(current, idle_secs) ==> valid_flip_delay(
                final(self).next_flip_in,
            ),
            !old(self).spec_needs_fresh_delay(current, idle_secs) ==> final(self).next_flip_in
                == old(self).next_flip_in,
            final(self).wf(),
    {
        let fresh = if self.needs_fresh_delay(current, idle_secs) {
            draw_in_range(rng, MOOD_SWITCH_MIN_SECS, MOOD_SWITCH_MAX_SECS)
        } else {
            self.next_flip_in
        };
        self.step(current, idle_secs, fresh)
    }
}

/// A user idle for at least `IDLE_THRESHOLD_SECS` leaves the pet asleep after
/// the tick: it is put to sleep, or it already sleeps and nothing changes.
pub proof fn lemma_idle_user_puts_pet_to_sleep(c: MoodClock, current: Mood, idle_secs: u64, fresh: u64)
    requires
        idle_secs >= IDLE_THRESHOLD_SECS,
    ensures
        c.spec_step(current, idle_secs, fresh).1 == (if current == Mood::Sleepy {
            None
        } else {
            Some(Mood::Sleepy)
        }),
{
}

/// While the user is active a tick never sends the pet to sleep.
pub proof fn lemma_active_user_keeps_pet_awake(c: MoodClock, current: Mood, idle_secs: u64, fresh: u64)
    requires
        c.wf(),
        idle_secs < IDLE_THRESHOLD_SECS,
    ensures
        c.spec_step(current, idle_secs, fresh).1 matches Some(m) ==> m != Mood::Sleepy,
{
}

/// A pet put to sleep from a waking mood wakes up in that same mood at the
/// first tick where the user is back.
pub proof fn lemma_wake_up_restores_mood(
    c: MoodClock,
    before: Mood,
    idle_away: u64,
    fresh_away: u64,
    idle_back: u64,
    fresh_back: u64,
)
    requires
        before != Mood::Sleepy,
        idle_away >= IDLE_THRESHOLD_SECS,
        idle_back < IDLE_THRESHOLD_SECS,
    ensures
        c.spec_step(before, idle_away, fresh_away).1 == Some(Mood::Sleepy),
        c.spec_step(before, idle_away, fresh_away).0.spec_step(Mood::Sleepy, idle_back, fresh_back).1
            == Some(before),
{
}

/// A due flip swaps the active and resting phases, and starts counting anew.
pub proof fn lemma_flip_alternates(c: MoodClock, current: Mood, idle_secs: u64, fresh: u64)
    requires
        current != Mood::Sleepy,
        idle_secs < IDLE_THRESHOLD_SECS,
        c.elapsed + MOOD_TICK_SECS >= c.next_flip_in,
        c.elapsed + MOOD_TICK_SECS <= u64::MAX,
    ensures
        c.spec_step(current, idle_secs, fresh).1 == Some(
            if current == Mood::Active {
                Mood::Resting
            } else {
                Mood::Active
            },
        ),
        c.spec_step(current, idle_secs, fresh).0.elapsed == 0,
        c.spec_step(current, idle_secs, fresh).0.next_flip_in == fresh,
{
}

/// Before its delay is up a waking mood does not change.
pub proof fn lemma_no_flip_before_delay(c: MoodClock, current: Mood, idle_secs: u64, fresh: u64)
    requires
        current != Mood::Sleepy,
        idle_secs < IDLE_THRESHOLD_SECS,
        c.elapsed + MOOD_TICK_SECS < c.next_flip_in,
    ensures
        c.spec_step(current, idle_secs, fresh).1 is None,
        c.spec_step(current, idle_secs, fresh).0.elapsed == c.elapsed + MOOD_TICK_SECS,
{
}

/// A tick keeps the ticker's invariant when the delay it may use is one the
/// ticker could draw.
pub proof fn lemma_step_keeps_wf(c: MoodClock, current: Mood, idle_secs: u64, fresh: u64)
    requires
        c.wf(),
        valid_flip_delay(fresh),
    ensures
        c.spec_step(current, idle_secs, fresh).0.wf(),
{
}

/// Seconds of user inactivity from the system's millisecond tick counters:
/// the current count `now_ms` and the count at the last input `last_ms`. The
/// counters wrap around at 2^32.
pub fn idle_secs_from_ticks(now_ms: u32, last_ms: u32) -> (secs: u64)
    ensures
        secs == vstd::wrapping::u32_specs::wrapping_sub(now_ms, last_ms) / 1000,
{
    let delta_ms = now_ms.wrapping_sub(last_ms);
    (delta_ms / 1000) as u64
}

} // verus!
