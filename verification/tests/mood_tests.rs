use clawd::mood::{idle_secs_from_ticks, Mood, MoodClock, MOOD_SWITCH_MAX_SECS, MOOD_SWITCH_MIN_SECS};
use rand::rngs::SmallRng;
use rand::SeedableRng;

fn clock(prev: Mood, elapsed: u64, next: u64) -> MoodClock {
    MoodClock { prev_mood: prev, elapsed, next_flip_in: next }
}

#[test]
fn idle_seconds_from_tick_counters() {
    assert_eq!(idle_secs_from_ticks(5_000, 2_000), 3);
    assert_eq!(idle_secs_from_ticks(5_999, 5_000), 0);
    assert_eq!(idle_secs_from_ticks(1_000, u32::MAX - 999), 2);
}

#[test]
fn idle_user_puts_the_pet_to_sleep_and_it_wakes_in_the_same_mood() {
    let mut c = clock(Mood::Active, 0, 200);
    assert_eq!(c.step(Mood::Resting, 180, 170), Some(Mood::Sleepy));
    assert_eq!(c.prev_mood, Mood::Resting);
    assert_eq!(c.elapsed, 30);
    assert_eq!(c.step(Mood::Sleepy, 600, 170), None);
    assert_eq!(c.elapsed, 60);
    assert_eq!(c.step(Mood::Sleepy, 5, 170), Some(Mood::Resting));
    assert_eq!(c.elapsed, 0);
    assert_eq!(c.next_flip_in, 170);
}

#[test]
fn moods_flip_when_the_delay_is_up() {
    let mut c = clock(Mood::Active, 120, 150);
    assert_eq!(c.step(Mood::Active, 0, 222), Some(Mood::Resting));
    assert_eq!(c.elapsed, 0);
    assert_eq!(c.next_flip_in, 222);
    let mut c = clock(Mood::Active, 90, 150);
    assert_eq!(c.step(Mood::Resting, 179, 222), None);
    assert_eq!(c.elapsed, 120);
    assert_eq!(c.next_flip_in, 150);
    assert_eq!(c.step(Mood::Resting, 0, 160), Some(Mood::Active));
}

#[test]
fn ticker_draws_delays_within_bounds() {
    let mut rng = SmallRng::seed_from_u64(7);
    let mut seen = std::collections::HashSet::new();
    for _ in 0..50 {
        let c = MoodClock::new(&mut rng);
        assert!(c.next_flip_in >= MOOD_SWITCH_MIN_SECS && c.next_flip_in < MOOD_SWITCH_MAX_SECS);
        assert_eq!(c.prev_mood, Mood::Active);
        seen.insert(c.next_flip_in);
    }
    assert!(seen.len() > 1);
}

#[test]
fn tick_keeps_the_delay_unless_it_needs_a_new_one() {
    let mut rng = SmallRng::seed_from_u64(1);
    let mut c = clock(Mood::Active, 0, 299);
    assert_eq!(c.tick(Mood::Active, 0, &mut rng), None);
    assert_eq!(c.next_flip_in, 299);
    assert_eq!(c.tick(Mood::Active, 200, &mut rng), Some(Mood::Sleepy));
    assert_eq!(c.next_flip_in, 299);
    assert_eq!(c.tick(Mood::Sleepy, 0, &mut rng), Some(Mood::Active));
    assert!(c.next_flip_in >= 150 && c.next_flip_in < 300);
    assert_eq!(c.elapsed, 0);
}
