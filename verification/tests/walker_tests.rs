use clawd::pet_controller::{
    auto_cycle_hold, auto_cycle_should_reset, auto_cycle_start, auto_cycle_wait, cycle_pick, work_area_from_monitor,
    WalkInput, Walker,
};
use clawd::state::{working_states, Direction, Edge, PetState};
use clawd::window_tracker::WinRect;
use rand::rngs::SmallRng;
use rand::SeedableRng;

fn input(cur: PetState, x: i32, y: i32, now_ms: u64) -> WalkInput {
    WalkInput {
        cur,
        actual_x: x,
        actual_y: y,
        width: 200,
        height: 200,
        work_left: 0,
        work_top: 0,
        work_right: 1920,
        work_bottom: 1040,
        now_ms,
    }
}

#[test]
fn first_tick_takes_the_window_position_and_falls() {
    let mut w = Walker::new();
    let out = w.tick(&input(PetState::IdleLiving, 100, 500, 1_000), &vec![]);
    assert!(out.emits.is_empty());
    assert_eq!(out.position, Some((100, 504)));
    assert_eq!((w.last_set_x, w.last_set_y), (100, 504));
    assert!(w.initialized);
}

#[test]
fn standing_on_the_floor_does_not_move() {
    let mut w = Walker::new();
    // floor: 1040 - 178 (feet) - 10 (gap) = 852
    let out = w.tick(&input(PetState::IdleLiving, 100, 852, 1_000), &vec![]);
    assert_eq!(out.position, None);
    assert_eq!(w.pet_y, 852);
}

#[test]
fn walking_moves_two_pixels_a_tick() {
    let mut w = Walker::new();
    w.tick(&input(PetState::IdleLiving, 100, 852, 1_000), &vec![]);
    let out = w.tick(&input(PetState::Walking { dir: Direction::Right }, 100, 852, 1_016), &vec![]);
    assert_eq!(out.position, Some((102, 852)));
    let out = w.tick(&input(PetState::Walking { dir: Direction::Left }, 102, 852, 1_032), &vec![]);
    assert_eq!(out.position, Some((100, 852)));
    assert!(out.emits.is_empty());
}

#[test]
fn walking_into_the_right_screen_edge_starts_a_climb() {
    let mut w = Walker::new();
    w.tick(&input(PetState::IdleLiving, 1794, 852, 1_000), &vec![]);
    let out = w.tick(&input(PetState::Walking { dir: Direction::Right }, 1794, 852, 1_016), &vec![]);
    // max_x = 1920 - 200 * 125 / 200 = 1795
    assert_eq!(out.position, Some((1795, 852)));
    assert_eq!(out.emits, vec![PetState::Climbing { hwnd: 0, edge: Edge::Right, offset: 0 }]);
}

#[test]
fn walking_into_a_window_edge_grabs_it() {
    let win = WinRect { hwnd: 77, left: 400, top: 700, right: 900, bottom: 1000 };
    let mut w = Walker::new();
    w.tick(&input(PetState::IdleLiving, 198, 852, 1_000), &vec![win]);
    // right side of the pet: 200 + 200 = 400 = left edge of the window
    let out = w.tick(&input(PetState::Walking { dir: Direction::Right }, 198, 852, 1_016), &vec![win]);
    assert_eq!(out.emits, vec![PetState::Climbing { hwnd: 77, edge: Edge::Left, offset: 0 }]);
    assert_eq!(out.position, Some((300, 852)));
}

#[test]
fn climbing_a_window_reaches_its_top_and_turns_the_corner() {
    let win = WinRect { hwnd: 77, left: 400, top: 700, right: 900, bottom: 1000 };
    let mut w = Walker::new();
    w.tick(&input(PetState::IdleLiving, 300, 514, 1_000), &vec![win]);
    w.pet_y = 514;
    w.last_set_y = 514;
    // the top of the window puts the pet at 700 - 178 - 10 = 512
    let climbing = PetState::Climbing { hwnd: 77, edge: Edge::Left, offset: 0 };
    let out = w.tick(&input(climbing, 300, 514, 1_016), &vec![win]);
    assert_eq!(out.emits, vec![PetState::Walking { dir: Direction::Right }]);
    assert_eq!(out.position, Some((300, 512)));
    assert_eq!(w.corner_turn_remaining, 14);
    assert_eq!(w.corner_turn_target_x, 400);
    let mut x = 300;
    for _ in 0..14 {
        let out = w.tick(&input(PetState::Walking { dir: Direction::Right }, x, 512, 1_032), &vec![win]);
        assert!(out.emits.is_empty());
        x = w.pet_x;
    }
    assert_eq!(w.pet_x, 400);
    assert_eq!(w.corner_turn_remaining, 0);
}

#[test]
fn climbing_a_vanished_window_walks_off() {
    let mut w = Walker::new();
    w.tick(&input(PetState::IdleLiving, 300, 852, 1_000), &vec![]);
    let climbing = PetState::Climbing { hwnd: 5, edge: Edge::Left, offset: 0 };
    let out = w.tick(&input(climbing, 300, 852, 1_016), &vec![]);
    assert_eq!(out.emits, vec![PetState::Walking { dir: Direction::Right }]);
    assert_eq!(out.position, None);
}

#[test]
fn climbing_the_screen_edge_turns_at_a_fifth_of_the_height() {
    let mut w = Walker::new();
    w.tick(&input(PetState::IdleLiving, 1720, 210, 1_000), &vec![]);
    w.pet_y = 210;
    w.last_set_y = 210;
    let climbing = PetState::Climbing { hwnd: 0, edge: Edge::Right, offset: 0 };
    // stop at 0 + 1040 * 2 / 10 = 208
    let out = w.tick(&input(climbing, 1720, 210, 1_016), &vec![]);
    assert_eq!(out.emits, vec![PetState::Walking { dir: Direction::Left }]);
    assert_eq!(out.position, Some((1720, 208)));
}

#[test]
fn a_dragged_window_is_left_alone_for_a_while() {
    let mut w = Walker::new();
    w.tick(&input(PetState::IdleLiving, 100, 852, 1_000), &vec![]);
    let out = w.tick(&input(PetState::Walking { dir: Direction::Right }, 500, 300, 1_016), &vec![]);
    assert_eq!(out.position, None);
    assert!(out.emits.is_empty());
    let out = w.tick(&input(PetState::Walking { dir: Direction::Right }, 500, 300, 1_100), &vec![]);
    assert_eq!(out.position, None);
    let out = w.tick(&input(PetState::Walking { dir: Direction::Right }, 500, 300, 1_196), &vec![]);
    assert_eq!(out.position, Some((502, 304)));
}

#[test]
fn a_higher_window_under_the_pet_is_a_floor() {
    let win = WinRect { hwnd: 9, left: 0, top: 700, right: 600, bottom: 1000 };
    let mut w = Walker::new();
    w.tick(&input(PetState::IdleLiving, 100, 500, 1_000), &vec![win]);
    assert_eq!(w.pet_y, 504);
    w.pet_y = 510;
    w.last_set_y = 510;
    let out = w.tick(&input(PetState::IdleLiving, 100, 510, 1_016), &vec![win]);
    assert_eq!(out.position, Some((100, 512)));
    let out = w.tick(&input(PetState::IdleLiving, 100, 512, 1_032), &vec![win]);
    assert_eq!(out.position, None);
}

#[test]
fn eating_pauses_the_walker() {
    let mut w = Walker::new();
    w.tick(&input(PetState::IdleLiving, 100, 852, 1_000), &vec![]);
    assert!(w.pause_if_eating(PetState::Eating));
    assert!(!w.initialized);
    assert!(!w.pause_if_eating(PetState::Happy));
}

#[test]
fn probe_point_is_the_middle_of_the_window() {
    let mut w = Walker::new();
    assert_eq!(w.probe_point(10, 20, 200, 100), (110, 70));
    w.tick(&input(PetState::IdleLiving, 100, 852, 1_000), &vec![]);
    assert_eq!(w.probe_point(0, 0, 200, 200), (200, 952));
}

#[test]
fn work_area_keeps_room_for_a_hidden_taskbar() {
    assert_eq!(work_area_from_monitor((0, 0, 1920, 1040), 1080), (0, 0, 1920, 1040));
    assert_eq!(work_area_from_monitor((0, 0, 1920, 1080), 1080), (0, 0, 1920, 1032));
    assert_eq!(work_area_from_monitor((0, 0, 1920, 1055), 1080), (0, 0, 1920, 1032));
}

#[test]
fn auto_cycle_stays_out_while_driven_or_busy() {
    let mut rng = SmallRng::seed_from_u64(3);
    assert_eq!(auto_cycle_start(10, 11, PetState::IdleLiving, &mut rng), None);
    assert_eq!(auto_cycle_start(10, 5, PetState::Happy, &mut rng), None);
}

#[test]
fn auto_cycle_walks_or_works() {
    let mut rng = SmallRng::seed_from_u64(11);
    let pool = working_states();
    let mut walks_left = 0;
    let mut walks_right = 0;
    let mut works = std::collections::HashSet::new();
    for _ in 0..400 {
        match auto_cycle_start(100, 0, PetState::IdleLiving, &mut rng) {
            Some(PetState::Walking { dir: Direction::Left }) => walks_left += 1,
            Some(PetState::Walking { dir: Direction::Right }) => walks_right += 1,
            Some(s) => {
                assert!(pool.contains(&s));
                works.insert(s.key());
            },
            None => panic!("an idle, undriven pet always gets a state"),
        }
    }
    assert!(walks_left > 0 && walks_right > 0);
    assert!(works.len() > 1);
}

#[test]
fn auto_cycle_waits_and_holds_within_bounds() {
    let mut rng = SmallRng::seed_from_u64(5);
    let mut waits = std::collections::HashSet::new();
    for _ in 0..100 {
        let wait = auto_cycle_wait(&mut rng);
        assert!((25..55).contains(&wait));
        waits.insert(wait);
        let h = auto_cycle_hold(PetState::Walking { dir: Direction::Left }, &mut rng);
        assert!((6..12).contains(&h));
        let h = auto_cycle_hold(PetState::WorkingTyping, &mut rng);
        assert!((8..16).contains(&h));
    }
    assert!(waits.len() > 1);
}

#[test]
fn auto_cycle_resets_only_its_own_state() {
    assert!(auto_cycle_should_reset(100, 50, PetState::WorkingWizard, PetState::WorkingWizard));
    assert!(!auto_cycle_should_reset(100, 150, PetState::WorkingWizard, PetState::WorkingWizard));
    assert!(!auto_cycle_should_reset(100, 50, PetState::Happy, PetState::WorkingWizard));
}

#[test]
fn cycle_pick_walks_four_times_in_ten() {
    for pick in 0..4u64 {
        assert_eq!(cycle_pick(pick, true, Some(PetState::WorkingWizard)), Some(PetState::Walking { dir: Direction::Left }));
        assert_eq!(cycle_pick(pick, false, None), Some(PetState::Walking { dir: Direction::Right }));
    }
    for pick in 4..10u64 {
        assert_eq!(cycle_pick(pick, true, Some(PetState::WorkingWizard)), Some(PetState::WorkingWizard));
        assert_eq!(cycle_pick(pick, false, None), None);
    }
}

#[test]
fn a_screen_climb_far_below_its_stop_still_turns_to_walk() {
    let mut w = Walker::new();
    w.tick(&input(PetState::IdleLiving, 1720, 210, 1_000), &vec![]);
    w.pet_y = -0x1000_0000 + 2;
    w.last_set_y = 210;
    w.last_set_x = 1720;
    assert!(w.ready());
    let climbing = PetState::Climbing { hwnd: 0, edge: Edge::Left, offset: 0 };
    let out = w.tick(&input(climbing, 1720, 210, 1_016), &vec![]);
    assert_eq!(out.emits, vec![PetState::Walking { dir: Direction::Right }]);
    assert!(!w.ready());
}
