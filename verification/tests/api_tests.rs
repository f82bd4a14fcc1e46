use clawd::file_eater::{eat_summary, is_within, EatResult};
use clawd::http_api::{set_state_request, state_from_request, LastExternalSet, SetStateOutcome};
use clawd::state::{PetState, EXTERNAL_HOLD_MS};
use clawd::tray::{tray_action, TrayAction};
use clawd::window_tracker::{accept_window, enumerate_windows, WindowProbe, WS_EX_NOACTIVATE, WS_EX_TOOLWINDOW};

fn probe(hwnd: isize, rect: (i32, i32, i32, i32)) -> WindowProbe {
    WindowProbe {
        hwnd,
        visible: true,
        minimized: false,
        is_shell: false,
        cloaked: false,
        ex_style: 0,
        title_len: 5,
        rect: Some(rect),
        screen_w: 1920,
        screen_h: 1080,
    }
}

#[test]
fn unknown_state_request_is_refused() {
    let mut last = LastExternalSet::new();
    let mut until = 0u64;
    let mut cur = PetState::IdleLiving;
    match set_state_request(&mut last, &mut until, &mut cur, "dancing", 1_000) {
        SetStateOutcome::UnknownState(msg) => assert_eq!(msg, "unknown state: dancing"),
        other => panic!("unexpected {:?}", other),
    }
    assert_eq!(until, 0);
    assert_eq!(cur, PetState::IdleLiving);
    assert_eq!(state_from_request("walking").unwrap_err(), "unknown state: walking");
    assert_eq!(state_from_request("eating").unwrap(), PetState::Eating);
}

#[test]
fn state_request_sets_the_state_and_holds_the_cycle() {
    let mut last = LastExternalSet::new();
    let mut until = 0u64;
    let mut cur = PetState::IdleLiving;
    assert!(matches!(set_state_request(&mut last, &mut until, &mut cur, "happy", 1_000), SetStateOutcome::Changed(_)));
    assert_eq!(cur, PetState::Happy);
    assert_eq!(until, 1_000 + EXTERNAL_HOLD_MS);
    assert_eq!(last.state, PetState::Happy);
    assert_eq!(last.at_ms, Some(1_000));
}

#[test]
fn quick_repeat_is_dropped_and_a_later_one_is_heard() {
    let mut last = LastExternalSet::new();
    let mut until = 0u64;
    let mut cur = PetState::IdleLiving;
    set_state_request(&mut last, &mut until, &mut cur, "working_typing", 1_000);
    assert!(matches!(
        set_state_request(&mut last, &mut until, &mut cur, "working_typing", 1_249),
        SetStateOutcome::Debounced
    ));
    assert_eq!(until, 31_000);
    cur = PetState::IdleLiving;
    assert!(matches!(
        set_state_request(&mut last, &mut until, &mut cur, "working_typing", 1_250),
        SetStateOutcome::Changed(_)
    ));
    assert_eq!(until, 31_250);
    assert!(matches!(
        set_state_request(&mut last, &mut until, &mut cur, "sleeping", 1_260),
        SetStateOutcome::Changed(_)
    ));
}

#[test]
fn request_for_the_shown_state_is_not_announced() {
    let mut last = LastExternalSet::new();
    let mut until = 0u64;
    let mut cur = PetState::Sleeping;
    assert!(matches!(set_state_request(&mut last, &mut until, &mut cur, "sleeping", 500), SetStateOutcome::Unchanged));
    assert_eq!(until, 30_500);
}

#[test]
fn first_request_for_idle_is_not_dropped() {
    let mut last = LastExternalSet::new();
    let mut until = 0u64;
    let mut cur = PetState::Happy;
    assert!(matches!(set_state_request(&mut last, &mut until, &mut cur, "idle_living", 0), SetStateOutcome::Changed(_)));
}

#[test]
fn windows_that_the_pet_can_use() {
    assert!(accept_window(&probe(1, (100, 100, 800, 600))));
    let mut p = probe(1, (100, 100, 800, 600));
    p.visible = false;
    assert!(!accept_window(&p));
    let mut p = probe(1, (100, 100, 800, 600));
    p.ex_style = WS_EX_TOOLWINDOW;
    assert!(!accept_window(&p));
    let mut p = probe(1, (100, 100, 800, 600));
    p.ex_style = WS_EX_NOACTIVATE | 0x100;
    assert!(!accept_window(&p));
    let mut p = probe(1, (100, 100, 800, 600));
    p.title_len = 0;
    assert!(!accept_window(&p));
    let mut p = probe(1, (100, 100, 800, 600));
    p.rect = None;
    assert!(!accept_window(&p));
    assert!(!accept_window(&probe(1, (100, 100, 299, 600))));
    assert!(!accept_window(&probe(1, (100, 100, 800, 199))));
    assert!(!accept_window(&probe(1, (-10001, 100, 800, 600))));
    assert!(!accept_window(&probe(1, (0, 0, 1900, 1060))));
    assert!(accept_window(&probe(1, (0, 0, 1899, 1060))));
    assert!(!accept_window(&probe(1, (-10000, 0, i32::MAX, 500))));
    assert!(!accept_window(&probe(1, (0, i32::MIN, 500, 500))));
}

#[test]
fn enumerate_keeps_order_and_drops_own_window() {
    let mut small = probe(3, (0, 0, 10, 10));
    small.title_len = 4;
    let probes = vec![probe(1, (0, 0, 400, 300)), probe(2, (10, 10, 500, 400)), small, probe(4, (20, 20, 600, 500))];
    let kept = enumerate_windows(2, &probes);
    let ids: Vec<isize> = kept.iter().map(|w| w.hwnd).collect();
    assert_eq!(ids, vec![1, 4]);
    assert_eq!((kept[1].left, kept[1].top, kept[1].right, kept[1].bottom), (20, 20, 600, 500));
    assert!(enumerate_windows(0, &vec![]).is_empty());
}

fn comps(parts: &[&str]) -> Vec<Vec<u8>> {
    parts.iter().map(|s| s.as_bytes().to_vec()).collect()
}

#[test]
fn only_paths_under_home_may_be_eaten() {
    let home = comps(&["/", "home", "ann"]);
    assert!(is_within(&comps(&["/", "home", "ann", "junk.txt"]), &home));
    assert!(is_within(&comps(&["/", "home", "ann"]), &home));
    assert!(!is_within(&comps(&["/", "home", "anna", "x"]), &home));
    assert!(!is_within(&comps(&["/", "etc", "passwd"]), &home));
    assert!(!is_within(&comps(&["/", "home"]), &home));
    assert!(!is_within(&comps(&["/", "home", "Ann"]), &home));
}

#[test]
fn meal_reactions() {
    assert_eq!(eat_summary(&vec![]), (0, PetState::Happy));
    assert_eq!(eat_summary(&vec![EatResult::Eaten, EatResult::Eaten]), (2, PetState::Happy));
    assert_eq!(eat_summary(&vec![EatResult::Rejected, EatResult::Eaten, EatResult::TrashFailed]), (1, PetState::Happy));
    assert_eq!(eat_summary(&vec![EatResult::Rejected]), (0, PetState::WorkingConfused));
    assert_eq!(eat_summary(&vec![EatResult::TrashFailed, EatResult::Rejected]), (0, PetState::WorkingConfused));
}

#[test]
fn tray_entries() {
    assert_eq!(tray_action("show"), TrayAction::Show);
    assert_eq!(tray_action("hide"), TrayAction::Hide);
    assert_eq!(tray_action("sleep"), TrayAction::SetState(PetState::Sleeping));
    assert_eq!(tray_action("wake"), TrayAction::SetState(PetState::IdleLiving));
    assert_eq!(tray_action("reset"), TrayAction::ResetPosition { x: 1000, y: 600 });
    assert_eq!(tray_action("exit"), TrayAction::Exit);
    assert_eq!(tray_action("quit"), TrayAction::Ignore);
}
