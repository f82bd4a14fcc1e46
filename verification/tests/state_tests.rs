use clawd::state::{apply_if_changed, external_hold_deadline, externally_driven, same_text, working_states, Direction, Edge, PetState, StatePayload, EXTERNAL_HOLD_MS};

#[test]
fn every_listed_key_reads_back_to_a_state_with_that_key() {
    let keys = PetState::all_keys();
    assert_eq!(keys.len(), 22);
    for k in keys {
        let s = PetState::from_key(k).expect("listed key must parse");
        assert_eq!(s.key(), *k);
    }
}

#[test]
fn listed_keys_are_distinct() {
    let keys = PetState::all_keys();
    for (i, a) in keys.iter().enumerate() {
        for (j, b) in keys.iter().enumerate() {
            if i != j {
                assert_ne!(a, b);
            }
        }
    }
}

#[test]
fn keys_of_some_states() {
    assert_eq!(PetState::IdleLiving.key(), "idle_living");
    assert_eq!(PetState::Walking { dir: Direction::Left }.key(), "walking");
    assert_eq!(PetState::Climbing { hwnd: 7, edge: Edge::Top, offset: 3 }.key(), "climbing");
    assert_eq!(PetState::GoingAway.key(), "going_away");
    assert_eq!(PetState::WorkingBeacon.key(), "working_beacon");
}

#[test]
fn from_key_refuses_moving_states_and_unknown_text() {
    assert_eq!(PetState::from_key("walking"), None);
    assert_eq!(PetState::from_key("climbing"), None);
    assert_eq!(PetState::from_key(""), None);
    assert_eq!(PetState::from_key("HAPPY"), None);
    assert_eq!(PetState::from_key("happy "), None);
    assert_eq!(PetState::from_key("happy"), Some(PetState::Happy));
    assert_eq!(PetState::from_key("working_overheated"), Some(PetState::WorkingOverheated));
}

#[test]
fn working_pool_holds_ten_keyed_working_states() {
    let pool = working_states();
    assert_eq!(pool.len(), 10);
    for s in pool {
        assert!(s.key().starts_with("working_"));
        assert_eq!(PetState::from_key(s.key()), Some(*s));
    }
    assert!(!pool.contains(&PetState::WorkingCarrying));
    assert!(!pool.contains(&PetState::WorkingConfused));
    assert!(!pool.contains(&PetState::WorkingOverheated));
}

#[test]
fn payload_of_walking_climbing_and_plain_states() {
    let p = StatePayload::from(PetState::Walking { dir: Direction::Left });
    assert_eq!(p.state, "walking");
    assert_eq!(p.direction, Some(Direction::Left));
    assert_eq!(p.edge, None);

    let p: StatePayload = PetState::Climbing { hwnd: 42, edge: Edge::Right, offset: 0 }.into();
    assert_eq!(p.state, "climbing");
    assert_eq!(p.direction, None);
    assert_eq!(p.edge, Some(Edge::Right));

    let p = StatePayload::from(PetState::Sleeping);
    assert_eq!(p.state, "sleeping");
    assert_eq!(p.direction, None);
    assert_eq!(p.edge, None);
}

#[test]
fn apply_if_changed_reports_only_changes() {
    let mut s = PetState::IdleLiving;
    assert!(apply_if_changed(&mut s, PetState::Happy));
    assert_eq!(s, PetState::Happy);
    assert!(!apply_if_changed(&mut s, PetState::Happy));
    assert_eq!(s, PetState::Happy);
    assert!(apply_if_changed(&mut s, PetState::Walking { dir: Direction::Right }));
    assert!(apply_if_changed(&mut s, PetState::Walking { dir: Direction::Left }));
}

#[test]
fn external_hold_lasts_thirty_seconds() {
    assert_eq!(EXTERNAL_HOLD_MS, 30_000);
    let until = external_hold_deadline(5_000);
    assert_eq!(until, 35_000);
    assert!(externally_driven(34_999, until));
    assert!(!externally_driven(35_000, until));
    assert!(!externally_driven(0, 0));
}

#[test]
fn same_text_compares_characters() {
    assert!(same_text("héllo", "héllo"));
    assert!(!same_text("héllo", "hello"));
    assert!(!same_text("abc", "abcd"));
    assert!(same_text("", ""));
}
