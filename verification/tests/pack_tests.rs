use clawd::pet_pack::{builtin_packs, default_pack, find_pack, pack_or_default, select_pack, PackBehavior};

#[test]
fn builtin_packs_in_order() {
    let packs = builtin_packs();
    let ids: Vec<&str> = packs.iter().map(|p| p.id.as_str()).collect();
    assert_eq!(ids, vec!["clawd", "hsr_aglaea", "hsr_main"]);
    assert_eq!(packs[1].name, "Aglaea (HSR)");
    assert!(packs.iter().all(|p| p.behavior == PackBehavior::Walker));
}

#[test]
fn find_pack_by_id() {
    let p = find_pack("hsr_main").unwrap();
    assert_eq!(p.name, "Trailblazer (HSR)");
    assert!(find_pack("HSR_MAIN").is_none());
    assert!(find_pack("").is_none());
}

#[test]
fn default_pack_is_clawd() {
    let p = default_pack();
    assert_eq!(p.id, "clawd");
    assert_eq!(p.name, "Clawd");
}

#[test]
fn unknown_pack_is_refused_with_its_id() {
    assert_eq!(select_pack("nope").unwrap_err(), "unknown pack: nope");
    assert_eq!(select_pack("hsr_aglaea").unwrap().id, "hsr_aglaea");
}

#[test]
fn remembered_unknown_pack_falls_back_to_default() {
    assert_eq!(pack_or_default("gone").id, "clawd");
    assert_eq!(pack_or_default("hsr_main").id, "hsr_main");
}
