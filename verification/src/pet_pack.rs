//! The character packs that the pet can be drawn with.
use vstd::prelude::*;
use vstd::string::StringExecFns;

use crate::state::same_text;

verus! {

/// How a pack's character behaves.
#[derive(Clone, Copy, Debug, PartialEq, Eq, Structural)]
pub enum PackBehavior {
    Walker,
    Idle,
}

/// A character pack: its id, its display name and its behaviour.
#[derive(Clone, Debug)]
pub struct PackInfo {
    pub id: String,
    pub name: String,
    pub behavior: PackBehavior,
}

/// A pack as plain values: id, display name, behaviour.
pub type PackEntry = (Seq<char>, Seq<char>, PackBehavior);

impl PackInfo {
    pub open spec fn entry(self) -> PackEntry {
        (self.id@, self.name@, self.behavior)
    }
}

/// The packs built into the pet, in the order they are listed.
pub open spec fn builtin_table() -> Seq<PackEntry> {
    seq![
        ("clawd"@, "Clawd"@, PackBehavior::Walker),
        ("hsr_aglaea"@, "Aglaea (HSR)"@, PackBehavior::Walker),
        ("hsr_main"@, "Trailblazer (HSR)"@, PackBehavior::Walker),
    ]
}

/// The id of the pack used when none is chosen or the chosen one is unknown.
pub open spec fn default_pack_id() -> Seq<char> {
    "clawd"@
}

/// The first entry of `table` with id `id`, if there is one.
pub open spec fn first_with_id(table: Seq<PackEntry>, id: Seq<char>) -> Option<PackEntry>
    decreases table.len(),
{
    if table.len() == 0 {
        None
    } else if table[0].0 == id {
        Some(table[0])
    } else {
        first_with_id(table.drop_first(), id)
    }
}

/// The built-in pack with id `id`, if there is one.
pub open spec fn pack_with_id(id: Seq<char>) -> Option<PackEntry> {
    first_with_id(builtin_table(), id)
}

fn make_pack(id: &str, name: &str, behavior: PackBehavior) -> (p: PackInfo)
    ensures
        p.entry() == (id@, name@, behavior),
{
    PackInfo { id: String::from_str(id), name: String::from_str(name), behavior }
}

/// The built-in packs, in order.
pub fn builtin_packs() -> (r: Vec<PackInfo>)
    ensures
        r@.map_values(|p: PackInfo| p.entry()) == builtin_table(),
{
    let mut r: Vec<PackInfo> = Vec::new();
    r.push(make_pack("clawd", "Clawd", PackBehavior::Walker));
    r.push(make_pack("hsr_aglaea", "Aglaea (HSR)", PackBehavior::Walker));
    r.push(make_pack("hsr_main", "Trailblazer (HSR)", PackBehavior::Walker));
    assert(r@.map_values(|p: PackInfo| p.entry()) =~= builtin_table());
    r
}

/// No two built-in packs share an id.
pub proof fn lemma_builtin_ids_distinct(i: int, j: int)
    requires
        0 <= i < builtin_table().len(),
        0 <= j < builtin_table().len(),
        i != j,
    ensures
        builtin_table()[i].0 != builtin_table()[j].0,
{
    broadcast use vstd::string::group_string_axioms;

    reveal_strlit("clawd");
    reveal_strlit("hsr_aglaea");
    reveal_strlit("hsr_main");
    assert("clawd"@.len() == 5);
    assert("hsr_aglaea"@.len() == 10);
    assert("hsr_main"@.len() == 8);
}

/// Each built-in pack is the one found by its id.
pub proof fn lemma_pack_with_id_at(k: int)
    requires
        0 <= k < builtin_table().len(),
    ensures
        pack_with_id(builtin_table()[k].0) == Some(builtin_table()[k]),
{
    reveal_with_fuel(first_with_id, 4);
    if k > 0 {
        lemma_builtin_ids_distinct(0, k);
    }
    if k > 1 {
        lemma_builtin_ids_distinct(1, k);
    }
    assert(builtin_table().drop_first() =~= seq![builtin_table()[1], builtin_table()[2]]);
    assert(builtin_table().drop_first().drop_first() =~= seq![builtin_table()[2]]);
    assert(builtin_table().drop_first().drop_first().drop_first() =~= Seq::<PackEntry>::empty());
}

/// An id that no built-in pack has finds nothing.
pub proof fn lemma_pack_with_id_none(id: Seq<char>)
    requires
        forall|i: int| 0 <= i < builtin_table().len() ==> (#[trigger] builtin_table()[i]).0 != id,
    ensures
        pack_with_id(id) is None,
{
    reveal_with_fuel(first_with_id, 4);
    assert(builtin_table()[0].0 != id);
    assert(builtin_table()[1].0 != id);
    assert(builtin_table()[2].0 != id);
    assert(builtin_table().drop_first() =~= seq![builtin_table()[1], builtin_table()[2]]);
    assert(builtin_table().drop_first().drop_first() =~= seq![builtin_table()[2]]);
    assert(builtin_table().drop_first().drop_first().drop_first() =~= Seq::<PackEntry>::empty());
}

/// The built-in pack with id `id`, if there is one.
pub fn find_pack(id: &str) -> (r: Option<PackInfo>)
    ensures
        r is Some <==> pack_with_id(id@) is Some,
        r matches Some(p) ==> Some(p.entry()) == pack_with_id(id@),
{
    let packs = builtin_packs();
    let mut i: usize = 0;
    while i < packs.len()
        invariant
            packs@.map_values(|p: PackInfo| p.entry()) == builtin_table(),
            i <= packs.len(),
            forall|j: int| 0 <= j < i ==> (#[trigger] builtin_table()[j]).0 != id@,
        decreases packs.len() - i,
    {
        assert(packs@[i as int].entry() == builtin_table()[i as int]);
        if same_text(packs[i].id.as_str(), id) {
            proof {
                lemma_pack_with_id_at(i as int);
            }
            return Some(packs[i].clone_pack());
        }
        i = i + 1;
    }
    proof {
        lemma_pack_with_id_none(id@);
    }
    None
}

impl PackInfo {
    /// A copy of this pack.
    pub fn clone_pack(&self) -> (r: PackInfo)
        ensures
            r.entry() == self.entry(),
    {
        PackInfo { id: self.id.clone(), name: self.name.clone(), behavior: self.behavior }
    }
}

/// The pack used when none is chosen: the first built-in one.
pub fn default_pack() -> (r: PackInfo)
    ensures
        r.entry() == builtin_table()[0],
        r.id@ == default_pack_id(),
{
    proof {
        lemma_pack_with_id_at(0);
    }
    let found = find_pack("clawd");
    match found {
        Some(p) => p,
        None => {
            proof {
                assert(false);
            }
            make_pack("clawd", "Clawd", PackBehavior::Walker)
        },
    }
}

} // verus!

verus! {

/// The error text for a pack id that no built-in pack has.
pub open spec fn unknown_pack_message(id: Seq<char>) -> Seq<char> {
    "unknown pack: "@ + id
}

/// The pack to switch to for a request naming `id`, or the error that the
/// request is answered with when no built-in pack has that id.
pub fn select_pack(id: &str) -> (r: Result<PackInfo, String>)
    ensures
        r is Ok <==> pack_with_id(id@) is Some,
        r matches Ok(p) ==> Some(p.entry()) == pack_with_id(id@),
        r matches Err(msg) ==> msg@ == unknown_pack_message(id@),
{
    match find_pack(id) {
        Some(p) => Ok(p),
        None => Err(String::from_str("unknown pack: ").concat(id)),
    }
}

/// The pack for a remembered id: that pack where it is a built-in one, the
/// default pack otherwise.
pub fn pack_or_default(id: &str) -> (p: PackInfo)
    ensures
        p.entry() == (match pack_with_id(id@) {
            Some(e) => e,
            None => builtin_table()[0],
        }),
{
    match find_pack(id) {
        Some(p) => p,
        None => default_pack(),
    }
}

} // verus!
