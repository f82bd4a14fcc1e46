//! Feeding files to the pet: which paths it may eat, and how it reacts.
use vstd::prelude::*;

use crate::state::PetState;

verus! {

/// `root` is a leading part of `path`, component by component.
pub open spec fn starts_with_components(path: Seq<Seq<u8>>, root: Seq<Seq<u8>>) -> bool {
    &&& root.len() <= path.len()
    &&& forall|k: int| 0 <= k < root.len() ==> path[k] == root[k]
}

/// Whether the path with components `path` lies under the directory with
/// components `root` (both resolved first, each component given by its
/// bytes): only such paths may be eaten.
pub fn is_within(path: &Vec<Vec<u8>>, root: &Vec<Vec<u8>>) -> (r: bool)
    ensures
        r == starts_with_components(path@.map_values(|c: Vec<u8>| c@), root@.map_values(|c: Vec<u8>| c@)),
{
    let ghost pv = path@.map_values(|c: Vec<u8>| c@);
    let ghost rv = root@.map_values(|c: Vec<u8>| c@);
    if root.len() > path.len() {
        return false;
    }
    let mut k: usize = 0;
    while k < root.len()
        invariant
            root.len() <= path.len(),
            k <= root.len(),
            pv == path@.map_values(|c: Vec<u8>| c@),
            rv == root@.map_values(|c: Vec<u8>| c@),
            forall|j: int| 0 <= j < k ==> pv[j] == rv[j],
        decreases root.len() - k,
    {
        if !same_bytes(&path[k], &root[k]) {
            assert(pv[k as int] != rv[k as int]);
            return false;
        }
        k = k + 1;
    }
    true
}

/// Whether two byte strings are equal.
pub fn same_bytes(a: &Vec<u8>, b: &Vec<u8>) -> (r: bool)
    ensures
        r == (a@ == b@),
{
    if a.len() != b.len() {
        return false;
    }
    let mut i: usize = 0;
    while i < a.len()
        invariant
            a.len() == b.len(),
            i <= a.len(),
            forall|j: int| 0 <= j < i ==> a@[j] == b@[j],
        decreases a.len() - i,
    {
        if a[i] != b[i] {
            return false;
        }
        i = i + 1;
    }
    assert(a@ =~= b@);
    true
}

/// What became of one path handed to the pet.
#[derive(Clone, Copy, Debug, PartialEq, Eq, Structural)]
pub enum EatResult {
    /// The path was refused (unreadable, or outside the home directory).
    Rejected,
    /// The path was accepted but could not be moved to the recycle bin.
    TrashFailed,
    /// The path went to the recycle bin.
    Eaten,
}

/// How many of `results` were eaten.
pub open spec fn eaten_count(results: Seq<EatResult>) -> nat
    decreases results.len(),
{
    if results.len() == 0 {
        0
    } else {
        eaten_count(results.drop_last()) + if results.last() == EatResult::Eaten {
            1nat
        } else {
            0nat
        }
    }
}

/// Some path of `results` was not eaten.
pub open spec fn had_error(results: Seq<EatResult>) -> bool {
    exists|k: int| 0 <= k < results.len() && results[k] != EatResult::Eaten
}

/// How the pet reacts to a meal: confused when nothing could be eaten
/// though something went wrong, happy otherwise (an empty meal too).
pub open spec fn meal_reaction(results: Seq<EatResult>) -> PetState {
    if had_error(results) && eaten_count(results) == 0 {
        PetState::WorkingConfused
    } else {
        PetState::Happy
    }
}

/// The number of paths eaten and the state the pet reacts with.
pub fn eat_summary(results: &Vec<EatResult>) -> (r: (usize, PetState))
    ensures
        r.0 == eaten_count(results@),
        r.1 == meal_reaction(results@),
{
    let mut ok: usize = 0;
    let mut error = false;
    let mut k: usize = 0;
    while k < results.len()
        invariant
            k <= results.len(),
            ok == eaten_count(results@.take(k as int)),
            ok <= k,
            error == had_error(results@.take(k as int)),
        decreases results.len() - k,
    {
        assert(results@.take(k as int + 1).drop_last() =~= results@.take(k as int));
        match results[k] {
            EatResult::Eaten => {
                ok = ok + 1;
            },
            _ => {
                error = true;
            },
        }
        proof {
            let t = results@.take(k as int + 1);
            if error {
                if !had_error(results@.take(k as int)) {
                    assert(t[k as int] != EatResult::Eaten);
                } else {
                    let j = choose|j: int| 0 <= j < k && results@.take(k as int)[j] != EatResult::Eaten;
                    assert(t[j] != EatResult::Eaten);
                }
            } else {
                assert forall|j: int| 0 <= j < t.len() implies t[j] == EatResult::Eaten by {
                    if j < k {
                        assert(results@.take(k as int)[j] == t[j]);
                    }
                }
            }
        }
        k = k + 1;
    }
    assert(results@.take(results.len() as int) =~= results@);
    let reaction = if error && ok == 0 {
        PetState::WorkingConfused
    } else {
        PetState::Happy
    };
    (ok, reaction)
}

/// The reaction to a meal: a meal with at least one path, none of which
/// was eaten (each refused or not moved to the recycle bin), leaves the pet
/// confused; a meal of which something was eaten, or an empty one, makes it
/// happy. Nothing is counted as eaten unless it was.
pub proof fn lemma_meal_reaction(results: Seq<EatResult>)
    ensures
        results.len() > 0 && (forall|k: int| 0 <= k < results.len() ==> #[trigger] results[k] != EatResult::Eaten)
            ==> meal_reaction(results) == PetState::WorkingConfused,
        (exists|k: int| 0 <= k < results.len() && #[trigger] results[k] == EatResult::Eaten)
            ==> meal_reaction(results) == PetState::Happy,
        results.len() == 0 ==> meal_reaction(results) == PetState::Happy,
        (eaten_count(results) == 0) == (forall|k: int| 0 <= k < results.len() ==> #[trigger] results[k] != EatResult::Eaten),
    decreases results.len(),
{
    if results.len() > 0 {
        let rest = results.drop_last();
        lemma_meal_reaction(rest);
        if forall|k: int| 0 <= k < results.len() ==> #[trigger] results[k] != EatResult::Eaten {
            assert(results[0] != EatResult::Eaten);
            assert forall|k: int| 0 <= k < rest.len() implies #[trigger] rest[k] != EatResult::Eaten by {
                assert(rest[k] == results[k]);
            }
        } else {
            let k = choose|k: int| 0 <= k < results.len() && results[k] == EatResult::Eaten;
            if k < rest.len() {
                assert(rest[k] == results[k]);
            }
        }
        if exists|k: int| 0 <= k < results.len() && #[trigger] results[k] == EatResult::Eaten {
            let k = choose|k: int| 0 <= k < results.len() && results[k] == EatResult::Eaten;
            if k < rest.len() {
                assert(rest[k] == results[k]);
            }
        }
    }
}

/// At most every path handed to the pet is eaten.
pub proof fn lemma_eaten_at_most_all(results: Seq<EatResult>)
    ensures
        eaten_count(results) <= results.len(),
    decreases results.len(),
{
    if results.len() > 0 {
        lemma_eaten_at_most_all(results.drop_last());
    }
}

/// A meal of which something was eaten makes the pet happy.
pub proof fn lemma_some_eaten_is_happy(results: Seq<EatResult>)
    requires
        eaten_count(results) > 0,
    ensures
        meal_reaction(results) == PetState::Happy,
{
}

} // verus!
