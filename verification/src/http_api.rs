//! The decisions of the local control API: which requests change the pet's
//! state, and how rapid repeats are dropped.
use vstd::prelude::*;
use vstd::string::StringExecFns;

use crate::state::{external_hold_deadline, parse_key, EXTERNAL_HOLD_MS, PetState};

verus! {

/// Identical state requests closer together than this are dropped.
pub const DEBOUNCE_MS: u64 = 250;

/// The last state a remote client set, and when (none at start).
#[derive(Clone, Copy, Debug)]
pub struct LastExternalSet {
    pub state: PetState,
    pub at_ms: Option<u64>,
}

impl LastExternalSet {
    /// Nothing was set yet.
    pub fn new() -> (r: LastExternalSet)
        ensures
            r.state == PetState::IdleLiving,
            r.at_ms is None,
    {
        LastExternalSet { state: PetState::IdleLiving, at_ms: None }
    }

    /// A request for `next` at `now_ms` repeats the last one within
    /// `DEBOUNCE_MS`.
    pub open spec fn repeats(self, next: PetState, now_ms: u64) -> bool {
        &&& self.state == next
        &&& self.at_ms matches Some(t)
        &&& (if now_ms >= t {
            now_ms - t
        } else {
            0
        }) < DEBOUNCE_MS
    }
}

/// How a request to set the pet's state was answered.
#[derive(Clone, Debug)]
pub enum SetStateOutcome {
    /// No state has that key: answered with this error text.
    UnknownState(String),
    /// A repeat of the last request within `DEBOUNCE_MS`: dropped.
    Debounced,
    /// Accepted; the pet already showed that state, so nothing is announced.
    Unchanged,
    /// Accepted, and the pet's state changed to this one: the change is
    /// announced.
    Changed(PetState),
}

/// The error text for a state key that names no state.
pub open spec fn unknown_state_message(key: Seq<char>) -> Seq<char> {
    "unknown state: "@ + key
}

/// The state that a request names by `key`, or the error text it is answered
/// with.
pub fn state_from_request(key: &str) -> (r: Result<PetState, String>)
    ensures
        r is Ok <==> parse_key(key@) is Some,
        r matches Ok(s) ==> Some(s) == parse_key(key@),
        r matches Err(msg) ==> msg@ == unknown_state_message(key@),
{
    match PetState::from_key(key) {
        Some(s) => Ok(s),
        None => Err(String::from_str("unknown state: ").concat(key)),
    }
}

/// A remote request at `now_ms` to set the pet's state to the one named
/// `key`. `last` is the last state a remote client set, `external_until_ms`
/// the end of the hold on the automatic cycle and `current` the pet's state.
/// A known state that does not repeat the last request within
/// `DEBOUNCE_MS` is recorded as the last one, holds off the automatic cycle
/// for `EXTERNAL_HOLD_MS` and becomes the pet's state.
pub fn set_state_request(
    last: &mut LastExternalSet,
    external_until_ms: &mut u64,
    current: &mut PetState,
    key: &str,
    now_ms: u64,
) -> (r: SetStateOutcome)
    requires
        now_ms + EXTERNAL_HOLD_MS <= u64::MAX,
    ensures
        match parse_key(key@) {
            None => {
                &&& r matches SetStateOutcome::UnknownState(msg) && msg@ == unknown_state_message(key@)
                &&& *final(last) == *old(last)
                &&& *final(external_until_ms) == *old(external_until_ms)
                &&& *final(current) == *old(current)
            },
            Some(next) => if old(last).repeats(next, now_ms) {
                &&& r is Debounced
                &&& *final(last) == *old(last)
                &&& *final(external_until_ms) == *old(external_until_ms)
                &&& *final(current) == *old(current)
            } else {
                &&& *final(last) == (LastExternalSet { state: next, at_ms: Some(now_ms) })
                &&& *final(external_until_ms) == now_ms + EXTERNAL_HOLD_MS
                &&& *final(current) == next
                &&& (if *old(current) == next {
                    r is Unchanged
                } else {
                    r == SetStateOutcome::Changed(next)
                })
            },
        },
{
    let next = match state_from_request(key) {
        Ok(s) => s,
        Err(msg) => return SetStateOutcome::UnknownState(msg),
    };
    let repeated = match last.at_ms {
        Some(t) => {
            let since = if now_ms >= t {
                now_ms - t
            } else {
                0
            };
            last.state == next && since < DEBOUNCE_MS
        },
        None => false,
    };
    if repeated {
        return SetStateOutcome::Debounced;
    }
    *last = LastExternalSet { state: next, at_ms: Some(now_ms) };
    *external_until_ms = external_hold_deadline(now_ms);
    if *current == next {
        SetStateOutcome::Unchanged
    } else {
        *current = next;
        SetStateOutcome::Changed(next)
    }
}

} // verus!

verus! {

/// Two requests for the same state less than `DEBOUNCE_MS` apart: the
/// second is dropped, whatever the first one did to the pet.
pub proof fn lemma_quick_repeat_is_dropped(next: PetState, first_ms: u64, second_ms: u64)
    requires
        first_ms <= second_ms < first_ms + DEBOUNCE_MS,
    ensures
        (LastExternalSet { state: next, at_ms: Some(first_ms) }).repeats(next, second_ms),
{
}

/// A request for another state, or for the same one `DEBOUNCE_MS` or more
/// later, is not dropped.
pub proof fn lemma_later_or_other_request_is_heard(last: LastExternalSet, next: PetState, now_ms: u64)
    requires
        last.state != next || (last.at_ms matches Some(t) && now_ms >= t + DEBOUNCE_MS) || last.at_ms is None,
    ensures
        !last.repeats(next, now_ms),
{
}

} // verus!
