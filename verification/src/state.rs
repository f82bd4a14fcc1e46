use vstd::prelude::*;
use vstd::string::StringSliceAdditionalSpecFns;

verus! {

/// Walking direction of the pet.
#[derive(Clone, Copy, Debug, PartialEq, Eq, Structural)]
pub enum Direction {
    Left,
    Right,
}

/// Which edge of a window (or of the screen) the pet climbs.
#[derive(Clone, Copy, Debug, PartialEq, Eq, Structural)]
pub enum Edge {
    Top,
    Left,
    Right,
}

/// Every animation state the pet can be in.
#[derive(Clone, Copy, Debug, PartialEq, Eq, Structural)]
pub enum PetState {
    IdleLiving,
    Walking { dir: Direction },
    Climbing { hwnd: isize, edge: Edge, offset: i32 },
    Sleeping,
    Happy,
    Dizzy,
    Dragging,
    Eating,
    GoingAway,
    Disconnected,
    Notification,
    WorkingTyping,
    WorkingThinking,
    WorkingJuggling,
    WorkingBuilding,
    WorkingCarrying,
    WorkingConducting,
    WorkingConfused,
    WorkingDebugger,
    WorkingOverheated,
    WorkingPushing,
    WorkingSweeping,
    WorkingWizard,
    WorkingBeacon,
}

/// The key of a state, as the front end and the control API name it.
pub open spec fn key_str(s: PetState) -> &'static str {
    match s {
        PetState::IdleLiving => "idle_living",
        PetState::Walking { .. } => "walking",
        PetState::Climbing { .. } => "climbing",
        PetState::Sleeping => "sleeping",
        PetState::Happy => "happy",
        PetState::Dizzy => "dizzy",
        PetState::Dragging => "dragging",
        PetState::Eating => "eating",
        PetState::GoingAway => "going_away",
        PetState::Disconnected => "disconnected",
        PetState::Notification => "notification",
        PetState::WorkingTyping => "working_typing",
        PetState::WorkingThinking => "working_thinking",
        PetState::WorkingJuggling => "working_juggling",
        PetState::WorkingBuilding => "working_building",
        PetState::WorkingCarrying => "working_carrying",
        PetState::WorkingConducting => "working_conducting",
        PetState::WorkingConfused => "working_confused",
        PetState::WorkingDebugger => "working_debugger",
        PetState::WorkingOverheated => "working_overheated",
        PetState::WorkingPushing => "working_pushing",
        PetState::WorkingSweeping => "working_sweeping",
        PetState::WorkingWizard => "working_wizard",
        PetState::WorkingBeacon => "working_beacon",
    }
}

/// The characters of the key of a state.
pub open spec fn key_text(s: PetState) -> Seq<char> {
    key_str(s)@
}

impl PetState {
    /// The key of this state.
    pub fn key(&self) -> (k: &'static str)
        ensures
            k == key_str(*self),
    {
        match self {
            PetState::IdleLiving => "idle_living",
            PetState::Walking { .. } => "walking",
            PetState::Climbing { .. } => "climbing",
            PetState::Sleeping => "sleeping",
            PetState::Happy => "happy",
            PetState::Dizzy => "dizzy",
            PetState::Dragging => "dragging",
            PetState::Eating => "eating",
            PetState::GoingAway => "going_away",
            PetState::Disconnected => "disconnected",
            PetState::Notification => "notification",
            PetState::WorkingTyping => "working_typing",
            PetState::WorkingThinking => "working_thinking",
            PetState::WorkingJuggling => "working_juggling",
            PetState::WorkingBuilding => "working_building",
            PetState::WorkingCarrying => "working_carrying",
            PetState::WorkingConducting => "working_conducting",
            PetState::WorkingConfused => "working_confused",
            PetState::WorkingDebugger => "working_debugger",
            PetState::WorkingOverheated => "working_overheated",
            PetState::WorkingPushing => "working_pushing",
            PetState::WorkingSweeping => "working_sweeping",
            PetState::WorkingWizard => "working_wizard",
            PetState::WorkingBeacon => "working_beacon",
        }
    }
}

/// The states that a key can name: all but the two moving ones, which carry
/// data that a key cannot give.
pub open spec fn is_keyed(s: PetState) -> bool {
    !(s is Walking) && !(s is Climbing)
}

/// `k` is the key of some keyed state.
pub open spec fn names_a_state(k: Seq<char>) -> bool {
    exists|s: PetState| is_keyed(s) && #[trigger] key_text(s) == k
}

/// The keyed state that `k` names, if any.
pub open spec fn parse_key(k: Seq<char>) -> Option<PetState> {
    if names_a_state(k) {
        Some(choose|s: PetState| is_keyed(s) && #[trigger] key_text(s) == k)
    } else {
        None
    }
}

/// The variant of a state, ignoring the data that the moving states carry.
pub open spec fn same_variant(a: PetState, b: PetState) -> bool {
    match (a, b) {
        (PetState::Walking { .. }, PetState::Walking { .. }) => true,
        (PetState::Climbing { .. }, PetState::Climbing { .. }) => true,
        _ => a == b,
    }
}

/// The position of a state's variant in the declaration order.
pub open spec fn variant_index(s: PetState) -> int {
    match s {
        PetState::IdleLiving => 0,
        PetState::Walking { .. } => 1,
        PetState::Climbing { .. } => 2,
        PetState::Sleeping => 3,
        PetState::Happy => 4,
        PetState::Dizzy => 5,
        PetState::Dragging => 6,
        PetState::Eating => 7,
        PetState::GoingAway => 8,
        PetState::Disconnected => 9,
        PetState::Notification => 10,
        PetState::WorkingTyping => 11,
        PetState::WorkingThinking => 12,
        PetState::WorkingJuggling => 13,
        PetState::WorkingBuilding => 14,
        PetState::WorkingCarrying => 15,
        PetState::WorkingConducting => 16,
        PetState::WorkingConfused => 17,
        PetState::WorkingDebugger => 18,
        PetState::WorkingOverheated => 19,
        PetState::WorkingPushing => 20,
        PetState::WorkingSweeping => 21,
        PetState::WorkingWizard => 22,
        PetState::WorkingBeacon => 23,
    }
}

/// A summary of a key that is enough to tell the keys of the variants apart:
/// its length, its first character and its twelfth character (a space where
/// it is shorter).
pub open spec fn key_fingerprint(k: Seq<char>) -> (nat, char, char) {
    (k.len(), k[0], if k.len() > 11 { k[11] } else { ' ' })
}

/// The position of the variant whose key has the fingerprint `fp`, or -1.
pub open spec fn index_of_fingerprint(fp: (nat, char, char)) -> int {
    if fp == (11nat, 'i', ' ') {
        0
    } else     if fp == (7nat, 'w', ' ') {
        1
    } else     if fp == (8nat, 'c', ' ') {
        2
    } else     if fp == (8nat, 's', ' ') {
        3
    } else     if fp == (5nat, 'h', ' ') {
        4
    } else     if fp == (5nat, 'd', ' ') {
        5
    } else     if fp == (8nat, 'd', ' ') {
        6
    } else     if fp == (6nat, 'e', ' ') {
        7
    } else     if fp == (10nat, 'g', ' ') {
        8
    } else     if fp == (12nat, 'd', 'd') {
        9
    } else     if fp == (12nat, 'n', 'n') {
        10
    } else     if fp == (14nat, 'w', 'i') {
        11
    } else     if fp == (16nat, 'w', 'n') {
        12
    } else     if fp == (16nat, 'w', 'g') {
        13
    } else     if fp == (16nat, 'w', 'l') {
        14
    } else     if fp == (16nat, 'w', 'r') {
        15
    } else     if fp == (18nat, 'w', 'd') {
        16
    } else     if fp == (16nat, 'w', 'f') {
        17
    } else     if fp == (16nat, 'w', 'u') {
        18
    } else     if fp == (18nat, 'w', 'r') {
        19
    } else     if fp == (15nat, 'w', 'h') {
        20
    } else     if fp == (16nat, 'w', 'e') {
        21
    } else     if fp == (14nat, 'w', 'a') {
        22
    } else     if fp == (14nat, 'w', 'c') {
        23
    } else {
        -1
    }
}

proof fn lemma_index_of_key(s: PetState)
    ensures
        index_of_fingerprint(key_fingerprint(key_text(s))) == variant_index(s),
{
    broadcast use vstd::string::group_string_axioms;

    match s {
        PetState::IdleLiving => {
            reveal_strlit("idle_living");
        },
        PetState::Walking { .. } => {
            reveal_strlit("walking");
        },
        PetState::Climbing { .. } => {
            reveal_strlit("climbing");
        },
        PetState::Sleeping => {
            reveal_strlit("sleeping");
        },
        PetState::Happy => {
            reveal_strlit("happy");
        },
        PetState::Dizzy => {
            reveal_strlit("dizzy");
        },
        PetState::Dragging => {
            reveal_strlit("dragging");
        },
        PetState::Eating => {
            reveal_strlit("eating");
        },
        PetState::GoingAway => {
            reveal_strlit("going_away");
        },
        PetState::Disconnected => {
            reveal_strlit("disconnected");
        },
        PetState::Notification => {
            reveal_strlit("notification");
        },
        PetState::WorkingTyping => {
            reveal_strlit("working_typing");
        },
        PetState::WorkingThinking => {
            reveal_strlit("working_thinking");
        },
        PetState::WorkingJuggling => {
            reveal_strlit("working_juggling");
        },
        PetState::WorkingBuilding => {
            reveal_strlit("working_building");
        },
        PetState::WorkingCarrying => {
            reveal_strlit("working_carrying");
        },
        PetState::WorkingConducting => {
            reveal_strlit("working_conducting");
        },
        PetState::WorkingConfused => {
            reveal_strlit("working_confused");
        },
        PetState::WorkingDebugger => {
            reveal_strlit("working_debugger");
        },
        PetState::WorkingOverheated => {
            reveal_strlit("working_overheated");
        },
        PetState::WorkingPushing => {
            reveal_strlit("working_pushing");
        },
        PetState::WorkingSweeping => {
            reveal_strlit("working_sweeping");
        },
        PetState::WorkingWizard => {
            reveal_strlit("working_wizard");
        },
        PetState::WorkingBeacon => {
            reveal_strlit("working_beacon");
        },
    }
}

/// Distinct variants have distinct keys: a key names at most one variant.
pub proof fn lemma_key_text_injective(a: PetState, b: PetState)
    requires
        key_text(a) == key_text(b),
    ensures
        same_variant(a, b),
{
    lemma_index_of_key(a);
    lemma_index_of_key(b);
}

/// Reading back the key of a keyed state gives that state again.
pub proof fn lemma_parse_key_round_trip(s: PetState)
    requires
        is_keyed(s),
    ensures
        parse_key(key_text(s)) == Some(s),
{
    assert(names_a_state(key_text(s)));
    let t = choose|t: PetState| is_keyed(t) && #[trigger] key_text(t) == key_text(s);
    lemma_key_text_injective(s, t);
}

/// Whatever a key is read as has that key.
pub proof fn lemma_parse_key_sound(k: Seq<char>)
    ensures
        parse_key(k) matches Some(s) ==> is_keyed(s) && key_text(s) == k,
{
}

impl PetState {
    /// The keyed state whose key is `key`, if there is one.
    pub fn from_key(key: &str) -> (r: Option<PetState>)
        ensures
            r == parse_key(key@),
    {
        if same_text(key, "idle_living") {
            proof {
                lemma_parse_key_round_trip(PetState::IdleLiving);
            }
            return Some(PetState::IdleLiving);
        }
        if same_text(key, "sleeping") {
            proof {
                lemma_parse_key_round_trip(PetState::Sleeping);
            }
            return Some(PetState::Sleeping);
        }
        if same_text(key, "happy") {
            proof {
                lemma_parse_key_round_trip(PetState::Happy);
            }
            return Some(PetState::Happy);
        }
        if same_text(key, "dizzy") {
            proof {
                lemma_parse_key_round_trip(PetState::Dizzy);
            }
            return Some(PetState::Dizzy);
        }
        if same_text(key, "dragging") {
            proof {
                lemma_parse_key_round_trip(PetState::Dragging);
            }
            return Some(PetState::Dragging);
        }
        if same_text(key, "eating") {
            proof {
                lemma_parse_key_round_trip(PetState::Eating);
            }
            return Some(PetState::Eating);
        }
        if same_text(key, "going_away") {
            proof {
                lemma_parse_key_round_trip(PetState::GoingAway);
            }
            return Some(PetState::GoingAway);
        }
        if same_text(key, "disconnected") {
            proof {
                lemma_parse_key_round_trip(PetState::Disconnected);
            }
            return Some(PetState::Disconnected);
        }
        if same_text(key, "notification") {
            proof {
                lemma_parse_key_round_trip(PetState::Notification);
            }
            return Some(PetState::Notification);
        }
        if same_text(key, "working_typing") {
            proof {
                lemma_parse_key_round_trip(PetState::WorkingTyping);
            }
            return Some(PetState::WorkingTyping);
        }
        if same_text(key, "working_thinking") {
            proof {
                lemma_parse_key_round_trip(PetState::WorkingThinking);
            }
            return Some(PetState::WorkingThinking);
        }
        if same_text(key, "working_juggling") {
            proof {
                lemma_parse_key_round_trip(PetState::WorkingJuggling);
            }
            return Some(PetState::WorkingJuggling);
        }
        if same_text(key, "working_building") {
            proof {
                lemma_parse_key_round_trip(PetState::WorkingBuilding);
            }
            return Some(PetState::WorkingBuilding);
        }
        if same_text(key, "working_carrying") {
            proof {
                lemma_parse_key_round_trip(PetState::WorkingCarrying);
            }
            return Some(PetState::WorkingCarrying);
        }
        if same_text(key, "working_conducting") {
            proof {
                lemma_parse_key_round_trip(PetState::WorkingConducting);
            }
            return Some(PetState::WorkingConducting);
        }
        if same_text(key, "working_confused") {
            proof {
                lemma_parse_key_round_trip(PetState::WorkingConfused);
            }
            return Some(PetState::WorkingConfused);
        }
        if same_text(key, "working_debugger") {
            proof {
                lemma_parse_key_round_trip(PetState::WorkingDebugger);
            }
            return Some(PetState::WorkingDebugger);
        }
        if same_text(key, "working_overheated") {
            proof {
                lemma_parse_key_round_trip(PetState::WorkingOverheated);
            }
            return Some(PetState::WorkingOverheated);
        }
        if same_text(key, "working_pushing") {
            proof {
                lemma_parse_key_round_trip(PetState::WorkingPushing);
            }
            return Some(PetState::WorkingPushing);
        }
        if same_text(key, "working_sweeping") {
            proof {
                lemma_parse_key_round_trip(PetState::WorkingSweeping);
            }
            return Some(PetState::WorkingSweeping);
        }
        if same_text(key, "working_wizard") {
            proof {
                lemma_parse_key_round_trip(PetState::WorkingWizard);
            }
            return Some(PetState::WorkingWizard);
        }
        if same_text(key, "working_beacon") {
            proof {
                lemma_parse_key_round_trip(PetState::WorkingBeacon);
            }
            return Some(PetState::WorkingBeacon);
        }
        proof {
            assert forall|s: PetState| is_keyed(s) implies #[trigger] key_text(s) != key@ by {
                match s {
                    PetState::Walking { .. } => {},
                    PetState::Climbing { .. } => {},
                    _ => {},
                }
            }
        }
        None
    }
}

/// All keyed states, in declaration order.
pub open spec fn keyed_states() -> Seq<PetState> {
    seq![
        PetState::IdleLiving,
        PetState::Sleeping,
        PetState::Happy,
        PetState::Dizzy,
        PetState::Dragging,
        PetState::Eating,
        PetState::GoingAway,
        PetState::Disconnected,
        PetState::Notification,
        PetState::WorkingTyping,
        PetState::WorkingThinking,
        PetState::WorkingJuggling,
        PetState::WorkingBuilding,
        PetState::WorkingCarrying,
        PetState::WorkingConducting,
        PetState::WorkingConfused,
        PetState::WorkingDebugger,
        PetState::WorkingOverheated,
        PetState::WorkingPushing,
        PetState::WorkingSweeping,
        PetState::WorkingWizard,
        PetState::WorkingBeacon,
    ]
}

/// The keys of all keyed states, in declaration order.
pub open spec fn keyed_texts() -> Seq<Seq<char>> {
    keyed_states().map_values(|s: PetState| key_text(s))
}

/// Every entry of `keyed_texts` is read back as a keyed state with that key.
pub proof fn lemma_keyed_texts_parse(i: int)
    requires
        0 <= i < keyed_texts().len(),
    ensures
        parse_key(keyed_texts()[i]) == Some(keyed_states()[i]),
        is_keyed(keyed_states()[i]),
{
    lemma_parse_key_round_trip(keyed_states()[i]);
}

/// No key appears twice in `keyed_texts`.
pub proof fn lemma_keyed_texts_distinct(i: int, j: int)
    requires
        0 <= i < keyed_texts().len(),
        0 <= j < keyed_texts().len(),
        i != j,
    ensures
        keyed_texts()[i] != keyed_texts()[j],
{
    if keyed_texts()[i] == keyed_texts()[j] {
        lemma_key_text_injective(keyed_states()[i], keyed_states()[j]);
    }
}

/// Every keyed state has its key among `keyed_texts`.
pub proof fn lemma_keyed_texts_complete(s: PetState)
    requires
        is_keyed(s),
    ensures
        keyed_texts().contains(key_text(s)),
{
    match s {
        PetState::Walking { .. } => {},
        PetState::Climbing { .. } => {},
        PetState::IdleLiving => assert(keyed_texts()[0] == key_text(s)),
        PetState::Sleeping => assert(keyed_texts()[1] == key_text(s)),
        PetState::Happy => assert(keyed_texts()[2] == key_text(s)),
        PetState::Dizzy => assert(keyed_texts()[3] == key_text(s)),
        PetState::Dragging => assert(keyed_texts()[4] == key_text(s)),
        PetState::Eating => assert(keyed_texts()[5] == key_text(s)),
        PetState::GoingAway => assert(keyed_texts()[6] == key_text(s)),
        PetState::Disconnected => assert(keyed_texts()[7] == key_text(s)),
        PetState::Notification => assert(keyed_texts()[8] == key_text(s)),
        PetState::WorkingTyping => assert(keyed_texts()[9] == key_text(s)),
        PetState::WorkingThinking => assert(keyed_texts()[10] == key_text(s)),
        PetState::WorkingJuggling => assert(keyed_texts()[11] == key_text(s)),
        PetState::WorkingBuilding => assert(keyed_texts()[12] == key_text(s)),
        PetState::WorkingCarrying => assert(keyed_texts()[13] == key_text(s)),
        PetState::WorkingConducting => assert(keyed_texts()[14] == key_text(s)),
        PetState::WorkingConfused => assert(keyed_texts()[15] == key_text(s)),
        PetState::WorkingDebugger => assert(keyed_texts()[16] == key_text(s)),
        PetState::WorkingOverheated => assert(keyed_texts()[17] == key_text(s)),
        PetState::WorkingPushing => assert(keyed_texts()[18] == key_text(s)),
        PetState::WorkingSweeping => assert(keyed_texts()[19] == key_text(s)),
        PetState::WorkingWizard => assert(keyed_texts()[20] == key_text(s)),
        PetState::WorkingBeacon => assert(keyed_texts()[21] == key_text(s)),
    }
}

impl PetState {
    /// Every key that `from_key` accepts, each once.
    pub fn all_keys() -> (r: &'static [&'static str])
        ensures
            r@.map_values(|k: &str| k@) == keyed_texts(),
    {
        let r: &'static [&'static str] = &[
            "idle_living",
            "sleeping",
            "happy",
            "dizzy",
            "dragging",
            "eating",
            "going_away",
            "disconnected",
            "notification",
            "working_typing",
            "working_thinking",
            "working_juggling",
            "working_building",
            "working_carrying",
            "working_conducting",
            "working_confused",
            "working_debugger",
            "working_overheated",
            "working_pushing",
            "working_sweeping",
            "working_wizard",
            "working_beacon",
        ];
        assert(r@.map_values(|k: &str| k@) =~= keyed_texts());
        r
    }
}

/// The states that show the pet at work.
pub open spec fn is_working(s: PetState) -> bool {
    match s {
        PetState::WorkingTyping => true,
        PetState::WorkingThinking => true,
        PetState::WorkingJuggling => true,
        PetState::WorkingBuilding => true,
        PetState::WorkingCarrying => true,
        PetState::WorkingConducting => true,
        PetState::WorkingConfused => true,
        PetState::WorkingDebugger => true,
        PetState::WorkingOverheated => true,
        PetState::WorkingPushing => true,
        PetState::WorkingSweeping => true,
        PetState::WorkingWizard => true,
        PetState::WorkingBeacon => true,
        _ => false,
    }
}

/// The working states that the automatic cycle picks from.
pub open spec fn working_pool() -> Seq<PetState> {
    seq![
        PetState::WorkingTyping,
        PetState::WorkingThinking,
        PetState::WorkingJuggling,
        PetState::WorkingBuilding,
        PetState::WorkingConducting,
        PetState::WorkingDebugger,
        PetState::WorkingPushing,
        PetState::WorkingSweeping,
        PetState::WorkingWizard,
        PetState::WorkingBeacon,
    ]
}

/// The working states that the automatic cycle picks from.
pub fn working_states() -> (r: &'static [PetState])
    ensures
        r@ == working_pool(),
{
    let r: &'static [PetState] = &[
        PetState::WorkingTyping,
        PetState::WorkingThinking,
        PetState::WorkingJuggling,
        PetState::WorkingBuilding,
        PetState::WorkingConducting,
        PetState::WorkingDebugger,
        PetState::WorkingPushing,
        PetState::WorkingSweeping,
        PetState::WorkingWizard,
        PetState::WorkingBeacon,
    ];
    assert(r@ =~= working_pool());
    r
}

/// Every state of the pool is a working state that a key can name.
pub proof fn lemma_working_pool_keyed(i: int)
    requires
        0 <= i < working_pool().len(),
    ensures
        is_working(working_pool()[i]),
        is_keyed(working_pool()[i]),
        parse_key(key_text(working_pool()[i])) == Some(working_pool()[i]),
{
    lemma_parse_key_round_trip(working_pool()[i]);
}

/// What the front end is told of a state: its key, and the direction or the
/// edge where the state has one.
#[derive(Clone, Debug)]
pub struct StatePayload {
    pub state: &'static str,
    pub direction: Option<Direction>,
    pub edge: Option<Edge>,
}

/// The payload that describes `s`.
pub open spec fn payload_of(s: PetState) -> StatePayload {
    StatePayload {
        state: key_str(s),
        direction: match s {
            PetState::Walking { dir } => Some(dir),
            _ => None,
        },
        edge: match s {
            PetState::Climbing { edge, .. } => Some(edge),
            _ => None,
        },
    }
}

/// The payload of a state carries its key, a direction exactly for a walk
/// and an edge exactly for a climb.
pub proof fn lemma_payload_describes_state(s: PetState)
    ensures
        payload_of(s).state@ == key_text(s),
        payload_of(s).direction is Some <==> s is Walking,
        payload_of(s).edge is Some <==> s is Climbing,
        s matches PetState::Walking { dir } ==> payload_of(s).direction == Some(dir),
        s matches PetState::Climbing { edge, .. } ==> payload_of(s).edge == Some(edge),
{
}

impl From<PetState> for StatePayload {
    fn from(s: PetState) -> (r: Self) {
        let (direction, edge) = match s {
            PetState::Walking { dir } => (Some(dir), None),
            PetState::Climbing { edge, .. } => (None, Some(edge)),
            _ => (None, None),
        };
        StatePayload { state: s.key(), direction, edge }
    }
}

impl vstd::std_specs::convert::FromSpecImpl<PetState> for StatePayload {
    open spec fn obeys_from_spec() -> bool {
        true
    }

    open spec fn from_spec(v: PetState) -> Self {
        payload_of(v)
    }
}

/// Sets `state` to `next` and says whether that changed it: a change is what
/// the front end is told of, an unchanged state is not announced again.
pub fn apply_if_changed(state: &mut PetState, next: PetState) -> (changed: bool)
    ensures
        *final(state) == next,
        changed == (*old(state) != next),
{
    if *state == next {
        false
    } else {
        *state = next;
        true
    }
}

/// How long a state set by a remote client holds off the automatic cycle.
pub const EXTERNAL_HOLD_MS: u64 = 30000;

/// The end of the hold that a remote request made at `now_ms` starts.
pub fn external_hold_deadline(now_ms: u64) -> (until: u64)
    requires
        now_ms + EXTERNAL_HOLD_MS <= u64::MAX,
    ensures
        until == now_ms + EXTERNAL_HOLD_MS,
{
    now_ms + EXTERNAL_HOLD_MS
}

/// Whether a remote client still drives the pet at `now_ms`.
pub fn externally_driven(now_ms: u64, until_ms: u64) -> (r: bool)
    ensures
        r == (now_ms < until_ms),
{
    now_ms < until_ms
}

/// Whether two strings hold the same characters.
pub fn same_text(a: &str, b: &str) -> (r: bool)
    ensures
        r == (a@ == b@),
{
    broadcast use vstd::utf8::encode_utf8_decode_utf8;

    let x = a.as_bytes();
    let y = b.as_bytes();
    if x.len() != y.len() {
        return false;
    }
    let mut i: usize = 0;
    while i < x.len()
        invariant
            x.len() == y.len(),
            i <= x.len(),
            x@ == a.spec_bytes(),
            y@ == b.spec_bytes(),
            forall|j: int| 0 <= j < i ==> x@[j] == y@[j],
        decreases x.len() - i,
    {
        if x[i] != y[i] {
            return false;
        }
        i = i + 1;
    }
    proof {
        assert(x@ =~= y@);
        assert(vstd::utf8::decode_utf8(a.spec_bytes()) == a@);
        assert(vstd::utf8::decode_utf8(b.spec_bytes()) == b@);
    }
    true
}

} // verus!
