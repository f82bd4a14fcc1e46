//! How the pet moves: walking along the floor, climbing the edges of the
//! screen and of windows, falling onto the nearest floor below, and the
//! automatic cycle that sends an idle pet walking or working.
use rand::rngs::SmallRng;
use vstd::prelude::*;

use crate::random::{choose_state, draw_in_range, draw_ratio};
use crate::state::{externally_driven, working_pool, working_states, Direction, Edge, PetState};
use crate::window_tracker::WinRect;

verus! {

/// Pixels walked per tick.
pub const WALK_SPEED_PX_PER_TICK: i32 = 2;
/// Pixels climbed per tick.
pub const CLIMB_SPEED_PX_PER_TICK: i32 = 2;
/// Pixels fallen per tick.
pub const FALL_SPEED_PX_PER_TICK: i32 = 4;
/// Gap kept between the pet's feet and the floor it stands on.
pub const FLOOR_GAP_PX: i32 = 10;
/// How close (per 200 pixels of pet width) a window edge must be to be grabbed.
pub const WALL_GRAB_DIST: i32 = 12;
/// The feet are this many 200ths of the pet's height below its top.
pub const FOOT_NUMERATOR: i64 = 178;
/// See `FOOT_NUMERATOR`.
pub const FOOT_DENOMINATOR: i64 = 200;
/// A window position further than this from where the walker put it was
/// moved by someone else.
pub const MOVE_TOLERANCE_PX: i32 = 3;
/// After an outside move the walker leaves the window alone this long.
pub const SETTLE_MS: u64 = 180;
/// Ticks taken to turn round the top corner of a window.
pub const CORNER_TURN_TICKS: i32 = 14;
/// Bound of the coordinates and sizes that the desktop reports.
pub const COORD_LIMIT: i32 = 0x100_0000;
/// Bound of the coordinates that the walker keeps.
pub const RANGE_LIMIT: i32 = 0x1000_0000;

/// What the walker knows of the pet's window between ticks.
#[derive(Clone, Copy, Debug)]
pub struct Walker {
    /// Where the walker wants the window.
    pub pet_x: i32,
    pub pet_y: i32,
    /// Where the walker last put the window.
    pub last_set_x: i32,
    pub last_set_y: i32,
    /// When the window was last moved by someone else.
    pub last_external_change_ms: Option<u64>,
    /// Ticks left in a turn round the top corner of a window.
    pub corner_turn_remaining: i32,
    /// Where the turn round the corner ends.
    pub corner_turn_target_x: i32,
    /// Whether the walker has taken the window's position yet.
    pub initialized: bool,
}

/// What the walker is told at a tick.
#[derive(Clone, Copy, Debug)]
pub struct WalkInput {
    /// The pet's state.
    pub cur: PetState,
    /// The window's position.
    pub actual_x: i32,
    pub actual_y: i32,
    /// The window's size.
    pub width: u32,
    pub height: u32,
    /// The work area of the monitor under the pet.
    pub work_left: i32,
    pub work_top: i32,
    pub work_right: i32,
    pub work_bottom: i32,
    /// A monotonic clock, in milliseconds.
    pub now_ms: u64,
}

/// What the walker does at a tick: the states to show, in order, and where to
/// move the window, if anywhere.
#[derive(Clone, Debug)]
pub struct WalkOutcome {
    pub emits: Vec<PetState>,
    pub position: Option<(i32, i32)>,
}

pub open spec fn coord_ok(v: int) -> bool {
    -COORD_LIMIT <= v <= COORD_LIMIT
}

pub open spec fn range_ok(v: int) -> bool {
    -RANGE_LIMIT <= v <= RANGE_LIMIT
}

/// The desktop reported sizes and coordinates within `COORD_LIMIT`.
pub open spec fn input_ok(i: WalkInput) -> bool {
    &&& coord_ok(i.actual_x as int)
    &&& coord_ok(i.actual_y as int)
    &&& i.width <= COORD_LIMIT
    &&& i.height <= COORD_LIMIT
    &&& coord_ok(i.work_left as int)
    &&& coord_ok(i.work_top as int)
    &&& coord_ok(i.work_right as int)
    &&& coord_ok(i.work_bottom as int)
}

pub open spec fn window_ok(w: WinRect) -> bool {
    &&& coord_ok(w.left as int)
    &&& coord_ok(w.top as int)
    &&& coord_ok(w.right as int)
    &&& coord_ok(w.bottom as int)
}

pub open spec fn windows_ok(ws: Seq<WinRect>) -> bool {
    forall|k: int| 0 <= k < ws.len() ==> window_ok(#[trigger] ws[k])
}

/// The distance between `a` and `b`.
pub open spec fn abs_diff(a: int, b: int) -> int {
    if a >= b {
        a - b
    } else {
        b - a
    }
}

/// Rust's integer division, which rounds toward zero.
pub open spec fn trunc_div(a: int, b: int) -> int {
    if a >= 0 {
        a / b
    } else {
        -((-a) / b)
    }
}

/// Height of the pet's feet within its window of height `h`.
pub open spec fn foot_height(h: int) -> int {
    (FOOT_NUMERATOR as int) * h / (FOOT_DENOMINATOR as int)
}

impl WalkInput {
    pub open spec fn walk_w(self) -> int {
        self.width as int
    }

    pub open spec fn walk_h(self) -> int {
        self.height as int
    }

    pub open spec fn foot(self) -> int {
        foot_height(self.height as int)
    }

    pub open spec fn work_w(self) -> int {
        self.work_right - self.work_left
    }

    pub open spec fn work_h(self) -> int {
        self.work_bottom - self.work_top
    }

    /// The window stands where the walker wants it.
    pub open spec fn position_for(self, w: Walker) -> Option<(i32, i32)> {
        if w.pet_x != self.actual_x || w.pet_y != self.actual_y {
            Some((w.pet_x, w.pet_y))
        } else {
            None
        }
    }
}

impl Walker {
    /// The coordinates kept are within `RANGE_LIMIT` and a turn round a corner
    /// takes at most `CORNER_TURN_TICKS` ticks.
    pub open spec fn in_range(self) -> bool {
        &&& range_ok(self.pet_x as int)
        &&& range_ok(self.pet_y as int)
        &&& range_ok(self.last_set_x as int)
        &&& range_ok(self.last_set_y as int)
        &&& range_ok(self.corner_turn_target_x as int)
        &&& 0 <= self.corner_turn_remaining <= CORNER_TURN_TICKS
    }

    /// The walker once it has taken the window's position and noticed a move
    /// made by someone else.
    pub open spec fn spec_prepare(self, i: WalkInput) -> Walker {
        let w = if !self.initialized {
            Walker {
                pet_x: i.actual_x,
                pet_y: i.actual_y,
                last_set_x: i.actual_x,
                last_set_y: i.actual_y,
                initialized: true,
                ..self
            }
        } else {
            self
        };
        let moved = abs_diff(i.actual_x as int, w.last_set_x as int) > MOVE_TOLERANCE_PX
            || abs_diff(i.actual_y as int, w.last_set_y as int) > MOVE_TOLERANCE_PX;
        if moved {
            Walker {
                pet_x: i.actual_x,
                pet_y: i.actual_y,
                last_external_change_ms: Some(i.now_ms),
                corner_turn_remaining: 0,
                ..w
            }
        } else {
            w
        }
    }

    /// The window was moved by someone else less than `SETTLE_MS` ago.
    pub open spec fn settling(self, now_ms: u64) -> bool {
        self.last_external_change_ms matches Some(t) && (if now_ms >= t {
            now_ms - t
        } else {
            0
        }) < SETTLE_MS
    }

    /// One step of a turn round the top corner of a window.
    pub open spec fn spec_corner_step(self) -> Walker {
        let delta = self.corner_turn_target_x - self.pet_x;
        let x = self.pet_x + trunc_div(delta, self.corner_turn_remaining as int);
        let remaining = self.corner_turn_remaining - 1;
        Walker {
            pet_x: if remaining == 0 {
                self.corner_turn_target_x
            } else {
                x as i32
            },
            corner_turn_remaining: remaining as i32,
            ..self
        }
    }
}

/// The pet, at `(x, y)` and walking in direction `dir`, grabs the edge of
/// window `w`: it overlaps the window vertically and its front is at the
/// window's edge, within `grab` pixels.
pub open spec fn grabs(w: WinRect, dir: Direction, x: int, y: int, walk_w: int, walk_h: int, grab: int) -> bool {
    &&& y + walk_h > w.top + 30
    &&& y + 20 < w.bottom
    &&& match dir {
        Direction::Right => x + walk_w >= w.left && x + walk_w <= w.left + grab,
        Direction::Left => x <= w.right && x >= w.right - grab,
    }
}

/// The first window of `ws` whose edge the pet grabs.
pub open spec fn first_grab(
    ws: Seq<WinRect>,
    dir: Direction,
    x: int,
    y: int,
    walk_w: int,
    walk_h: int,
    grab: int,
) -> Option<WinRect>
    decreases ws.len(),
{
    if ws.len() == 0 {
        None
    } else if grabs(ws[0], dir, x, y, walk_w, walk_h, grab) {
        Some(ws[0])
    } else {
        first_grab(ws.drop_first(), dir, x, y, walk_w, walk_h, grab)
    }
}

/// The first window of `ws` with handle `hwnd`.
pub open spec fn first_with_hwnd(ws: Seq<WinRect>, hwnd: isize) -> Option<WinRect>
    decreases ws.len(),
{
    if ws.len() == 0 {
        None
    } else if ws[0].hwnd == hwnd {
        Some(ws[0])
    } else {
        first_with_hwnd(ws.drop_first(), hwnd)
    }
}

/// The floor below a pet whose middle is at `center` and whose top is at
/// `y`, starting from `target`: the highest top of a window under the pet's
/// middle (30 pixels in from either side) that is not more than 8 pixels
/// above the pet, if it is higher than `target`.
pub open spec fn floor_below(ws: Seq<WinRect>, center: int, y: int, foot: int, target: int) -> int
    decreases ws.len(),
{
    if ws.len() == 0 {
        target
    } else {
        let w = ws[0];
        let candidate = w.top - foot - FLOOR_GAP_PX;
        let next = if center >= w.left + 30 && center <= w.right - 30 && candidate < target && y
            <= candidate + 8 {
            candidate
        } else {
            target
        };
        floor_below(ws.drop_first(), center, y, foot, next)
    }
}

/// Where the screen's floor puts the pet's top.
pub open spec fn screen_floor(i: WalkInput) -> int {
    i.work_top + i.work_h() - i.foot() - FLOOR_GAP_PX
}

/// The pet's top after a tick of gravity, from `y` toward `target`: it rises
/// at once and falls at most `FALL_SPEED_PX_PER_TICK` pixels.
pub open spec fn fall_toward(y: int, target: int) -> int {
    if target < y {
        target
    } else if target > y {
        if y + FALL_SPEED_PX_PER_TICK < target {
            y + FALL_SPEED_PX_PER_TICK
        } else {
            target
        }
    } else {
        y
    }
}

/// A walking tick: the walker, the states shown, and whether gravity still
/// applies.
pub open spec fn spec_walking(w: Walker, i: WalkInput, dir: Direction, ws: Seq<WinRect>) -> (
    Walker,
    Seq<PetState>,
    bool,
) {
    let step: int = match dir {
        Direction::Left => -(WALK_SPEED_PX_PER_TICK as int),
        Direction::Right => WALK_SPEED_PX_PER_TICK as int,
    };
    let x0 = w.pet_x + step;
    let min_x = i.work_left - trunc_div(i.walk_w() * 75, 200);
    let max_x = i.work_left + i.work_w() - trunc_div(i.walk_w() * 125, 200);
    let (x1, emits1, gravity1) = if x0 <= min_x {
        (min_x, seq![PetState::Climbing { hwnd: 0, edge: Edge::Left, offset: 0 }], false)
    } else if x0 >= max_x {
        (max_x, seq![PetState::Climbing { hwnd: 0, edge: Edge::Right, offset: 0 }], false)
    } else {
        (x0, Seq::empty(), true)
    };
    let grab = trunc_div(WALL_GRAB_DIST * i.walk_w(), 200);
    match first_grab(ws, dir, x1, w.pet_y as int, i.walk_w(), i.walk_h(), grab) {
        Some(win) => {
            let (x2, edge) = match dir {
                Direction::Right => (win.left - trunc_div(i.walk_w(), 2), Edge::Left),
                Direction::Left => (win.right - trunc_div(i.walk_w(), 2), Edge::Right),
            };
            (
                Walker { pet_x: x2 as i32, ..w },
                emits1.push(PetState::Climbing { hwnd: win.hwnd, edge, offset: 0 }),
                false,
            )
        },
        None => (Walker { pet_x: x1 as i32, ..w }, emits1, gravity1),
    }
}

/// A tick climbing an edge of the screen: the walker and the states shown.
pub open spec fn spec_climb_screen(w: Walker, i: WalkInput, edge: Edge) -> (Walker, Seq<PetState>) {
    let y = w.pet_y - CLIMB_SPEED_PX_PER_TICK;
    let x = match edge {
        Edge::Left => i.work_left as int,
        Edge::Right => i.work_left + i.work_w() - i.walk_w(),
        Edge::Top => w.pet_x as int,
    };
    let stop_y = i.work_top + trunc_div(i.work_h() * 2, 10);
    let emits = if y <= stop_y {
        let dir = match edge {
            Edge::Left => Direction::Right,
            Edge::Right => Direction::Left,
            Edge::Top => Direction::Right,
        };
        seq![PetState::Walking { dir }]
    } else {
        Seq::empty()
    };
    (Walker { pet_x: x as i32, pet_y: y as i32, ..w }, emits)
}

/// A tick climbing the edge of window `hwnd`: the walker and the states shown.
pub open spec fn spec_climb_window(
    w: Walker,
    i: WalkInput,
    hwnd: isize,
    edge: Edge,
    ws: Seq<WinRect>,
) -> (Walker, Seq<PetState>) {
    match first_with_hwnd(ws, hwnd) {
        Some(win) => {
            let y = w.pet_y - CLIMB_SPEED_PX_PER_TICK;
            let x = match edge {
                Edge::Left => win.left - trunc_div(i.walk_w(), 2),
                Edge::Right => win.right - trunc_div(i.walk_w(), 2),
                Edge::Top => w.pet_x as int,
            };
            let target_top_y = win.top - i.foot() - FLOOR_GAP_PX;
            if y <= target_top_y {
                let dir = match edge {
                    Edge::Right => Direction::Left,
                    _ => Direction::Right,
                };
                let turn_x = match edge {
                    Edge::Left => win.left as int,
                    Edge::Right => win.right - i.walk_w(),
                    Edge::Top => x,
                };
                (
                    Walker {
                        pet_x: x as i32,
                        pet_y: target_top_y as i32,
                        corner_turn_target_x: turn_x as i32,
                        corner_turn_remaining: CORNER_TURN_TICKS,
                        ..w
                    },
                    seq![PetState::Walking { dir }],
                )
            } else {
                (Walker { pet_x: x as i32, pet_y: y as i32, ..w }, Seq::empty())
            }
        },
        None => (w, seq![PetState::Walking { dir: Direction::Right }]),
    }
}

/// A tick of gravity.
pub open spec fn spec_gravity(w: Walker, i: WalkInput, ws: Seq<WinRect>) -> Walker {
    let center = w.pet_x + trunc_div(i.walk_w(), 2);
    let target = floor_below(ws, center, w.pet_y as int, i.foot(), screen_floor(i));
    Walker { pet_y: fall_toward(w.pet_y as int, target) as i32, ..w }
}

/// The walker after a tick, once the window is placed where it wants it.
pub open spec fn placed(w: Walker) -> Walker {
    Walker { last_set_x: w.pet_x, last_set_y: w.pet_y, ..w }
}

/// A whole tick of the walker: the walker after it, the states shown in
/// order, and where the window is moved.
pub open spec fn spec_tick(w: Walker, i: WalkInput, ws: Seq<WinRect>) -> (
    Walker,
    Seq<PetState>,
    Option<(i32, i32)>,
) {
    let p = w.spec_prepare(i);
    if p.settling(i.now_ms) {
        (Walker { last_set_x: i.actual_x, last_set_y: i.actual_y, ..p }, Seq::empty(), None)
    } else if p.corner_turn_remaining > 0 {
        let c = p.spec_corner_step();
        (placed(c), Seq::empty(), i.position_for(c))
    } else {
        match i.cur {
            PetState::Walking { dir } => {
                let (a, emits, gravity) = spec_walking(p, i, dir, ws);
                let b = if gravity {
                    spec_gravity(a, i, ws)
                } else {
                    a
                };
                (placed(b), emits, i.position_for(b))
            },
            PetState::Climbing { hwnd, edge, .. } => {
                let (a, emits) = if hwnd == 0 {
                    spec_climb_screen(p, i, edge)
                } else {
                    spec_climb_window(p, i, hwnd, edge, ws)
                };
                (placed(a), emits, i.position_for(a))
            },
            _ => {
                let b = spec_gravity(p, i, ws);
                (placed(b), Seq::empty(), i.position_for(b))
            },
        }
    }
}

/// `s[k..]` without its first element is `s[k + 1..]`.
proof fn lemma_subrange_step<T>(s: Seq<T>, k: int)
    requires
        0 <= k < s.len(),
    ensures
        s.subrange(k, s.len() as int).drop_first() == s.subrange(k + 1, s.len() as int),
        s.subrange(k, s.len() as int)[0] == s[k],
        s.subrange(k, s.len() as int).len() > 0,
{
    assert(s.subrange(k, s.len() as int).drop_first() =~= s.subrange(k + 1, s.len() as int));
}

/// Rust's division by a positive divisor lies between 0 and the dividend.
proof fn lemma_trunc_div_bounds(a: int, b: int)
    requires
        b >= 1,
    ensures
        a >= 0 ==> 0 <= trunc_div(a, b) <= a,
        a < 0 ==> a <= trunc_div(a, b) <= 0,
{
    if a >= 0 {
        assert(a / b <= a) by (nonlinear_arith)
            requires
                a >= 0,
                b >= 1,
        ;
        assert(a / b >= 0) by (nonlinear_arith)
            requires
                a >= 0,
                b >= 1,
        ;
    } else {
        let n = -a;
        assert(n / b <= n) by (nonlinear_arith)
            requires
                n >= 0,
                b >= 1,
        ;
        assert(n / b >= 0) by (nonlinear_arith)
            requires
                n >= 0,
                b >= 1,
        ;
    }
}

/// Rust's division of a non-negative dividend is the mathematical one.
proof fn lemma_trunc_div_nonneg(a: int, b: int)
    requires
        a >= 0,
        b >= 1,
    ensures
        trunc_div(a, b) == a / b,
        0 <= a / b <= a,
{
    lemma_trunc_div_bounds(a, b);
}

/// What `first_grab` finds is a window of `ws`.
proof fn lemma_first_grab_in(ws: Seq<WinRect>, dir: Direction, x: int, y: int, walk_w: int, walk_h: int, grab: int)
    ensures
        first_grab(ws, dir, x, y, walk_w, walk_h, grab) matches Some(w) ==> ws.contains(w),
    decreases ws.len(),
{
    if ws.len() > 0 && !grabs(ws[0], dir, x, y, walk_w, walk_h, grab) {
        lemma_first_grab_in(ws.drop_first(), dir, x, y, walk_w, walk_h, grab);
        if let Some(w) = first_grab(ws.drop_first(), dir, x, y, walk_w, walk_h, grab) {
            let k = choose|k: int| 0 <= k < ws.drop_first().len() && ws.drop_first()[k] == w;
            assert(ws[k + 1] == w);
        }
    } else if ws.len() > 0 {
        assert(ws[0] == ws[0]);
    }
}

/// What `first_with_hwnd` finds is a window of `ws` with that handle.
proof fn lemma_first_with_hwnd_in(ws: Seq<WinRect>, hwnd: isize)
    ensures
        first_with_hwnd(ws, hwnd) matches Some(w) ==> ws.contains(w) && w.hwnd == hwnd,
    decreases ws.len(),
{
    if ws.len() > 0 && ws[0].hwnd != hwnd {
        lemma_first_with_hwnd_in(ws.drop_first(), hwnd);
        if let Some(w) = first_with_hwnd(ws.drop_first(), hwnd) {
            let k = choose|k: int| 0 <= k < ws.drop_first().len() && ws.drop_first()[k] == w;
            assert(ws[k + 1] == w);
        }
    } else if ws.len() > 0 {
        assert(ws[0] == ws[0]);
    }
}

/// The first window of `ws` whose edge the pet grabs.
fn find_grab(ws: &Vec<WinRect>, dir: Direction, x: i32, y: i32, walk_w: i32, walk_h: i32, grab: i32) -> (r: Option<WinRect>)
    requires
        windows_ok(ws@),
        range_ok(x as int),
        range_ok(y as int),
        0 <= walk_w <= COORD_LIMIT,
        0 <= walk_h <= COORD_LIMIT,
        0 <= grab <= COORD_LIMIT,
    ensures
        r == first_grab(ws@, dir, x as int, y as int, walk_w as int, walk_h as int, grab as int),
{
    let n = ws.len();
    let mut k: usize = 0;
    assert(ws@.subrange(0, n as int) =~= ws@);
    while k < n
        invariant
            n == ws@.len(),
            k <= n,
            windows_ok(ws@),
            range_ok(x as int),
            range_ok(y as int),
            0 <= walk_w <= COORD_LIMIT,
            0 <= walk_h <= COORD_LIMIT,
            0 <= grab <= COORD_LIMIT,
            first_grab(ws@, dir, x as int, y as int, walk_w as int, walk_h as int, grab as int)
                == first_grab(
                ws@.subrange(k as int, n as int),
                dir,
                x as int,
                y as int,
                walk_w as int,
                walk_h as int,
                grab as int,
            ),
        decreases n - k,
    {
        proof {
            lemma_subrange_step(ws@, k as int);
        }
        let w = ws[k];
        assert(window_ok(w));
        let overlap = y + walk_h > w.top + 30 && y + 20 < w.bottom;
        let at_edge = match dir {
            Direction::Right => x + walk_w >= w.left && x + walk_w <= w.left + grab,
            Direction::Left => x <= w.right && x >= w.right - grab,
        };
        if overlap && at_edge {
            return Some(w);
        }
        k = k + 1;
    }
    assert(ws@.subrange(n as int, n as int).len() == 0);
    None
}

/// The first window of `ws` with handle `hwnd`.
fn find_window(ws: &Vec<WinRect>, hwnd: isize) -> (r: Option<WinRect>)
    ensures
        r == first_with_hwnd(ws@, hwnd),
{
    let n = ws.len();
    let mut k: usize = 0;
    assert(ws@.subrange(0, n as int) =~= ws@);
    while k < n
        invariant
            n == ws@.len(),
            k <= n,
            first_with_hwnd(ws@, hwnd) == first_with_hwnd(ws@.subrange(k as int, n as int), hwnd),
        decreases n - k,
    {
        proof {
            lemma_subrange_step(ws@, k as int);
        }
        if ws[k].hwnd == hwnd {
            return Some(ws[k]);
        }
        k = k + 1;
    }
    assert(ws@.subrange(n as int, n as int).len() == 0);
    None
}

/// `floor_below` never goes above `target` and never below the lowest
/// window top under consideration.
proof fn lemma_floor_below_bounds(ws: Seq<WinRect>, center: int, y: int, foot: int, target: int)
    requires
        windows_ok(ws),
        0 <= foot <= COORD_LIMIT,
        -3 * COORD_LIMIT <= target <= 3 * COORD_LIMIT,
    ensures
        -3 * COORD_LIMIT <= floor_below(ws, center, y, foot, target) <= target,
    decreases ws.len(),
{
    if ws.len() > 0 {
        let w = ws[0];
        assert(window_ok(w));
        let candidate = w.top - foot - FLOOR_GAP_PX;
        let next = if center >= w.left + 30 && center <= w.right - 30 && candidate < target && y
            <= candidate + 8 {
            candidate
        } else {
            target
        };
        assert(windows_ok(ws.drop_first())) by {
            assert forall|k: int| 0 <= k < ws.drop_first().len() implies window_ok(
                #[trigger] ws.drop_first()[k],
            ) by {
                assert(ws.drop_first()[k] == ws[k + 1]);
            }
        }
        lemma_floor_below_bounds(ws.drop_first(), center, y, foot, next);
    }
}

/// The floor below the pet, starting from `target`.
fn find_floor(ws: &Vec<WinRect>, center: i32, y: i32, foot: i32, target: i32) -> (r: i32)
    requires
        windows_ok(ws@),
        -RANGE_LIMIT - COORD_LIMIT <= center <= RANGE_LIMIT + COORD_LIMIT,
        range_ok(y as int),
        0 <= foot <= COORD_LIMIT,
        -3 * COORD_LIMIT <= target <= 3 * COORD_LIMIT,
    ensures
        r == floor_below(ws@, center as int, y as int, foot as int, target as int),
{
    let n = ws.len();
    let mut k: usize = 0;
    assert(ws@.subrange(0, n as int) =~= ws@);
    let mut t = target;
    while k < n
        invariant
            n == ws@.len(),
            k <= n,
            windows_ok(ws@),
            -RANGE_LIMIT - COORD_LIMIT <= center <= RANGE_LIMIT + COORD_LIMIT,
            range_ok(y as int),
            0 <= foot <= COORD_LIMIT,
            -3 * COORD_LIMIT <= t <= 3 * COORD_LIMIT,
            floor_below(ws@, center as int, y as int, foot as int, target as int) == floor_below(
                ws@.subrange(k as int, n as int),
                center as int,
                y as int,
                foot as int,
                t as int,
            ),
        decreases n - k,
    {
        proof {
            lemma_subrange_step(ws@, k as int);
        }
        let w = ws[k];
        assert(window_ok(w));
        let pad: i32 = 30;
        if center >= w.left + pad && center <= w.right - pad {
            let candidate = w.top - foot - FLOOR_GAP_PX;
            if candidate < t && y <= candidate + 8 {
                t = candidate;
            }
        }
        k = k + 1;
    }
    assert(ws@.subrange(n as int, n as int).len() == 0);
    t
}

impl Walker {
    /// A walker that has not seen the window yet.
    pub fn new() -> (w: Walker)
        ensures
            w == (Walker {
                pet_x: 0,
                pet_y: 0,
                last_set_x: 0,
                last_set_y: 0,
                last_external_change_ms: None,
                corner_turn_remaining: 0,
                corner_turn_target_x: 0,
                initialized: false,
            }),
            w.spec_ready(),
    {
        Walker {
            pet_x: 0,
            pet_y: 0,
            last_set_x: 0,
            last_set_y: 0,
            last_external_change_ms: None,
            corner_turn_remaining: 0,
            corner_turn_target_x: 0,
            initialized: false,
        }
    }

    /// The walker can take a tick: its coordinates are in range and leave
    /// room for one more climbing step.
    pub open spec fn spec_ready(self) -> bool {
        &&& self.in_range()
        &&& self.pet_y >= -RANGE_LIMIT + CLIMB_SPEED_PX_PER_TICK
    }

    /// Whether the walker can take a tick.
    pub fn ready(&self) -> (r: bool)
        ensures
            r == self.spec_ready(),
    {
        -RANGE_LIMIT <= self.pet_x && self.pet_x <= RANGE_LIMIT && -RANGE_LIMIT
            + CLIMB_SPEED_PX_PER_TICK <= self.pet_y && self.pet_y <= RANGE_LIMIT && -RANGE_LIMIT
            <= self.last_set_x && self.last_set_x <= RANGE_LIMIT && -RANGE_LIMIT
            <= self.last_set_y && self.last_set_y <= RANGE_LIMIT && -RANGE_LIMIT
            <= self.corner_turn_target_x && self.corner_turn_target_x <= RANGE_LIMIT && 0
            <= self.corner_turn_remaining && self.corner_turn_remaining <= CORNER_TURN_TICKS
    }

    /// While the pet eats, the walker lets go of the window: it will take
    /// the window's position anew afterwards. Returns whether the pet eats.
    pub fn pause_if_eating(&mut self, cur: PetState) -> (eating: bool)
        ensures
            eating == (cur == PetState::Eating),
            eating ==> *final(self) == (Walker { initialized: false, ..*old(self) }),
            !eating ==> *final(self) == *old(self),
    {
        if cur == PetState::Eating {
            self.initialized = false;
            true
        } else {
            false
        }
    }

    /// The point whose monitor the walker works on: the middle of the
    /// window, where the walker wants it once it has taken its position.
    pub fn probe_point(&self, actual_x: i32, actual_y: i32, width: u32, height: u32) -> (p: (i32, i32))
        requires
            self.in_range(),
            coord_ok(actual_x as int),
            coord_ok(actual_y as int),
            width <= COORD_LIMIT,
            height <= COORD_LIMIT,
        ensures
            self.initialized ==> p.0 == self.pet_x + width / 2 && p.1 == self.pet_y + height / 2,
            !self.initialized ==> p.0 == actual_x + width / 2 && p.1 == actual_y + height / 2,
    {
        let half_w = (width / 2) as i32;
        let half_h = (height / 2) as i32;
        if self.initialized {
            (self.pet_x + half_w, self.pet_y + half_h)
        } else {
            (actual_x + half_w, actual_y + half_h)
        }
    }

    fn prepare(&mut self, i: &WalkInput)
        requires
            old(self).spec_ready(),
            input_ok(*i),
        ensures
            *final(self) == old(self).spec_prepare(*i),
            final(self).spec_ready(),
    {
        if !self.initialized {
            self.pet_x = i.actual_x;
            self.pet_y = i.actual_y;
            self.last_set_x = i.actual_x;
            self.last_set_y = i.actual_y;
            self.initialized = true;
        }
        let dx = if i.actual_x >= self.last_set_x {
            i.actual_x - self.last_set_x
        } else {
            self.last_set_x - i.actual_x
        };
        let dy = if i.actual_y >= self.last_set_y {
            i.actual_y - self.last_set_y
        } else {
            self.last_set_y - i.actual_y
        };
        if dx > MOVE_TOLERANCE_PX || dy > MOVE_TOLERANCE_PX {
            self.pet_x = i.actual_x;
            self.pet_y = i.actual_y;
            self.last_external_change_ms = Some(i.now_ms);
            self.corner_turn_remaining = 0;
        }
    }

    fn is_settling(&self, now_ms: u64) -> (r: bool)
        ensures
            r == self.settling(now_ms),
    {
        match self.last_external_change_ms {
            Some(t) => {
                let since = if now_ms >= t {
                    now_ms - t
                } else {
                    0
                };
                since < SETTLE_MS
            },
            None => false,
        }
    }

    fn walking(&mut self, i: &WalkInput, dir: Direction, ws: &Vec<WinRect>, emits: &mut Vec<PetState>) -> (gravity: bool)
        requires
            old(self).spec_ready(),
            input_ok(*i),
            windows_ok(ws@),
            old(emits)@.len() == 0,
        ensures
            (*final(self), final(emits)@, gravity) == spec_walking(*old(self), *i, dir, ws@),
            final(self).spec_ready(),
    {
        let walk_w = i.width as i32;
        let walk_h = i.height as i32;
        let step: i32 = match dir {
            Direction::Left => -WALK_SPEED_PX_PER_TICK,
            Direction::Right => WALK_SPEED_PX_PER_TICK,
        };
        let mut x = self.pet_x + step;
        proof {
            lemma_trunc_div_nonneg(walk_w * 75, 200);
            lemma_trunc_div_nonneg(walk_w * 125, 200);
            lemma_trunc_div_nonneg(WALL_GRAB_DIST * walk_w, 200);
            lemma_trunc_div_nonneg(walk_w as int, 2);
        }
        let min_x = i.work_left - walk_w * 75 / 200;
        let max_x = i.work_left + (i.work_right - i.work_left) - walk_w * 125 / 200;
        let mut gravity = true;
        if x <= min_x {
            x = min_x;
            emits.push(PetState::Climbing { hwnd: 0, edge: Edge::Left, offset: 0 });
            gravity = false;
        } else if x >= max_x {
            x = max_x;
            emits.push(PetState::Climbing { hwnd: 0, edge: Edge::Right, offset: 0 });
            gravity = false;
        }
        let grab = WALL_GRAB_DIST * walk_w / 200;
        match find_grab(ws, dir, x, self.pet_y, walk_w, walk_h, grab) {
            Some(win) => {
                assert(window_ok(win)) by {
                    lemma_first_grab_in(ws@, dir, x as int, self.pet_y as int, walk_w as int, walk_h as int, grab as int);
                }
                match dir {
                    Direction::Right => {
                        x = win.left - walk_w / 2;
                        emits.push(PetState::Climbing { hwnd: win.hwnd, edge: Edge::Left, offset: 0 });
                    },
                    Direction::Left => {
                        x = win.right - walk_w / 2;
                        emits.push(PetState::Climbing { hwnd: win.hwnd, edge: Edge::Right, offset: 0 });
                    },
                }
                gravity = false;
            },
            None => {},
        }
        self.pet_x = x;
        gravity
    }

    fn climb_screen(&mut self, i: &WalkInput, edge: Edge, emits: &mut Vec<PetState>)
        requires
            old(self).spec_ready(),
            input_ok(*i),
            old(emits)@.len() == 0,
        ensures
            (*final(self), final(emits)@) == spec_climb_screen(*old(self), *i, edge),
            final(self).in_range(),
            final(self).spec_ready() || (final(emits)@.len() == 1 && final(emits)@[0] is Walking),
    {
        let walk_w = i.width as i32;
        let work_w = i.work_right - i.work_left;
        let work_h = i.work_bottom - i.work_top;
        self.pet_y = self.pet_y - CLIMB_SPEED_PX_PER_TICK;
        match edge {
            Edge::Left => self.pet_x = i.work_left,
            Edge::Right => self.pet_x = i.work_left + work_w - walk_w,
            Edge::Top => {},
        }
        proof {
            lemma_trunc_div_bounds(work_h * 2, 10);
        }
        let stop_y = i.work_top + work_h * 2 / 10;
        if self.pet_y <= stop_y {
            let dir = match edge {
                Edge::Left => Direction::Right,
                Edge::Right => Direction::Left,
                Edge::Top => Direction::Right,
            };
            emits.push(PetState::Walking { dir });
        }
    }

    fn climb_window(&mut self, i: &WalkInput, hwnd: isize, edge: Edge, ws: &Vec<WinRect>, emits: &mut Vec<PetState>)
        requires
            old(self).spec_ready(),
            input_ok(*i),
            windows_ok(ws@),
            old(emits)@.len() == 0,
        ensures
            (*final(self), final(emits)@) == spec_climb_window(*old(self), *i, hwnd, edge, ws@),
            final(self).spec_ready(),
    {
        let walk_w = i.width as i32;
        let walk_h = i.height as i32;
        match find_window(ws, hwnd) {
            Some(win) => {
                assert(window_ok(win)) by {
                    lemma_first_with_hwnd_in(ws@, hwnd);
                }
                proof {
                    lemma_trunc_div_nonneg(walk_w as int, 2);
                    lemma_trunc_div_nonneg(FOOT_NUMERATOR * walk_h, FOOT_DENOMINATOR as int);
                }
                self.pet_y = self.pet_y - CLIMB_SPEED_PX_PER_TICK;
                match edge {
                    Edge::Left => self.pet_x = win.left - walk_w / 2,
                    Edge::Right => self.pet_x = win.right - walk_w / 2,
                    Edge::Top => {},
                }
                let foot = ((walk_h as i64) * FOOT_NUMERATOR / FOOT_DENOMINATOR) as i32;
                let target_top_y = win.top - foot - FLOOR_GAP_PX;
                if self.pet_y <= target_top_y {
                    self.pet_y = target_top_y;
                    let dir = match edge {
                        Edge::Right => Direction::Left,
                        _ => Direction::Right,
                    };
                    self.corner_turn_target_x = match edge {
                        Edge::Left => win.left,
                        Edge::Right => win.right - walk_w,
                        Edge::Top => self.pet_x,
                    };
                    self.corner_turn_remaining = CORNER_TURN_TICKS;
                    emits.push(PetState::Walking { dir });
                }
            },
            None => {
                emits.push(PetState::Walking { dir: Direction::Right });
            },
        }
    }

    fn gravity(&mut self, i: &WalkInput, ws: &Vec<WinRect>)
        requires
            old(self).spec_ready(),
            input_ok(*i),
            windows_ok(ws@),
        ensures
            *final(self) == spec_gravity(*old(self), *i, ws@),
            final(self).spec_ready(),
    {
        let walk_w = i.width as i32;
        let walk_h = i.height as i32;
        proof {
            lemma_trunc_div_nonneg(walk_w as int, 2);
            lemma_trunc_div_nonneg(FOOT_NUMERATOR * walk_h, FOOT_DENOMINATOR as int);
        }
        let foot = ((walk_h as i64) * FOOT_NUMERATOR / FOOT_DENOMINATOR) as i32;
        let center = self.pet_x + walk_w / 2;
        let work_h = i.work_bottom - i.work_top;
        let floor = i.work_top + work_h - foot - FLOOR_GAP_PX;
        let target = find_floor(ws, center, self.pet_y, foot, floor);
        proof {
            lemma_floor_below_bounds(ws@, center as int, self.pet_y as int, foot as int, floor as int);
        }
        if target < self.pet_y {
            self.pet_y = target;
        } else if target > self.pet_y {
            self.pet_y = if self.pet_y + FALL_SPEED_PX_PER_TICK < target {
                self.pet_y + FALL_SPEED_PX_PER_TICK
            } else {
                target
            };
        }
    }

    /// One tick of the walker, about every 16 ms while the pet does not eat:
    /// `i` is what the desktop reports and `ws` the windows the pet can use.
    /// Returns the states to show, in order (each shown only where it
    /// changes the pet's state), and where to move the window.
    pub fn tick(&mut self, i: &WalkInput, ws: &Vec<WinRect>) -> (out: WalkOutcome)
        requires
            old(self).spec_ready(),
            input_ok(*i),
            windows_ok(ws@),
        ensures
            (*final(self), out.emits@, out.position) == spec_tick(*old(self), *i, ws@),
            final(self).in_range(),
            final(self).spec_ready() || (i.cur matches PetState::Climbing { hwnd, .. } && hwnd == 0
                && out.emits@ =~= seq![PetState::Walking { dir: out.emits@[0]->dir }]),
    {
        let mut emits: Vec<PetState> = Vec::new();
        self.prepare(i);
        if self.is_settling(i.now_ms) {
            self.last_set_x = i.actual_x;
            self.last_set_y = i.actual_y;
            return WalkOutcome { emits, position: None };
        }
        if self.corner_turn_remaining > 0 {
            self.corner_step();
            let position = self.position_against(i);
            self.last_set_x = self.pet_x;
            self.last_set_y = self.pet_y;
            return WalkOutcome { emits, position };
        }
        match i.cur {
            PetState::Walking { dir } => {
                let gravity = self.walking(i, dir, ws, &mut emits);
                if gravity {
                    self.gravity(i, ws);
                }
            },
            PetState::Climbing { hwnd, edge, .. } => {
                if hwnd == 0 {
                    self.climb_screen(i, edge, &mut emits);
                } else {
                    self.climb_window(i, hwnd, edge, ws, &mut emits);
                }
            },
            _ => {
                self.gravity(i, ws);
            },
        }
        let position = self.position_against(i);
        self.last_set_x = self.pet_x;
        self.last_set_y = self.pet_y;
        WalkOutcome { emits, position }
    }

    fn position_against(&self, i: &WalkInput) -> (p: Option<(i32, i32)>)
        ensures
            p == i.position_for(*self),
    {
        if self.pet_x != i.actual_x || self.pet_y != i.actual_y {
            Some((self.pet_x, self.pet_y))
        } else {
            None
        }
    }

    fn corner_step(&mut self)
        requires
            old(self).spec_ready(),
            old(self).corner_turn_remaining > 0,
        ensures
            *final(self) == old(self).spec_corner_step(),
            final(self).spec_ready(),
    {
        let delta = self.corner_turn_target_x - self.pet_x;
        proof {
            lemma_trunc_div_bounds(delta as int, self.corner_turn_remaining as int);
        }
        let step = delta / self.corner_turn_remaining;
        self.pet_x = self.pet_x + step;
        self.corner_turn_remaining = self.corner_turn_remaining - 1;
        if self.corner_turn_remaining == 0 {
            self.pet_x = self.corner_turn_target_x;
        }
    }
}

/// The taskbar height assumed where the work area reaches (nearly) the
/// bottom of the monitor.
pub const ASSUMED_TASKBAR_PX: i32 = 48;

/// The work area of a monitor, as (left, top, right, bottom), from the work
/// rectangle the desktop reports and the bottom of the whole monitor: where
/// the work area reaches within 30 pixels of the monitor's bottom (a hidden
/// taskbar), room for a taskbar is kept anyway.
pub fn work_area_from_monitor(work: (i32, i32, i32, i32), monitor_bottom: i32) -> (r: (i32, i32, i32, i32))
    requires
        i32::MIN <= monitor_bottom - work.3 <= i32::MAX,
        monitor_bottom - ASSUMED_TASKBAR_PX >= i32::MIN,
    ensures
        r.0 == work.0,
        r.1 == work.1,
        r.2 == work.2,
        r.3 == (if monitor_bottom - work.3 < 30 {
            monitor_bottom - ASSUMED_TASKBAR_PX
        } else {
            work.3 as int
        }),
{
    let (left, top, right, mut bottom) = work;
    if monitor_bottom - bottom < 30 {
        bottom = monitor_bottom - ASSUMED_TASKBAR_PX;
    }
    (left, top, right, bottom)
}

/// Least wait, in seconds, between two looks of the automatic cycle.
pub const AUTO_WAIT_MIN_SECS: u64 = 25;
/// Bound (excluded) of that wait.
pub const AUTO_WAIT_MAX_SECS: u64 = 55;

/// The state the automatic cycle starts, from its draws: `pick` out of 10
/// (below 4 the pet walks), the side `go_left` it walks to, and the working
/// state `pool_pick` drawn from the pool (none for an empty pool).
pub open spec fn cycle_choice(pick: u64, go_left: bool, pool_pick: Option<PetState>) -> Option<PetState> {
    if pick < 4 {
        Some(PetState::Walking { dir: if go_left { Direction::Left } else { Direction::Right } })
    } else {
        pool_pick
    }
}

/// How long, in seconds, to wait before the automatic cycle looks again.
pub fn auto_cycle_wait(rng: &mut SmallRng) -> (secs: u64)
    ensures
        AUTO_WAIT_MIN_SECS <= secs < AUTO_WAIT_MAX_SECS,
{
    draw_in_range(rng, AUTO_WAIT_MIN_SECS, AUTO_WAIT_MAX_SECS)
}

/// The state the automatic cycle starts for its draws: a walk to the left
/// or to the right for a `pick` below 4, the drawn working state `pool_pick`
/// otherwise.
pub fn cycle_pick(pick: u64, go_left: bool, pool_pick: Option<PetState>) -> (r: Option<PetState>)
    ensures
        r == cycle_choice(pick, go_left, pool_pick),
{
    if pick < 4 {
        let dir = if go_left {
            Direction::Left
        } else {
            Direction::Right
        };
        Some(PetState::Walking { dir })
    } else {
        pool_pick
    }
}

/// The state that the automatic cycle starts at `now_ms`, if any: none while
/// a remote client drives the pet (until `external_until_ms`) or the pet is
/// not idle. Otherwise the cycle draws from `rng` a `pick` uniformly in
/// `0..10`; for a pick below 4 it draws the side with `draw_ratio(rng, 1, 2)`
/// (left for `true`), for any other pick a state of `working_states()` with
/// `choose_state`, and `cycle_pick` decides from the draws. So the pet walks
/// four times in ten, to either side alike, and works otherwise.
pub fn auto_cycle_start(now_ms: u64, external_until_ms: u64, current: PetState, rng: &mut SmallRng) -> (r: Option<PetState>)
    ensures
        now_ms < external_until_ms || current != PetState::IdleLiving ==> r is None,
        r matches Some(s) ==> (s is Walking || working_pool().contains(s)),
        !(now_ms < external_until_ms) && current == PetState::IdleLiving ==> exists|
            pick: u64,
            go_left: bool,
            worker: PetState,
        |
            pick < 10 && working_pool().contains(worker) && r == cycle_choice(
                pick,
                go_left,
                Some(worker),
            ),
{
    if externally_driven(now_ms, external_until_ms) {
        return None;
    }
    if current != PetState::IdleLiving {
        return None;
    }
    let pick = draw_in_range(rng, 0, 10);
    let (go_left, pool_pick) = if pick < 4 {
        (draw_ratio(rng, 1, 2), None)
    } else {
        (false, choose_state(rng, working_states()))
    };
    let r = cycle_pick(pick, go_left, pool_pick);
    proof {
        assert(working_pool()[0] == PetState::WorkingTyping);
        let worker = match pool_pick {
            Some(p) => p,
            None => PetState::WorkingTyping,
        };
        assert(working_pool().contains(worker));
        assert(r == cycle_choice(pick, go_left, Some(worker)));
    }
    r
}

/// How long, in seconds, the automatic cycle holds the state it started:
/// 6 to 11 for a walk, 8 to 15 otherwise.
pub fn auto_cycle_hold(started: PetState, rng: &mut SmallRng) -> (secs: u64)
    ensures
        started is Walking ==> 6 <= secs < 12,
        !(started is Walking) ==> 8 <= secs < 16,
{
    match started {
        PetState::Walking { .. } => draw_in_range(rng, 6, 12),
        _ => draw_in_range(rng, 8, 16),
    }
}

/// Whether the automatic cycle, at the end of its hold, sends the pet back
/// to idle: only if no remote client drives the pet and the pet still shows
/// the state the cycle started.
pub fn auto_cycle_should_reset(now_ms: u64, external_until_ms: u64, still: PetState, started: PetState) -> (r: bool)
    ensures
        r == (!(now_ms < external_until_ms) && still == started),
{
    !externally_driven(now_ms, external_until_ms) && still == started
}

/// When someone else moved the window since the walker last placed it, the
/// tick leaves the window where it is and shows nothing: the walker yields
/// to a drag.
pub proof fn lemma_outside_move_is_respected(w: Walker, i: WalkInput, ws: Seq<WinRect>)
    requires
        w.initialized,
        abs_diff(i.actual_x as int, w.last_set_x as int) > MOVE_TOLERANCE_PX || abs_diff(
            i.actual_y as int,
            w.last_set_y as int,
        ) > MOVE_TOLERANCE_PX,
    ensures
        spec_tick(w, i, ws).1 == Seq::<PetState>::empty(),
        spec_tick(w, i, ws).2 is None,
        spec_tick(w, i, ws).0.pet_x == i.actual_x,
        spec_tick(w, i, ws).0.pet_y == i.actual_y,
        spec_tick(w, i, ws).0.corner_turn_remaining == 0,
        spec_tick(w, i, ws).0.last_external_change_ms == Some(i.now_ms),
{
}

/// A walking step that reaches neither a screen edge nor a window edge moves
/// the pet `WALK_SPEED_PX_PER_TICK` pixels in its direction and leaves it to
/// gravity; one that reaches a screen edge stops at that edge and starts the
/// climb.
pub proof fn lemma_walking_step(w: Walker, i: WalkInput, dir: Direction, ws: Seq<WinRect>)
    requires
        w.in_range(),
        input_ok(i),
    ensures
        ({
            let step: int = match dir {
                Direction::Left => -(WALK_SPEED_PX_PER_TICK as int),
                Direction::Right => WALK_SPEED_PX_PER_TICK as int,
            };
            let x0 = w.pet_x + step;
            let min_x = i.work_left - trunc_div(i.walk_w() * 75, 200);
            let max_x = i.work_left + i.work_w() - trunc_div(i.walk_w() * 125, 200);
            let grab = trunc_div(WALL_GRAB_DIST * i.walk_w(), 200);
            let (a, emits, gravity) = spec_walking(w, i, dir, ws);
            &&& a.pet_y == w.pet_y
            &&& (min_x < x0 < max_x && first_grab(ws, dir, x0, w.pet_y as int, i.walk_w(), i.walk_h(), grab) is None)
                ==> a.pet_x == x0 && gravity && emits.len() == 0
            &&& (x0 <= min_x && first_grab(ws, dir, min_x, w.pet_y as int, i.walk_w(), i.walk_h(), grab) is None)
                ==> a.pet_x == min_x && !gravity && emits == seq![PetState::Climbing { hwnd: 0, edge: Edge::Left, offset: 0 }]
            &&& (min_x < x0 && x0 >= max_x && first_grab(ws, dir, max_x, w.pet_y as int, i.walk_w(), i.walk_h(), grab) is None)
                ==> a.pet_x == max_x && !gravity && emits == seq![PetState::Climbing { hwnd: 0, edge: Edge::Right, offset: 0 }]
        }),
{
}

/// Gravity lifts the pet onto a higher floor at once and lowers it onto a
/// lower one at most `FALL_SPEED_PX_PER_TICK` pixels a tick, never past it.
pub proof fn lemma_fall_toward(y: int, target: int)
    ensures
        target <= y ==> fall_toward(y, target) == target,
        target > y ==> y < fall_toward(y, target) <= target,
        target > y ==> fall_toward(y, target) <= y + FALL_SPEED_PX_PER_TICK,
{
}

/// The floor found below the pet is never lower than where it started, the
/// screen's floor; a window top counts only under the pet's middle and not
/// more than 8 pixels above the pet.
pub proof fn lemma_floor_never_below_start(ws: Seq<WinRect>, center: int, y: int, foot: int, target: int)
    ensures
        floor_below(ws, center, y, foot, target) <= target,
        floor_below(ws, center, y, foot, target) == target || y <= floor_below(ws, center, y, foot, target) + 8,
    decreases ws.len(),
{
    if ws.len() > 0 {
        let w = ws[0];
        let candidate = w.top - foot - FLOOR_GAP_PX;
        let next = if center >= w.left + 30 && center <= w.right - 30 && candidate < target && y
            <= candidate + 8 {
            candidate
        } else {
            target
        };
        lemma_floor_never_below_start(ws.drop_first(), center, y, foot, next);
    }
}

/// A step of a turn round a corner takes one tick off the turn, moves the
/// pet toward the end of the turn without passing it, and lands on it at
/// the last step.
pub proof fn lemma_corner_step(w: Walker)
    requires
        w.corner_turn_remaining > 0,
        w.in_range(),
    ensures
        w.spec_corner_step().corner_turn_remaining == w.corner_turn_remaining - 1,
        w.corner_turn_remaining == 1 ==> w.spec_corner_step().pet_x == w.corner_turn_target_x,
        w.pet_x <= w.corner_turn_target_x ==> w.pet_x <= w.spec_corner_step().pet_x
            <= w.corner_turn_target_x,
        w.pet_x >= w.corner_turn_target_x ==> w.corner_turn_target_x <= w.spec_corner_step().pet_x
            <= w.pet_x,
        w.spec_corner_step().pet_y == w.pet_y,
{
    lemma_trunc_div_bounds(w.corner_turn_target_x - w.pet_x, w.corner_turn_remaining as int);
}

/// Climbing a screen edge goes up `CLIMB_SPEED_PX_PER_TICK` pixels a tick
/// against the edge, and at a fifth of the work area's height from its top
/// the pet turns to walk away from the edge.
pub proof fn lemma_climb_screen(w: Walker, i: WalkInput, edge: Edge)
    ensures
        spec_climb_screen(w, i, edge).0.pet_y == (w.pet_y - CLIMB_SPEED_PX_PER_TICK) as i32,
        edge == Edge::Left ==> spec_climb_screen(w, i, edge).0.pet_x == i.work_left,
        w.pet_y - CLIMB_SPEED_PX_PER_TICK <= i.work_top + trunc_div(i.work_h() * 2, 10) && edge
            == Edge::Left ==> spec_climb_screen(w, i, edge).1 == seq![PetState::Walking { dir: Direction::Right }],
        w.pet_y - CLIMB_SPEED_PX_PER_TICK <= i.work_top + trunc_div(i.work_h() * 2, 10) && edge
            == Edge::Right ==> spec_climb_screen(w, i, edge).1 == seq![PetState::Walking { dir: Direction::Left }],
        w.pet_y - CLIMB_SPEED_PX_PER_TICK > i.work_top + trunc_div(i.work_h() * 2, 10)
            ==> spec_climb_screen(w, i, edge).1.len() == 0,
{
}

/// A pet that climbs a window that is no longer there walks off to the right.
pub proof fn lemma_lost_window(w: Walker, i: WalkInput, hwnd: isize, edge: Edge, ws: Seq<WinRect>)
    requires
        first_with_hwnd(ws, hwnd) is None,
    ensures
        spec_climb_window(w, i, hwnd, edge, ws) == (w, seq![PetState::Walking { dir: Direction::Right }]),
{
}

/// A window is a floor for a pet whose middle is at `center` only when the
/// middle lies over the window, at least 30 pixels in from either side.
pub open spec fn under_middle(w: WinRect, center: int) -> bool {
    w.left + 30 <= center && center <= w.right - 30
}

/// The floor that gravity moves toward is where it started (the screen's
/// floor), or the top of a window over which the pet's middle lies and that
/// is not more than 8 pixels above the pet; it is the highest of these; and
/// without a window under the pet's middle it is the start.
pub proof fn lemma_floor_is_under_the_middle(ws: Seq<WinRect>, center: int, y: int, foot: int, target: int)
    ensures
        ({
            let f = floor_below(ws, center, y, foot, target);
            &&& f == target || exists|k: int|
                0 <= k < ws.len() && under_middle(ws[k], center) && f == ws[k].top - foot - FLOOR_GAP_PX
                    && y <= f + 8
            &&& forall|k: int|
                0 <= k < ws.len() && under_middle(ws[k], center) && y <= ws[k].top - foot - FLOOR_GAP_PX + 8
                    ==> f <= #[trigger] ws[k].top - foot - FLOOR_GAP_PX
            &&& f <= target
        }),
        (forall|k: int| 0 <= k < ws.len() ==> !under_middle(#[trigger] ws[k], center)) ==> floor_below(
            ws,
            center,
            y,
            foot,
            target,
        ) == target,
    decreases ws.len(),
{
    if ws.len() > 0 {
        let w = ws[0];
        let candidate = w.top - foot - FLOOR_GAP_PX;
        let next = if center >= w.left + 30 && center <= w.right - 30 && candidate < target && y
            <= candidate + 8 {
            candidate
        } else {
            target
        };
        let rest = ws.drop_first();
        lemma_floor_is_under_the_middle(rest, center, y, foot, next);
        let f = floor_below(ws, center, y, foot, target);
        assert(f == floor_below(rest, center, y, foot, next));
        if f != target {
            if f == next {
                assert(0 < ws.len() && under_middle(ws[0], center) && f == ws[0].top - foot - FLOOR_GAP_PX);
            } else {
                let k = choose|k: int|
                    0 <= k < rest.len() && under_middle(rest[k], center) && f == rest[k].top - foot
                        - FLOOR_GAP_PX && y <= f + 8;
                assert(rest[k] == ws[k + 1]);
            }
        }
        assert forall|k: int|
            0 <= k < ws.len() && under_middle(ws[k], center) && y <= ws[k].top - foot - FLOOR_GAP_PX + 8
                implies f <= #[trigger] ws[k].top - foot - FLOOR_GAP_PX by {
            if k > 0 {
                assert(rest[k - 1] == ws[k]);
            }
        }
        if forall|k: int| 0 <= k < ws.len() ==> !under_middle(#[trigger] ws[k], center) {
            assert(!under_middle(ws[0], center));
            assert forall|k: int| 0 <= k < rest.len() implies !under_middle(#[trigger] rest[k], center) by {
                assert(rest[k] == ws[k + 1]);
            }
        }
    }
}

/// A tick of an idle pet that stands where the walker last put it, with no
/// window under its middle (`x + width / 2`): the pet keeps its column and
/// moves toward the screen's floor, the bottom of the work area less the
/// height of its feet (178/200 of its height) and a 10 pixel gap: up onto it
/// at once, down by at most 4 pixels.
pub proof fn lemma_idle_tick_falls_to_screen_floor(w: Walker, i: WalkInput, ws: Seq<WinRect>)
    requires
        w.in_range(),
        input_ok(i),
        w.initialized,
        w.corner_turn_remaining == 0,
        w.last_external_change_ms is None,
        i.actual_x == w.last_set_x,
        i.actual_y == w.last_set_y,
        i.cur == PetState::IdleLiving,
        forall|k: int| 0 <= k < ws.len() ==> !under_middle(#[trigger] ws[k], w.pet_x + i.width / 2),
    ensures
        ({
            let floor = i.work_bottom - 178 * (i.height as int) / 200 - 10;
            let r = spec_tick(w, i, ws).0;
            &&& r.pet_x == w.pet_x
            &&& r.pet_y == (if floor <= w.pet_y {
                floor
            } else if w.pet_y + 4 < floor {
                w.pet_y + 4
            } else {
                floor
            })
        }),
{
    lemma_trunc_div_nonneg(i.width as int, 2);
    let center = w.pet_x + trunc_div(i.walk_w(), 2);
    lemma_floor_is_under_the_middle(ws, center, w.pet_y as int, i.foot(), screen_floor(i));
}

/// At the top of a window edge the climb ends with a walk that points from
/// the pet toward the end of the turn round the corner, onto the window: to
/// the left from a right edge (the turn ends at `right - width`), to the
/// right from a left edge (the turn ends at `left`).
pub proof fn lemma_window_climb_turns_onto_top(w: Walker, i: WalkInput, hwnd: isize, edge: Edge, ws: Seq<WinRect>)
    requires
        w.in_range(),
        input_ok(i),
        windows_ok(ws),
        i.width > 0,
        edge != Edge::Top,
        first_with_hwnd(ws, hwnd) is Some,
        w.pet_y - CLIMB_SPEED_PX_PER_TICK <= first_with_hwnd(ws, hwnd)->0.top - foot_height(i.height as int)
            - FLOOR_GAP_PX,
    ensures
        ({
            let win = first_with_hwnd(ws, hwnd)->0;
            let (a, emits) = spec_climb_window(w, i, hwnd, edge, ws);
            &&& win.hwnd == hwnd
            &&& emits.len() == 1
            &&& emits[0] is Walking
            &&& (emits[0]->dir == Direction::Left) == (a.corner_turn_target_x < a.pet_x)
            &&& edge == Edge::Right ==> emits[0] == PetState::Walking { dir: Direction::Left }
                && a.corner_turn_target_x == win.right - i.width
            &&& edge == Edge::Left ==> emits[0] == PetState::Walking { dir: Direction::Right }
                && a.corner_turn_target_x == win.left
            &&& a.pet_y == win.top - foot_height(i.height as int) - FLOOR_GAP_PX
            &&& a.corner_turn_remaining == CORNER_TURN_TICKS
        }),
{
    lemma_first_with_hwnd_in(ws, hwnd);
    let win = first_with_hwnd(ws, hwnd)->0;
    let k = choose|k: int| 0 <= k < ws.len() && ws[k] == win;
    assert(window_ok(ws[k]));
    lemma_trunc_div_nonneg(i.walk_w(), 2);
    lemma_trunc_div_nonneg(FOOT_NUMERATOR * i.height, FOOT_DENOMINATOR as int);
    assert(i.walk_w() / 2 < i.walk_w());
}

} // verus!
