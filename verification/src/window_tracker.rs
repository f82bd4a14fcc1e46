//! The desktop windows that the pet can stand on and climb.
use vstd::prelude::*;

verus! {

/// A window's handle and its rectangle on screen.
#[derive(Clone, Copy, Debug)]
pub struct WinRect {
    pub hwnd: isize,
    pub left: i32,
    pub top: i32,
    pub right: i32,
    pub bottom: i32,
}

/// What the desktop reports of one top-level window, as read while walking
/// the list of windows.
#[derive(Clone, Copy, Debug)]
pub struct WindowProbe {
    pub hwnd: isize,
    pub visible: bool,
    pub minimized: bool,
    pub is_shell: bool,
    pub cloaked: bool,
    /// The window's extended style bits.
    pub ex_style: i32,
    /// Length of the window's title.
    pub title_len: i32,
    /// The window's rectangle (left, top, right, bottom), when the desktop
    /// could give it.
    pub rect: Option<(i32, i32, i32, i32)>,
    pub screen_w: i32,
    pub screen_h: i32,
}

/// Extended style bit of a tool window.
pub const WS_EX_TOOLWINDOW: i32 = 0x80;
/// Extended style bit of a window that is never activated.
pub const WS_EX_NOACTIVATE: i32 = 0x0800_0000;

/// A window the pet can interact with: visible, not minimized, not the
/// desktop shell, not cloaked, neither a tool window nor a non-activating
/// one, with a title and a rectangle whose width and height are `i32`
/// values, at least 200 by 100 pixels, not far off screen, and not covering
/// (nearly) the whole screen.
pub open spec fn accepted(p: WindowProbe) -> bool {
    &&& p.visible
    &&& !p.minimized
    &&& !p.is_shell
    &&& !p.cloaked
    &&& p.ex_style & WS_EX_TOOLWINDOW == 0
    &&& p.ex_style & WS_EX_NOACTIVATE == 0
    &&& p.title_len != 0
    &&& p.rect is Some
    &&& {
        let (left, top, right, bottom) = p.rect->0;
        let w = right - left;
        let h = bottom - top;
        &&& i32::MIN <= w <= i32::MAX
        &&& i32::MIN <= h <= i32::MAX
        &&& w >= 200
        &&& h >= 100
        &&& left >= -10000
        &&& top >= -10000
        &&& !(w >= p.screen_w - 20 && h >= p.screen_h - 20)
    }
}

/// Whether the pet can interact with the window of this probe.
pub fn accept_window(p: &WindowProbe) -> (r: bool)
    ensures
        r == accepted(*p),
{
    if !p.visible || p.minimized || p.is_shell || p.cloaked {
        return false;
    }
    if p.ex_style & WS_EX_TOOLWINDOW != 0 || p.ex_style & WS_EX_NOACTIVATE != 0 {
        return false;
    }
    if p.title_len == 0 {
        return false;
    }
    let (left, top, right, bottom) = match p.rect {
        Some(r) => r,
        None => return false,
    };
    let w = right as i64 - left as i64;
    let h = bottom as i64 - top as i64;
    if w < i32::MIN as i64 || w > i32::MAX as i64 || h < i32::MIN as i64 || h > i32::MAX as i64 {
        return false;
    }
    if w < 200 || h < 100 {
        return false;
    }
    if left < -10000 || top < -10000 {
        return false;
    }
    !(w >= p.screen_w as i64 - 20 && h >= p.screen_h as i64 - 20)
}

/// The window of a probe whose rectangle is known.
pub open spec fn probe_rect(p: WindowProbe) -> WinRect {
    let (left, top, right, bottom) = p.rect->0;
    WinRect { hwnd: p.hwnd, left, top, right, bottom }
}

/// The rectangles of the accepted windows among `probes`, in order, without
/// the pet's own window `self_hwnd`.
pub open spec fn kept_windows(probes: Seq<WindowProbe>, self_hwnd: isize) -> Seq<WinRect>
    decreases probes.len(),
{
    if probes.len() == 0 {
        Seq::empty()
    } else {
        let p = probes.last();
        let rest = kept_windows(probes.drop_last(), self_hwnd);
        if accepted(p) && p.hwnd != self_hwnd {
            rest.push(probe_rect(p))
        } else {
            rest
        }
    }
}

/// The pet's own window is never among the kept windows, each kept window
/// comes from an accepted probe, and no more windows are kept than probed.
pub proof fn lemma_kept_windows(probes: Seq<WindowProbe>, self_hwnd: isize)
    ensures
        kept_windows(probes, self_hwnd).len() <= probes.len(),
        forall|k: int|
            0 <= k < kept_windows(probes, self_hwnd).len() ==> (#[trigger] kept_windows(probes, self_hwnd)[k]).hwnd
                != self_hwnd,
        forall|k: int|
            0 <= k < kept_windows(probes, self_hwnd).len() ==> exists|j: int|
                0 <= j < probes.len() && accepted(probes[j]) && probe_rect(probes[j])
                    == #[trigger] kept_windows(probes, self_hwnd)[k],
    decreases probes.len(),
{
    if probes.len() > 0 {
        let rest = probes.drop_last();
        lemma_kept_windows(rest, self_hwnd);
        let kept = kept_windows(probes, self_hwnd);
        let kept_rest = kept_windows(rest, self_hwnd);
        assert forall|k: int| 0 <= k < kept.len() implies exists|j: int|
            0 <= j < probes.len() && accepted(probes[j]) && probe_rect(probes[j]) == #[trigger] kept[k] by {
            if k < kept_rest.len() {
                assert(kept[k] == kept_rest[k]);
                let j = choose|j: int| 0 <= j < rest.len() && accepted(rest[j]) && probe_rect(rest[j]) == kept_rest[k];
                assert(probes[j] == rest[j]);
            } else {
                assert(probe_rect(probes[probes.len() - 1]) == kept[k]);
            }
        }
    }
}

/// What the pet needs of a window it stands on and climbs: visible, not
/// minimized, not the desktop shell, not cloaked (as on another virtual
/// desktop), neither a tool window nor a non-activating one, with a title and
/// a rectangle of at least 200 by 100 pixels, not far off screen, not
/// (nearly) covering the whole screen, and not the pet's own window.
pub open spec fn usable(p: WindowProbe, self_hwnd: isize) -> bool {
    &&& p.visible
    &&& !p.minimized
    &&& !p.is_shell
    &&& !p.cloaked
    &&& p.ex_style & WS_EX_TOOLWINDOW == 0
    &&& p.ex_style & WS_EX_NOACTIVATE == 0
    &&& p.title_len != 0
    &&& p.hwnd != self_hwnd
    &&& p.rect matches Some((left, top, right, bottom)) && {
        &&& right - left >= 200
        &&& bottom - top >= 100
        &&& left >= -10000
        &&& top >= -10000
        &&& !(right - left >= p.screen_w - 20 && bottom - top >= p.screen_h - 20)
    }
}

/// Every kept window is the rectangle of a usable probe, and a cloaked
/// probe is never kept.
pub proof fn lemma_kept_windows_are_usable(probes: Seq<WindowProbe>, self_hwnd: isize)
    ensures
        forall|k: int|
            0 <= k < kept_windows(probes, self_hwnd).len() ==> exists|j: int|
                0 <= j < probes.len() && usable(#[trigger] probes[j], self_hwnd) && probe_rect(probes[j])
                    == #[trigger] kept_windows(probes, self_hwnd)[k],
        probes.len() > 0 && probes.last().cloaked ==> kept_windows(probes, self_hwnd) == kept_windows(
            probes.drop_last(),
            self_hwnd,
        ),
    decreases probes.len(),
{
    if probes.len() > 0 {
        let rest = probes.drop_last();
        lemma_kept_windows_are_usable(rest, self_hwnd);
        let kept = kept_windows(probes, self_hwnd);
        let kept_rest = kept_windows(rest, self_hwnd);
        assert forall|k: int| 0 <= k < kept.len() implies exists|j: int|
            0 <= j < probes.len() && usable(#[trigger] probes[j], self_hwnd) && probe_rect(probes[j])
                == #[trigger] kept[k] by {
            if k < kept_rest.len() {
                assert(kept[k] == kept_rest[k]);
                let j = choose|j: int|
                    0 <= j < rest.len() && usable(#[trigger] rest[j], self_hwnd) && probe_rect(rest[j])
                        == #[trigger] kept_rest[k];
                assert(probes[j] == rest[j]);
            } else {
                let j = probes.len() - 1;
                assert(probe_rect(probes[j]) == kept[k]);
                assert(usable(probes[j], self_hwnd));
            }
        }
    }
}

/// A usable probe is accepted, and kept.
pub proof fn lemma_usable_is_kept(probes: Seq<WindowProbe>, self_hwnd: isize)
    requires
        probes.len() > 0,
        usable(probes.last(), self_hwnd),
        probes.last().rect matches Some((left, top, right, bottom)) && i32::MIN <= right - left <= i32::MAX
            && i32::MIN <= bottom - top <= i32::MAX,
    ensures
        kept_windows(probes, self_hwnd) == kept_windows(probes.drop_last(), self_hwnd).push(
            probe_rect(probes.last()),
        ),
{
}

/// The windows the pet can interact with, from what the desktop reported of
/// each top-level window, in the desktop's order, leaving out the pet's own.
pub fn enumerate_windows(self_hwnd: isize, probes: &Vec<WindowProbe>) -> (r: Vec<WinRect>)
    ensures
        r@ == kept_windows(probes@, self_hwnd),
{
    let mut r: Vec<WinRect> = Vec::new();
    let mut i: usize = 0;
    while i < probes.len()
        invariant
            i <= probes.len(),
            r@ == kept_windows(probes@.take(i as int), self_hwnd),
        decreases probes.len() - i,
    {
        let p = &probes[i];
        assert(probes@.take(i as int + 1).drop_last() =~= probes@.take(i as int));
        if accept_window(p) {
            if let Some((left, top, right, bottom)) = p.rect {
                if p.hwnd != self_hwnd {
                    r.push(WinRect { hwnd: p.hwnd, left, top, right, bottom });
                }
            }
        }
        i = i + 1;
    }
    assert(probes@.take(probes.len() as int) =~= probes@);
    r
}

} // verus!
