//! Logic of the floating recording bar: which buttons are live in each state,
//! and where the bar is placed on screen.
use vstd::prelude::*;

use crate::text::{lines, lines_spec, parse_i32, parse_i32_spec, strip_prefix, strip_prefix_spec, views};

verus! {

#[derive(Debug, Clone, Copy, PartialEq, Eq, Structural)]
pub enum BarState {
    Ready,
    Recording,
    Paused,
}

/// Sensitivity of the bar's Record, Pause and Stop buttons.
#[derive(Debug, Clone, Copy, PartialEq, Eq, Structural)]
pub struct BarButtons {
    pub record: bool,
    pub pause: bool,
    pub stop: bool,
}

/// Record is live unless recording, Pause only while recording, Stop always.
pub open spec fn bar_buttons_spec(state: BarState) -> BarButtons {
    BarButtons {
        record: state != BarState::Recording,
        pause: state == BarState::Recording,
        stop: true,
    }
}

/// The button sensitivities for a bar state.
pub fn bar_buttons(state: BarState) -> (r: BarButtons)
    ensures
        r == bar_buttons_spec(state),
{
    match state {
        BarState::Ready => BarButtons { record: true, pause: false, stop: true },
        BarState::Recording => BarButtons { record: false, pause: true, stop: true },
        BarState::Paused => BarButtons { record: true, pause: false, stop: true },
    }
}

/// The bar's size in pixels, and its distance from the region.
pub const BAR_W: i32 = 180;
pub const BAR_H: i32 = 44;
pub const BAR_GAP: i32 = 10;

/// `v` limited to `[lo, hi]` (for `lo <= hi`).
pub open spec fn clamp_spec(v: int, lo: int, hi: int) -> int {
    if v < lo {
        lo
    } else if v > hi {
        hi
    } else {
        v
    }
}

pub open spec fn fits_i32(v: int) -> bool {
    i32::MIN <= v <= i32::MAX
}

/// The inputs on which the placement is computed without an arithmetic
/// overflow or an empty clamp range, following the order of the tests.
pub open spec fn placement_defined(region: (i32, i32, i32, i32), screen: (i32, i32)) -> bool {
    let (rx, ry, rw, rh) = region;
    let (sw, sh) = screen;
    &&& sw >= BAR_W
    &&& fits_i32(ry + rh) && fits_i32(ry + rh + BAR_H + BAR_GAP)
    &&& !(ry + rh + BAR_H + BAR_GAP <= sh) && !(ry >= BAR_H + BAR_GAP) ==> {
        &&& rx >= BAR_W + BAR_GAP ==> side_clamp_defined(region, screen)
        &&& !(rx >= BAR_W + BAR_GAP) ==> {
            &&& fits_i32(rx + rw) && fits_i32(rx + rw + BAR_W + BAR_GAP)
            &&& rx + rw + BAR_W + BAR_GAP <= sw ==> side_clamp_defined(region, screen)
            &&& !(rx + rw + BAR_W + BAR_GAP <= sw) ==> fits_i32(sh - BAR_H - 20)
        }
    }
}

/// Beside the region, the bar's top is clamped into `[0, sh - BAR_H]`: the
/// range must not be empty and the bottom-aligned top must fit in `i32`.
pub open spec fn side_clamp_defined(region: (i32, i32, i32, i32), screen: (i32, i32)) -> bool {
    screen.1 >= BAR_H && fits_i32(region.1 + region.3 - BAR_H)
}

/// Whether the placement can be computed for these inputs (in `i32` the
/// sums overflow, or a clamp meets an empty range, otherwise).
pub fn placement_ok(region: (i32, i32, i32, i32), screen: (i32, i32)) -> (r: bool)
    ensures
        r == placement_defined(region, screen),
{
    let (rx, ry, rw, rh) = region;
    let (sw, sh) = screen;
    let (rx, ry, rw, rh, sw, sh) = (rx as i64, ry as i64, rw as i64, rh as i64, sw as i64, sh as i64);
    let min = i32::MIN as i64;
    let max = i32::MAX as i64;
    if sw < 180 {
        return false;
    }
    if !(min <= ry + rh && ry + rh <= max && ry + rh + 54 <= max) {
        return false;
    }
    if ry + rh + 54 <= sh || ry >= 54 {
        return true;
    }
    let side_ok = sh >= 44 && ry + rh - 44 >= min;
    if rx >= 190 {
        return side_ok;
    }
    if !(min <= rx + rw && rx + rw <= max && rx + rw + 190 <= max) {
        return false;
    }
    if rx + rw + 190 <= sw {
        return side_ok;
    }
    sh - 64 >= min
}

/// Where the bar goes for a region recording: left-aligned below the region,
/// else above it, else to its left, else to its right (bottom-aligned), and
/// failing all of these in the bottom-left corner of the screen.
pub open spec fn outside_region_spec(region: (i32, i32, i32, i32), screen: (i32, i32)) -> (int, int) {
    let (rx, ry, rw, rh) = region;
    let (sw, sh) = screen;
    let align_x = clamp_spec(rx as int, 0, sw - BAR_W);
    if ry + rh + BAR_H + BAR_GAP <= sh {
        (align_x, ry + rh + BAR_GAP)
    } else if ry >= BAR_H + BAR_GAP {
        (align_x, ry - BAR_H - BAR_GAP)
    } else if rx >= BAR_W + BAR_GAP {
        (rx - BAR_W - BAR_GAP, clamp_spec(ry + rh - BAR_H, 0, sh - BAR_H))
    } else if rx + rw + BAR_W + BAR_GAP <= sw {
        (rx + rw + BAR_GAP, clamp_spec(ry + rh - BAR_H, 0, sh - BAR_H))
    } else {
        (20, sh - BAR_H - 20)
    }
}

fn clamp_i32(v: i32, lo: i32, hi: i32) -> (r: i32)
    requires
        lo <= hi,
    ensures
        r == clamp_spec(v as int, lo as int, hi as int),
{
    if v < lo {
        lo
    } else if v > hi {
        hi
    } else {
        v
    }
}

/// Places the bar outside a drawn region `(x, y, w, h)` on a screen of the
/// given size.
pub fn position_outside_region(region: (i32, i32, i32, i32), screen: (i32, i32)) -> (r: (i32, i32))
    requires
        placement_defined(region, screen),
    ensures
        (r.0 as int, r.1 as int) == outside_region_spec(region, screen),
{
    let (rx, ry, rw, rh) = region;
    let (sw, sh) = screen;
    let align_x = clamp_i32(rx, 0, sw - BAR_W);
    if ry + rh + BAR_H + BAR_GAP <= sh {
        return (align_x, ry + rh + BAR_GAP);
    }
    if ry >= BAR_H + BAR_GAP {
        return (align_x, ry - BAR_H - BAR_GAP);
    }
    if rx >= BAR_W + BAR_GAP {
        return (rx - BAR_W - BAR_GAP, clamp_i32(ry + rh - BAR_H, 0, sh - BAR_H));
    }
    if rx + rw + BAR_W + BAR_GAP <= sw {
        return (rx + rw + BAR_GAP, clamp_i32(ry + rh - BAR_H, 0, sh - BAR_H));
    }
    (20, sh - BAR_H - 20)
}

/// Whether two rectangles `(x, y, w, h)` share any pixel.
pub open spec fn rects_overlap(a: (int, int, int, int), b: (int, int, int, int)) -> bool {
    a.0 < b.0 + b.2 && b.0 < a.0 + a.2 && a.1 < b.1 + b.3 && b.1 < a.1 + a.3
}

/// The bar never covers the region it was placed for: unless the fallback
/// corner is used, the bar's rectangle and the region are disjoint. Placed
/// below or above, the bar also lies inside the screen's width.
pub proof fn lemma_bar_outside_region(region: (i32, i32, i32, i32), screen: (i32, i32))
    requires
        region.2 >= 0,
        region.3 >= 0,
        screen.0 >= BAR_W,
    ensures
        ({
            let p = outside_region_spec(region, screen);
            let (rx, ry, rw, rh) = region;
            let fallback = !(ry + rh + BAR_H + BAR_GAP <= screen.1) && !(ry >= BAR_H + BAR_GAP)
                && !(rx >= BAR_W + BAR_GAP) && !(rx + rw + BAR_W + BAR_GAP <= screen.0);
            &&& !fallback ==> !rects_overlap(
                (p.0, p.1, BAR_W as int, BAR_H as int),
                (rx as int, ry as int, rw as int, rh as int),
            )
            &&& (ry + rh + BAR_H + BAR_GAP <= screen.1 || ry >= BAR_H + BAR_GAP) ==> (0 <= p.0
                && p.0 + BAR_W <= screen.0)
        }),
{
}

/// Where the bar is shown: outside the region for a region recording,
/// otherwise at the saved position when both coordinates are set
/// (non-negative), otherwise near the bottom-left corner.
pub open spec fn bar_position_spec(
    region: Option<(i32, i32, i32, i32)>,
    screen: (i32, i32),
    saved: (i32, i32),
) -> (int, int) {
    match region {
        Some(r) => outside_region_spec(r, screen),
        None => if saved.0 >= 0 && saved.1 >= 0 {
            (saved.0 as int, saved.1 as int)
        } else {
            (20, screen.1 - 60)
        },
    }
}

/// The bar's position when it is shown.
pub fn bar_position(region: Option<(i32, i32, i32, i32)>, screen: (i32, i32), saved: (i32, i32)) -> (r: (i32, i32))
    requires
        match region {
            Some(reg) => placement_defined(reg, screen),
            None => !(saved.0 >= 0 && saved.1 >= 0) ==> fits_i32(screen.1 - 60),
        },
    ensures
        (r.0 as int, r.1 as int) == bar_position_spec(region, screen, saved),
{
    match region {
        Some(reg) => position_outside_region(reg, screen),
        None => {
            if saved.0 >= 0 && saved.1 >= 0 {
                saved
            } else {
                (20, screen.1 - 60)
            }
        },
    }
}

/// The size of the first monitor, or 1920x1080 when there is none.
pub fn screen_size_or_default(first_monitor: Option<(i32, i32)>) -> (r: (i32, i32))
    ensures
        r == (match first_monitor {
            Some(s) => s,
            None => (1920i32, 1080i32),
        }),
{
    match first_monitor {
        Some(s) => s,
        None => (1920, 1080),
    }
}


/// The window position in `xdotool getwindowgeometry --shell` output: the
/// last "X=" line and the last "Y=" line, each read as an `i32` (a line
/// that does not parse clears the value).
pub open spec fn position_scan(ls: Seq<Seq<char>>) -> (Option<i32>, Option<i32>)
    decreases ls.len(),
{
    if ls.len() == 0 {
        (None, None)
    } else {
        let (x, y) = position_scan(ls.drop_last());
        let l = ls.last();
        (
            match strip_prefix_spec(l, "X="@) {
                Some(v) => parse_i32_spec(v),
                None => x,
            },
            match strip_prefix_spec(l, "Y="@) {
                Some(v) => parse_i32_spec(v),
                None => y,
            },
        )
    }
}

pub open spec fn window_position_spec(text: Seq<char>) -> Option<(i32, i32)> {
    match position_scan(lines_spec(text)) {
        (Some(x), Some(y)) => Some((x, y)),
        _ => None,
    }
}

/// Reads the bar's position from the geometry text.
pub fn window_position(text: &str) -> (r: Option<(i32, i32)>)
    ensures
        r == window_position_spec(text@),
{
    let ls = lines(text);
    let mut x: Option<i32> = None;
    let mut y: Option<i32> = None;
    let mut i: usize = 0;
    while i < ls.len()
        invariant
            i <= ls@.len(),
            views(ls@) == lines_spec(text@),
            (x, y) == position_scan(views(ls@).take(i as int)),
        decreases ls.len() - i,
    {
        let ghost t = views(ls@).take(i + 1);
        assert(t.drop_last() =~= views(ls@).take(i as int));
        assert(t.last() == ls@[i as int]@);
        match strip_prefix(ls[i].as_str(), "X=") {
            Some(v) => x = parse_i32(v.as_str()),
            None => {},
        }
        match strip_prefix(ls[i].as_str(), "Y=") {
            Some(v) => y = parse_i32(v.as_str()),
            None => {},
        }
        i = i + 1;
    }
    assert(views(ls@).take(ls@.len() as int) =~= views(ls@));
    match (x, y) {
        (Some(a), Some(b)) => Some((a, b)),
        _ => None,
    }
}
} // verus!
