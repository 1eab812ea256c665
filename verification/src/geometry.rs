//! The overlay's frame over all displays, and the mapping of global pointer
//! coordinates into it.
use vstd::prelude::*;

verus! {

/// A display's frame: its top left corner and size, in physical pixels.
#[derive(Clone, Copy, Debug, PartialEq, Eq, Structural)]
pub struct MonitorBounds {
    pub x: i32,
    pub y: i32,
    pub width: u32,
    pub height: u32,
}

/// The overlay window's frame.
#[derive(Clone, Copy, Debug, PartialEq, Eq, Structural)]
pub struct OverlayBounds {
    pub x: i32,
    pub y: i32,
    pub width: u32,
    pub height: u32,
}

/// The leftmost left edge of the displays.
pub open spec fn left_edge(ms: Seq<MonitorBounds>) -> int
    decreases ms.len(),
{
    if ms.len() <= 1 {
        ms[0].x as int
    } else {
        let l = left_edge(ms.drop_last());
        if ms.last().x < l {
            ms.last().x as int
        } else {
            l
        }
    }
}

/// The topmost top edge of the displays.
pub open spec fn top_edge(ms: Seq<MonitorBounds>) -> int
    decreases ms.len(),
{
    if ms.len() <= 1 {
        ms[0].y as int
    } else {
        let t = top_edge(ms.drop_last());
        if ms.last().y < t {
            ms.last().y as int
        } else {
            t
        }
    }
}

/// The rightmost right edge of the displays.
pub open spec fn right_edge(ms: Seq<MonitorBounds>) -> int
    decreases ms.len(),
{
    if ms.len() <= 1 {
        ms[0].x + ms[0].width
    } else {
        let r = right_edge(ms.drop_last());
        if ms.last().x + ms.last().width > r {
            ms.last().x + ms.last().width
        } else {
            r
        }
    }
}

/// The bottommost bottom edge of the displays.
pub open spec fn bottom_edge(ms: Seq<MonitorBounds>) -> int
    decreases ms.len(),
{
    if ms.len() <= 1 {
        ms[0].y + ms[0].height
    } else {
        let b = bottom_edge(ms.drop_last());
        if ms.last().y + ms.last().height > b {
            ms.last().y + ms.last().height
        } else {
            b
        }
    }
}

/// The smallest frame holding all displays, at least one pixel wide and
/// high; a width or height beyond `u32` wraps as std's `as` does.
pub open spec fn desktop_frame(ms: Seq<MonitorBounds>) -> OverlayBounds {
    let w = right_edge(ms) - left_edge(ms);
    let h = bottom_edge(ms) - top_edge(ms);
    OverlayBounds {
        x: left_edge(ms) as i32,
        y: top_edge(ms) as i32,
        width: (if w >= 1 {
            w
        } else {
            1
        }) as u32,
        height: (if h >= 1 {
            h
        } else {
            1
        }) as u32,
    }
}

proof fn lemma_edges(ms: Seq<MonitorBounds>)
    requires
        ms.len() >= 1,
    ensures
        forall|i: int|
            0 <= i < ms.len() ==> left_edge(ms) <= (#[trigger] ms[i]).x && top_edge(ms) <= ms[i].y
                && ms[i].x + ms[i].width <= right_edge(ms) && ms[i].y + ms[i].height <= bottom_edge(
                ms,
            ),
        exists|i: int| 0 <= i < ms.len() && left_edge(ms) == (#[trigger] ms[i]).x,
        exists|i: int| 0 <= i < ms.len() && top_edge(ms) == (#[trigger] ms[i]).y,
        left_edge(ms) <= right_edge(ms),
        top_edge(ms) <= bottom_edge(ms),
    decreases ms.len(),
{
    if ms.len() > 1 {
        let p = ms.drop_last();
        lemma_edges(p);
        assert forall|i: int|
            0 <= i < ms.len() implies left_edge(ms) <= (#[trigger] ms[i]).x && top_edge(ms) <= ms[i].y
            && ms[i].x + ms[i].width <= right_edge(ms) && ms[i].y + ms[i].height <= bottom_edge(ms) by {
            if i < p.len() {
                assert(ms[i] == p[i]);
            }
        }
        if ms.last().x < left_edge(p) {
            assert(ms[ms.len() - 1].x == left_edge(ms));
        } else {
            let j = choose|j: int| 0 <= j < p.len() && left_edge(p) == (#[trigger] p[j]).x;
            assert(ms[j] == p[j]);
        }
        if ms.last().y < top_edge(p) {
            assert(ms[ms.len() - 1].y == top_edge(ms));
        } else {
            let j = choose|j: int| 0 <= j < p.len() && top_edge(p) == (#[trigger] p[j]).y;
            assert(ms[j] == p[j]);
        }
    } else {
        assert(left_edge(ms) == ms[0].x);
        assert(top_edge(ms) == ms[0].y);
    }
}

/// The overlay frame covering all displays; `None` without displays.
pub fn overlay_desktop_bounds(monitors: &[MonitorBounds]) -> (r: Option<OverlayBounds>)
    ensures
        monitors@.len() == 0 ==> r is None,
        monitors@.len() > 0 ==> r == Some(desktop_frame(monitors@)),
{
    let n = monitors.len();
    if n == 0 {
        return None;
    }
    let first = monitors[0];
    let mut left: i64 = first.x as i64;
    let mut top: i64 = first.y as i64;
    let mut right: i64 = left + first.width as i64;
    let mut bottom: i64 = top + first.height as i64;
    for i in 1..n
        invariant
            n == monitors@.len(),
            n >= 1,
            left == left_edge(monitors@.take(i as int)),
            top == top_edge(monitors@.take(i as int)),
            right == right_edge(monitors@.take(i as int)),
            bottom == bottom_edge(monitors@.take(i as int)),
            i32::MIN <= left <= i32::MAX,
            i32::MIN <= top <= i32::MAX,
            i32::MIN <= right <= i32::MAX + u32::MAX,
            i32::MIN <= bottom <= i32::MAX + u32::MAX,
    {
        let m = monitors[i];
        let ghost p = monitors@.take(i + 1);
        assert(p.drop_last() =~= monitors@.take(i as int));
        assert(p.last() == m);
        let monitor_left = m.x as i64;
        let monitor_top = m.y as i64;
        let monitor_right = monitor_left + m.width as i64;
        let monitor_bottom = monitor_top + m.height as i64;
        if monitor_left < left {
            left = monitor_left;
        }
        if monitor_top < top {
            top = monitor_top;
        }
        if monitor_right > right {
            right = monitor_right;
        }
        if monitor_bottom > bottom {
            bottom = monitor_bottom;
        }
    }
    assert(monitors@.take(n as int) =~= monitors@);
    proof {
        lemma_edges(monitors@);
    }
    let w = right - left;
    let h = bottom - top;
    let width = if w >= 1 {
        w
    } else {
        1
    };
    let height = if h >= 1 {
        h
    } else {
        1
    };
    Some(OverlayBounds { x: left as i32, y: top as i32, width: width as u32, height: height as u32 })
}

/// The overlay frame covers every display, where its size fits a `u32`.
pub proof fn desktop_frame_covers_monitors(ms: Seq<MonitorBounds>, i: int)
    requires
        0 <= i < ms.len(),
        right_edge(ms) - left_edge(ms) <= u32::MAX,
        bottom_edge(ms) - top_edge(ms) <= u32::MAX,
    ensures
        desktop_frame(ms).x <= ms[i].x,
        desktop_frame(ms).y <= ms[i].y,
        ms[i].x + ms[i].width <= desktop_frame(ms).x + desktop_frame(ms).width,
        ms[i].y + ms[i].height <= desktop_frame(ms).y + desktop_frame(ms).height,
{
    lemma_edges(ms);
    assert(left_edge(ms) <= ms[i].x);
    assert(top_edge(ms) <= ms[i].y);
}

/// The frame of the displays, else the fallback display's, else a one
/// pixel frame at the origin.
pub open spec fn desktop_choice(computed: Option<OverlayBounds>, fallback: Option<MonitorBounds>) -> OverlayBounds {
    match computed {
        Some(d) => d,
        None => match fallback {
            Some(m) => OverlayBounds { x: m.x, y: m.y, width: m.width, height: m.height },
            None => OverlayBounds { x: 0, y: 0, width: 1, height: 1 },
        },
    }
}

/// The frame the pointer is mapped into (see `desktop_choice`).
pub fn desktop_or_fallback(computed: Option<OverlayBounds>, fallback: Option<MonitorBounds>) -> (r:
    OverlayBounds)
    ensures
        r == desktop_choice(computed, fallback),
{
    match computed {
        Some(d) => d,
        None => {
            let m = match fallback {
                Some(m) => m,
                None => MonitorBounds { x: 0, y: 0, width: 1, height: 1 },
            };
            OverlayBounds { x: m.x, y: m.y, width: m.width, height: m.height }
        },
    }
}

/// The display under the pointer, else the fallback display, else the
/// whole frame.
pub open spec fn pointer_monitor_choice(
    at_point: Option<MonitorBounds>,
    fallback: Option<MonitorBounds>,
    desktop: OverlayBounds,
) -> MonitorBounds {
    match at_point {
        Some(m) => m,
        None => match fallback {
            Some(m) => m,
            None => MonitorBounds { x: desktop.x, y: desktop.y, width: desktop.width, height: desktop.height },
        },
    }
}

/// The display the pointer is on (see `pointer_monitor_choice`).
pub fn pointer_monitor(
    at_point: Option<MonitorBounds>,
    fallback: Option<MonitorBounds>,
    desktop: OverlayBounds,
) -> (r: MonitorBounds)
    ensures
        r == pointer_monitor_choice(at_point, fallback, desktop),
{
    match at_point {
        Some(m) => m,
        None => match fallback {
            Some(m) => m,
            None => MonitorBounds { x: desktop.x, y: desktop.y, width: desktop.width, height: desktop.height },
        },
    }
}

/// An integer moved into the range of `i32`, as std's float to `i32` cast
/// does with a whole number.
pub open spec fn saturate_i32(v: int) -> i32 {
    if v < i32::MIN {
        i32::MIN
    } else if v > i32::MAX {
        i32::MAX
    } else {
        v as i32
    }
}

/// The two readings of the pointer in overlay coordinates: the same
/// horizontal position, with the vertical position counted from the
/// display's top or from its bottom (the event source may use either).
pub open spec fn pointer_candidates(raw_x: i32, raw_y: i32, desktop: OverlayBounds, monitor: MonitorBounds) -> (
    (i32, i32),
    (i32, i32),
) {
    let offset_x = monitor.x - desktop.x;
    let offset_y = monitor.y - desktop.y;
    let scaled_x = offset_x + raw_x - monitor.x;
    let top_local_y = raw_y - monitor.y;
    let bottom_global_y = monitor.height - top_local_y;
    let x = saturate_i32(scaled_x);
    ((x, saturate_i32(offset_y + top_local_y)), (x, saturate_i32(offset_y + bottom_global_y)))
}

/// The distance of a candidate from the last position: the sum of the
/// horizontal and vertical distances.
pub open spec fn pointer_distance(c: (i32, i32), last: (i32, i32)) -> int {
    abs_int(c.0 - last.0) + abs_int(c.1 - last.1)
}

/// The absolute value of an integer.
pub open spec fn abs_int(v: int) -> int {
    if v < 0 {
        -v
    } else {
        v
    }
}

/// The distance of a candidate from the last position can be computed in
/// `i32` without overflow.
pub open spec fn distance_computable(c: (i32, i32), last: (i32, i32)) -> bool {
    let dx = c.0 - last.0;
    let dy = c.1 - last.1;
    &&& i32::MIN < dx <= i32::MAX
    &&& i32::MIN < dy <= i32::MAX
    &&& abs_int(dx) + abs_int(dy) <= i32::MAX
}

/// A candidate lies vertically within the overlay.
pub open spec fn candidate_valid(c: (i32, i32), max_y: int) -> bool {
    0 <= c.1 <= max_y
}

/// The inputs on which the mapping computes in `i32` without overflow:
/// the display's offset within the frame and the frame's size fit, and the
/// distances compared to pick a candidate fit.
pub open spec fn pointer_mapping_defined(
    raw_x: i32,
    raw_y: i32,
    desktop: OverlayBounds,
    monitor: MonitorBounds,
    last: Option<(i32, i32)>,
) -> bool {
    let (c0, c1) = pointer_candidates(raw_x, raw_y, desktop, monitor);
    let max_y = desktop.height as int;
    &&& i32::MIN <= monitor.x - desktop.x <= i32::MAX
    &&& i32::MIN <= monitor.y - desktop.y <= i32::MAX
    &&& desktop.width <= i32::MAX
    &&& desktop.height <= i32::MAX
    &&& match last {
        None => true,
        Some(l) => if candidate_valid(c0, max_y) || candidate_valid(c1, max_y) {
            (candidate_valid(c0, max_y) ==> distance_computable(c0, l)) && (candidate_valid(c1, max_y)
                ==> distance_computable(c1, l))
        } else {
            distance_computable(c0, l) && distance_computable(c1, l)
        },
    }
}

/// The candidate taken: without a last position the top-based one; else
/// the one nearest the last position among those within the overlay
/// vertically (among both where neither is), the top-based one on a tie.
pub open spec fn chosen_candidate(
    raw_x: i32,
    raw_y: i32,
    desktop: OverlayBounds,
    monitor: MonitorBounds,
    last: Option<(i32, i32)>,
) -> (i32, i32) {
    let (c0, c1) = pointer_candidates(raw_x, raw_y, desktop, monitor);
    let max_y = desktop.height as int;
    match last {
        None => c0,
        Some(l) => {
            let v0 = candidate_valid(c0, max_y);
            let v1 = candidate_valid(c1, max_y);
            if v0 && !v1 {
                c0
            } else if v1 && !v0 {
                c1
            } else if pointer_distance(c0, l) <= pointer_distance(c1, l) {
                c0
            } else {
                c1
            }
        },
    }
}

/// A value held within `[lo, hi]`.
pub open spec fn clamp_int(v: int, lo: int, hi: int) -> int {
    if v < lo {
        lo
    } else if v > hi {
        hi
    } else {
        v
    }
}

/// The pointer position in overlay coordinates: the chosen candidate held
/// within the overlay.
pub open spec fn mapped_pointer(
    raw_x: i32,
    raw_y: i32,
    desktop: OverlayBounds,
    monitor: MonitorBounds,
    last: Option<(i32, i32)>,
) -> (i32, i32) {
    let c = chosen_candidate(raw_x, raw_y, desktop, monitor, last);
    (
        clamp_int(c.0 as int, 0, desktop.width as int) as i32,
        clamp_int(c.1 as int, 0, desktop.height as int) as i32,
    )
}

fn saturate(v: i64) -> (r: i32)
    ensures
        r == saturate_i32(v as int),
{
    if v < i32::MIN as i64 {
        i32::MIN
    } else if v > i32::MAX as i64 {
        i32::MAX
    } else {
        v as i32
    }
}

fn candidates(raw_x: i32, raw_y: i32, desktop: OverlayBounds, monitor: MonitorBounds) -> (r: (
    (i32, i32),
    (i32, i32),
))
    ensures
        r == pointer_candidates(raw_x, raw_y, desktop, monitor),
{
    let offset_x = monitor.x as i64 - desktop.x as i64;
    let offset_y = monitor.y as i64 - desktop.y as i64;
    let scaled_x = offset_x + raw_x as i64 - monitor.x as i64;
    let top_local_y = raw_y as i64 - monitor.y as i64;
    let bottom_global_y = monitor.height as i64 - top_local_y;
    let x = saturate(scaled_x);
    ((x, saturate(offset_y + top_local_y)), (x, saturate(offset_y + bottom_global_y)))
}

fn distance(c: (i32, i32), last: (i32, i32)) -> (r: i32)
    requires
        distance_computable(c, last),
    ensures
        r == pointer_distance(c, last),
{
    let dx = c.0 - last.0;
    let dy = c.1 - last.1;
    let ax = if dx < 0 {
        -dx
    } else {
        dx
    };
    let ay = if dy < 0 {
        -dy
    } else {
        dy
    };
    ax + ay
}

/// Whether the mapping of this pointer reading is defined (see
/// `pointer_mapping_defined`).
pub fn pointer_mapping_is_defined(
    raw_x: i32,
    raw_y: i32,
    desktop: OverlayBounds,
    monitor: MonitorBounds,
    last: Option<(i32, i32)>,
) -> (r: bool)
    ensures
        r == pointer_mapping_defined(raw_x, raw_y, desktop, monitor, last),
{
    let ox = monitor.x as i64 - desktop.x as i64;
    let oy = monitor.y as i64 - desktop.y as i64;
    if ox < i32::MIN as i64 || ox > i32::MAX as i64 || oy < i32::MIN as i64 || oy > i32::MAX as i64 {
        return false;
    }
    if desktop.width > i32::MAX as u32 || desktop.height > i32::MAX as u32 {
        return false;
    }
    let (c0, c1) = candidates(raw_x, raw_y, desktop, monitor);
    let max_y = desktop.height as i64;
    match last {
        None => true,
        Some(l) => {
            let v0 = 0 <= c0.1 && c0.1 as i64 <= max_y;
            let v1 = 0 <= c1.1 && c1.1 as i64 <= max_y;
            let d0 = distance_fits(c0, l);
            let d1 = distance_fits(c1, l);
            if v0 || v1 {
                (!v0 || d0) && (!v1 || d1)
            } else {
                d0 && d1
            }
        },
    }
}

fn distance_fits(c: (i32, i32), last: (i32, i32)) -> (r: bool)
    ensures
        r == distance_computable(c, last),
{
    let dx = c.0 as i64 - last.0 as i64;
    let dy = c.1 as i64 - last.1 as i64;
    if dx <= i32::MIN as i64 || dx > i32::MAX as i64 || dy <= i32::MIN as i64 || dy > i32::MAX as i64 {
        return false;
    }
    let ax = if dx < 0 {
        -dx
    } else {
        dx
    };
    let ay = if dy < 0 {
        -dy
    } else {
        dy
    };
    ax + ay <= i32::MAX as i64
}

/// Maps a global pointer reading into overlay coordinates (see
/// `mapped_pointer`) and remembers the result as the last position.
pub fn normalize_global_mouse_position(
    raw_x: i32,
    raw_y: i32,
    desktop: OverlayBounds,
    monitor: MonitorBounds,
    last_position: &mut Option<(i32, i32)>,
) -> (r: (i32, i32))
    requires
        pointer_mapping_defined(raw_x, raw_y, desktop, monitor, *old(last_position)),
    ensures
        r == mapped_pointer(raw_x, raw_y, desktop, monitor, *old(last_position)),
        *final(last_position) == Some(r),
        0 <= r.0 <= desktop.width,
        0 <= r.1 <= desktop.height,
{
    let (c0, c1) = candidates(raw_x, raw_y, desktop, monitor);
    let max_x = desktop.width as i32;
    let max_y = desktop.height as i32;
    let (x, y) = match *last_position {
        None => c0,
        Some(l) => {
            let v0 = 0 <= c0.1 && c0.1 <= max_y;
            let v1 = 0 <= c1.1 && c1.1 <= max_y;
            if v0 && !v1 {
                c0
            } else if v1 && !v0 {
                c1
            } else if distance(c0, l) <= distance(c1, l) {
                c0
            } else {
                c1
            }
        },
    };
    let x = if x < 0 {
        0
    } else if x > max_x {
        max_x
    } else {
        x
    };
    let y = if y < 0 {
        0
    } else if y > max_y {
        max_y
    } else {
        y
    };
    *last_position = Some((x, y));
    (x, y)
}

} // verus!
