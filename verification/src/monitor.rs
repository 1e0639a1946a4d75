//! The monitor directory and the placement of a window on another monitor.

use vstd::prelude::*;
use vstd::arithmetic::div_mod::lemma_add_mod_noop;
use vstd::arithmetic::div_mod::lemma_div_is_ordered;
use vstd::arithmetic::div_mod::lemma_div_multiples_vanish;
use vstd::arithmetic::div_mod::lemma_fundamental_div_mod;
use vstd::arithmetic::div_mod::lemma_mod_bound;
use vstd::arithmetic::div_mod::lemma_small_mod;
use vstd::arithmetic::mul::lemma_mul_inequality;
use crate::geometry::Point;
use crate::geometry::Rect;

verus! {

/// One connected display.
///
/// `id` names the display for one enumeration; `bounds` is its full area and
/// `work_area` the part that is left to windows. The order of the monitors
/// in a list is the order in which windows cycle through them.
#[derive(Debug, Clone, Copy, PartialEq, Eq, Structural)]
pub struct MonitorInfo {
    pub id: u64,
    pub bounds: Rect,
    pub work_area: Rect,
}

impl MonitorInfo {
    /// A monitor that windows can be placed on: its work area is not empty
    /// and lies within its bounds.
    pub open spec fn is_usable(self) -> bool {
        &&& self.work_area.width > 0
        &&& self.work_area.height > 0
        &&& self.bounds.encloses(self.work_area)
    }
}

/// Where an offset into a span of length `from_len` falls in a span of
/// length `to_len`, if it keeps its share of the span: the whole pixel at or
/// below `to_len * offset / from_len`. A span of length zero gives no share,
/// and every offset into it falls on the start.
pub open spec fn scaled_offset(offset: int, from_len: int, to_len: int) -> int {
    if from_len > 0 {
        (to_len * offset) / from_len
    } else {
        0
    }
}

/// The length that a window of length `len` has where `room` is
/// available: it shrinks to fit and never grows.
pub open spec fn fitted_len(len: int, room: int) -> int {
    if len <= room {
        len
    } else {
        room
    }
}

/// The origin, along one axis, of a window moved from one span to another.
///
/// The window starts at `pos` and is `len` long; it sits relative to the
/// span that starts at `from_origin` and is `from_len` long, and goes to
/// the span that starts at `to_origin` and is `to_len` long. Its origin
/// keeps its share of the span, then is held first to the near edge and
/// after that to the far edge, for the length that the window has there.
pub open spec fn relocated_origin(
    pos: int,
    len: int,
    from_origin: int,
    from_len: int,
    to_origin: int,
    to_len: int,
) -> int {
    let size = fitted_len(len, to_len);
    let mapped = to_origin + scaled_offset(pos - from_origin, from_len, to_len);
    let low = if mapped < to_origin {
        to_origin
    } else {
        mapped
    };
    if low + size > to_origin + to_len {
        to_origin + to_len - size
    } else {
        low
    }
}

/// The left edge that a window with frame `frame` gets when it moves from
/// the work area `from` to the work area `to`.
pub open spec fn relocated_x(frame: Rect, from: Rect, to: Rect) -> int {
    relocated_origin(
        frame.x as int,
        frame.width as int,
        from.x as int,
        from.width as int,
        to.x as int,
        to.width as int,
    )
}

/// The top edge that a window with frame `frame` gets when it moves from
/// the work area `from` to the work area `to`.
pub open spec fn relocated_y(frame: Rect, from: Rect, to: Rect) -> int {
    relocated_origin(
        frame.y as int,
        frame.height as int,
        from.y as int,
        from.height as int,
        to.y as int,
        to.height as int,
    )
}

/// A share of a span that lies at or before its start stays there.
proof fn lemma_scaled_offset_sign(offset: int, from_len: int, to_len: int)
    requires
        from_len > 0,
        to_len >= 0,
    ensures
        offset <= 0 ==> scaled_offset(offset, from_len, to_len) <= 0,
        offset >= 0 ==> scaled_offset(offset, from_len, to_len) >= 0,
{
    assert(offset <= 0 ==> (to_len * offset) / from_len <= 0) by (nonlinear_arith)
        requires
            from_len > 0,
            to_len >= 0,
    ;
    assert(offset >= 0 ==> (to_len * offset) / from_len >= 0) by (nonlinear_arith)
        requires
            from_len > 0,
            to_len >= 0,
    ;
}

/// One axis of `calculate_new_position`.
fn relocate_axis(
    pos: i32,
    len: u32,
    from_origin: i32,
    from_len: u32,
    to_origin: i32,
    to_len: u32,
) -> (placed: (i64, u32))
    ensures
        placed.0 == relocated_origin(
            pos as int,
            len as int,
            from_origin as int,
            from_len as int,
            to_origin as int,
            to_len as int,
        ),
        placed.1 == fitted_len(len as int, to_len as int),
{
    let size: u32 = if len <= to_len {
        len
    } else {
        to_len
    };
    let room: u32 = to_len - size;
    let offset: i64 = pos as i64 - from_origin as i64;
    let shift: u32 = if from_len == 0 || offset <= 0 {
        proof {
            if from_len > 0 {
                lemma_scaled_offset_sign(offset as int, from_len as int, to_len as int);
            }
        }
        0
    } else {
        assert(to_len as u64 * offset as u64 <= u64::MAX) by (nonlinear_arith)
            requires
                0 <= to_len <= 0xffff_ffff,
                0 < offset <= 0xffff_ffff,
        ;
        let scaled: u64 = (to_len as u64 * offset as u64) / from_len as u64;
        proof {
            lemma_scaled_offset_sign(offset as int, from_len as int, to_len as int);
        }
        if scaled > room as u64 {
            room
        } else {
            scaled as u32
        }
    };
    (to_origin as i64 + shift as i64, size)
}

/// Places a window on the next monitor.
///
/// The window keeps the share of the work area that lies to its left and
/// above it, keeps its size where that fits the new work area and takes the
/// work area's size where it does not, and ends up wholly within the new
/// work area. Returns the new top-left corner, the new width and the new
/// height.
pub fn calculate_new_position(
    window_frame: &Rect,
    current_monitor: &MonitorInfo,
    next_monitor: &MonitorInfo,
) -> (placed: (Point, u32, u32))
    ensures
        placed.0.x == relocated_x(*window_frame, current_monitor.work_area, next_monitor.work_area),
        placed.0.y == relocated_y(*window_frame, current_monitor.work_area, next_monitor.work_area),
        placed.1 == fitted_len(window_frame.width as int, next_monitor.work_area.width as int),
        placed.2 == fitted_len(window_frame.height as int, next_monitor.work_area.height as int),
        next_monitor.work_area.encloses_area(placed.0, placed.1 as int, placed.2 as int),
        placed.1 <= window_frame.width,
        placed.2 <= window_frame.height,
{
    let current_work = &current_monitor.work_area;
    let next_work = &next_monitor.work_area;
    let (new_x, final_width) = relocate_axis(
        window_frame.x,
        window_frame.width,
        current_work.x,
        current_work.width,
        next_work.x,
        next_work.width,
    );
    let (new_y, final_height) = relocate_axis(
        window_frame.y,
        window_frame.height,
        current_work.y,
        current_work.height,
        next_work.y,
        next_work.height,
    );
    proof {
        lemma_relocated_origin_within(
            window_frame.x as int,
            window_frame.width as int,
            current_work.x as int,
            current_work.width as int,
            next_work.x as int,
            next_work.width as int,
        );
        lemma_relocated_origin_within(
            window_frame.y as int,
            window_frame.height as int,
            current_work.y as int,
            current_work.height as int,
            next_work.y as int,
            next_work.height as int,
        );
    }
    (Point { x: new_x, y: new_y }, final_width, final_height)
}

/// A relocated window lies within the span it was moved to, whatever it was
/// and wherever it came from.
pub proof fn lemma_relocated_origin_within(
    pos: int,
    len: int,
    from_origin: int,
    from_len: int,
    to_origin: int,
    to_len: int,
)
    requires
        len >= 0,
        to_len >= 0,
    ensures
        to_origin <= relocated_origin(pos, len, from_origin, from_len, to_origin, to_len),
        relocated_origin(pos, len, from_origin, from_len, to_origin, to_len) + fitted_len(
            len,
            to_len,
        ) <= to_origin + to_len,
        0 <= fitted_len(len, to_len) <= len,
        fitted_len(len, to_len) <= to_len,
{
}

/// Holding a window to the near edge first and to the far edge after that
/// comes to the same as holding its origin between the start of the span
/// and the last place at which the window still ends within the span.
pub proof fn lemma_relocated_origin_is_held_between(
    pos: int,
    len: int,
    from_origin: int,
    from_len: int,
    to_origin: int,
    to_len: int,
)
    requires
        len >= 0,
        to_len >= 0,
    ensures
        ({
            let mapped = to_origin + scaled_offset(pos - from_origin, from_len, to_len);
            let last = to_origin + to_len - fitted_len(len, to_len);
            &&& to_origin <= last
            &&& relocated_origin(pos, len, from_origin, from_len, to_origin, to_len) == if mapped
                < to_origin {
                to_origin
            } else if mapped > last {
                last
            } else {
                mapped
            }
        }),
{
}

/// A window that moves to a usable monitor lies wholly within the bounds of
/// that monitor, not only within its work area.
pub proof fn lemma_placed_within_bounds(frame: Rect, from: Rect, next_monitor: MonitorInfo)
    requires
        next_monitor.is_usable(),
    ensures
        next_monitor.bounds.spec_min_x() <= relocated_x(frame, from, next_monitor.work_area),
        relocated_x(frame, from, next_monitor.work_area) + fitted_len(
            frame.width as int,
            next_monitor.work_area.width as int,
        ) <= next_monitor.bounds.spec_max_x(),
        next_monitor.bounds.spec_min_y() <= relocated_y(frame, from, next_monitor.work_area),
        relocated_y(frame, from, next_monitor.work_area) + fitted_len(
            frame.height as int,
            next_monitor.work_area.height as int,
        ) <= next_monitor.bounds.spec_max_y(),
{
    let to = next_monitor.work_area;
    lemma_relocated_origin_within(
        frame.x as int,
        frame.width as int,
        from.x as int,
        from.width as int,
        to.x as int,
        to.width as int,
    );
    lemma_relocated_origin_within(
        frame.y as int,
        frame.height as int,
        from.y as int,
        from.height as int,
        to.y as int,
        to.height as int,
    );
}

/// A window that is at least as long as the span it moves to takes the
/// whole span: it starts at the span's start and is as long as the span.
pub proof fn lemma_oversized_window_fills_span(
    pos: int,
    len: int,
    from_origin: int,
    from_len: int,
    to_origin: int,
    to_len: int,
)
    requires
        len >= to_len >= 0,
    ensures
        relocated_origin(pos, len, from_origin, from_len, to_origin, to_len) == to_origin,
        fitted_len(len, to_len) == to_len,
{
}

/// A window that lies within a span and moves to a span of the same length
/// keeps its size and its distance from the start of the span. Moved to
/// the span that it is in, it stays where it is.
pub proof fn lemma_equal_spans_keep_offset(
    pos: int,
    len: int,
    from_origin: int,
    to_origin: int,
    span_len: int,
)
    requires
        len >= 0,
        from_origin <= pos,
        pos + len <= from_origin + span_len,
    ensures
        relocated_origin(pos, len, from_origin, span_len, to_origin, span_len) - to_origin == pos
            - from_origin,
        fitted_len(len, span_len) == len,
        relocated_origin(pos, len, from_origin, span_len, from_origin, span_len) == pos,
{
    if span_len > 0 {
        lemma_div_multiples_vanish(pos - from_origin, span_len);
    }
}

/// A window that starts within a span, and is not held back by the far
/// edge of the span it moves to, keeps its share of the span to the whole
/// pixel: its distance from the start is to the new span's length as its
/// old distance was to the old span's, rounded down.
pub proof fn lemma_share_is_kept(
    pos: int,
    len: int,
    from_origin: int,
    from_len: int,
    to_origin: int,
    to_len: int,
)
    requires
        len >= 0,
        to_len >= 0,
        from_len > 0,
        from_origin <= pos,
        relocated_origin(pos, len, from_origin, from_len, to_origin, to_len) + fitted_len(
            len,
            to_len,
        ) < to_origin + to_len,
    ensures
        ({
            let placed = relocated_origin(pos, len, from_origin, from_len, to_origin, to_len);
            &&& from_len * (placed - to_origin) <= to_len * (pos - from_origin)
            &&& to_len * (pos - from_origin) < from_len * (placed - to_origin + 1)
        }),
{
    let offset = pos - from_origin;
    lemma_scaled_offset_sign(offset, from_len, to_len);
    lemma_fundamental_div_mod(to_len * offset, from_len);
    lemma_mod_bound(to_len * offset, from_len);
    let share = (to_len * offset) / from_len;
    assert(from_len * (share + 1) == from_len * share + from_len) by (nonlinear_arith);
}

/// Relocation keeps windows in order: of two windows of the same length,
/// the one that starts further along a span starts no less far along the
/// span they move to.
pub proof fn lemma_relocation_keeps_order(
    first_pos: int,
    second_pos: int,
    len: int,
    from_origin: int,
    from_len: int,
    to_origin: int,
    to_len: int,
)
    requires
        first_pos <= second_pos,
        len >= 0,
        to_len >= 0,
    ensures
        relocated_origin(first_pos, len, from_origin, from_len, to_origin, to_len)
            <= relocated_origin(second_pos, len, from_origin, from_len, to_origin, to_len),
{
    if from_len > 0 {
        lemma_mul_inequality(first_pos - from_origin, second_pos - from_origin, to_len);
        lemma_div_is_ordered(
            to_len * (first_pos - from_origin),
            to_len * (second_pos - from_origin),
            from_len,
        );
    }
}

/// Whether `index` names the first monitor of the list whose bounds hold
/// `point`.
pub open spec fn is_first_monitor_holding(
    monitors: Seq<MonitorInfo>,
    point: Point,
    index: int,
) -> bool {
    &&& 0 <= index < monitors.len()
    &&& monitors[index].bounds.spec_contains(point)
    &&& forall|earlier: int|
        0 <= earlier < index ==> !(#[trigger] monitors[earlier]).bounds.spec_contains(point)
}

/// Whether no monitor of the list holds `point` in its bounds.
pub open spec fn no_monitor_holds(monitors: Seq<MonitorInfo>, point: Point) -> bool {
    forall|index: int|
        0 <= index < monitors.len() ==> !(#[trigger] monitors[index]).bounds.spec_contains(point)
}

/// The index of the first monitor of the list whose bounds hold `point`,
/// or `None` where no monitor holds it.
pub open spec fn monitor_of_point(monitors: Seq<MonitorInfo>, point: Point) -> Option<int> {
    if exists|index: int| is_first_monitor_holding(monitors, point, index) {
        Some(choose|index: int| is_first_monitor_holding(monitors, point, index))
    } else {
        None
    }
}

/// At most one monitor is the first to hold a point, so `monitor_of_point`
/// names it, and names none exactly where no monitor holds the point.
pub proof fn lemma_monitor_of_point(monitors: Seq<MonitorInfo>, point: Point)
    ensures
        match monitor_of_point(monitors, point) {
            Some(index) => is_first_monitor_holding(monitors, point, index),
            None => no_monitor_holds(monitors, point),
        },
        forall|index: int|
            is_first_monitor_holding(monitors, point, index) ==> monitor_of_point(monitors, point)
                == Some(index),
{
    if exists|index: int| is_first_monitor_holding(monitors, point, index) {
        let chosen = choose|index: int| is_first_monitor_holding(monitors, point, index);
        assert forall|index: int| is_first_monitor_holding(monitors, point, index) implies index
            == chosen by {
            if index < chosen {
                assert(!monitors[index].bounds.spec_contains(point));
            }
            if chosen < index {
                assert(!monitors[chosen].bounds.spec_contains(point));
            }
        }
    } else {
        assert forall|index: int| 0 <= index < monitors.len() implies !(
        #[trigger] monitors[index]).bounds.spec_contains(point) by {
            if monitors[index].bounds.spec_contains(point) {
                lemma_some_monitor_is_first(monitors, point, index);
            }
        }
    }
}

/// Where some monitor holds a point, one of them is the first to.
proof fn lemma_some_monitor_is_first(monitors: Seq<MonitorInfo>, point: Point, index: int)
    requires
        0 <= index < monitors.len(),
        monitors[index].bounds.spec_contains(point),
    ensures
        exists|first: int| is_first_monitor_holding(monitors, point, first),
    decreases index,
{
    if exists|earlier: int|
        0 <= earlier < index && (#[trigger] monitors[earlier]).bounds.spec_contains(point) {
        let earlier = choose|earlier: int|
            0 <= earlier < index && (#[trigger] monitors[earlier]).bounds.spec_contains(point);
        lemma_some_monitor_is_first(monitors, point, earlier);
    } else {
        assert(is_first_monitor_holding(monitors, point, index));
    }
}

/// Finds the monitor that a point is on: the first in list order whose
/// bounds hold it, or `None` where none does.
pub fn find_monitor_for_point(point: Point, monitors: &[MonitorInfo]) -> (found: Option<usize>)
    ensures
        match found {
            Some(index) => is_first_monitor_holding(monitors@, point, index as int),
            None => no_monitor_holds(monitors@, point),
        },
        match found {
            Some(index) => monitor_of_point(monitors@, point) == Some(index as int),
            None => monitor_of_point(monitors@, point).is_none(),
        },
{
    proof {
        lemma_monitor_of_point(monitors@, point);
    }
    let mut index: usize = 0;
    while index < monitors.len()
        invariant
            index <= monitors.len(),
            forall|earlier: int|
                0 <= earlier < index ==> !(#[trigger] monitors@[earlier]).bounds.spec_contains(
                    point,
                ),
        decreases monitors.len() - index,
    {
        if monitors[index].bounds.contains(point) {
            return Some(index);
        }
        index += 1;
    }
    None
}

/// The monitor that follows `current` in a ring of `total` monitors.
pub open spec fn spec_next_monitor_index(current: int, total: int) -> int {
    (current + 1) % total
}

/// The monitor reached from `current` by going to the next monitor `steps`
/// times.
pub open spec fn nth_next_monitor_index(current: int, total: int, steps: nat) -> int
    decreases steps,
{
    if steps == 0 {
        current
    } else {
        spec_next_monitor_index(nth_next_monitor_index(current, total, (steps - 1) as nat), total)
    }
}

/// The index of the monitor after `current` in the cycle: `(current + 1)
/// mod total`.
///
/// With one monitor the next monitor is that monitor itself, so a caller
/// with fewer than two monitors has nowhere to move a window and does not
/// ask.
pub fn next_monitor_index(current: usize, total: usize) -> (next: usize)
    requires
        total > 0,
    ensures
        next == spec_next_monitor_index(current as int, total as int),
        next < total,
{
    proof {
        lemma_add_mod_noop(current as int, 1, total as int);
        if total > 1 {
            lemma_small_mod(1, total as nat);
        }
    }
    (current % total + 1) % total
}

/// Going to the next monitor `steps` times from a monitor of the ring
/// advances the index by `steps`, around the ring.
pub proof fn lemma_nth_next_monitor_index(current: int, total: int, steps: nat)
    requires
        0 <= current < total,
    ensures
        nth_next_monitor_index(current, total, steps) == (current + steps) % total,
        0 <= nth_next_monitor_index(current, total, steps) < total,
    decreases steps,
{
    if steps == 0 {
        lemma_small_mod(current as nat, total as nat);
    } else {
        lemma_nth_next_monitor_index(current, total, (steps - 1) as nat);
        lemma_add_mod_noop(current + steps - 1, 1, total);
        if total > 1 {
            lemma_small_mod(1, total as nat);
        }
    }
}

/// The cycle closes: from any monitor of a ring of `total` monitors, going
/// to the next monitor `total` times leads back to it.
pub proof fn lemma_monitor_cycle_closes(current: int, total: int)
    requires
        0 <= current < total,
    ensures
        nth_next_monitor_index(current, total, total as nat) == current,
{
    lemma_nth_next_monitor_index(current, total, total as nat);
    assert((current + total) % total == current) by (nonlinear_arith)
        requires
            0 <= current < total,
    ;
}

/// Whether `point` lies in the band at the top of `frame` that is
/// `title_bar_height` high: within the frame's left and right edges, and
/// from its top edge down to `title_bar_height` below it, edges included.
pub open spec fn in_title_band(point: Point, frame: Rect, title_bar_height: int) -> bool {
    &&& frame.spec_min_x() <= point.x <= frame.spec_max_x()
    &&& frame.spec_min_y() <= point.y <= frame.spec_min_y() + title_bar_height
}

/// Tells whether a point is in the title bar of a window, taken as the top
/// `title_bar_height` pixels of its frame.
pub fn is_in_title_bar(point: Point, window_frame: &Rect, title_bar_height: u32) -> (inside: bool)
    ensures
        inside == in_title_band(point, *window_frame, title_bar_height as int),
{
    point.x >= window_frame.min_x() && point.x <= window_frame.max_x() && point.y
        >= window_frame.min_y() && point.y <= window_frame.min_y() + title_bar_height as i64
}

/// A title band no higher than its window is part of the window.
pub proof fn lemma_title_band_within_frame(point: Point, frame: Rect, title_bar_height: int)
    requires
        title_bar_height <= frame.height,
        in_title_band(point, frame, title_bar_height),
    ensures
        frame.spec_contains(point),
{
}

/// The monitor that a window with frame `frame` is on: the first of
/// `monitors` whose bounds hold the window's midpoint.
pub open spec fn spec_monitor_for_window(
    frame: Option<Rect>,
    monitors: Seq<MonitorInfo>,
) -> Option<MonitorInfo> {
    match frame {
        Some(frame) => match monitor_of_point(monitors, frame.spec_center()) {
            Some(index) => Some(monitors[index]),
            None => None,
        },
        None => None,
    }
}

/// Finds the monitor that a window is on, from the window's frame: the
/// monitor that holds the frame's midpoint. There is none where the frame
/// is not known or its midpoint is on no monitor.
pub fn monitor_for_window(frame: Option<Rect>, monitors: &[MonitorInfo]) -> (found: Option<
    MonitorInfo,
>)
    ensures
        found == spec_monitor_for_window(frame, monitors@),
{
    match frame {
        Some(frame) => match find_monitor_for_point(frame.center(), monitors) {
            Some(index) => Some(monitors[index]),
            None => None,
        },
        None => None,
    }
}

} // verus!
