//! Whether a click is on a title bar, from what the window itself says to
//! `WM_NCHITTEST`.

use vstd::prelude::*;
use crate::geometry::Point;
use crate::text::str_eq;

verus! {

/// The message that asks a window which of its parts is at a point.
pub const WM_NCHITTEST: u32 = 0x0084;

/// The answer to `WM_NCHITTEST` that names the title bar.
pub const HTCAPTION: i32 = 2;

/// The window class of the File Explorer, whose tabbed title bar answers
/// `WM_NCHITTEST` as if it were client area.
pub const EXPLORER_CLASS: &'static str = "CabinetWClass";

/// How far below the top of an Explorer window its title bar reaches.
pub const EXPLORER_TITLE_MARGIN: i32 = 60;

/// The low sixteen bits of `value`, as a number.
pub open spec fn low_word(value: int) -> int {
    value % 0x1_0000
}

/// The parameter of `WM_NCHITTEST` for the point `point`: the low word of
/// `x` in its low word, the low word of `y` in its high word.
pub open spec fn spec_hit_test_lparam(point: Point) -> int {
    low_word(point.y as int) * 0x1_0000 + low_word(point.x as int)
}

/// Whether a click at `point` is on the title bar of a window that answers
/// `WM_NCHITTEST` with `hit_code`, is of the class `class_name` and has its
/// top edge at `window_top`, where that is known.
///
/// It is where the window says so itself. An Explorer window does not, and
/// there the click is on the title bar where it is no higher than the
/// window's top edge and no more than `EXPLORER_TITLE_MARGIN` below it.
pub open spec fn spec_is_title_bar_hit(
    hit_code: i32,
    class_name: Seq<char>,
    window_top: Option<i32>,
    point: Point,
) -> bool {
    ||| hit_code == HTCAPTION
    ||| {
        &&& class_name == EXPLORER_CLASS@
        &&& window_top matches Some(top)
        &&& top <= point.y <= top + EXPLORER_TITLE_MARGIN
    }
}

/// The low sixteen bits of a coordinate.
fn low_word_of(value: i64) -> (word: u32)
    ensures
        word == low_word(value as int),
{
    if value >= 0 {
        (value % 0x1_0000) as u32
    } else {
        let below: i64 = (-(value + 1)) % 0x1_0000;
        (0xFFFF - below) as u32
    }
}

/// The hit tester of Windows.
#[derive(Debug, Clone, Copy, PartialEq, Eq, Structural)]
pub struct WinHitTester;

impl WinHitTester {
    pub fn new() -> (tester: WinHitTester) {
        WinHitTester
    }

    /// Packs a point into the parameter of `WM_NCHITTEST`.
    pub fn hit_test_lparam(&self, point: Point) -> (lparam: u32)
        ensures
            lparam == spec_hit_test_lparam(point),
    {
        let x: u32 = low_word_of(point.x);
        let y: u32 = low_word_of(point.y);
        y * 0x1_0000 + x
    }

    /// Decides whether a click is on the title bar of a window, from the
    /// window's answer to `WM_NCHITTEST`, its class name, and its top edge
    /// (`None` where its rectangle cannot be had).
    pub fn is_title_bar_hit(
        &self,
        hit_code: i32,
        class_name: &str,
        window_top: Option<i32>,
        point: Point,
    ) -> (hit: bool)
        ensures
            hit == spec_is_title_bar_hit(hit_code, class_name@, window_top, point),
    {
        if hit_code == HTCAPTION {
            return true;
        }
        if str_eq(class_name, EXPLORER_CLASS) {
            match window_top {
                Some(top) => {
                    point.y >= top as i64 && point.y <= top as i64 + EXPLORER_TITLE_MARGIN as i64
                },
                None => false,
            }
        } else {
            false
        }
    }

    /// Decides whether a click is on a tab of a window of the class
    /// `class_name`. No window class has tabs that are told apart from its
    /// title bar, so no click is.
    pub fn is_interactive_tab(&self, class_name: &str) -> (interactive: bool)
        ensures
            !interactive,
    {
        false
    }
}

} // verus!
