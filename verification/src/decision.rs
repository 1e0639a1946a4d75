//! What a click comes to: whether the window under it moves, where it
//! goes, and which commands take it there.

use vstd::prelude::*;
use crate::geometry::Point;
use crate::geometry::Rect;
use crate::monitor::calculate_new_position;
use crate::monitor::find_monitor_for_point;
use crate::monitor::fitted_len;
use crate::monitor::in_title_band;
use crate::monitor::is_in_title_bar;
use crate::monitor::lemma_relocated_origin_within;
use crate::monitor::monitor_of_point;
use crate::monitor::next_monitor_index;
use crate::monitor::relocated_x;
use crate::monitor::relocated_y;
use crate::monitor::spec_next_monitor_index;
use crate::monitor::MonitorInfo;
use crate::platform::WindowHandle;

verus! {


/// What a click comes to.
#[derive(Debug, Clone, Copy, PartialEq, Eq, Structural)]
pub enum MoveDecision {
    /// The window stays, and the click goes on to whatever is under it.
    NoMove,
    /// The window goes to the monitor `target_monitor_index`, with its
    /// top-left corner at `new_position` and the size `new_width` by
    /// `new_height`.
    Move { new_position: Point, new_width: u32, new_height: u32, target_monitor_index: usize },
}

/// The move of a window with frame `frame` from the monitor `current` of
/// `monitors` to the one after it. There is none with fewer than two
/// monitors, nor where `current` is no monitor of the list.
pub open spec fn spec_relocate_to_next(
    frame: Rect,
    monitors: Seq<MonitorInfo>,
    current: int,
) -> MoveDecision {
    if monitors.len() < 2 || !(0 <= current < monitors.len()) {
        MoveDecision::NoMove
    } else {
        let next = spec_next_monitor_index(current, monitors.len() as int);
        let from = monitors[current].work_area;
        let to = monitors[next].work_area;
        MoveDecision::Move {
            new_position: Point {
                x: relocated_x(frame, from, to) as i64,
                y: relocated_y(frame, from, to) as i64,
            },
            new_width: fitted_len(frame.width as int, to.width as int) as u32,
            new_height: fitted_len(frame.height as int, to.height as int) as u32,
            target_monitor_index: next as usize,
        }
    }
}

/// The move of a window with frame `frame` among `monitors`: from the
/// monitor that holds the window's midpoint to the one after it. There is
/// none with fewer than two monitors, nor where no monitor holds the
/// midpoint.
pub open spec fn spec_decide_move(frame: Rect, monitors: Seq<MonitorInfo>) -> MoveDecision {
    match monitor_of_point(monitors, frame.spec_center()) {
        Some(current) => spec_relocate_to_next(frame, monitors, current),
        None => MoveDecision::NoMove,
    }
}

/// What a click at `click_point` comes to for a window with frame
/// `window_frame` on the monitor `current` of `monitors`: a move to the
/// next monitor where the click is in the window's title band, and none
/// where it is not.
pub open spec fn spec_evaluate_gesture(
    click_point: Point,
    window_frame: Rect,
    title_bar_height: int,
    monitors: Seq<MonitorInfo>,
    current: int,
) -> MoveDecision {
    if in_title_band(click_point, window_frame, title_bar_height) {
        spec_relocate_to_next(window_frame, monitors, current)
    } else {
        MoveDecision::NoMove
    }
}

/// Moves a window from the monitor `current_monitor_index` to the next one
/// in the cycle.
pub fn relocate_to_next(
    window_frame: &Rect,
    monitors: &[MonitorInfo],
    current_monitor_index: usize,
) -> (decision: MoveDecision)
    ensures
        decision == spec_relocate_to_next(*window_frame, monitors@, current_monitor_index as int),
        monitors.len() < 2 ==> decision == MoveDecision::NoMove,
        decision is Move <==> monitors.len() >= 2 && current_monitor_index < monitors.len(),
        decision matches MoveDecision::Move {
            new_position,
            new_width,
            new_height,
            target_monitor_index,
        } ==> {
            &&& target_monitor_index < monitors.len()
            &&& monitors@[target_monitor_index as int].work_area.encloses_area(
                new_position,
                new_width as int,
                new_height as int,
            )
            &&& new_width <= window_frame.width
            &&& new_height <= window_frame.height
        },
{
    if monitors.len() < 2 || current_monitor_index >= monitors.len() {
        return MoveDecision::NoMove;
    }
    let next: usize = next_monitor_index(current_monitor_index, monitors.len());
    let (new_position, new_width, new_height) = calculate_new_position(
        window_frame,
        &monitors[current_monitor_index],
        &monitors[next],
    );
    MoveDecision::Move { new_position, new_width, new_height, target_monitor_index: next }
}

/// Decides where a window goes: from the monitor that holds its midpoint to
/// the next one in the cycle.
pub fn decide_move(window_frame: &Rect, monitors: &[MonitorInfo]) -> (decision: MoveDecision)
    ensures
        decision == spec_decide_move(*window_frame, monitors@),
        monitors.len() < 2 ==> decision == MoveDecision::NoMove,
{
    if monitors.len() < 2 {
        return MoveDecision::NoMove;
    }
    match find_monitor_for_point(window_frame.center(), monitors) {
        Some(current) => relocate_to_next(window_frame, monitors, current),
        None => MoveDecision::NoMove,
    }
}

/// Decides what a click on a window comes to.
///
/// The window moves to the monitor after `current_monitor_index` where the
/// click is in the top `title_bar_height` pixels of the window's frame,
/// there are at least two monitors, and `current_monitor_index` is one of
/// them. In every other case it stays.
pub fn evaluate_gesture(
    click_point: Point,
    window_frame: &Rect,
    title_bar_height: u32,
    monitors: &[MonitorInfo],
    current_monitor_index: usize,
) -> (decision: MoveDecision)
    ensures
        decision == spec_evaluate_gesture(
            click_point,
            *window_frame,
            title_bar_height as int,
            monitors@,
            current_monitor_index as int,
        ),
        monitors.len() < 2 ==> decision == MoveDecision::NoMove,
        decision is Move <==> in_title_band(click_point, *window_frame, title_bar_height as int)
            && monitors.len() >= 2 && current_monitor_index < monitors.len(),
{
    if !is_in_title_bar(click_point, window_frame, title_bar_height) {
        return MoveDecision::NoMove;
    }
    relocate_to_next(window_frame, monitors, current_monitor_index)
}

impl MoveDecision {
    /// Whether the click is taken from the application under it: it is
    /// once the window is to move, whatever becomes of the commands that
    /// move it.
    pub fn consumes_click(&self) -> (consumed: bool)
        ensures
            consumed == (*self is Move),
    {
        match self {
            MoveDecision::NoMove => false,
            MoveDecision::Move { .. } => true,
        }
    }
}

/// One command to the window that is to move.
#[derive(Debug, Clone, Copy, PartialEq, Eq, Structural)]
pub enum WindowCommand {
    /// Restore the window if it is maximized, so that it can be placed.
    RestoreIfMaximized,
    /// Put the window's top-left corner at the point.
    SetPosition(Point),
    /// Give the window this width and height.
    SetSize(u32, u32),
    /// Bring the window to the front and give it the focus.
    Activate,
}

/// Whether a window of size `width` by `height` has to be resized to become
/// `new_width` by `new_height`: it has where either side changes by more
/// than one pixel.
pub open spec fn needs_resize(width: int, height: int, new_width: int, new_height: int) -> bool {
    ||| new_width - width > 1
    ||| width - new_width > 1
    ||| new_height - height > 1
    ||| height - new_height > 1
}

/// The commands that carry out `decision` on a window with frame `frame`,
/// in the order in which they are issued.
pub open spec fn spec_commands_for(
    frame: Rect,
    decision: MoveDecision,
    restore_maximized: bool,
) -> Seq<WindowCommand> {
    match decision {
        MoveDecision::NoMove => Seq::empty(),
        MoveDecision::Move { new_position, new_width, new_height, .. } => {
            let restore = if restore_maximized {
                seq![WindowCommand::RestoreIfMaximized]
            } else {
                Seq::empty()
            };
            let resize = if needs_resize(
                frame.width as int,
                frame.height as int,
                new_width as int,
                new_height as int,
            ) {
                seq![WindowCommand::SetSize(new_width, new_height)]
            } else {
                Seq::empty()
            };
            restore + seq![WindowCommand::SetPosition(new_position)] + resize
                + seq![WindowCommand::Activate]
        },
    }
}

/// Lists the commands that carry out a decision, in order.
///
/// A window that stays gets none. A window that moves is first restored
/// from its maximized state where `restore_maximized` asks for that, then
/// positioned, then resized if its size changes by more than one pixel, then
/// activated. Each command is issued whether or not the one before it
/// succeeded.
pub fn commands_for(window_frame: &Rect, decision: &MoveDecision, restore_maximized: bool) -> (commands:
    Vec<WindowCommand>)
    ensures
        commands@ == spec_commands_for(*window_frame, *decision, restore_maximized),
{
    let mut commands: Vec<WindowCommand> = Vec::new();
    match decision {
        MoveDecision::NoMove => {},
        MoveDecision::Move { new_position, new_width, new_height, .. } => {
            if restore_maximized {
                commands.push(WindowCommand::RestoreIfMaximized);
            }
            commands.push(WindowCommand::SetPosition(*new_position));
            let width_changes: bool = if *new_width > window_frame.width {
                *new_width - window_frame.width > 1
            } else {
                window_frame.width - *new_width > 1
            };
            let height_changes: bool = if *new_height > window_frame.height {
                *new_height - window_frame.height > 1
            } else {
                window_frame.height - *new_height > 1
            };
            if width_changes || height_changes {
                commands.push(WindowCommand::SetSize(*new_width, *new_height));
            }
            commands.push(WindowCommand::Activate);
        },
    }
    commands
}

/// How a gesture tells whether the click is on the window's title bar.
#[derive(Debug, Clone, Copy, PartialEq, Eq, Structural)]
pub enum TitleBarTest {
    /// The title bar is the top band of the window's frame, this high.
    Band(u32),
    /// The platform has a hit test of its own, and is asked.
    Native,
}

/// Everything the platform can be asked about one click, asked at once.
#[derive(Debug, Clone)]
pub struct Observations {
    /// The window at the click point, if there is one.
    pub window: Option<WindowHandle>,
    /// Whether the element at the click point is an interactive control.
    pub interactive: bool,
    /// The frame of the window, where it can be had.
    pub frame: Option<Rect>,
    /// Whether the platform's own hit test puts the click on the title bar.
    pub title_bar: bool,
    /// The connected monitors, in cycle order.
    pub monitors: Vec<MonitorInfo>,
}

/// Whether a click at `click_point` is on the title bar of a window with
/// frame `frame`, by the test `title_bar`; `native_hit` is what the
/// platform's own hit test says.
pub open spec fn on_title_bar(
    click_point: Point,
    title_bar: TitleBarTest,
    frame: Rect,
    native_hit: bool,
) -> bool {
    match title_bar {
        TitleBarTest::Band(height) => in_title_band(click_point, frame, height as int),
        TitleBarTest::Native => native_hit,
    }
}

/// What a click comes to, given all that the platform has to say about it.
///
/// The window moves only if there is a window under the click, the click
/// is on no interactive control, the window's frame is known, the click is
/// on the title bar, there are at least two monitors and one of them holds
/// the window's midpoint. It then moves as `spec_decide_move` says.
pub open spec fn spec_outcome(
    click_point: Point,
    title_bar: TitleBarTest,
    seen: Observations,
) -> MoveDecision {
    if seen.window.is_none() || seen.interactive {
        MoveDecision::NoMove
    } else {
        match seen.frame {
            None => MoveDecision::NoMove,
            Some(frame) => {
                if on_title_bar(click_point, title_bar, frame, seen.title_bar) {
                    spec_decide_move(frame, seen.monitors@)
                } else {
                    MoveDecision::NoMove
                }
            },
        }
    }
}

/// Decides what a click comes to from all that the platform has to say
/// about it.
pub fn decide_click(click_point: Point, title_bar: TitleBarTest, seen: &Observations) -> (decision:
    MoveDecision)
    ensures
        decision == spec_outcome(click_point, title_bar, *seen),
        seen.monitors.len() < 2 ==> decision == MoveDecision::NoMove,
{
    if seen.window.is_none() || seen.interactive {
        return MoveDecision::NoMove;
    }
    match seen.frame {
        None => MoveDecision::NoMove,
        Some(frame) => {
            let hit = match title_bar {
                TitleBarTest::Band(height) => is_in_title_bar(click_point, &frame, height),
                TitleBarTest::Native => seen.title_bar,
            };
            if hit {
                decide_move(&frame, seen.monitors.as_slice())
            } else {
                MoveDecision::NoMove
            }
        },
    }
}

/// With fewer than two monitors no window moves, whatever else the
/// platform has to say about the click.
pub proof fn lemma_fewer_than_two_monitors_no_move(
    click_point: Point,
    title_bar: TitleBarTest,
    seen: Observations,
    current: int,
)
    requires
        seen.monitors@.len() < 2,
    ensures
        spec_outcome(click_point, title_bar, seen) == MoveDecision::NoMove,
        forall|frame: Rect| spec_decide_move(frame, seen.monitors@) == MoveDecision::NoMove,
        forall|frame: Rect, height: int|
            spec_evaluate_gesture(click_point, frame, height, seen.monitors@, current)
                == MoveDecision::NoMove,
{
}

/// A window that moves lands wholly within the work area of the monitor it
/// moves to, is no larger than it was, and goes to the monitor after the
/// one it is on.
pub proof fn lemma_move_lands_in_work_area(frame: Rect, monitors: Seq<MonitorInfo>, current: int)
    requires
        monitors.len() <= usize::MAX,
    ensures
        spec_relocate_to_next(frame, monitors, current) matches MoveDecision::Move {
            new_position,
            new_width,
            new_height,
            target_monitor_index,
        } ==> {
            &&& target_monitor_index == spec_next_monitor_index(current, monitors.len() as int)
            &&& 0 <= target_monitor_index < monitors.len()
            &&& monitors[target_monitor_index as int].work_area.encloses_area(
                new_position,
                new_width as int,
                new_height as int,
            )
            &&& new_width <= frame.width
            &&& new_height <= frame.height
        },
{
    if monitors.len() >= 2 && 0 <= current < monitors.len() {
        let next = spec_next_monitor_index(current, monitors.len() as int);
        let from = monitors[current].work_area;
        let to = monitors[next].work_area;
        lemma_relocated_origin_within(
            frame.x as int,
            frame.width as int,
            from.x as int,
            from.width as int,
            to.x as int,
            to.width as int,
        );
        lemma_relocated_origin_within(
            frame.y as int,
            frame.height as int,
            from.y as int,
            from.height as int,
            to.y as int,
            to.height as int,
        );
    }
}

} // verus!
