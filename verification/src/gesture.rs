//! One middle click, from the click to the commands that move the window.
//!
//! A [`Gesture`] puts its questions to the platform one at a time: which
//! window is under the click, is the click on a control, where is the
//! window, is the click on its title bar, which monitors are there. It
//! stops at the first answer that rules the move out. Once the answers
//! have settled on a move, it hands out the commands that carry the move
//! out, one at a time as well.
//!
//! Whoever has all the answers at hand can have the decision at once from
//! `decide_click`, and the commands from `commands_for`.

use vstd::prelude::*;
use crate::decision::commands_for;
use crate::decision::decide_move;
use crate::decision::on_title_bar;
use crate::decision::spec_commands_for;
use crate::decision::spec_decide_move;
use crate::decision::spec_outcome;
use crate::decision::MoveDecision;
use crate::decision::Observations;
use crate::decision::TitleBarTest;
use crate::decision::WindowCommand;
use crate::geometry::Point;
use crate::geometry::Rect;
use crate::monitor::in_title_band;
use crate::monitor::is_in_title_bar;
use crate::monitor::MonitorInfo;
use crate::platform::WindowHandle;

verus! {

/// What differs from platform to platform in how a gesture is evaluated.
#[derive(Debug, Clone, Copy, PartialEq, Eq, Structural)]
pub struct GestureSettings {
    /// How the title bar is told from the rest of the window.
    pub title_bar: TitleBarTest,
    /// Whether a maximized window is restored before it is moved.
    pub restore_maximized: bool,
}

/// What a gesture asks of the platform next.
#[derive(Debug, Clone, Copy, PartialEq, Eq, Structural)]
pub enum Request {
    /// Which window is at this point?
    WindowAt(Point),
    /// Is the element at this point a control that wants the click itself?
    InteractiveAt(WindowHandle, Point),
    /// What is the frame of this window?
    WindowFrame(WindowHandle),
    /// Does the platform's own hit test put this point on the window's
    /// title bar?
    TitleBarAt(WindowHandle, Point),
    /// Which monitors are connected, in cycle order?
    Monitors,
    /// Carry out this command on this window.
    Command(WindowHandle, WindowCommand),
    /// Nothing more. The click is taken from the application under it if
    /// `consumed`, and passed on to it if not.
    Finish { consumed: bool },
}

/// What the platform answers to a [`Request`].
#[derive(Debug, Clone)]
pub enum Answer {
    /// To `WindowAt`: the window, or `None` where there is none.
    Window(Option<WindowHandle>),
    /// To `InteractiveAt`: whether the element is such a control.
    Interactive(bool),
    /// To `WindowFrame`: the frame, or `None` where it cannot be had.
    Frame(Option<Rect>),
    /// To `TitleBarAt`: whether the point is on the title bar.
    TitleBar(bool),
    /// To `Monitors`: the monitors.
    Monitors(Vec<MonitorInfo>),
    /// To `Command`: whether the command succeeded.
    Performed(bool),
}

/// A gesture under evaluation: what has been learned so far, and so which
/// answer is awaited.
#[derive(Debug, Clone, Copy, PartialEq, Eq, Structural)]
pub enum Gesture {
    /// Awaits the answer to `WindowAt`.
    AwaitWindow { click_point: Point, settings: GestureSettings },
    /// There is a window. Awaits the answer to `InteractiveAt`.
    AwaitInteractive { click_point: Point, settings: GestureSettings, window: WindowHandle },
    /// The click is on no control. Awaits the answer to `WindowFrame`.
    AwaitFrame { click_point: Point, settings: GestureSettings, window: WindowHandle },
    /// The window's frame is known. Awaits the answer to `TitleBarAt`.
    AwaitTitleBar { settings: GestureSettings, window: WindowHandle, frame: Rect },
    /// The click is on the title bar. Awaits the answer to `Monitors`.
    AwaitMonitors { settings: GestureSettings, window: WindowHandle, frame: Rect },
    /// The window moves as `decision` says. Of the commands that move it,
    /// the first `issued` have been issued, and the last of those is
    /// awaited.
    Moving {
        window: WindowHandle,
        frame: Rect,
        decision: MoveDecision,
        restore_maximized: bool,
        issued: usize,
    },
    /// Finished.
    Done,
}

impl Gesture {
    /// The most answers that the gesture can still take before it is
    /// finished.
    pub open spec fn answers_left(self) -> nat {
        match self {
            Gesture::AwaitWindow { .. } => 10,
            Gesture::AwaitInteractive { .. } => 9,
            Gesture::AwaitFrame { .. } => 8,
            Gesture::AwaitTitleBar { .. } => 7,
            Gesture::AwaitMonitors { .. } => 6,
            Gesture::Moving { frame, decision, restore_maximized, issued, .. } => {
                let commands = spec_commands_for(frame, decision, restore_maximized);
                if issued < commands.len() {
                    (commands.len() - issued + 1) as nat
                } else {
                    1
                }
            },
            Gesture::Done => 0,
        }
    }

    /// The state and the request that follow once `issued` of the commands
    /// that carry out `decision` have been issued: the next command, or
    /// the end of the gesture after the last.
    pub open spec fn spec_next_command(
        window: WindowHandle,
        frame: Rect,
        decision: MoveDecision,
        restore_maximized: bool,
        issued: int,
    ) -> (Gesture, Request) {
        let commands = spec_commands_for(frame, decision, restore_maximized);
        if 0 <= issued < commands.len() {
            (
                Gesture::Moving {
                    window,
                    frame,
                    decision,
                    restore_maximized,
                    issued: (issued + 1) as usize,
                },
                Request::Command(window, commands[issued]),
            )
        } else {
            (Gesture::Done, Request::Finish { consumed: decision is Move })
        }
    }

    /// The state after `answer`, and the request that goes with it.
    ///
    /// While the gesture asks, an answer that rules the move out, or that
    /// is no answer to the pending request, ends it with the click passed
    /// on. Once the window is to move, the commands follow one another
    /// whatever the answers, and the click is consumed.
    pub open spec fn spec_advance(self, answer: Answer) -> (Gesture, Request) {
        match self {
            Gesture::Moving { window, frame, decision, restore_maximized, issued } => {
                Self::spec_next_command(window, frame, decision, restore_maximized, issued as int)
            },
            _ => match (self, answer) {
                (Gesture::AwaitWindow { click_point, settings }, Answer::Window(Some(window))) => (
                    Gesture::AwaitInteractive { click_point, settings, window },
                    Request::InteractiveAt(window, click_point),
                ),
                (
                    Gesture::AwaitInteractive { click_point, settings, window },
                    Answer::Interactive(false),
                ) => (
                    Gesture::AwaitFrame { click_point, settings, window },
                    Request::WindowFrame(window),
                ),
                (
                    Gesture::AwaitFrame { click_point, settings, window },
                    Answer::Frame(Some(frame)),
                ) => {
                    match settings.title_bar {
                        TitleBarTest::Band(height) => {
                            if in_title_band(click_point, frame, height as int) {
                                (
                                    Gesture::AwaitMonitors { settings, window, frame },
                                    Request::Monitors,
                                )
                            } else {
                                (Gesture::Done, Request::Finish { consumed: false })
                            }
                        },
                        TitleBarTest::Native => (
                            Gesture::AwaitTitleBar { settings, window, frame },
                            Request::TitleBarAt(window, click_point),
                        ),
                    }
                },
                (Gesture::AwaitTitleBar { settings, window, frame }, Answer::TitleBar(true)) => (
                    Gesture::AwaitMonitors { settings, window, frame },
                    Request::Monitors,
                ),
                (Gesture::AwaitMonitors { settings, window, frame }, Answer::Monitors(monitors)) => {
                    Self::spec_next_command(
                        window,
                        frame,
                        spec_decide_move(frame, monitors@),
                        settings.restore_maximized,
                        0,
                    )
                },
                _ => (Gesture::Done, Request::Finish { consumed: false }),
            },
        }
    }

    /// Starts the evaluation of a click at `click_point`.
    pub fn begin(click_point: Point, settings: GestureSettings) -> (start: (Gesture, Request))
        ensures
            start.0 == (Gesture::AwaitWindow { click_point, settings }),
            start.1 == Request::WindowAt(click_point),
    {
        (Gesture::AwaitWindow { click_point, settings }, Request::WindowAt(click_point))
    }

    /// The step that follows the first `issued` commands of a move.
    fn next_command(
        window: WindowHandle,
        frame: Rect,
        decision: MoveDecision,
        restore_maximized: bool,
        issued: usize,
    ) -> (next: (Gesture, Request))
        ensures
            next == Self::spec_next_command(
                window,
                frame,
                decision,
                restore_maximized,
                issued as int,
            ),
    {
        let commands = commands_for(&frame, &decision, restore_maximized);
        if issued < commands.len() {
            (
                Gesture::Moving { window, frame, decision, restore_maximized, issued: issued + 1 },
                Request::Command(window, commands[issued]),
            )
        } else {
            (Gesture::Done, Request::Finish { consumed: decision.consumes_click() })
        }
    }

    /// Takes the platform's answer to the pending request and gives the
    /// gesture's next state together with the next request.
    pub fn advance(self, answer: Answer) -> (next: (Gesture, Request))
        ensures
            next == self.spec_advance(answer),
            next.1 is Finish <==> next.0 == Gesture::Done,
            self != Gesture::Done ==> next.0.answers_left() < self.answers_left(),
    {
        match self {
            Gesture::Moving { window, frame, decision, restore_maximized, issued } => {
                Self::next_command(window, frame, decision, restore_maximized, issued)
            },
            _ => match (self, answer) {
                (Gesture::AwaitWindow { click_point, settings }, Answer::Window(Some(window))) => (
                    Gesture::AwaitInteractive { click_point, settings, window },
                    Request::InteractiveAt(window, click_point),
                ),
                (
                    Gesture::AwaitInteractive { click_point, settings, window },
                    Answer::Interactive(false),
                ) => (
                    Gesture::AwaitFrame { click_point, settings, window },
                    Request::WindowFrame(window),
                ),
                (
                    Gesture::AwaitFrame { click_point, settings, window },
                    Answer::Frame(Some(frame)),
                ) => {
                    match settings.title_bar {
                        TitleBarTest::Band(height) => {
                            if is_in_title_bar(click_point, &frame, height) {
                                (
                                    Gesture::AwaitMonitors { settings, window, frame },
                                    Request::Monitors,
                                )
                            } else {
                                (Gesture::Done, Request::Finish { consumed: false })
                            }
                        },
                        TitleBarTest::Native => (
                            Gesture::AwaitTitleBar { settings, window, frame },
                            Request::TitleBarAt(window, click_point),
                        ),
                    }
                },
                (Gesture::AwaitTitleBar { settings, window, frame }, Answer::TitleBar(true)) => (
                    Gesture::AwaitMonitors { settings, window, frame },
                    Request::Monitors,
                ),
                (Gesture::AwaitMonitors { settings, window, frame }, Answer::Monitors(monitors)) => {
                    let decision = decide_move(&frame, monitors.as_slice());
                    Self::next_command(window, frame, decision, settings.restore_maximized, 0)
                },
                _ => (Gesture::Done, Request::Finish { consumed: false }),
            },
        }
    }
}

/// The answer to `request` that `seen` holds; every command succeeds.
pub open spec fn answer_in(seen: Observations, request: Request) -> Answer {
    match request {
        Request::WindowAt(_) => Answer::Window(seen.window),
        Request::InteractiveAt(_, _) => Answer::Interactive(seen.interactive),
        Request::WindowFrame(_) => Answer::Frame(seen.frame),
        Request::TitleBarAt(_, _) => Answer::TitleBar(seen.title_bar),
        Request::Monitors => Answer::Monitors(seen.monitors),
        Request::Command(_, _) => Answer::Performed(true),
        Request::Finish { .. } => Answer::Performed(true),
    }
}

/// The requests that a gesture makes from the state `state` with the
/// pending request `request` on, the pending one first, when each is
/// answered from `seen`: up to its end, or up to `steps` answers.
pub open spec fn spec_requests(
    state: Gesture,
    request: Request,
    seen: Observations,
    steps: nat,
) -> Seq<Request>
    decreases steps,
{
    if request is Finish || steps == 0 {
        seq![request]
    } else {
        let next = state.spec_advance(answer_in(seen, request));
        seq![request] + spec_requests(next.0, next.1, seen, (steps - 1) as nat)
    }
}

/// The commands among `requests`, in order.
pub open spec fn commands_among(requests: Seq<Request>) -> Seq<WindowCommand>
    decreases requests.len(),
{
    if requests.len() == 0 {
        Seq::empty()
    } else {
        let rest = commands_among(requests.drop_first());
        match requests[0] {
            Request::Command(_, command) => seq![command] + rest,
            _ => rest,
        }
    }
}

/// Whether every command among `requests` is for the window `window`.
pub open spec fn commands_go_to(requests: Seq<Request>, window: WindowHandle) -> bool {
    forall|index: int|
        0 <= index < requests.len() ==> (#[trigger] requests[index] matches Request::Command(
            target,
            _,
        ) ==> target == window)
}

/// The commands among a request followed by others are that request, if it
/// is a command, followed by the commands among the others.
proof fn lemma_commands_among_first(first: Request, rest: Seq<Request>)
    ensures
        commands_among(seq![first] + rest) == match first {
            Request::Command(_, command) => seq![command] + commands_among(rest),
            _ => commands_among(rest),
        },
{
    assert((seq![first] + rest).drop_first() =~= rest);
}

/// The commands among a request followed by others are all for one window
/// where those among the others are, and the request is no command or is
/// one for that window.
proof fn lemma_commands_go_to_first(first: Request, rest: Seq<Request>, window: WindowHandle)
    requires
        commands_go_to(rest, window),
        first matches Request::Command(target, _) ==> target == window,
    ensures
        commands_go_to(seq![first] + rest, window),
{
    let requests = seq![first] + rest;
    assert forall|index: int| 0 <= index < requests.len() implies (
    #[trigger] requests[index] matches Request::Command(target, _) ==> target == window) by {
        if index > 0 {
            assert(requests[index] == rest[index - 1]);
        }
    }
}

/// The requests of a gesture from a pending request on are that request
/// and then those that follow its answer. The last of them is the last of
/// those that follow. The commands among them are those among the ones
/// that follow, after the pending request where that is a command. They are
/// all for one window where that holds of the pending request and of those
/// that follow.
proof fn lemma_requests_unfold(state: Gesture, request: Request, seen: Observations, steps: nat)
    requires
        !(request is Finish),
        steps > 0,
    ensures
        ({
            let next = state.spec_advance(answer_in(seen, request));
            let later = spec_requests(next.0, next.1, seen, (steps - 1) as nat);
            let requests = spec_requests(state, request, seen, steps);
            &&& requests == seq![request] + later
            &&& requests.last() == later.last()
            &&& commands_among(requests) == match request {
                Request::Command(_, command) => seq![command] + commands_among(later),
                _ => commands_among(later),
            }
            &&& forall|window: WindowHandle|
                commands_go_to(later, window) && (request matches Request::Command(target, _)
                    ==> target == window) ==> commands_go_to(requests, window)
        }),
{
    let next = state.spec_advance(answer_in(seen, request));
    let later = spec_requests(next.0, next.1, seen, (steps - 1) as nat);
    lemma_commands_among_first(request, later);
    assert forall|window: WindowHandle|
        commands_go_to(later, window) && (request matches Request::Command(target, _) ==> target
            == window) implies commands_go_to(seq![request] + later, window) by {
        lemma_commands_go_to_first(request, later, window);
    }
}

/// A gesture that ends at once issues no command.
proof fn lemma_requests_end(state: Gesture, consumed: bool, seen: Observations, steps: nat)
    ensures
        ({
            let end = Request::Finish { consumed };
            let requests = spec_requests(state, end, seen, steps);
            &&& requests == seq![end]
            &&& requests.last() == end
            &&& commands_among(requests) == Seq::<WindowCommand>::empty()
            &&& forall|window: WindowHandle| commands_go_to(requests, window)
        }),
{
    let end = Request::Finish { consumed };
    lemma_commands_among_first(end, Seq::empty());
    assert(seq![end] + Seq::<Request>::empty() =~= seq![end]);
}

/// Once `issued` commands of a move have been issued, the rest of them
/// follow in order, each to the window, and the gesture then ends with the
/// click consumed.
proof fn lemma_commands_follow(
    window: WindowHandle,
    frame: Rect,
    decision: MoveDecision,
    restore_maximized: bool,
    issued: int,
    seen: Observations,
    steps: nat,
)
    requires
        0 <= issued <= spec_commands_for(frame, decision, restore_maximized).len(),
        steps >= spec_commands_for(frame, decision, restore_maximized).len() - issued,
    ensures
        ({
            let commands = spec_commands_for(frame, decision, restore_maximized);
            let next = Gesture::spec_next_command(
                window,
                frame,
                decision,
                restore_maximized,
                issued,
            );
            let requests = spec_requests(next.0, next.1, seen, steps);
            &&& commands_among(requests) == commands.subrange(issued, commands.len() as int)
            &&& commands_go_to(requests, window)
            &&& requests.last() == Request::Finish { consumed: decision is Move }
        }),
    decreases spec_commands_for(frame, decision, restore_maximized).len() - issued,
{
    let commands = spec_commands_for(frame, decision, restore_maximized);
    let next = Gesture::spec_next_command(window, frame, decision, restore_maximized, issued);
    if issued < commands.len() {
        lemma_commands_follow(
            window,
            frame,
            decision,
            restore_maximized,
            issued + 1,
            seen,
            (steps - 1) as nat,
        );
        lemma_requests_unfold(next.0, next.1, seen, steps);
        assert(commands.subrange(issued, commands.len() as int) =~= seq![commands[issued]]
            + commands.subrange(issued + 1, commands.len() as int));
    } else {
        lemma_requests_end(next.0, decision is Move, seen, steps);
        assert(commands.subrange(issued, commands.len() as int) =~= Seq::<WindowCommand>::empty());
    }
}

/// Asking one question at a time comes to the same as asking all at once.
///
/// A gesture that is given the platform's answers as it asks for them ends
/// within ten answers. It ends with the click consumed exactly where
/// `spec_outcome` has the window move. The commands it has issued by then
/// are those that carry out that outcome, in their order, and each of them
/// is for the window under the click.
pub proof fn lemma_gesture_carries_out_outcome(
    click_point: Point,
    settings: GestureSettings,
    seen: Observations,
)
    ensures
        ({
            let outcome = spec_outcome(click_point, settings.title_bar, seen);
            let requests = spec_requests(
                Gesture::AwaitWindow { click_point, settings },
                Request::WindowAt(click_point),
                seen,
                10,
            );
            &&& requests.last() == Request::Finish { consumed: outcome is Move }
            &&& commands_among(requests) == match seen.frame {
                Some(frame) => spec_commands_for(frame, outcome, settings.restore_maximized),
                None => Seq::empty(),
            }
            &&& seen.window matches Some(window) ==> commands_go_to(requests, window)
        }),
{
    let start = Gesture::AwaitWindow { click_point, settings };
    lemma_requests_unfold(start, Request::WindowAt(click_point), seen, 10);
    match seen.window {
        None => {
            lemma_requests_end(Gesture::Done, false, seen, 9);
        },
        Some(window) => {
            lemma_window_found(click_point, settings, seen, window);
        },
    }
}

/// The part of `lemma_gesture_carries_out_outcome` that follows the answer
/// that there is a window.
proof fn lemma_window_found(
    click_point: Point,
    settings: GestureSettings,
    seen: Observations,
    window: WindowHandle,
)
    requires
        seen.window == Some(window),
    ensures
        ({
            let outcome = spec_outcome(click_point, settings.title_bar, seen);
            let requests = spec_requests(
                Gesture::AwaitInteractive { click_point, settings, window },
                Request::InteractiveAt(window, click_point),
                seen,
                9,
            );
            &&& requests.last() == Request::Finish { consumed: outcome is Move }
            &&& commands_among(requests) == match seen.frame {
                Some(frame) => spec_commands_for(frame, outcome, settings.restore_maximized),
                None => Seq::empty(),
            }
            &&& commands_go_to(requests, window)
        }),
{
    let asking = Gesture::AwaitInteractive { click_point, settings, window };
    lemma_requests_unfold(asking, Request::InteractiveAt(window, click_point), seen, 9);
    if seen.interactive {
        lemma_requests_end(Gesture::Done, false, seen, 8);
    } else {
        let awaiting = Gesture::AwaitFrame { click_point, settings, window };
        lemma_requests_unfold(awaiting, Request::WindowFrame(window), seen, 8);
        match seen.frame {
            None => {
                lemma_requests_end(Gesture::Done, false, seen, 7);
            },
            Some(frame) => {
                lemma_frame_known(click_point, settings, seen, window, frame);
            },
        }
    }
}

/// The part of `lemma_gesture_carries_out_outcome` that follows the answer
/// with the window's frame.
proof fn lemma_frame_known(
    click_point: Point,
    settings: GestureSettings,
    seen: Observations,
    window: WindowHandle,
    frame: Rect,
)
    requires
        seen.window == Some(window),
        !seen.interactive,
        seen.frame == Some(frame),
    ensures
        ({
            let outcome = spec_outcome(click_point, settings.title_bar, seen);
            let asking = Gesture::AwaitFrame { click_point, settings, window };
            let next = asking.spec_advance(Answer::Frame(seen.frame));
            let requests = spec_requests(next.0, next.1, seen, 7);
            &&& requests.last() == Request::Finish { consumed: outcome is Move }
            &&& commands_among(requests) == spec_commands_for(
                frame,
                outcome,
                settings.restore_maximized,
            )
            &&& commands_go_to(requests, window)
        }),
{
    let outcome = spec_outcome(click_point, settings.title_bar, seen);
    let commands = spec_commands_for(frame, outcome, settings.restore_maximized);
    let awaiting = Gesture::AwaitMonitors { settings, window, frame };
    let hit = on_title_bar(click_point, settings.title_bar, frame, seen.title_bar);
    if hit {
        lemma_commands_follow(window, frame, outcome, settings.restore_maximized, 0, seen, 5);
        lemma_commands_follow(window, frame, outcome, settings.restore_maximized, 0, seen, 6);
        assert(commands.subrange(0, commands.len() as int) =~= commands);
    }
    match settings.title_bar {
        TitleBarTest::Band(_) => {
            if hit {
                lemma_requests_unfold(awaiting, Request::Monitors, seen, 7);
            } else {
                lemma_requests_end(Gesture::Done, false, seen, 7);
            }
        },
        TitleBarTest::Native => {
            let asking = Gesture::AwaitTitleBar { settings, window, frame };
            lemma_requests_unfold(asking, Request::TitleBarAt(window, click_point), seen, 7);
            if hit {
                lemma_requests_unfold(awaiting, Request::Monitors, seen, 6);
            } else {
                lemma_requests_end(Gesture::Done, false, seen, 6);
            }
        },
    }
}

} // verus!
