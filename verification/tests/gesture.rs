use screenhop::geometry::{Point, Rect};
use screenhop::decision::{
    commands_for, decide_click, decide_move, evaluate_gesture, relocate_to_next, MoveDecision,
    Observations, TitleBarTest, WindowCommand,
};
use screenhop::gesture::{Answer, Gesture, GestureSettings, Request};
use screenhop::monitor::MonitorInfo;
use screenhop::platform::macos::MacWindowHandle;
use screenhop::platform::windows::WinWindowHandle;
use screenhop::platform::WindowHandle;

fn monitor(id: u64, x: i32, y: i32, w: u32, h: u32) -> MonitorInfo {
    MonitorInfo {
        id,
        bounds: Rect::new(x, y, w, h),
        work_area: Rect::new(x, y, w, h),
    }
}

fn two_monitors() -> Vec<MonitorInfo> {
    vec![monitor(1, 0, 0, 1920, 1080), monitor(2, 1920, 0, 2560, 1440)]
}

fn mac_window() -> WindowHandle {
    WindowHandle::Mac(MacWindowHandle { ax_element: 0x1000, pid: 42 })
}

fn win_window() -> WindowHandle {
    WindowHandle::Windows(WinWindowHandle { hwnd: 0x2000 })
}

fn band(height: u32) -> GestureSettings {
    GestureSettings { title_bar: TitleBarTest::Band(height), restore_maximized: false }
}

fn native() -> GestureSettings {
    GestureSettings { title_bar: TitleBarTest::Native, restore_maximized: true }
}

fn answer(seen: &Observations, request: &Request, commands_succeed: bool) -> Answer {
    match request {
        Request::WindowAt(_) => Answer::Window(seen.window),
        Request::InteractiveAt(_, _) => Answer::Interactive(seen.interactive),
        Request::WindowFrame(_) => Answer::Frame(seen.frame),
        Request::TitleBarAt(_, _) => Answer::TitleBar(seen.title_bar),
        Request::Monitors => Answer::Monitors(seen.monitors.clone()),
        Request::Command(_, _) => Answer::Performed(commands_succeed),
        Request::Finish { .. } => unreachable!(),
    }
}

/// Runs a gesture to its end and returns every request that it made.
fn run(
    click: Point,
    settings: GestureSettings,
    seen: &Observations,
    commands_succeed: bool,
) -> Vec<Request> {
    let (mut state, mut request) = Gesture::begin(click, settings);
    let mut requests = vec![request];
    let mut steps = 0;
    while !matches!(request, Request::Finish { .. }) {
        let next = state.advance(answer(seen, &request, commands_succeed));
        state = next.0;
        request = next.1;
        requests.push(request);
        steps += 1;
        assert!(steps <= 10);
    }
    assert_eq!(state, Gesture::Done);
    requests
}

fn centered_window() -> Observations {
    Observations {
        window: Some(mac_window()),
        interactive: false,
        frame: Some(Rect::new(760, 340, 400, 400)),
        title_bar: false,
        monitors: two_monitors(),
    }
}

#[test]
fn evaluate_gesture_moves_a_window_clicked_on_its_title_bar() {
    let frame = Rect::new(760, 340, 400, 400);
    let decision = evaluate_gesture(Point { x: 900, y: 350 }, &frame, 40, &two_monitors(), 0);
    assert_eq!(
        decision,
        MoveDecision::Move {
            new_position: Point { x: 2933, y: 453 },
            new_width: 400,
            new_height: 400,
            target_monitor_index: 1,
        }
    );
}

#[test]
fn evaluate_gesture_wraps_from_the_last_monitor_to_the_first() {
    let frame = Rect::new(1920, 0, 2560, 1440);
    let decision = evaluate_gesture(Point { x: 2000, y: 10 }, &frame, 40, &two_monitors(), 1);
    assert_eq!(
        decision,
        MoveDecision::Move {
            new_position: Point { x: 0, y: 0 },
            new_width: 1920,
            new_height: 1080,
            target_monitor_index: 0,
        }
    );
}

#[test]
fn evaluate_gesture_ignores_a_click_below_the_title_bar() {
    let frame = Rect::new(760, 340, 400, 400);
    let decision = evaluate_gesture(Point { x: 900, y: 381 }, &frame, 40, &two_monitors(), 0);
    assert_eq!(decision, MoveDecision::NoMove);
}

#[test]
fn evaluate_gesture_does_nothing_with_fewer_than_two_monitors() {
    let frame = Rect::new(760, 340, 400, 400);
    let click = Point { x: 900, y: 350 };
    let one = vec![monitor(1, 0, 0, 1920, 1080)];
    assert_eq!(evaluate_gesture(click, &frame, 40, &one, 0), MoveDecision::NoMove);
    assert_eq!(evaluate_gesture(click, &frame, 40, &[], 0), MoveDecision::NoMove);
}

#[test]
fn evaluate_gesture_does_nothing_for_a_monitor_that_is_not_there() {
    let frame = Rect::new(760, 340, 400, 400);
    let click = Point { x: 900, y: 350 };
    assert_eq!(evaluate_gesture(click, &frame, 40, &two_monitors(), 2), MoveDecision::NoMove);
    assert_eq!(
        evaluate_gesture(click, &frame, 40, &two_monitors(), usize::MAX),
        MoveDecision::NoMove
    );
}

#[test]
fn relocate_to_next_goes_round_three_monitors() {
    let monitors = vec![
        monitor(1, 0, 0, 1920, 1080),
        monitor(2, 1920, 0, 1920, 1080),
        monitor(3, 3840, 0, 1920, 1080),
    ];
    let mut frame = Rect::new(100, 200, 640, 480);
    let mut current = 0;
    for expected in [1usize, 2, 0] {
        match relocate_to_next(&frame, &monitors, current) {
            MoveDecision::Move { new_position, new_width, new_height, target_monitor_index } => {
                assert_eq!(target_monitor_index, expected);
                assert_eq!(new_position, Point { x: 1920 * expected as i64 + 100, y: 200 });
                assert_eq!((new_width, new_height), (640, 480));
                frame = Rect::new(new_position.x as i32, new_position.y as i32, new_width, new_height);
                current = target_monitor_index;
            }
            MoveDecision::NoMove => panic!("the window stayed"),
        }
    }
    assert_eq!(frame, Rect::new(100, 200, 640, 480));
}

#[test]
fn decide_move_starts_from_the_monitor_of_the_midpoint() {
    let monitors = two_monitors();
    // The corner is on the first monitor, the midpoint on the second.
    let frame = Rect::new(1800, 0, 400, 300);
    match decide_move(&frame, &monitors) {
        MoveDecision::Move { target_monitor_index, .. } => assert_eq!(target_monitor_index, 0),
        MoveDecision::NoMove => panic!("the window stayed"),
    }
    let frame = Rect::new(1500, 0, 400, 300);
    match decide_move(&frame, &monitors) {
        MoveDecision::Move { target_monitor_index, .. } => assert_eq!(target_monitor_index, 1),
        MoveDecision::NoMove => panic!("the window stayed"),
    }
}

#[test]
fn decide_move_leaves_a_window_that_is_on_no_monitor() {
    let frame = Rect::new(-5000, -5000, 400, 300);
    assert_eq!(decide_move(&frame, &two_monitors()), MoveDecision::NoMove);
}

#[test]
fn decide_move_needs_two_monitors() {
    let frame = Rect::new(100, 100, 400, 300);
    assert_eq!(decide_move(&frame, &[monitor(1, 0, 0, 1920, 1080)]), MoveDecision::NoMove);
    assert_eq!(decide_move(&frame, &[]), MoveDecision::NoMove);
}

#[test]
fn decide_click_moves_where_nothing_rules_it_out() {
    let seen = centered_window();
    let decision = decide_click(Point { x: 900, y: 350 }, TitleBarTest::Band(40), &seen);
    assert_eq!(
        decision,
        MoveDecision::Move {
            new_position: Point { x: 2933, y: 453 },
            new_width: 400,
            new_height: 400,
            target_monitor_index: 1,
        }
    );
}

#[test]
fn decide_click_is_ruled_out_by_each_observation() {
    let click = Point { x: 900, y: 350 };
    let test = TitleBarTest::Band(40);

    let mut seen = centered_window();
    seen.window = None;
    assert_eq!(decide_click(click, test, &seen), MoveDecision::NoMove);

    let mut seen = centered_window();
    seen.interactive = true;
    assert_eq!(decide_click(click, test, &seen), MoveDecision::NoMove);

    let mut seen = centered_window();
    seen.frame = None;
    assert_eq!(decide_click(click, test, &seen), MoveDecision::NoMove);

    let seen = centered_window();
    assert_eq!(decide_click(Point { x: 900, y: 500 }, test, &seen), MoveDecision::NoMove);

    let mut seen = centered_window();
    seen.monitors.truncate(1);
    assert_eq!(decide_click(click, test, &seen), MoveDecision::NoMove);

    let mut seen = centered_window();
    seen.frame = Some(Rect::new(-9000, 340, 400, 400));
    assert_eq!(decide_click(Point { x: -8900, y: 350 }, test, &seen), MoveDecision::NoMove);
}

#[test]
fn decide_click_goes_by_the_native_hit_test_where_asked_to() {
    let click = Point { x: 900, y: 700 };
    let mut seen = centered_window();
    seen.title_bar = true;
    assert!(decide_click(click, TitleBarTest::Native, &seen).consumes_click());
    assert!(!decide_click(click, TitleBarTest::Band(40), &seen).consumes_click());
    seen.title_bar = false;
    let on_band = Point { x: 900, y: 350 };
    assert!(!decide_click(on_band, TitleBarTest::Native, &seen).consumes_click());
    assert!(decide_click(on_band, TitleBarTest::Band(40), &seen).consumes_click());
}

#[test]
fn only_a_move_consumes_the_click() {
    assert!(!MoveDecision::NoMove.consumes_click());
    let moved = MoveDecision::Move {
        new_position: Point { x: 0, y: 0 },
        new_width: 1,
        new_height: 1,
        target_monitor_index: 0,
    };
    assert!(moved.consumes_click());
}

#[test]
fn commands_for_a_window_that_stays_are_none() {
    let frame = Rect::new(0, 0, 100, 100);
    assert_eq!(commands_for(&frame, &MoveDecision::NoMove, true), vec![]);
    assert_eq!(commands_for(&frame, &MoveDecision::NoMove, false), vec![]);
}

#[test]
fn commands_for_a_move_position_then_activate() {
    let frame = Rect::new(0, 0, 400, 300);
    let decision = MoveDecision::Move {
        new_position: Point { x: 2000, y: 10 },
        new_width: 400,
        new_height: 300,
        target_monitor_index: 1,
    };
    assert_eq!(
        commands_for(&frame, &decision, false),
        vec![WindowCommand::SetPosition(Point { x: 2000, y: 10 }), WindowCommand::Activate]
    );
    assert_eq!(
        commands_for(&frame, &decision, true),
        vec![
            WindowCommand::RestoreIfMaximized,
            WindowCommand::SetPosition(Point { x: 2000, y: 10 }),
            WindowCommand::Activate
        ]
    );
}

#[test]
fn commands_for_a_move_resize_only_past_one_unit() {
    let frame = Rect::new(0, 0, 400, 300);
    let moved = |new_width: u32, new_height: u32| MoveDecision::Move {
        new_position: Point { x: 5, y: 6 },
        new_width,
        new_height,
        target_monitor_index: 1,
    };
    let plain = vec![WindowCommand::SetPosition(Point { x: 5, y: 6 }), WindowCommand::Activate];
    assert_eq!(commands_for(&frame, &moved(399, 300), false), plain);
    assert_eq!(commands_for(&frame, &moved(400, 299), false), plain);
    assert_eq!(commands_for(&frame, &moved(401, 301), false), plain);
    for (w, h) in [(398, 300), (400, 298), (402, 300), (400, 302), (0, 0)] {
        assert_eq!(
            commands_for(&frame, &moved(w, h), false),
            vec![
                WindowCommand::SetPosition(Point { x: 5, y: 6 }),
                WindowCommand::SetSize(w, h),
                WindowCommand::Activate
            ]
        );
    }
}

#[test]
fn gesture_on_macos_asks_then_moves() {
    let click = Point { x: 900, y: 350 };
    let seen = centered_window();
    let window = mac_window();
    assert_eq!(
        run(click, band(40), &seen, true),
        vec![
            Request::WindowAt(click),
            Request::InteractiveAt(window, click),
            Request::WindowFrame(window),
            Request::Monitors,
            Request::Command(window, WindowCommand::SetPosition(Point { x: 2933, y: 453 })),
            Request::Command(window, WindowCommand::Activate),
            Request::Finish { consumed: true },
        ]
    );
}

#[test]
fn gesture_on_windows_asks_the_native_hit_test_and_restores() {
    let click = Point { x: 100, y: 10 };
    let window = win_window();
    let seen = Observations {
        window: Some(window),
        interactive: false,
        frame: Some(Rect::new(0, 0, 1920, 1080)),
        title_bar: true,
        monitors: vec![monitor(1, 0, 0, 1920, 1080), monitor(2, 1920, 0, 800, 600)],
    };
    assert_eq!(
        run(click, native(), &seen, true),
        vec![
            Request::WindowAt(click),
            Request::InteractiveAt(window, click),
            Request::WindowFrame(window),
            Request::TitleBarAt(window, click),
            Request::Monitors,
            Request::Command(window, WindowCommand::RestoreIfMaximized),
            Request::Command(window, WindowCommand::SetPosition(Point { x: 1920, y: 0 })),
            Request::Command(window, WindowCommand::SetSize(800, 600)),
            Request::Command(window, WindowCommand::Activate),
            Request::Finish { consumed: true },
        ]
    );
}

#[test]
fn gesture_goes_on_when_commands_fail() {
    let click = Point { x: 900, y: 350 };
    let seen = centered_window();
    assert_eq!(run(click, band(40), &seen, false), run(click, band(40), &seen, true));
    let requests = run(click, band(40), &seen, false);
    assert_eq!(requests.last(), Some(&Request::Finish { consumed: true }));
}

#[test]
fn gesture_stops_at_the_first_answer_that_rules_the_move_out() {
    let click = Point { x: 900, y: 350 };
    let window = mac_window();
    let pass = Request::Finish { consumed: false };

    let mut seen = centered_window();
    seen.window = None;
    assert_eq!(run(click, band(40), &seen, true), vec![Request::WindowAt(click), pass]);

    let mut seen = centered_window();
    seen.interactive = true;
    assert_eq!(
        run(click, band(40), &seen, true),
        vec![Request::WindowAt(click), Request::InteractiveAt(window, click), pass]
    );

    let mut seen = centered_window();
    seen.frame = None;
    assert_eq!(
        run(click, band(40), &seen, true),
        vec![
            Request::WindowAt(click),
            Request::InteractiveAt(window, click),
            Request::WindowFrame(window),
            pass
        ]
    );

    let seen = centered_window();
    let low = Point { x: 900, y: 600 };
    assert_eq!(
        run(low, band(40), &seen, true),
        vec![
            Request::WindowAt(low),
            Request::InteractiveAt(window, low),
            Request::WindowFrame(window),
            pass
        ]
    );

    let seen = centered_window();
    assert_eq!(
        run(click, native(), &seen, true),
        vec![
            Request::WindowAt(click),
            Request::InteractiveAt(window, click),
            Request::WindowFrame(window),
            Request::TitleBarAt(window, click),
            pass
        ]
    );
}

#[test]
fn gesture_short_circuits_with_fewer_than_two_monitors() {
    let click = Point { x: 900, y: 350 };
    let window = mac_window();
    for count in 0..2 {
        let mut seen = centered_window();
        seen.monitors.truncate(count);
        assert_eq!(
            run(click, band(40), &seen, true),
            vec![
                Request::WindowAt(click),
                Request::InteractiveAt(window, click),
                Request::WindowFrame(window),
                Request::Monitors,
                Request::Finish { consumed: false },
            ]
        );
    }
}

#[test]
fn gesture_agrees_with_the_decision_from_all_observations() {
    let clicks = [Point { x: 900, y: 350 }, Point { x: 900, y: 600 }, Point { x: 0, y: 0 }];
    let frames = [None, Some(Rect::new(760, 340, 400, 400)), Some(Rect::new(0, 0, 3000, 2000))];
    for click in clicks {
        for settings in [band(40), band(0), native()] {
            for window in [None, Some(mac_window())] {
                for interactive in [false, true] {
                    for frame in frames {
                        for title_bar in [false, true] {
                            for count in 0..3 {
                                let mut monitors = two_monitors();
                                monitors.truncate(count);
                                let seen =
                                    Observations { window, interactive, frame, title_bar, monitors };
                                let decision = decide_click(click, settings.title_bar, &seen);
                                let requests = run(click, settings, &seen, true);
                                assert_eq!(
                                    requests.last(),
                                    Some(&Request::Finish { consumed: decision.consumes_click() })
                                );
                                let issued: Vec<WindowCommand> = requests
                                    .iter()
                                    .filter_map(|request| match request {
                                        Request::Command(_, command) => Some(*command),
                                        _ => None,
                                    })
                                    .collect();
                                let expected = match frame {
                                    Some(frame) => {
                                        commands_for(&frame, &decision, settings.restore_maximized)
                                    }
                                    None => vec![],
                                };
                                assert_eq!(issued, expected);
                            }
                        }
                    }
                }
            }
        }
    }
}

#[test]
fn gesture_ends_on_an_answer_to_another_question() {
    let click = Point { x: 900, y: 350 };
    let (state, _) = Gesture::begin(click, band(40));
    let next = state.advance(Answer::Interactive(false));
    assert_eq!(next, (Gesture::Done, Request::Finish { consumed: false }));
    let next = Gesture::Done.advance(Answer::Window(Some(mac_window())));
    assert_eq!(next, (Gesture::Done, Request::Finish { consumed: false }));
    let awaiting = Gesture::AwaitMonitors {
        settings: band(40),
        window: mac_window(),
        frame: Rect::new(760, 340, 400, 400),
    };
    let next = awaiting.advance(Answer::TitleBar(true));
    assert_eq!(next, (Gesture::Done, Request::Finish { consumed: false }));
}
