use mycli::input::Input;
use mycli::input::Key;
use mycli::input::KeyKind;
use mycli::render::counter_line;
use mycli::render::i64_string;
use mycli::render::render_lines;
use mycli::render::title;
use mycli::session::Session;
use mycli::session::run_session;
use mycli::state::App;
use mycli::state::Status;
use mycli::state::run_script;

fn press(k: Key) -> Input {
    Input::Key(KeyKind::Press, k)
}

#[test]
fn counter_is_ups_minus_downs() {
    let script = vec![
        press(Key::Up),
        press(Key::Character('k')),
        Input::Timeout,
        press(Key::Down),
        press(Key::Character('x')),
        Input::OtherEvent,
        press(Key::Up),
        press(Key::Character('j')),
    ];
    let app = run_script(&script);
    assert_eq!(app.counter(), 1);
    assert_eq!(app.status(), Status::Running);
}

#[test]
fn quit_stops_further_mutation() {
    let script = vec![
        press(Key::Up),
        press(Key::Character('q')),
        press(Key::Up),
        press(Key::Up),
        press(Key::Down),
    ];
    let app = run_script(&script);
    assert_eq!(app.counter(), 1);
    assert_eq!(app.status(), Status::Quit);
    assert!(app.exit_ok());
}

#[test]
fn escape_quits() {
    let script = vec![press(Key::Esc), press(Key::Up)];
    let app = run_script(&script);
    assert_eq!(app.counter(), 0);
    assert_eq!(app.status(), Status::Quit);
}

#[test]
fn unrecognized_keys_leave_counter_unchanged() {
    let script = vec![
        press(Key::Character('z')),
        press(Key::Character('Q')),
        press(Key::Other),
        Input::Key(KeyKind::Release, Key::Up),
        Input::Key(KeyKind::Repeat, Key::Down),
    ];
    let app = run_script(&script);
    assert_eq!(app.counter(), 0);
    assert_eq!(app.status(), Status::Running);
}

#[test]
fn scenario_three_ups_one_down_then_quit() {
    let mut app = App::new();
    app.handle(press(Key::Up));
    app.handle(press(Key::Up));
    app.handle(press(Key::Up));
    assert_eq!(counter_line(app.counter()), "Counter: 3");
    app.handle(press(Key::Down));
    assert_eq!(counter_line(app.counter()), "Counter: 2");
    app.handle(press(Key::Character('q')));
    assert_eq!(app.status(), Status::Quit);
    assert!(app.exit_ok());
    let script = vec![
        press(Key::Up),
        press(Key::Up),
        press(Key::Up),
        press(Key::Down),
        press(Key::Character('q')),
    ];
    let report = run_session(true, true, &script);
    assert!(report.setup_ok);
    assert!(report.session.is_inactive());
    assert_eq!(report.app.counter(), 2);
    assert!(report.app.exit_ok());
}

#[test]
fn scenario_three_downs_goes_negative() {
    let script = vec![press(Key::Down), press(Key::Down), press(Key::Down)];
    let app = run_script(&script);
    assert_eq!(counter_line(app.counter()), "Counter: -3");
}

#[test]
fn timeouts_redraw_with_unchanged_counter() {
    let mut app = App::new();
    app.handle(press(Key::Up));
    let first = render_lines(app.counter());
    app.handle(Input::Timeout);
    let second = render_lines(app.counter());
    app.handle(Input::Timeout);
    let third = render_lines(app.counter());
    assert_eq!(app.status(), Status::Running);
    assert_eq!(first, second);
    assert_eq!(second, third);
    assert_eq!(second[1], "Counter: 1");
}

#[test]
fn failure_terminates_and_restores_terminal() {
    let script = vec![press(Key::Up), Input::Failure, press(Key::Up)];
    let report = run_session(true, true, &script);
    assert!(report.setup_ok);
    assert!(report.session.is_inactive());
    assert_eq!(report.app.counter(), 1);
    assert_eq!(report.app.status(), Status::Failed);
    assert!(!report.app.exit_ok());
}

#[test]
fn setup_failure_leaves_terminal_restored() {
    let script = vec![press(Key::Up)];
    let raw_failed = run_session(false, true, &script);
    assert!(!raw_failed.setup_ok);
    assert!(raw_failed.session.is_inactive());
    assert_eq!(raw_failed.app.counter(), 0);
    let alt_failed = run_session(true, false, &script);
    assert!(!alt_failed.setup_ok);
    assert!(alt_failed.session.is_inactive());
    assert_eq!(alt_failed.app.counter(), 0);
}

#[test]
fn session_lifecycle_acquire_then_release() {
    let mut session = Session::new();
    assert!(session.is_inactive());
    assert!(!session.is_active());
    session.enable_raw_mode();
    assert!(!session.is_inactive());
    assert!(!session.is_active());
    session.enter_alt_screen();
    assert!(session.is_active());
    session.leave_alt_screen();
    session.disable_raw_mode();
    assert!(session.is_inactive());
}

#[test]
fn render_lines_shape_and_text() {
    let lines = render_lines(0);
    assert_eq!(lines.len(), 4);
    assert_eq!(lines[0], "");
    assert_eq!(lines[1], "Counter: 0");
    assert_eq!(lines[2], "");
    assert_eq!(lines[3], "Press \u{2191}/\u{2193} to change, q to quit");
}

#[test]
fn title_is_fixed() {
    assert_eq!(title(), " mycli - Ratatui TUI ");
}

#[test]
fn decimal_rendering_exact_values() {
    assert_eq!(i64_string(0), "0");
    assert_eq!(i64_string(7), "7");
    assert_eq!(i64_string(10), "10");
    assert_eq!(i64_string(42), "42");
    assert_eq!(i64_string(-1), "-1");
    assert_eq!(i64_string(-100), "-100");
    assert_eq!(i64_string(1234567890), "1234567890");
    assert_eq!(i64_string(i64::MAX), "9223372036854775807");
    assert_eq!(i64_string(i64::MIN), "-9223372036854775808");
}

#[test]
fn empty_script_keeps_initial_state() {
    let script: Vec<Input> = vec![];
    let app = run_script(&script);
    assert_eq!(app.counter(), 0);
    assert_eq!(app.status(), Status::Running);
    assert!(app.is_running());
}
