use hecto::editor::{die, draw_rows, render, Action, Editor, Event, Phase};
use hecto::keys::{is_quit, to_ctrl_byte, Key};
use hecto::terminal::{goto_coords, Position, Size, Terminal};

type Ev = Event<String>;

fn editor(width: u16, height: u16) -> Editor<()> {
    Editor::new(Terminal::new(Size { width, height }, ()))
}

fn written(action: Action<String>) -> String {
    match action {
        Action::Write(text) => text,
        _ => panic!("expected a frame to write"),
    }
}

fn running_frame(height: usize) -> String {
    format!("\x1b[2J\x1b[1;1H{}\x1b[1;1H", "~\r\n".repeat(height))
}

#[test]
fn frame_of_80_by_24_has_24_rows_and_ends_home() {
    let text = render(false, 24);
    assert_eq!(text, running_frame(24));
    assert_eq!(text.matches("~\r\n").count(), 24);
    assert!(text.ends_with("\x1b[1;1H"));
}

#[test]
fn frame_rows_match_height_for_small_sizes() {
    for h in 1u16..6 {
        let text = render(false, h);
        assert_eq!(text.matches('~').count(), h as usize);
    }
    assert_eq!(draw_rows(0), "");
    assert_eq!(draw_rows(3), "~\r\n~\r\n~\r\n");
}

#[test]
fn farewell_frame() {
    assert_eq!(render(true, 24), "\x1b[2J\x1b[1;1HGoodbye.\r\n");
}

#[test]
fn refresh_screen_uses_terminal_height() {
    let e = editor(80, 3);
    assert_eq!(e.refresh_screen(), running_frame(3));
    assert_eq!(e.terminal().size().height, 3);
    assert_eq!(e.terminal().size().width, 80);
}

#[test]
fn plain_keys_keep_running() {
    let mut e = editor(80, 24);
    e.process_keypress(Key::Char('a'));
    assert!(!e.should_quit());
    e.process_keypress(Key::Char('b'));
    assert!(!e.should_quit());
    e.process_keypress(Key::Char('k'));
    e.process_keypress(Key::Alt('k'));
    e.process_keypress(Key::Ctrl('q'));
    assert!(!e.should_quit());
}

#[test]
fn ctrl_k_quits() {
    let mut e = editor(80, 24);
    e.process_keypress(Key::Ctrl('k'));
    assert!(e.should_quit());
    assert!(is_quit(&Key::Ctrl('k')));
    assert!(!is_quit(&Key::Char('k')));
}

#[test]
fn loop_with_keys_a_b_keeps_rendering() {
    let mut e = editor(80, 2);
    assert_eq!(written(e.step(Ev::Done)), running_frame(2));
    assert!(matches!(e.step(Ev::Done), Action::ReadKey));
    assert_eq!(written(e.step(Ev::Key(Key::Char('a')))), running_frame(2));
    assert!(matches!(e.step(Ev::Done), Action::ReadKey));
    assert_eq!(written(e.step(Ev::Key(Key::Char('b')))), running_frame(2));
    assert!(matches!(e.step(Ev::Done), Action::ReadKey));
    assert_eq!(e.phase(), Phase::Reading);
    assert!(!e.should_quit());
}

#[test]
fn loop_without_key_polls_again() {
    let mut e = editor(80, 2);
    written(e.step(Ev::Done));
    assert!(matches!(e.step(Ev::Done), Action::ReadKey));
    assert!(matches!(e.step(Ev::Done), Action::ReadKey));
    assert_eq!(e.phase(), Phase::Reading);
}

#[test]
fn ctrl_k_renders_farewell_once_then_exits() {
    let mut e = editor(80, 24);
    written(e.step(Ev::Done));
    assert!(matches!(e.step(Ev::Done), Action::ReadKey));
    assert_eq!(
        written(e.step(Ev::Key(Key::Ctrl('k')))),
        "\x1b[2J\x1b[1;1HGoodbye.\r\n"
    );
    assert!(matches!(e.step(Ev::Done), Action::Exit));
    assert_eq!(e.phase(), Phase::Stopped);
    assert!(matches!(e.step(Ev::Key(Key::Char('x'))), Action::Exit));
    assert!(matches!(e.step(Ev::Done), Action::Exit));
}

#[test]
fn write_failure_aborts_after_clearing() {
    let mut e = editor(80, 24);
    written(e.step(Ev::Done));
    match e.step(Ev::Failed("disk gone".to_string())) {
        Action::Abort(fatal) => {
            assert_eq!(fatal.cleanup, "\x1b[2J");
            assert_eq!(fatal.error, "disk gone");
        }
        _ => panic!("expected an abort"),
    }
    assert_eq!(e.phase(), Phase::Stopped);
    assert!(matches!(e.step(Ev::Done), Action::Exit));
}

#[test]
fn read_failure_aborts_with_io_error() {
    let mut e = editor(80, 24);
    let _ = e.step(Event::<std::io::Error>::Done);
    let _ = e.step(Event::<std::io::Error>::Done);
    let err = std::io::Error::new(std::io::ErrorKind::Other, "broken pipe");
    match e.step(Event::Failed(err)) {
        Action::Abort(fatal) => assert_eq!(fatal.error.to_string(), "broken pipe"),
        _ => panic!("expected an abort"),
    }
}

#[test]
fn die_clears_screen() {
    let fatal = die(7u8);
    assert_eq!(fatal.cleanup, "\x1b[2J");
    assert_eq!(fatal.error, 7);
}

#[test]
fn cursor_position_is_one_based() {
    assert_eq!(goto_coords(&Position { x: 0, y: 0 }), (1, 1));
    assert_eq!(goto_coords(&Position { x: 4, y: 9 }), (5, 10));
    assert_eq!(Terminal::cursor_position(&Position { x: 4, y: 9 }), "\x1b[10;5H");
    assert_eq!(Terminal::cursor_position(&Position { x: 0, y: 0 }), "\x1b[1;1H");
}

#[test]
fn cursor_position_saturates() {
    assert_eq!(goto_coords(&Position { x: u16::MAX, y: 3 }), (u16::MAX, 4));
    assert_eq!(goto_coords(&Position { x: u16::MAX - 1, y: u16::MAX }), (u16::MAX, u16::MAX));
    assert_eq!(
        Terminal::cursor_position(&Position { x: u16::MAX, y: u16::MAX }),
        "\x1b[65535;65535H"
    );
}

#[test]
fn escape_sequences() {
    assert_eq!(Terminal::clear_screen(), "\x1b[2J");
    assert_eq!(Terminal::clear_current_line(), "\x1b[2K");
    assert_eq!(Terminal::cursor_hide(), "\x1b[?25l");
    assert_eq!(Terminal::cursor_show(), "\x1b[?25h");
}

#[test]
fn ctrl_bytes() {
    assert_eq!(to_ctrl_byte('q'), 17);
    assert_eq!(to_ctrl_byte('k'), 11);
    assert_eq!(to_ctrl_byte('a'), 1);
    assert_eq!(to_ctrl_byte('A'), 1);
}
