use mirador::keys::{KeyCode, KeyPress, Modifiers, MouseKind};
use mirador::panel::KeyOutcome;
use mirador::terminal::encode::{
    control_byte, csi_reply, encode_key, enter_sequence, paste_bytes, terminal_modifier,
};
use mirador::terminal::panel::{
    cell_index, describe_start_error, scrolled, snapshot_cursor, Backend, Phase, ScreenModes, TermStep,
    TerminalControl, TerminalPanel, TerminalSize,
};

fn key(code: KeyCode, modifiers: Modifiers) -> KeyPress {
    KeyPress::with(code, modifiers)
}

fn engaged_panel() -> TerminalPanel {
    TerminalPanel {
        backend: Backend::Running,
        phase: Phase::Running,
        screen: None,
        active: true,
        interrupt_ready: true,
        size: TerminalSize::default(),
        crlf: false,
    }
}

#[test]
fn ordinary_control_and_alt_keys_encode_as_terminal_input() {
    assert_eq!(
        encode_key(&key(KeyCode::Char('x'), Modifiers::none()), false, false),
        Some(b"x".to_vec())
    );
    assert_eq!(
        encode_key(&key(KeyCode::Char('c'), Modifiers::control()), false, false),
        Some(vec![0x03])
    );
    assert_eq!(
        encode_key(&key(KeyCode::Char('x'), Modifiers::alt()), false, false),
        Some(b"\x1bx".to_vec())
    );
    assert_eq!(
        encode_key(&key(KeyCode::Char('é'), Modifiers::none()), false, false),
        Some("é".as_bytes().to_vec())
    );
}

#[test]
fn navigation_keys_respect_application_cursor_and_modifiers() {
    assert_eq!(
        encode_key(&key(KeyCode::Up, Modifiers::none()), false, false),
        Some(b"\x1b[A".to_vec())
    );
    assert_eq!(
        encode_key(&key(KeyCode::Up, Modifiers::none()), true, false),
        Some(b"\x1bOA".to_vec())
    );
    assert_eq!(
        encode_key(&key(KeyCode::Left, Modifiers::control()), false, false),
        Some(b"\x1b[1;5D".to_vec())
    );
    assert_eq!(
        encode_key(&key(KeyCode::BackTab, Modifiers::shift()), false, false),
        Some(b"\x1b[Z".to_vec())
    );
}

#[test]
fn function_keys_cover_the_xterm_range() {
    assert_eq!(
        encode_key(&key(KeyCode::F(1), Modifiers::none()), false, false),
        Some(b"\x1bOP".to_vec())
    );
    assert_eq!(
        encode_key(&key(KeyCode::F(5), Modifiers::none()), false, false),
        Some(b"\x1b[15~".to_vec())
    );
    assert_eq!(
        encode_key(&key(KeyCode::F(12), Modifiers::shift()), false, false),
        Some(b"\x1b[24;2~".to_vec())
    );
    assert_eq!(
        encode_key(&key(KeyCode::F(13), Modifiers::none()), false, false),
        None
    );
}

#[test]
fn terminal_queries_are_answered_without_entering_the_screen() {
    assert_eq!(
        csi_reply(None, Some(6), 'n', (0, 0), (24, 80)),
        Some(b"\x1b[1;1R".to_vec())
    );
}

#[test]
fn each_query_gets_its_own_answer() {
    assert_eq!(csi_reply(None, Some(5), 'n', (0, 0), (24, 80)), Some(b"\x1b[0n".to_vec()));
    assert_eq!(
        csi_reply(Some(b'?'), Some(6), 'n', (4, 9), (24, 80)),
        Some(b"\x1b[?5;10R".to_vec())
    );
    assert_eq!(csi_reply(None, None, 'c', (0, 0), (24, 80)), Some(b"\x1b[?1;2c".to_vec()));
    assert_eq!(
        csi_reply(Some(b'>'), Some(0), 'c', (0, 0), (24, 80)),
        Some(b"\x1b[>0;100;0c".to_vec())
    );
    assert_eq!(
        csi_reply(None, Some(18), 't', (0, 0), (24, 80)),
        Some(b"\x1b[8;24;80t".to_vec())
    );
    assert_eq!(csi_reply(None, Some(7), 'n', (0, 0), (24, 80)), None);
}

#[test]
fn paste_follows_the_childs_bracketed_paste_mode() {
    assert_eq!(paste_bytes("one\ntwo", false), b"one\ntwo");
    assert_eq!(paste_bytes("one\ntwo", true), b"\x1b[200~one\ntwo\x1b[201~");
}

#[test]
fn one_interrupt_disarms_the_terminal_until_other_input_arrives() {
    let mut panel = engaged_panel();

    assert!(panel.handle_interrupt(), "the first interrupt is sent");
    assert_eq!(panel.interrupt_sent(true), KeyOutcome::Consumed);
    assert!(
        !panel.handle_interrupt(),
        "the next Ctrl+C must fall through to mirador"
    );

    let step = panel.handle_key(&key(KeyCode::PageUp, Modifiers::shift()));
    assert_eq!(step, TermStep::Scroll(23));
    panel.delivered(true);
    assert!(panel.handle_interrupt(), "an intervening terminal action re-arms Ctrl+C");
    assert_eq!(panel.interrupt_sent(true), KeyOutcome::Consumed);
}

#[test]
fn enter_engages_and_ctrl_g_releases() {
    let mut panel = engaged_panel();
    panel.active = false;
    assert!(!panel.captures_input());
    assert_eq!(
        panel.handle_key(&key(KeyCode::Char('q'), Modifiers::none())),
        TermStep::Ignored,
        "a released terminal leaves the global keys alone"
    );
    assert_eq!(
        panel.handle_key(&key(KeyCode::Enter, Modifiers::none())),
        TermStep::Send(TerminalControl::Scroll(-i32::MAX))
    );
    assert!(panel.captures_input());
    assert_eq!(
        panel.handle_key(&key(KeyCode::Char('q'), Modifiers::none())),
        TermStep::Send(TerminalControl::Input(b"q".to_vec()))
    );
    assert_eq!(
        panel.handle_key(&key(KeyCode::Char('g'), Modifiers::control())),
        TermStep::Consumed
    );
    assert!(!panel.captures_input());
}

#[test]
fn an_exited_shell_restarts_on_r() {
    let mut panel = engaged_panel();
    panel.exited(7, None);
    assert!(matches!(panel.phase, Phase::Exited(ref s) if s == "code 7"));
    assert!(!panel.active);
    assert_eq!(panel.counter(), Some("exited".to_string()));
    assert_eq!(panel.phase_message(), "Shell exited (code 7). Press r to restart it.");
    assert_eq!(
        panel.handle_key(&key(KeyCode::Char('r'), Modifiers::none())),
        TermStep::Restart
    );
    assert!(matches!(panel.phase, Phase::Starting));
    assert_eq!(panel.backend, Backend::Starting);
    panel.launch_failed("no threads");
    assert!(matches!(panel.phase, Phase::Failed(ref s) if s == "starting the terminal worker failed: no threads"));
}

#[test]
fn a_lost_session_releases_the_keyboard() {
    let mut panel = engaged_panel();
    panel.delivered(false);
    assert!(!panel.active);
    assert!(matches!(
        panel.phase,
        Phase::Failed(ref s) if s == "the terminal worker stopped; press r to start a new shell"
    ));
    assert!(panel.shows_message());
    assert_eq!(panel.counter(), Some("error".to_string()));
}

#[test]
fn a_failure_is_not_overwritten_by_the_exit_that_follows() {
    let mut panel = engaged_panel();
    panel.failed("reading terminal output failed".into());
    panel.exited(0, Some("SIGHUP".into()));
    assert!(matches!(panel.phase, Phase::Failed(ref s) if s == "reading terminal output failed"));
}

#[test]
fn launching_brings_the_size_up_to_date() {
    let mut panel = TerminalPanel::new(false);
    assert_eq!(panel.update_size(43, 11), Some(TerminalSize { cols: 43, rows: 11 }));
    assert_eq!(panel.update_size(43, 11), None);
    assert_eq!(panel.launched(Ok(())), Some(TerminalSize { cols: 43, rows: 11 }));
    assert!(panel.is_running());
    let mut failed = TerminalPanel::new(false);
    assert_eq!(failed.launched(Err("no pty".into())), None);
    assert!(matches!(failed.phase, Phase::Failed(ref s) if s == "no pty"));
}

#[test]
fn pastes_and_wheel_scrolls_go_to_an_engaged_shell() {
    let mut panel = engaged_panel();
    panel.screen_arrived(ScreenModes {
        application_cursor: false,
        bracketed_paste: true,
        hide_cursor: false,
        scrollback: 0,
    });
    assert_eq!(panel.handle_paste("ls"), Some(b"\x1b[200~ls\x1b[201~".to_vec()));
    assert_eq!(panel.handle_mouse(MouseKind::ScrollUp), Some(3));
    assert_eq!(panel.handle_mouse(MouseKind::ScrollDown), Some(-3));
    assert_eq!(panel.handle_mouse(MouseKind::Moved), None);
    assert!(panel.cursor_visible(true));
    assert!(!panel.cursor_visible(false));
    panel.active = false;
    assert_eq!(panel.handle_paste("ls"), None);
}

#[test]
fn the_counter_reports_input_and_scrollback() {
    let mut panel = engaged_panel();
    assert_eq!(panel.counter(), Some("input".to_string()));
    panel.active = false;
    panel.screen_arrived(ScreenModes {
        application_cursor: false,
        bracketed_paste: false,
        hide_cursor: false,
        scrollback: 12,
    });
    assert_eq!(panel.counter(), Some("12 up".to_string()));
    assert_eq!(panel.bindings()[0].key, "↵");
}

#[test]
fn control_bytes_follow_xterm() {
    assert_eq!(control_byte('a'), Some(1));
    assert_eq!(control_byte('Z'), Some(26));
    assert_eq!(control_byte(' '), Some(0));
    assert_eq!(control_byte('['), Some(0x1b));
    assert_eq!(control_byte('/'), None);
    assert_eq!(control_byte('?'), Some(0x7f));
    let all = Modifiers { shift: true, alt: true, control: true, ..Modifiers::none() };
    assert_eq!(terminal_modifier(&all), 8);
    assert_eq!(
        encode_key(&key(KeyCode::Char('/'), Modifiers::control()), false, false),
        Some(b"/".to_vec()),
        "a character with no control byte is sent as itself"
    );
}

#[test]
fn enter_and_editing_keys() {
    assert_eq!(enter_sequence(false), vec![b'\n']);
    assert_eq!(enter_sequence(true), vec![b'\r', b'\n']);
    assert_eq!(
        encode_key(&key(KeyCode::Enter, Modifiers::alt()), false, true),
        Some(b"\x1b\r\n".to_vec())
    );
    assert_eq!(
        encode_key(&key(KeyCode::Delete, Modifiers::control()), false, false),
        Some(b"\x1b[3;5~".to_vec())
    );
    assert_eq!(
        encode_key(&key(KeyCode::Tab, Modifiers::shift()), false, false),
        Some(b"\x1b[Z".to_vec())
    );
    assert_eq!(encode_key(&key(KeyCode::CapsLock, Modifiers::none()), false, false), None);
    assert_eq!(encode_key(&key(KeyCode::Null, Modifiers::none()), false, false), Some(vec![0]));
}

#[test]
fn a_start_error_names_the_program() {
    assert_eq!(
        describe_start_error(&vec!["fish".to_string()]),
        "starting `[terminal].command` program `fish`; check that it is installed and on PATH"
    );
    assert_eq!(
        describe_start_error(&Vec::new()),
        "starting the platform's default shell; set `[terminal].command` to an installed program"
    );
}

#[test]
fn scrolling_stops_at_either_end() {
    assert_eq!(scrolled(5, 3), 8);
    assert_eq!(scrolled(5, -9), 0);
    assert_eq!(scrolled(usize::MAX, 3), usize::MAX);
    assert_eq!(scrolled(5, -i32::MAX), 0);
    assert_eq!(snapshot_cursor(2, 7, 3), (5, 7));
    assert_eq!(snapshot_cursor(2, 7, 1 << 20), (u16::MAX, 7));
}

#[test]
fn a_terminal_is_never_sized_zero() {
    assert_eq!(TerminalSize::new(0, 0), TerminalSize { cols: 1, rows: 1 });
    assert_eq!(TerminalSize::default(), TerminalSize { cols: 80, rows: 24 });
}

#[test]
fn cell_index_counts_row_by_row() {
    assert_eq!(cell_index(3, 4, 0, 0), Some(0));
    assert_eq!(cell_index(3, 4, 1, 2), Some(6));
    assert_eq!(cell_index(3, 4, 2, 3), Some(11));
    assert_eq!(cell_index(u16::MAX, u16::MAX, u16::MAX - 1, u16::MAX - 1), Some(4_294_836_224));
}

#[test]
fn cell_index_outside_the_screen_is_none() {
    assert_eq!(cell_index(3, 4, 3, 0), None);
    assert_eq!(cell_index(3, 4, 0, 4), None);
    assert_eq!(cell_index(0, 0, 0, 0), None);
}
