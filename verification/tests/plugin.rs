use mirador::config::{PluginConfig, PluginConfigError};
use mirador::keys::{Area, KeyCode, KeyPress, Modifiers, MouseButton, MouseEvent, MouseKind};
use mirador::panel::KeyOutcome;
use mirador::plugin::color::{
    byte_from, color_from_display, span_style, wire_color, TermColor, ThemeSlot, WireColor,
};
use mirador::plugin::names::{canonical_key, key_code, key_modifiers, mouse_kind};
use mirador::plugin::shared::{
    apply_message, oversized, stderr_preview, trim_line_end, Phase, PluginMessage, Shared, MAX_MESSAGE_BYTES,
    MAX_STDERR_BYTES, PROTOCOL_VERSION,
};
use mirador::plugin::state::{HostMessage, KeyStep, PluginPanel};
use mirador::plugin::wire::{InputPolicy, WireCursor, WireFrame, WireLine, WireSpan};

fn detached_panel(policy: InputPolicy) -> PluginPanel {
    PluginPanel {
        id: "test".into(),
        seen_generation: 0,
        phase: Phase::Running,
        title: "test".into(),
        refresh_ms: 33,
        frame: None,
        bindings: Vec::new(),
        interrupt_armed: policy.interrupt,
        policy,
        notice: None,
        input_barrier: None,
        last_size: None,
        last_focus: None,
    }
}

fn outcome(step: KeyStep) -> KeyOutcome {
    match step {
        KeyStep::Ignore => KeyOutcome::Ignored,
        KeyStep::Restart | KeyStep::Send(_) => KeyOutcome::Consumed,
    }
}

fn key(code: KeyCode) -> KeyPress {
    KeyPress::plain(code)
}

fn span(text: &str) -> WireSpan {
    WireSpan {
        text: text.into(),
        fg: None,
        bg: None,
        bold: false,
        dim: false,
        italic: false,
        underlined: false,
        reversed: false,
    }
}

fn frame(revision: u64, input: InputPolicy) -> WireFrame {
    WireFrame {
        revision,
        title: None,
        counter: None,
        lines: Vec::new(),
        bindings: Vec::new(),
        input,
        cursor: None,
    }
}

fn ready(shared: &mut Shared) {
    assert!(apply_message(
        shared,
        PluginMessage::Ready {
            protocol: PROTOCOL_VERSION,
            title: None,
            refresh_ms: None,
        },
    ));
}

#[test]
fn ready_must_match_the_host_protocol() {
    let mut shared = Shared::starting();
    assert!(!apply_message(
        &mut shared,
        PluginMessage::Ready {
            protocol: PROTOCOL_VERSION + 1,
            title: None,
            refresh_ms: None,
        },
    ));
    assert!(matches!(
        shared.phase,
        Phase::Failed(ref message) if message.contains("incompatible")
    ));
}

#[test]
fn frames_are_full_snapshots_and_old_revisions_are_ignored() {
    let mut shared = Shared::starting();
    assert!(apply_message(
        &mut shared,
        PluginMessage::Ready {
            protocol: PROTOCOL_VERSION,
            title: Some("test".into()),
            refresh_ms: Some(1),
        },
    ));
    let frame = |revision, text: &str| {
        PluginMessage::Frame(WireFrame {
            revision,
            title: None,
            counter: None,
            lines: vec![WireLine { spans: vec![span(text)] }],
            bindings: Vec::new(),
            input: InputPolicy::default(),
            cursor: None,
        })
    };
    assert!(apply_message(&mut shared, frame(2, "new")));
    assert!(apply_message(&mut shared, frame(1, "old")));
    assert_eq!(shared.refresh_ms, 16);
    assert_eq!(shared.frame.as_ref().unwrap().lines[0].spans[0].text, "new");
}

#[test]
fn canonical_keys_are_stable_across_platforms() {
    assert_eq!(
        canonical_key(&KeyPress::with(KeyCode::Char('c'), Modifiers::control())),
        "Ctrl+c"
    );
    assert_eq!(
        canonical_key(&KeyPress::with(KeyCode::PageUp, Modifiers::shift())),
        "Shift+PageUp"
    );
    assert_eq!(canonical_key(&key(KeyCode::Enter)), "Enter");
}

#[test]
fn semantic_and_terminal_colours_share_the_wire_format() {
    assert_eq!(wire_color("theme:accent"), Some(WireColor::Theme(ThemeSlot::Accent)));
    assert_eq!(
        wire_color("ansi:203"),
        Some(WireColor::Terminal(TermColor::Indexed(203)))
    );
    assert_eq!(
        wire_color("#112233"),
        Some(WireColor::Terminal(TermColor::Rgb(17, 34, 51)))
    );
}

#[test]
fn passive_policy_claims_only_named_keys_and_capture_never_falls_through() {
    let mut passive = detached_panel(InputPolicy {
        keys: vec!["Enter".into()],
        ..InputPolicy::default()
    });
    assert_eq!(outcome(passive.handle_key(&key(KeyCode::Enter))), KeyOutcome::Consumed);
    assert_eq!(
        outcome(passive.handle_key(&key(KeyCode::Char('q')))),
        KeyOutcome::Ignored
    );

    let mut capturing = detached_panel(InputPolicy {
        capture: true,
        ..InputPolicy::default()
    });
    assert_eq!(
        outcome(capturing.handle_key(&key(KeyCode::Char('q')))),
        KeyOutcome::Consumed,
        "a stalled plugin must not turn its q into a global quit"
    );
}

#[test]
fn a_passive_action_captures_until_a_new_frame_acknowledges_it() {
    let passive = InputPolicy {
        keys: vec!["Enter".into()],
        ..InputPolicy::default()
    };
    let mut panel = detached_panel(passive.clone());
    panel.frame = Some(frame(4, passive));
    let mut shared = Shared::starting();

    panel.begin_input_barrier();
    assert!(panel.captures_input());
    assert_eq!(
        outcome(panel.handle_key(&key(KeyCode::Char('q')))),
        KeyOutcome::Consumed
    );
    assert_eq!(panel.handle_interrupt(), KeyOutcome::Consumed);
    assert_eq!(panel.handle_interrupt(), KeyOutcome::Ignored);

    shared.frame = Some(frame(5, InputPolicy::default()));
    shared.generation += 1;
    assert!(panel.sync(&shared));
    assert!(!panel.captures_input());
    assert_eq!(
        outcome(panel.handle_key(&key(KeyCode::Char('q')))),
        KeyOutcome::Ignored
    );
}

#[test]
fn watch_messages_enter_the_native_panel_event_drain() {
    let panel = detached_panel(InputPolicy::default());
    let mut shared = Shared::starting();
    ready(&mut shared);
    assert!(apply_message(
        &mut shared,
        PluginMessage::Watch {
            text: "the build finished".into(),
        },
    ));

    let events = panel.events(&mut shared).expect("the clock is readable");
    assert_eq!(events.len(), 1);
    assert_eq!(events[0].source, "test");
    assert_eq!(events[0].text, "the build finished");
    assert!(
        panel.events(&mut shared).expect("the clock is readable").is_empty(),
        "the native hook is a drain"
    );
}

#[test]
fn watch_messages_are_single_lines_and_their_queue_is_bounded() {
    let mut shared = Shared::starting();
    ready(&mut shared);
    for index in 0..65 {
        assert!(apply_message(
            &mut shared,
            PluginMessage::Watch {
                text: format!("event {index}"),
            },
        ));
    }
    assert_eq!(shared.watch.len(), 64);
    assert_eq!(shared.watch.front().map(String::as_str), Some("event 1"));

    assert!(!apply_message(
        &mut shared,
        PluginMessage::Watch {
            text: "not\none line".into(),
        },
    ));
    assert!(matches!(
        shared.phase,
        Phase::Failed(ref error) if error.contains("one non-empty line")
    ));
}

#[test]
fn interrupt_policy_is_locally_one_shot() {
    let mut panel = detached_panel(InputPolicy {
        capture: true,
        interrupt: true,
        ..InputPolicy::default()
    });
    assert_eq!(panel.handle_interrupt(), KeyOutcome::Consumed);
    assert_eq!(panel.handle_interrupt(), KeyOutcome::Ignored);

    let _ = panel.handle_key(&key(KeyCode::Char('x')));
    assert_eq!(panel.handle_interrupt(), KeyOutcome::Consumed);
}

#[test]
fn oversized_messages_are_rejected_before_unbounded_allocation() {
    let input = vec![b'x'; MAX_MESSAGE_BYTES + 1];
    assert!(oversized(&input));
    let mut exact = vec![b'x'; MAX_MESSAGE_BYTES];
    assert!(oversized(&exact), "a full buffer without its newline was cut short");
    exact[MAX_MESSAGE_BYTES - 1] = b'\n';
    assert!(!oversized(&exact));
    assert!(!oversized(&b"{}\n".to_vec()));
}

#[test]
fn line_endings_are_trimmed_before_decoding() {
    let mut line = b"{\"type\":\"tick\"}\r\n\n".to_vec();
    trim_line_end(&mut line);
    assert_eq!(line, b"{\"type\":\"tick\"}".to_vec());
    let mut empty = b"\r\n".to_vec();
    trim_line_end(&mut empty);
    assert!(empty.is_empty());
}

#[test]
fn the_session_refuses_what_arrives_out_of_order() {
    let mut shared = Shared::starting();
    assert!(!apply_message(&mut shared, PluginMessage::Frame(frame(1, InputPolicy::default()))));
    assert!(matches!(shared.phase, Phase::Failed(ref m) if m == "plugin sent a frame before `ready`"));

    let mut shared = Shared::starting();
    assert!(!apply_message(&mut shared, PluginMessage::Watch { text: "x".into() }));
    assert!(matches!(shared.phase, Phase::Failed(ref m) if m.contains("before `ready`")));

    let mut shared = Shared::starting();
    ready(&mut shared);
    assert!(!apply_message(
        &mut shared,
        PluginMessage::Ready { protocol: PROTOCOL_VERSION, title: None, refresh_ms: None },
    ));
    assert!(matches!(shared.phase, Phase::Failed(ref m) if m.contains("more than once")));
}

#[test]
fn errors_are_notices_unless_fatal() {
    let mut shared = Shared::starting();
    ready(&mut shared);
    assert!(apply_message(
        &mut shared,
        PluginMessage::Error { message: "slow network".into(), fatal: false },
    ));
    assert_eq!(shared.notice.as_deref(), Some("slow network"));
    assert!(matches!(shared.phase, Phase::Running));
    assert!(apply_message(&mut shared, PluginMessage::Frame(frame(1, InputPolicy::default()))));
    assert_eq!(shared.notice, None, "a new frame clears the notice");
    assert!(!apply_message(
        &mut shared,
        PluginMessage::Error { message: "gone".into(), fatal: true },
    ));
    assert!(matches!(shared.phase, Phase::Failed(ref m) if m == "gone"));
}

#[test]
fn refresh_requests_are_clamped() {
    let mut shared = Shared::starting();
    assert!(apply_message(
        &mut shared,
        PluginMessage::Ready { protocol: PROTOCOL_VERSION, title: None, refresh_ms: Some(999_999) },
    ));
    assert_eq!(shared.refresh_ms, 60_000);
    assert_eq!(shared.generation, 1);
}

#[test]
fn error_output_keeps_only_its_tail() {
    let mut shared = Shared::starting();
    shared.note_stderr("first");
    shared.note_stderr("second");
    assert_eq!(shared.stderr, "first\nsecond");
    let long = "é".repeat(MAX_STDERR_BYTES);
    shared.note_stderr(&long);
    assert!(shared.stderr.len() <= MAX_STDERR_BYTES);
    assert!(shared.stderr.chars().all(|c| c == 'é'), "cut at a character boundary");
    assert_eq!(shared.stderr.len(), MAX_STDERR_BYTES);
}

#[test]
fn an_exit_does_not_overwrite_a_stop_or_a_failure() {
    let mut shared = Shared::starting();
    shared.exited("exit status: 0".into());
    assert!(matches!(shared.phase, Phase::Exited(ref s) if s == "exit status: 0"));
    let mut shared = Shared::starting();
    shared.stopping();
    shared.exited("exit status: 0".into());
    assert!(matches!(shared.phase, Phase::Stopping));
    let mut shared = Shared::starting();
    shared.fail("broken".into());
    shared.exited("exit status: 1".into());
    assert!(matches!(shared.phase, Phase::Failed(ref s) if s == "broken"));
}

#[test]
fn a_full_input_queue_is_noted_once() {
    let mut shared = Shared::starting();
    shared.note_queue_full();
    assert_eq!(shared.notice.as_deref(), Some("plugin input queue is full"));
    let generation = shared.generation;
    shared.note_queue_full();
    assert_eq!(shared.generation, generation);
}

#[test]
fn a_finished_plugin_offers_a_restart_on_r() {
    let mut panel = PluginPanel::new(PluginConfig {
        id: "demo".into(),
        command: vec!["demo".into()],
    });
    let mut shared = Shared::starting();
    shared.fail("broken".into());
    assert!(panel.sync(&shared));
    assert!(!panel.sync(&shared), "nothing new the second time");
    assert_eq!(panel.bindings.len(), 1);
    assert_eq!(panel.bindings[0].key, "r");
    assert_eq!(panel.counter(), Some("failed".to_string()));
    assert_eq!(
        panel.status_text(),
        ("plugin failed".to_string(), Some("broken; press r to retry".to_string()))
    );
    assert_eq!(panel.footer(), Some(("broken".to_string(), false)));
    assert_eq!(panel.handle_key(&key(KeyCode::Char('r'))), KeyStep::Restart);
    assert!(matches!(panel.phase, Phase::Starting));
    assert!(panel.bindings.is_empty());
}

#[test]
fn a_frame_brings_its_title_bindings_and_policy() {
    let mut panel = PluginPanel::new(PluginConfig {
        id: "demo".into(),
        command: vec!["demo".into()],
    });
    assert_eq!(panel.title, "demo");
    let mut shared = Shared::starting();
    ready(&mut shared);
    let mut published = frame(3, InputPolicy { interrupt: true, ..InputPolicy::default() });
    published.title = Some("Builds".into());
    published.counter = Some("2 running".into());
    published.bindings = vec![mirador::plugin::wire::WireBinding {
        key: "Enter".into(),
        action: "open".into(),
        primary: true,
    }];
    published.cursor = Some(WireCursor { column: 2, row: 1, visible: true });
    assert!(apply_message(&mut shared, PluginMessage::Frame(published)));
    assert!(panel.sync(&shared));
    assert_eq!(panel.title, "Builds");
    assert_eq!(panel.counter(), Some("2 running".to_string()));
    assert_eq!(panel.bindings[0].action, "open");
    assert!(panel.interrupt_armed, "an interrupt that became possible is armed");
    let area = Area { x: 10, y: 5, width: 20, height: 4 };
    assert_eq!(panel.cursor_position(true, &area), Some((12, 6)));
    assert_eq!(panel.cursor_position(false, &area), None);
    let small = Area { x: 10, y: 5, width: 2, height: 4 };
    assert_eq!(panel.cursor_position(true, &small), None);
}

#[test]
fn size_and_focus_are_sent_only_when_they_change() {
    let mut panel = detached_panel(InputPolicy::default());
    assert_eq!(
        panel.resize_message(0, 12),
        Some(HostMessage::Resize { columns: 1, rows: 12 })
    );
    panel.resized(1, 12);
    assert_eq!(panel.resize_message(0, 12), None);
    assert_eq!(panel.focus_message(true), Some(HostMessage::Focus { focused: true }));
    panel.focused(true);
    assert_eq!(panel.focus_message(true), None);
    assert_eq!(panel.focus_message(false), Some(HostMessage::Focus { focused: false }));
}

#[test]
fn keys_pastes_and_clicks_are_described_for_the_plugin() {
    let mut panel = detached_panel(InputPolicy {
        capture: true,
        paste: true,
        mouse: true,
        ..InputPolicy::default()
    });
    let step = panel.handle_key(&KeyPress::with(KeyCode::Char('x'), Modifiers::alt()));
    assert_eq!(
        step,
        KeyStep::Send(HostMessage::Key {
            key: "Alt+x".into(),
            code: "char".into(),
            text: Some("x".into()),
            modifiers: vec!["Alt".into()],
        })
    );
    assert_eq!(
        panel.handle_paste("hello"),
        Some(HostMessage::Paste { text: "hello".into() })
    );
    let click = MouseEvent {
        kind: MouseKind::Down(MouseButton::Left),
        column: 3,
        row: 9,
        modifiers: Modifiers::none(),
    };
    let area = Area { x: 5, y: 2, width: 10, height: 10 };
    assert_eq!(
        panel.handle_mouse(&click, &area),
        Some(HostMessage::Mouse {
            kind: "down".into(),
            button: Some("left".into()),
            column: 0,
            row: 7,
            modifiers: Vec::new(),
        })
    );
    let mut passive = detached_panel(InputPolicy::default());
    assert_eq!(passive.handle_paste("hello"), None);
    assert_eq!(passive.handle_mouse(&click, &area), None);
}

#[test]
fn key_names_on_the_wire() {
    assert_eq!(key_code(&KeyCode::PageDown), "pagedown");
    assert_eq!(key_code(&KeyCode::F(5)), "f5");
    assert_eq!(key_code(&KeyCode::Char('Q')), "char");
    assert_eq!(canonical_key(&key(KeyCode::Char(' '))), "Space");
    assert_eq!(canonical_key(&key(KeyCode::F(12))), "F12");
    let all = Modifiers {
        shift: true,
        control: true,
        alt: true,
        super_key: true,
        hyper: true,
        meta: true,
    };
    assert_eq!(
        key_modifiers(&all),
        vec!["Ctrl", "Alt", "Shift", "Super", "Hyper", "Meta"]
    );
    assert_eq!(mouse_kind(MouseKind::ScrollDown), ("scroll_down".to_string(), None));
}

#[test]
fn colours_resolve_by_name_index_or_hex() {
    assert_eq!(wire_color("default"), Some(WireColor::Terminal(TermColor::Reset)));
    assert_eq!(wire_color("reset"), Some(WireColor::Terminal(TermColor::Reset)));
    assert_eq!(wire_color("theme:border_focused"), Some(WireColor::Theme(ThemeSlot::BorderFocused)));
    assert_eq!(wire_color("Light Blue"), Some(WireColor::Terminal(TermColor::LightBlue)));
    assert_eq!(wire_color("ansi:+7"), Some(WireColor::Terminal(TermColor::Indexed(7))));
    assert_eq!(wire_color("ansi:256"), None, "out of range and not a colour name");
    assert_eq!(wire_color("chartreuse"), None);
    assert_eq!(color_from_display("#0A0B0C"), Some(TermColor::Rgb(10, 11, 12)));
    assert_eq!(color_from_display("DarkGray"), Some(TermColor::DarkGray));
    assert_eq!(color_from_display("203"), Some(TermColor::Indexed(203)));
    assert_eq!(byte_from("255"), Some(255));
    assert_eq!(byte_from("256"), None);
    assert_eq!(byte_from("+"), None);
    assert_eq!(byte_from("-1"), None);
    assert_eq!(byte_from(""), None);
}

#[test]
fn a_span_keeps_its_attributes_and_drops_unknown_colours() {
    let mut styled = span("x");
    styled.fg = Some("theme:error".into());
    styled.bg = Some("nonsense".into());
    styled.bold = true;
    let style = span_style(&styled);
    assert_eq!(style.fg, Some(WireColor::Theme(ThemeSlot::Error)));
    assert_eq!(style.bg, None);
    assert!(style.bold && !style.dim && !style.italic);
}

#[test]
fn a_plugin_id_is_a_lowercase_name() {
    let ok = PluginConfig { id: "build-watch_2".into(), command: vec!["watch".into()] };
    assert_eq!(ok.validate(), Ok(()));
    let bad = PluginConfig { id: "2fast".into(), command: vec!["x".into()] };
    assert_eq!(bad.validate(), Err(PluginConfigError::InvalidId("2fast".into())));
    let empty = PluginConfig { id: String::new(), command: vec!["x".into()] };
    assert_eq!(empty.validate(), Err(PluginConfigError::InvalidId(String::new())));
    let upper = PluginConfig { id: "Build".into(), command: vec!["x".into()] };
    assert!(matches!(upper.validate(), Err(PluginConfigError::InvalidId(_))));
    assert_eq!(
        bad.validate().unwrap_err().message(),
        "plugin id `2fast` is invalid; use a lowercase letter followed by lowercase letters, digits, `-` or `_`."
    );
}

#[test]
fn a_plugin_needs_an_executable() {
    let none = PluginConfig { id: "demo".into(), command: Vec::new() };
    assert_eq!(none.validate(), Err(PluginConfigError::NoExecutable("demo".into())));
    let blank = PluginConfig { id: "demo".into(), command: vec!["  ".into(), "arg".into()] };
    assert_eq!(blank.validate(), Err(PluginConfigError::NoExecutable("demo".into())));
    assert_eq!(
        none.validate().unwrap_err().message(),
        "plugin `demo` has no executable; `command` must be a non-empty array."
    );
}

#[test]
fn stderr_preview_shows_at_most_three_lines() {
    assert_eq!(
        stderr_preview("first\r\nsecond\n\nfourth\nfifth"),
        vec!["first".to_string(), "second".to_string(), "".to_string()]
    );
}

#[test]
fn stderr_preview_keeps_a_short_tail_whole() {
    assert_eq!(
        stderr_preview("only one\n"),
        vec!["only one".to_string()]
    );
    assert_eq!(
        stderr_preview("a\nb\r"),
        vec!["a".to_string(), "b\r".to_string()]
    );
}

#[test]
fn stderr_preview_of_blank_output_is_empty() {
    assert!(stderr_preview("").is_empty());
    assert!(stderr_preview("  \n\t\n").is_empty());
}
