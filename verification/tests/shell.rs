use mirador::keys::{Area, KeyCode, KeyPress, Modifiers, MouseButton, MouseKind};
use mirador::panel::{KeyOutcome, Severity};
use mirador::plugin::state::PluginPanel;
use mirador::plugin::wire::InputPolicy;
use mirador::shell::{
    arrange_action, arrange_legend, cycle_focus, global_action, global_bindings, help_scroll,
    hint_gap, layout_alert, mouse_matters, panel_number, paste_keys, poll_wait_ms, route_key,
    tick_rate_ms, update_hint, ArrangeAction, Direction, GlobalAction, Modes, Route,
};
use mirador::shell::{
    help_footer, help_rows, hints_that_fit, is_due, panel_at, route_mouse, route_paste, MouseRoute, PasteRoute,
};
use mirador::shell::{
    ctrl_c_quits, help_layout, help_text_width, wrapped_rows, HELP_WIDTH,
};
use mirador::picker::{Action, Picker};

fn idle() -> Modes {
    Modes {
        show_help: false,
        help_scroll: 0,
        help_overflow: 0,
        help_viewport: 0,
        theme_picker: false,
        picker: false,
        arranging: false,
        captures: false,
    }
}

fn plain(code: KeyCode) -> KeyPress {
    KeyPress::plain(code)
}

fn ctrl(code: KeyCode) -> KeyPress {
    KeyPress::with(code, Modifiers::control())
}

#[test]
fn every_global_binding_has_a_key_and_an_action() {
    let global = global_bindings();
    for binding in &global {
        assert!(!binding.key.is_empty());
        assert!(!binding.action.is_empty());
    }
    assert!(
        global.iter().any(|b| b.key == "?" && b.primary),
        "help must always be advertised"
    );
}

#[test]
fn the_resize_keys_are_advertised_among_the_primaries() {
    let global = global_bindings();
    assert!(global
        .iter()
        .any(|b| b.key == "Ctrl+arrows" && b.action == "resize" && b.primary));
    let quit = global.iter().position(|b| b.key == "q").unwrap();
    let panels = global.iter().position(|b| b.key == "w").unwrap();
    assert!(quit < panels, "the way out comes before the way to add a panel");
}

#[test]
fn the_arrange_legend_says_a_row_can_be_opened() {
    let legend = arrange_legend();
    assert!(legend.iter().any(|(_, action)| action == "new row"));
    assert_eq!(legend[1], ("Enter".to_string(), "keep".to_string()));
    assert_eq!(legend[2], ("Esc".to_string(), "cancel".to_string()));
}

#[test]
fn focus_wraps_in_both_directions() {
    let mut focus = 0;
    focus = cycle_focus(focus, 3, true);
    assert_eq!(focus, 1);
    focus = cycle_focus(focus, 3, true);
    focus = cycle_focus(focus, 3, true);
    assert_eq!(focus, 0, "forward focus must wrap");
    focus = cycle_focus(focus, 3, false);
    assert_eq!(focus, 2, "backward focus must wrap");
    assert_eq!(cycle_focus(0, 0, true), 0, "nothing to focus leaves it alone");
}

#[test]
fn number_keys_jump_to_a_panel_and_ignore_out_of_range_indices() {
    assert_eq!(global_action(&KeyCode::Char('2'), 2), GlobalAction::Jump(1));
    assert_eq!(global_action(&KeyCode::Char('9'), 2), GlobalAction::Nothing);
    assert_eq!(panel_number('1', 1), Some(0));
    assert_eq!(panel_number('0', 5), None);
}

#[test]
fn help_opens_and_the_next_key_closes_it() {
    assert_eq!(route_key(&idle(), &plain(KeyCode::Char('?'))), Route::Dispatch);
    assert_eq!(global_action(&KeyCode::Char('?'), 1), GlobalAction::Help);
    let open = Modes { show_help: true, ..idle() };
    assert_eq!(route_key(&open, &plain(KeyCode::Char('x'))), Route::HelpClose);
    assert_eq!(route_key(&open, &plain(KeyCode::Char('q'))), Route::HelpClose);
}

#[test]
fn the_overlay_scrolls_only_when_it_overflows() {
    let open = Modes {
        show_help: true,
        help_scroll: 2,
        help_overflow: 5,
        help_viewport: 3,
        ..idle()
    };
    assert_eq!(route_key(&open, &plain(KeyCode::Down)), Route::HelpScroll(3));
    assert_eq!(route_key(&open, &plain(KeyCode::PageDown)), Route::HelpScroll(5));
    assert_eq!(route_key(&open, &plain(KeyCode::End)), Route::HelpScroll(5));
    assert_eq!(route_key(&open, &plain(KeyCode::Char('k'))), Route::HelpScroll(1));
    assert_eq!(route_key(&open, &plain(KeyCode::Char('x'))), Route::HelpClose);
    assert_eq!(help_scroll(0, 5, 0, &KeyCode::PageUp), Some(0));
    assert_eq!(help_scroll(4, 5, 0, &KeyCode::PageDown), Some(5));
    assert_eq!(help_scroll(4, 5, 2, &KeyCode::Tab), None);
}

#[test]
fn quit_keys_set_the_quit_flag() {
    assert_eq!(global_action(&KeyCode::Char('q'), 1), GlobalAction::Quit);
    assert_eq!(route_key(&idle(), &ctrl(KeyCode::Char('c'))), Route::Interrupt);
    assert_eq!(
        global_action(&KeyCode::Esc, 1),
        GlobalAction::Nothing,
        "Esc means back out of something, not quit"
    );
}

#[test]
fn ctrl_c_reaches_the_interrupt_whatever_is_open() {
    for modes in [
        Modes { show_help: true, ..idle() },
        Modes { picker: true, ..idle() },
        Modes { theme_picker: true, ..idle() },
        Modes { arranging: true, ..idle() },
        Modes { captures: true, ..idle() },
    ] {
        assert_eq!(route_key(&modes, &ctrl(KeyCode::Char('c'))), Route::Interrupt);
    }
}

#[test]
fn only_a_focused_capturing_panel_can_shorten_the_event_wait() {
    assert_eq!(poll_wait_ms(250, false, 8), 250);
    assert_eq!(poll_wait_ms(250, true, 8), 16);
    assert_eq!(
        poll_wait_ms(10, true, 8),
        10,
        "a panel may ask for responsiveness but never slow the configured loop"
    );
    assert_eq!(poll_wait_ms(250, true, 100), 100);
}

#[test]
fn the_tick_rate_is_held_between_bounds() {
    assert_eq!(tick_rate_ms(1), 16);
    assert_eq!(tick_rate_ms(250), 250);
    assert_eq!(tick_rate_ms(60_000), 5000);
}

#[test]
fn resize_keys_are_claimed_before_the_focused_panel_sees_them() {
    assert_eq!(
        route_key(&idle(), &ctrl(KeyCode::Left)),
        Route::Resize { width: true, grow: false }
    );
    assert_eq!(
        route_key(&idle(), &ctrl(KeyCode::Down)),
        Route::Resize { width: false, grow: true }
    );
    assert_eq!(route_key(&idle(), &ctrl(KeyCode::Char('x'))), Route::Dispatch);
}

#[test]
fn a_capturing_panel_vetoes_the_resize_keys() {
    let typing = Modes { captures: true, ..idle() };
    assert_eq!(route_key(&typing, &ctrl(KeyCode::Left)), Route::Dispatch);
}

#[test]
fn ctrl_arrows_still_resize_inside_arrange_mode() {
    let arranging = Modes { arranging: true, ..idle() };
    assert_eq!(
        route_key(&arranging, &ctrl(KeyCode::Right)),
        Route::Resize { width: true, grow: true }
    );
    assert_eq!(route_key(&arranging, &plain(KeyCode::Right)), Route::Arrange);
}

#[test]
fn dialogs_read_keys_before_anything_else() {
    let theme = Modes { theme_picker: true, picker: true, ..idle() };
    assert_eq!(route_key(&theme, &plain(KeyCode::Char('q'))), Route::ThemePicker);
    let picker = Modes { picker: true, ..idle() };
    assert_eq!(route_key(&picker, &ctrl(KeyCode::Left)), Route::Picker);
}

#[test]
fn shift_arrows_move_the_whole_row_in_arrange_mode() {
    let shift_up = KeyPress::with(KeyCode::Up, Modifiers::shift());
    assert_eq!(arrange_action(&shift_up, 3), ArrangeAction::MoveRow(false));
    let shift_down = KeyPress::with(KeyCode::Down, Modifiers::shift());
    assert_eq!(arrange_action(&shift_down, 3), ArrangeAction::MoveRow(true));
    assert_eq!(
        arrange_action(&plain(KeyCode::Up), 3),
        ArrangeAction::Move(Direction::Up)
    );
}

#[test]
fn capital_and_plain_movement_keys_do_different_things() {
    assert_eq!(
        arrange_action(&plain(KeyCode::Char('K')), 3),
        ArrangeAction::MoveRow(false)
    );
    assert_eq!(
        arrange_action(&plain(KeyCode::Char('k')), 3),
        ArrangeAction::Move(Direction::Up)
    );
    assert_eq!(
        arrange_action(&plain(KeyCode::Char('J')), 3),
        ArrangeAction::MoveRow(true)
    );
}

#[test]
fn arrange_mode_keeps_on_enter_and_cancels_on_esc() {
    assert_eq!(arrange_action(&plain(KeyCode::Enter), 3), ArrangeAction::Keep);
    assert_eq!(arrange_action(&plain(KeyCode::Char('m')), 3), ArrangeAction::Keep);
    assert_eq!(arrange_action(&plain(KeyCode::Esc), 3), ArrangeAction::Cancel);
    assert_eq!(arrange_action(&plain(KeyCode::Char('3')), 3), ArrangeAction::Jump(2));
    assert_eq!(arrange_action(&plain(KeyCode::Char('4')), 3), ArrangeAction::Nothing);
    assert_eq!(arrange_action(&plain(KeyCode::BackTab), 3), ArrangeAction::FocusBack);
}

#[test]
fn a_paste_types_enter_for_every_line_break_and_drops_other_controls() {
    assert_eq!(
        paste_keys("a\r\nb\rc\n\td\u{7}"),
        vec![
            KeyCode::Char('a'),
            KeyCode::Enter,
            KeyCode::Char('b'),
            KeyCode::Enter,
            KeyCode::Char('c'),
            KeyCode::Enter,
            KeyCode::Tab,
            KeyCode::Char('d'),
        ]
    );
    assert_eq!(paste_keys("\r\r\n"), vec![KeyCode::Enter, KeyCode::Enter]);
    assert!(paste_keys("").is_empty());
}

#[test]
fn only_presses_and_scrolls_matter_to_the_shell() {
    assert!(mouse_matters(MouseKind::Down(MouseButton::Left)));
    assert!(mouse_matters(MouseKind::ScrollUp));
    assert!(!mouse_matters(MouseKind::Moved));
    assert!(!mouse_matters(MouseKind::Up(MouseButton::Left)));
}

#[test]
fn a_layout_that_would_not_save_is_a_failing_alert() {
    let alert = layout_alert("read-only file system");
    assert_eq!(alert.severity, Severity::Failing);
    assert_eq!(
        alert.text,
        "The layout could not be saved — read-only file system"
    );
}

#[test]
fn no_update_notice_until_something_finds_a_version() {
    assert_eq!(update_hint(true, &None), None);
    assert_eq!(update_hint(false, &Some("9.9.9".to_string())), None);
    assert_eq!(
        update_hint(true, &Some("9.9.9".to_string())),
        Some("mirador 9.9.9 is out   mirador --update ".to_string())
    );
}

#[test]
fn the_hint_gives_way_to_the_global_keys_on_a_narrow_terminal() {
    assert_eq!(hint_gap(60, 17, 80), Some(2));
    assert_eq!(hint_gap(60, 18, 80), None);
    assert_eq!(hint_gap(0, 0, 3), Some(2));
    assert_eq!(hint_gap(90, 1, 80), None);
}

#[test]
fn an_external_interrupt_gets_one_ctrl_c_and_the_second_still_quits() {
    let mut panel = PluginPanel::new(mirador::config::PluginConfig {
        id: "test".to_string(),
        command: vec!["unused".to_string()],
    });
    panel.policy = InputPolicy { capture: true, interrupt: true, ..InputPolicy::default() };
    panel.interrupt_armed = true;
    let ctrl_c = ctrl(KeyCode::Char('c'));

    assert_eq!(route_key(&idle(), &ctrl_c), Route::Interrupt);
    assert_eq!(panel.handle_interrupt(), KeyOutcome::Consumed, "the first goes to the plugin");
    assert_eq!(route_key(&idle(), &ctrl_c), Route::Interrupt);
    assert_eq!(
        panel.handle_interrupt(),
        KeyOutcome::Ignored,
        "the second falls through, and the dashboard quits"
    );
}

#[test]
fn clipboard_inputs_reach_the_editor_before_global_keys() {
    assert_eq!(route_paste(&idle()), PasteRoute::Focused);
    assert_eq!(route_paste(&Modes { show_help: true, ..idle() }), PasteRoute::CloseHelp);
    assert_eq!(route_paste(&Modes { picker: true, ..idle() }), PasteRoute::Drop);
    assert_eq!(
        paste_keys("q\n"),
        vec![KeyCode::Char('q'), KeyCode::Enter],
        "a capturing panel is typed the paste, so q cannot become a global quit"
    );
}

#[test]
fn a_click_focuses_the_panel_under_it_and_a_scroll_does_not() {
    let areas = vec![
        Some(Area { x: 0, y: 0, width: 10, height: 5 }),
        None,
        Some(Area { x: 10, y: 0, width: 10, height: 5 }),
    ];
    assert_eq!(panel_at(&areas, 12, 3), Some(2));
    assert_eq!(panel_at(&areas, 9, 4), Some(0));
    assert_eq!(panel_at(&areas, 20, 0), None);
    assert_eq!(panel_at(&areas, 5, 5), None);
    let click = MouseKind::Down(MouseButton::Left);
    assert_eq!(
        route_mouse(click, false, false, false, Some(2)),
        MouseRoute::Offer { index: 2, focus: true }
    );
    assert_eq!(
        route_mouse(MouseKind::ScrollUp, false, false, false, Some(2)),
        MouseRoute::Offer { index: 2, focus: false }
    );
    assert_eq!(route_mouse(MouseKind::Moved, true, false, false, Some(2)), MouseRoute::Ignore);
    assert_eq!(route_mouse(click, true, false, false, None), MouseRoute::CloseHelp);
    assert_eq!(route_mouse(click, false, true, false, Some(2)), MouseRoute::Ignore);
    assert_eq!(route_mouse(click, false, true, true, Some(2)), MouseRoute::Focused);
}

#[test]
fn a_panel_ticks_immediately_rather_than_one_interval_late() {
    assert!(is_due(None, 1000));
    assert!(!is_due(Some(999), 1000));
    assert!(is_due(Some(1000), 1000));
}

#[test]
fn the_status_bar_never_draws_half_a_hint() {
    let widths = vec![8, 10, 10, 13, 20];
    assert_eq!(hints_that_fit(&widths, 80), 5);
    assert_eq!(hints_that_fit(&widths, 41), 4);
    assert_eq!(hints_that_fit(&widths, 40), 3);
    assert_eq!(hints_that_fit(&widths, 7), 0);
    assert_eq!(hints_that_fit(&Vec::new(), 7), 0);
}

#[test]
fn the_help_footer_says_where_the_reader_is() {
    assert_eq!(help_footer(0, 0, 10), (None, "any key to close".to_string()));
    assert_eq!(
        help_footer(0, 5, 10),
        (Some("↓".to_string()), " 10/15 · any other key to close".to_string())
    );
    assert_eq!(
        help_footer(2, 5, 10),
        (Some("↑↓".to_string()), " 12/15 · any other key to close".to_string())
    );
    assert_eq!(
        help_footer(5, 5, 10),
        (Some("↑".to_string()), " 15/15 · any other key to close".to_string())
    );
}

#[test]
fn the_help_text_keeps_at_least_one_row() {
    assert_eq!(help_rows(10), (8, 2));
    assert_eq!(help_rows(2), (1, 1));
    assert_eq!(help_rows(1), (1, 0));
    assert_eq!(help_rows(0), (0, 0));
}

fn hint(key: &str, action: &str) -> String {
    format!("   {key} {action}")
}

fn width_of(text: &str) -> usize {
    text.chars().count()
}

/// The help text for the global keys and a panel with `panel_keys` bindings,
/// as its line widths.
fn help_lines(panel_keys: usize) -> Vec<usize> {
    let mut widths = vec![width_of("global")];
    for binding in global_bindings() {
        widths.push(width_of(&format!("  {:<12}{}", binding.key, binding.action)));
    }
    if panel_keys > 0 {
        widths.push(0);
        widths.push(width_of("tasks"));
        for n in 0..panel_keys {
            widths.push(width_of(&format!("  {:<12}action {n}", "k")));
        }
    }
    widths
}

fn help_at(width: u16, height: u16, panel_keys: usize, scroll: u16) -> mirador::shell::HelpLayout {
    let area = Area { x: 0, y: 0, width, height: height - 1 };
    let text_height = wrapped_rows(&help_lines(panel_keys), help_text_width(width));
    help_layout(&area, text_height, scroll)
}

#[test]
fn the_resize_hint_is_worded_the_way_arrange_mode_words_it() {
    let plain_bar: String = global_bindings()
        .iter()
        .filter(|b| b.primary)
        .map(|b| hint(&b.key, &b.action))
        .collect();
    let legend: String = arrange_legend().iter().map(|(k, a)| hint(k, a)).collect();
    assert!(
        plain_bar.contains("Ctrl+arrows resize") && legend.contains("Ctrl+arrows resize"),
        "the same key must read the same in both bars:\n  {plain_bar}\n  {legend}"
    );
}

#[test]
fn a_narrow_arrange_legend_drops_whole_hints_and_keeps_the_way_out() {
    let mut parts = vec![" ARRANGE".to_string()];
    parts.extend(arrange_legend().iter().map(|(k, a)| hint(k, a)));
    let widths: Vec<usize> = parts.iter().map(|p| width_of(p)).collect();
    for width in 40..110usize {
        let shown = hints_that_fit(&widths, width);
        let bar: String = parts[..shown].concat();
        assert!(width_of(bar.trim_end()) <= width, "the bar overflowed at {width}: {bar}");
        if width >= 46 {
            assert!(bar.contains("Esc cancel"), "no way out at {width}: {bar}");
        }
    }
}

#[test]
fn the_update_notice_has_the_end_of_the_status_bar_to_itself() {
    let shown = update_hint(true, &Some("9.9.9".to_string())).expect("an update is waiting");
    assert!(shown.contains("9.9.9"), "got `{shown}`");
}

#[test]
fn every_binding_of_the_focused_panel_is_reachable_on_an_80x24_terminal() {
    let bindings = 17;
    assert!(bindings > 4, "this test needs a panel with many bindings");
    let layout = help_at(80, 24, bindings, 0);
    assert!(
        layout.overflow > 0,
        "the overlay fits at 80x24, so this test no longer proves anything"
    );

    let mut modes = idle();
    modes.show_help = true;
    modes.help_overflow = layout.overflow;
    modes.help_viewport = layout.text_rows;
    let mut guard = 0;
    while modes.help_scroll < modes.help_overflow {
        match route_key(&modes, &plain(KeyCode::Down)) {
            Route::HelpScroll(to) => modes.help_scroll = to,
            other => panic!("scrolling must not dismiss the overlay: {other:?}"),
        }
        guard += 1;
        assert!(guard < 200, "scrolling made no progress");
    }

    assert_eq!(route_key(&modes, &plain(KeyCode::Home)), Route::HelpScroll(0));
    assert_eq!(route_key(&modes, &plain(KeyCode::End)), Route::HelpScroll(modes.help_overflow));
    assert_eq!(
        route_key(&modes, &plain(KeyCode::Char('x'))),
        Route::HelpClose,
        "a non-scroll key must still close the overlay"
    );
}

#[test]
fn the_overlay_closes_on_any_key_when_it_all_fits() {
    let layout = help_at(120, 60, 3, 0);
    assert_eq!(layout.overflow, 0, "120x60 has room for the whole overlay");
    let mut modes = idle();
    modes.show_help = true;
    modes.help_overflow = layout.overflow;
    modes.help_viewport = layout.text_rows;
    assert_eq!(route_key(&modes, &plain(KeyCode::Down)), Route::HelpClose);
}

#[test]
fn the_picker_moves_and_closes_without_quitting() {
    let mut picker = Picker::new(vec!["clocks".to_string(), "todo".to_string()]);
    let mut modes = idle();
    modes.picker = true;

    assert_eq!(route_key(&modes, &plain(KeyCode::Down)), Route::Picker);
    assert_eq!(picker.handle_key(&plain(KeyCode::Down)), Action::Nothing);
    assert_eq!(picker.selected(), 1);
    assert_eq!(picker.handle_key(&plain(KeyCode::Up)), Action::Nothing);
    assert_eq!(picker.selected(), 0);

    assert_eq!(route_key(&modes, &plain(KeyCode::Esc)), Route::Picker);
    assert_eq!(
        picker.handle_key(&plain(KeyCode::Esc)),
        Action::Close,
        "Esc closes the dialog rather than falling through to quit"
    );
}

#[test]
fn the_help_overlay_is_centred_and_sized_to_its_text() {
    let area = Area { x: 0, y: 0, width: 120, height: 60 };
    let layout = help_layout(&area, 16, 0);
    assert_eq!(layout.popup, Area { x: 37, y: 20, width: HELP_WIDTH, height: 20 });
    assert_eq!((layout.text_rows, layout.footer_rows, layout.overflow), (16, 2, 0));

    let small = Area { x: 2, y: 1, width: 30, height: 10 };
    let layout = help_layout(&small, 30, 50);
    assert_eq!(layout.popup, Area { x: 2, y: 1, width: 30, height: 10 });
    assert_eq!((layout.text_rows, layout.footer_rows), (6, 2));
    assert_eq!(layout.overflow, 24);
    assert_eq!(layout.scroll, 24, "a stale scroll is pulled back into range");

    let tiny = Area { x: 0, y: 0, width: 10, height: 2 };
    let layout = help_layout(&tiny, 30, 5);
    assert_eq!((layout.text_rows, layout.overflow, layout.scroll), (0, 0, 5));
}

#[test]
fn wrapped_lines_count_every_row_they_take() {
    assert_eq!(wrapped_rows(&vec![0, 10, 11, 42], 10), 1 + 1 + 2 + 5);
    assert_eq!(wrapped_rows(&vec![usize::MAX, 5], 1), u16::MAX);
    assert_eq!(help_text_width(120), 42);
    assert_eq!(help_text_width(20), 16);
    assert_eq!(help_text_width(3), 1);
}

#[test]
fn ctrl_c_quits_unless_the_panel_takes_it() {
    assert!(ctrl_c_quits(KeyOutcome::Ignored, None), "no panel: quit");
    assert!(ctrl_c_quits(KeyOutcome::Ignored, Some(KeyOutcome::Ignored)));
    assert!(!ctrl_c_quits(KeyOutcome::Ignored, Some(KeyOutcome::Consumed)));
    assert!(!ctrl_c_quits(KeyOutcome::Consumed, None), "a copied selection");
}

#[test]
fn ctrl_c_twice_quits_even_when_a_plugin_is_stuck() {
    // A capturing plugin takes the first Ctrl+C and disarms itself; the
    // second falls through to the dashboard.
    let mut panel = mirador::plugin::state::PluginPanel::new(mirador::config::PluginConfig {
        id: "stuck".to_string(),
        command: vec!["stuck".to_string()],
    });
    panel.phase = mirador::plugin::shared::Phase::Running;
    panel.policy = InputPolicy { capture: true, interrupt: true, ..InputPolicy::default() };
    panel.interrupt_armed = true;
    let first = panel.handle_interrupt();
    let second = panel.handle_interrupt();
    assert!(!ctrl_c_quits(KeyOutcome::Ignored, Some(first)));
    assert!(ctrl_c_quits(KeyOutcome::Ignored, Some(second)));
}
