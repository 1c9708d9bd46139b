use mirador::keys::{KeyCode, KeyPress};
use mirador::picker::{Action, Picker};

const WIDGET_NAMES: [&str; 4] = ["clocks", "calendar", "cpu", "network"];

fn picker() -> Picker {
    Picker::new(WIDGET_NAMES.iter().map(|name| (*name).to_string()).collect())
}

fn press(picker: &mut Picker, code: KeyCode) -> Action {
    picker.handle_key(&KeyPress::plain(code))
}

#[test]
fn the_cursor_clamps_at_both_ends() {
    let last = WIDGET_NAMES.len() - 1;
    let mut picker = picker();

    assert_eq!(picker.selected(), 0, "opens on the first widget");
    press(&mut picker, KeyCode::Up);
    assert_eq!(picker.selected(), 0, "the top does not wrap");

    press(&mut picker, KeyCode::End);
    assert_eq!(picker.selected(), last);
    press(&mut picker, KeyCode::Down);
    assert_eq!(picker.selected(), last, "the end does not wrap");
}

#[test]
fn space_names_the_widget_under_the_cursor() {
    let mut picker = picker();
    assert_eq!(
        press(&mut picker, KeyCode::Char(' ')),
        Action::Toggle(WIDGET_NAMES[0].to_string())
    );

    press(&mut picker, KeyCode::Down);
    assert_eq!(
        press(&mut picker, KeyCode::Char(' ')),
        Action::Toggle(WIDGET_NAMES[1].to_string())
    );
}

#[test]
fn only_the_documented_keys_close_it() {
    for code in [
        KeyCode::Esc,
        KeyCode::Char('q'),
        KeyCode::Char('w'),
        KeyCode::Enter,
    ] {
        assert_eq!(press(&mut picker(), code.clone()), Action::Close, "{code:?}");
    }
    for code in [KeyCode::Char('x'), KeyCode::Tab, KeyCode::Backspace] {
        assert_eq!(press(&mut picker(), code.clone()), Action::Nothing, "{code:?}");
    }
}

#[test]
fn runtime_plugin_names_are_selectable() {
    let mut picker = Picker::new(vec!["clocks".into(), "terminal".into()]);
    press(&mut picker, KeyCode::End);
    assert_eq!(
        press(&mut picker, KeyCode::Char(' ')),
        Action::Toggle("terminal".into())
    );
}

#[test]
fn home_returns_to_the_first_row() {
    let mut picker = picker();
    press(&mut picker, KeyCode::Down);
    press(&mut picker, KeyCode::Down);
    assert_eq!(picker.selected(), 2);
    press(&mut picker, KeyCode::Home);
    assert_eq!(picker.selected(), 0);
}
