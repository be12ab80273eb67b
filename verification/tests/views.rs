use tui_screens::key::{KeyCode, KeyEvent, KeyEventKind};
use tui_screens::views::landing::LandingView;
use tui_screens::views::register::{InputMode, RegisterView};
use tui_screens::AppState;

fn press(code: KeyCode) -> KeyEvent {
    KeyEvent::new(code)
}

#[test]
fn key_event_new_is_a_press() {
    let event = KeyEvent::new(KeyCode::Enter);
    assert_eq!(event.kind, KeyEventKind::Press);
    assert_eq!(event.code, KeyCode::Enter);
    let event = KeyEvent::new_with_kind(KeyCode::Char('j'), KeyEventKind::Release);
    assert_eq!(event.kind, KeyEventKind::Release);
    assert_eq!(event.code, KeyCode::Char('j'));
}

#[test]
fn landing_starts_on_login() {
    let view = LandingView::new(String::from("LOGO"));
    assert_eq!(view.selected(), Some(0));
    assert_eq!(view.items(), &vec![String::from("Login"), String::from("Register")]);
    assert_eq!(view.logo(), "LOGO");
    assert_eq!(view.should_go_to, None);
}

#[test]
fn landing_down_then_enter_asks_for_register() {
    let mut view = LandingView::new(String::new());
    assert_eq!(view.selected(), Some(0));
    view.handle_key(press(KeyCode::Down));
    assert_eq!(view.selected(), Some(1));
    assert_eq!(view.should_go_to, None);
    view.handle_key(press(KeyCode::Enter));
    assert_eq!(view.should_go_to, Some(AppState::Register));
    assert_eq!(view.selected(), Some(1));
}

#[test]
fn landing_enter_on_login_asks_for_nothing() {
    let mut view = LandingView::new(String::new());
    view.handle_key(press(KeyCode::Enter));
    assert_eq!(view.should_go_to, None);
    view.handle_key(press(KeyCode::Char('l')));
    assert_eq!(view.should_go_to, None);
    assert_eq!(view.selected(), Some(0));
}

#[test]
fn landing_letters_do_what_the_arrows_do() {
    let mut view = LandingView::new(String::new());
    view.handle_key(press(KeyCode::Char('j')));
    assert_eq!(view.selected(), Some(1));
    view.handle_key(press(KeyCode::Char('k')));
    assert_eq!(view.selected(), Some(0));
    view.handle_key(press(KeyCode::Char('j')));
    view.handle_key(press(KeyCode::Char('l')));
    assert_eq!(view.should_go_to, Some(AppState::Register));
}

#[test]
fn landing_cursor_wraps_round_the_menu() {
    let mut view = LandingView::new(String::new());
    view.handle_key(press(KeyCode::Up));
    assert_eq!(view.selected(), Some(1));
    view.handle_key(press(KeyCode::Down));
    assert_eq!(view.selected(), Some(0));
    view.handle_key(press(KeyCode::Down));
    view.handle_key(press(KeyCode::Down));
    assert_eq!(view.selected(), Some(0));
}

#[test]
fn landing_ignores_other_keys() {
    let mut view = LandingView::new(String::from("x"));
    for code in [KeyCode::Esc, KeyCode::Other, KeyCode::Char('q'), KeyCode::Char('e'), KeyCode::Char('J')] {
        view.handle_key(press(code));
        assert_eq!(view.selected(), Some(0));
        assert_eq!(view.should_go_to, None);
    }
    assert_eq!(view.logo(), "x");
}

#[test]
fn landing_ignores_events_that_are_no_press() {
    let mut view = LandingView::new(String::new());
    for kind in [KeyEventKind::Release, KeyEventKind::Repeat] {
        view.handle_key(KeyEvent::new_with_kind(KeyCode::Down, kind));
        assert_eq!(view.selected(), Some(0));
    }
    view.handle_key(press(KeyCode::Down));
    for kind in [KeyEventKind::Release, KeyEventKind::Repeat] {
        view.handle_key(KeyEvent::new_with_kind(KeyCode::Enter, kind));
        assert_eq!(view.should_go_to, None);
    }
}

#[test]
fn landing_request_stays_until_it_is_taken() {
    let mut view = LandingView::new(String::new());
    view.handle_key(press(KeyCode::Down));
    view.handle_key(press(KeyCode::Enter));
    view.handle_key(press(KeyCode::Up));
    assert_eq!(view.should_go_to, Some(AppState::Register));
    assert_eq!(view.take_transition(), Some(AppState::Register));
    assert_eq!(view.should_go_to, None);
    assert_eq!(view.take_transition(), None);
    assert_eq!(view.selected(), Some(0));
}

#[test]
fn landing_handle_input_hands_the_request_out() {
    let mut view = LandingView::new(String::new());
    assert_eq!(view.handle_input(press(KeyCode::Enter)), None);
    assert_eq!(view.handle_input(press(KeyCode::Down)), None);
    assert_eq!(view.selected(), Some(1));
    assert_eq!(view.handle_input(press(KeyCode::Enter)), Some(AppState::Register));
    assert_eq!(view.should_go_to, None);
    assert_eq!(view.handle_input(press(KeyCode::Other)), None);
}

#[test]
fn register_starts_empty_and_normal() {
    let view = RegisterView::default();
    assert_eq!(view.input().value(), "");
    assert_eq!(view.input().cursor(), 0);
    assert_eq!(view.input_mode(), InputMode::Normal);
    assert_eq!(view.should_go_to, None);
}

#[test]
fn register_escape_asks_for_landing_from_any_text() {
    for text in ["", "a", "user name", "née"] {
        let mut view = RegisterView::default();
        for c in text.chars() {
            view.input_mut().insert_char(c);
        }
        view.input_mut().move_left();
        let cursor = view.input().cursor();
        view.handle_key(press(KeyCode::Esc));
        assert_eq!(view.should_go_to, Some(AppState::Landing));
        assert_eq!(view.input().value(), text);
        assert_eq!(view.input().cursor(), cursor);
    }
}

#[test]
fn register_e_leaves_the_mode_normal() {
    let mut view = RegisterView::default();
    view.handle_key(press(KeyCode::Char('e')));
    assert_eq!(view.input_mode(), InputMode::Normal);
    assert_eq!(view.should_go_to, None);
    assert_eq!(view.input().value(), "");
}

#[test]
fn register_keys_do_not_reach_the_text() {
    let mut view = RegisterView::default();
    view.input_mut().insert_char('a');
    for code in [KeyCode::Char('b'), KeyCode::Char('q'), KeyCode::Enter, KeyCode::Up, KeyCode::Down, KeyCode::Other] {
        view.handle_key(press(code));
        assert_eq!(view.input().value(), "a");
        assert_eq!(view.input().cursor(), 1);
        assert_eq!(view.should_go_to, None);
        assert_eq!(view.input_mode(), InputMode::Normal);
    }
}

#[test]
fn register_ignores_events_that_are_no_press() {
    let mut view = RegisterView::default();
    view.handle_key(KeyEvent::new_with_kind(KeyCode::Esc, KeyEventKind::Release));
    assert_eq!(view.should_go_to, None);
    view.handle_key(KeyEvent::new_with_kind(KeyCode::Esc, KeyEventKind::Repeat));
    assert_eq!(view.should_go_to, None);
}

#[test]
fn register_handle_input_hands_the_request_out() {
    let mut view = RegisterView::default();
    assert_eq!(view.handle_input(press(KeyCode::Char('e'))), None);
    assert_eq!(view.handle_input(press(KeyCode::Esc)), Some(AppState::Landing));
    assert_eq!(view.should_go_to, None);
    assert_eq!(view.take_transition(), None);
    view.handle_key(press(KeyCode::Esc));
    assert_eq!(view.take_transition(), Some(AppState::Landing));
    assert_eq!(view.should_go_to, None);
}
