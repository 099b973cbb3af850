use pong::app::{App, Event};
use pong::input::{Button, ButtonArgs, ButtonState, KEY_A, KEY_D};

fn keyboard(state: ButtonState, key: i32) -> ButtonArgs {
    ButtonArgs { state, button: Button::Keyboard(key) }
}

#[test]
fn fresh_game_holds_no_key() {
    let app = App::start();
    assert!(!app.is_held(KEY_A));
    assert!(!app.is_held(KEY_D));
    assert!(!app.is_held(0));
}

#[test]
fn press_holds_the_key() {
    let mut app = App::start();
    app.input(&keyboard(ButtonState::Press, KEY_A));
    assert!(app.is_held(KEY_A));
    assert!(!app.is_held(KEY_D));
}

#[test]
fn release_lets_the_key_go() {
    let mut app = App::start();
    app.input(&keyboard(ButtonState::Press, KEY_A));
    app.input(&keyboard(ButtonState::Press, KEY_D));
    app.input(&keyboard(ButtonState::Release, KEY_A));
    assert!(!app.is_held(KEY_A));
    assert!(app.is_held(KEY_D));
}

#[test]
fn press_twice_needs_one_release() {
    let mut app = App::start();
    app.input(&keyboard(ButtonState::Press, KEY_D));
    app.input(&keyboard(ButtonState::Press, KEY_D));
    app.input(&keyboard(ButtonState::Release, KEY_D));
    assert!(!app.is_held(KEY_D));
}

#[test]
fn release_of_a_key_not_held_changes_nothing() {
    let mut app = App::start();
    app.input(&keyboard(ButtonState::Press, KEY_D));
    app.input(&keyboard(ButtonState::Release, KEY_A));
    assert!(app.is_held(KEY_D));
    assert!(!app.is_held(KEY_A));
}

#[test]
fn any_key_code_is_tracked() {
    let mut app = App::start();
    app.input(&keyboard(ButtonState::Press, 0x4000_011A));
    app.input(&keyboard(ButtonState::Press, -5));
    assert!(app.is_held(0x4000_011A));
    assert!(app.is_held(-5));
    assert!(!app.is_held(5));
}

#[test]
fn other_buttons_are_ignored() {
    let mut app = App::start();
    app.input(&keyboard(ButtonState::Press, KEY_A));
    app.input(&ButtonArgs { state: ButtonState::Press, button: Button::Other });
    app.input(&ButtonArgs { state: ButtonState::Release, button: Button::Other });
    assert!(app.is_held(KEY_A));
    assert!(!app.is_held(KEY_D));
}

#[test]
fn input_does_not_move_the_paddle() {
    let mut app = App::start();
    app.input(&keyboard(ButtonState::Press, KEY_D));
    assert_eq!(app.player().y(), 0);
}

#[test]
fn handle_records_button_events() {
    let mut app = App::start();
    assert!(app.handle(&Event::Input(keyboard(ButtonState::Press, KEY_D))).is_none());
    assert!(app.is_held(KEY_D));
    assert!(app.handle(&Event::Input(keyboard(ButtonState::Release, KEY_D))).is_none());
    assert!(!app.is_held(KEY_D));
}

#[test]
fn handle_ignores_other_events() {
    let mut app = App::start();
    app.handle(&Event::Input(keyboard(ButtonState::Press, KEY_D)));
    assert!(app.handle(&Event::Other).is_none());
    assert!(app.is_held(KEY_D));
    assert_eq!(app.player().y(), 0);
}

#[test]
fn handle_update_answers_nothing_and_moves() {
    let mut app = App::start();
    app.handle(&Event::Input(keyboard(ButtonState::Press, KEY_D)));
    assert!(app.handle(&Event::Update).is_none());
    assert_eq!(app.player().y(), 10);
}
