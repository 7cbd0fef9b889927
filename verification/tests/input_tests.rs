use retro_arcade::input::{Input, InputEvent, KeyCode, KEY_COUNT};

#[test]
fn new_input_has_nothing_held() {
    let input = Input::new();
    assert!(!input.is_key_down(KeyCode::X));
    assert!(!input.is_key_pressed(KeyCode::Space));
    assert!(!input.should_quit());
}

#[test]
fn key_down_event_is_pressed_then_only_held() {
    let mut input = Input::new();
    input.poll(&[InputEvent::KeyDown(Some(KeyCode::X))], &[]);
    assert!(input.is_key_down(KeyCode::X));
    assert!(input.is_key_pressed(KeyCode::X));
    assert!(!input.is_key_down(KeyCode::Z));

    input.poll(&[], &[KeyCode::X]);
    assert!(input.is_key_down(KeyCode::X));
    assert!(!input.is_key_pressed(KeyCode::X));

    input.poll(&[], &[]);
    assert!(!input.is_key_down(KeyCode::X));
    assert!(!input.is_key_pressed(KeyCode::X));
}

#[test]
fn snapshot_alone_reports_a_press() {
    let mut input = Input::new();
    input.poll(&[InputEvent::Other], &[KeyCode::Left, KeyCode::Return]);
    assert!(input.is_key_pressed(KeyCode::Left));
    assert!(input.is_key_pressed(KeyCode::Return));
    assert!(!input.is_key_down(KeyCode::Right));
}

#[test]
fn unmapped_keys_and_key_up_are_ignored() {
    let mut input = Input::new();
    input.poll(&[InputEvent::KeyDown(None), InputEvent::KeyUp(Some(KeyCode::Up))], &[]);
    assert!(!input.is_key_down(KeyCode::Up));
    assert!(!input.should_quit());
}

#[test]
fn quit_is_sticky() {
    let mut input = Input::new();
    input.poll(&[InputEvent::Quit], &[]);
    assert!(input.should_quit());
    input.poll(&[], &[]);
    assert!(input.should_quit());
}

#[test]
fn escape_requests_quit() {
    let mut input = Input::new();
    input.poll(&[InputEvent::KeyDown(Some(KeyCode::Escape))], &[]);
    assert!(input.should_quit());
    assert!(input.is_key_down(KeyCode::Escape));
}

#[test]
fn key_indices_cover_the_table() {
    let keys = [
        KeyCode::Left,
        KeyCode::Right,
        KeyCode::Up,
        KeyCode::Down,
        KeyCode::Space,
        KeyCode::Z,
        KeyCode::X,
        KeyCode::Return,
        KeyCode::Escape,
    ];
    for (i, k) in keys.iter().enumerate() {
        assert_eq!(k.index(), i);
    }
    assert_eq!(KEY_COUNT, 9);
}
