use megaui_macroquad::megaui::KeyCode;
use megaui_macroquad::{bindings, forward_input, HostKey, InputSnapshot, Point, Scalar, UiEvent};

fn point(x: f32, y: f32) -> Point {
    Point::from_bits(x.to_bits(), y.to_bits())
}

fn idle_at(x: f32, y: f32) -> InputSnapshot {
    InputSnapshot {
        mouse_position: point(x, y),
        left_pressed: false,
        left_released: false,
        chars: vec![],
        keys_pressed: vec![],
        keys_down: vec![],
        mouse_wheel: point(0.0, 0.0),
    }
}

fn key_down(key: KeyCode, shift: bool, ctrl: bool) -> UiEvent {
    UiEvent::KeyDown { key, shift, ctrl }
}

fn wheel(events: &[UiEvent]) -> (f32, f32) {
    match events.last() {
        Some(UiEvent::MouseWheel { x, y }) => {
            (f32::from_bits(x.to_bits()), f32::from_bits(y.to_bits()))
        }
        other => panic!("the last event is {:?}", other),
    }
}

#[test]
fn idle_frame_moves_the_pointer_and_reports_the_wheel() {
    let events = forward_input(&idle_at(12.5, 40.0));
    assert_eq!(events.len(), 2);
    assert_eq!(events[0], UiEvent::MouseMove { position: point(12.5, 40.0) });
    assert_eq!(
        events[1],
        UiEvent::MouseWheel { x: Scalar::from_bits(0), y: Scalar::from_bits(0x8000_0000) }
    );
}

#[test]
fn button_press_follows_the_move() {
    let mut input = idle_at(3.0, 4.0);
    input.left_pressed = true;
    let events = forward_input(&input);
    assert_eq!(events.len(), 3);
    assert_eq!(events[0], UiEvent::MouseMove { position: point(3.0, 4.0) });
    assert_eq!(events[1], UiEvent::MouseDown { position: point(3.0, 4.0) });
}

#[test]
fn button_release_follows_the_move() {
    let mut input = idle_at(3.0, 4.0);
    input.left_released = true;
    let events = forward_input(&input);
    assert_eq!(events.len(), 3);
    assert_eq!(events[1], UiEvent::MouseUp { position: point(3.0, 4.0) });
}

#[test]
fn press_and_release_in_one_frame_come_in_that_order() {
    let mut input = idle_at(1.0, 2.0);
    input.left_pressed = true;
    input.left_released = true;
    let events = forward_input(&input);
    assert_eq!(events.len(), 4);
    assert_eq!(events[1], UiEvent::MouseDown { position: point(1.0, 2.0) });
    assert_eq!(events[2], UiEvent::MouseUp { position: point(1.0, 2.0) });
}

#[test]
fn typed_characters_are_forwarded_in_order_without_modifiers() {
    let mut input = idle_at(0.0, 0.0);
    input.chars = vec!['h', 'i', '!'];
    input.keys_down = vec![HostKey::LeftShift];
    let events = forward_input(&input);
    assert_eq!(events.len(), 5);
    assert_eq!(events[1], UiEvent::Char { character: 'h', shift: false, ctrl: false });
    assert_eq!(events[2], UiEvent::Char { character: 'i', shift: false, ctrl: false });
    assert_eq!(events[3], UiEvent::Char { character: '!', shift: false, ctrl: false });
}

#[test]
fn typed_characters_are_dropped_while_left_control_is_held() {
    let mut input = idle_at(0.0, 0.0);
    input.chars = vec!['c'];
    input.keys_down = vec![HostKey::LeftControl];
    let events = forward_input(&input);
    assert_eq!(
        events[1..events.len() - 1],
        [key_down(KeyCode::Control, false, true)]
    );
}

#[test]
fn typed_characters_are_dropped_while_right_control_is_held() {
    let mut input = idle_at(0.0, 0.0);
    input.chars = vec!['v', 'v'];
    input.keys_down = vec![HostKey::RightControl, HostKey::V];
    let events = forward_input(&input);
    assert_eq!(
        events[1..events.len() - 1],
        [key_down(KeyCode::V, false, true), key_down(KeyCode::Control, false, true)]
    );
}

#[test]
fn control_that_only_went_down_does_not_drop_characters() {
    let mut input = idle_at(0.0, 0.0);
    input.chars = vec!['x'];
    input.keys_pressed = vec![HostKey::LeftControl];
    let events = forward_input(&input);
    assert_eq!(
        events[1..events.len() - 1],
        [
            UiEvent::Char { character: 'x', shift: false, ctrl: false },
            key_down(KeyCode::Control, false, false),
        ]
    );
}

#[test]
fn a_key_that_went_down_is_forwarded() {
    let mut input = idle_at(0.0, 0.0);
    input.keys_pressed = vec![HostKey::Backspace];
    let events = forward_input(&input);
    assert_eq!(events[1..events.len() - 1], [key_down(KeyCode::Backspace, false, false)]);
}

#[test]
fn a_key_that_is_held_is_forwarded_again() {
    let mut input = idle_at(0.0, 0.0);
    input.keys_down = vec![HostKey::Left];
    let first = forward_input(&input);
    let second = forward_input(&input);
    assert_eq!(first[1..first.len() - 1], [key_down(KeyCode::Left, false, false)]);
    assert_eq!(first, second);
}

#[test]
fn a_key_both_held_and_gone_down_is_forwarded_once() {
    let mut input = idle_at(0.0, 0.0);
    input.keys_pressed = vec![HostKey::Tab];
    input.keys_down = vec![HostKey::Tab];
    let events = forward_input(&input);
    assert_eq!(events[1..events.len() - 1], [key_down(KeyCode::Tab, false, false)]);
}

#[test]
fn keys_carry_the_modifiers() {
    let mut input = idle_at(0.0, 0.0);
    input.keys_pressed = vec![HostKey::A];
    input.keys_down = vec![HostKey::RightShift, HostKey::RightControl];
    let events = forward_input(&input);
    assert_eq!(
        events[1..events.len() - 1],
        [key_down(KeyCode::A, true, true), key_down(KeyCode::Control, true, true)]
    );
}

#[test]
fn shift_alone_makes_no_event() {
    let mut input = idle_at(0.0, 0.0);
    input.keys_pressed = vec![HostKey::LeftShift, HostKey::RightShift];
    input.keys_down = vec![HostKey::LeftShift];
    let events = forward_input(&input);
    assert_eq!(events.len(), 2);
}

#[test]
fn shift_that_only_went_down_is_no_modifier() {
    let mut input = idle_at(0.0, 0.0);
    input.keys_pressed = vec![HostKey::LeftShift, HostKey::Home];
    let events = forward_input(&input);
    assert_eq!(events[1..events.len() - 1], [key_down(KeyCode::Home, false, false)]);
}

#[test]
fn keys_are_forwarded_in_the_order_of_the_table() {
    let mut input = idle_at(0.0, 0.0);
    input.keys_down = vec![
        HostKey::Enter,
        HostKey::Escape,
        HostKey::A,
        HostKey::V,
        HostKey::X,
        HostKey::C,
        HostKey::Y,
        HostKey::Z,
        HostKey::Tab,
        HostKey::Backspace,
        HostKey::Delete,
        HostKey::End,
        HostKey::Home,
        HostKey::Left,
        HostKey::Right,
        HostKey::Down,
        HostKey::Up,
    ];
    let events = forward_input(&input);
    let expected = [
        KeyCode::Up,
        KeyCode::Down,
        KeyCode::Right,
        KeyCode::Left,
        KeyCode::Home,
        KeyCode::End,
        KeyCode::Delete,
        KeyCode::Backspace,
        KeyCode::Tab,
        KeyCode::Z,
        KeyCode::Y,
        KeyCode::C,
        KeyCode::X,
        KeyCode::V,
        KeyCode::A,
        KeyCode::Escape,
        KeyCode::Enter,
    ];
    assert_eq!(events.len(), 19);
    for (event, key) in events[1..18].iter().zip(expected) {
        assert_eq!(*event, key_down(key, false, false));
    }
}

#[test]
fn the_table_pairs_each_key_with_its_namesake() {
    let table = bindings();
    assert_eq!(table.len(), 17);
    assert_eq!(table[0], (HostKey::Up, KeyCode::Up));
    assert_eq!(table[8], (HostKey::Tab, KeyCode::Tab));
    assert_eq!(table[9], (HostKey::Z, KeyCode::Z));
    assert_eq!(table[16], (HostKey::Enter, KeyCode::Enter));
    for (host, key) in table {
        assert_eq!(format!("{:?}", host), format!("{:?}", key));
    }
}

#[test]
fn a_whole_frame_comes_out_in_order() {
    let input = InputSnapshot {
        mouse_position: point(50.0, 60.0),
        left_pressed: true,
        left_released: true,
        chars: vec!['o', 'k'],
        keys_pressed: vec![HostKey::Enter, HostKey::RightControl],
        keys_down: vec![HostKey::Up, HostKey::LeftShift],
        mouse_wheel: point(1.0, -2.0),
    };
    let events = forward_input(&input);
    assert_eq!(
        events,
        vec![
            UiEvent::MouseMove { position: point(50.0, 60.0) },
            UiEvent::MouseDown { position: point(50.0, 60.0) },
            UiEvent::MouseUp { position: point(50.0, 60.0) },
            UiEvent::Char { character: 'o', shift: false, ctrl: false },
            UiEvent::Char { character: 'k', shift: false, ctrl: false },
            key_down(KeyCode::Up, true, false),
            key_down(KeyCode::Enter, true, false),
            key_down(KeyCode::Control, true, false),
            UiEvent::MouseWheel {
                x: Scalar::from_bits(1.0f32.to_bits()),
                y: Scalar::from_bits(2.0f32.to_bits()),
            },
        ]
    );
}

#[test]
fn scroll_up_by_five_is_forwarded_as_down_by_five() {
    let mut input = idle_at(0.0, 0.0);
    input.mouse_wheel = point(0.0, 5.0);
    let events = forward_input(&input);
    assert_eq!(wheel(&events), (0.0, -5.0));
}

#[test]
fn scroll_down_is_forwarded_as_up_and_sideways_is_kept() {
    let mut input = idle_at(0.0, 0.0);
    input.mouse_wheel = point(-1.5, -0.25);
    let events = forward_input(&input);
    assert_eq!(wheel(&events), (-1.5, 0.25));
}

#[test]
fn the_snapshot_answers_for_its_keys() {
    let mut input = idle_at(0.0, 0.0);
    input.keys_pressed = vec![HostKey::C];
    input.keys_down = vec![HostKey::RightShift, HostKey::LeftControl];
    assert!(input.is_pressed(HostKey::C));
    assert!(!input.is_down(HostKey::C));
    assert!(input.is_active(HostKey::C));
    assert!(!input.is_active(HostKey::X));
    assert!(input.shift());
    assert!(input.ctrl());
    assert!(!idle_at(0.0, 0.0).shift());
    assert!(!idle_at(0.0, 0.0).ctrl());
}
