use glfw_window::Button;
use glfw_window::ButtonArgs;
use glfw_window::ButtonState;
use glfw_window::CursorMode;
use glfw_window::Input;
use glfw_window::Key;
use glfw_window::Motion;
use glfw_window::MouseButton;
use glfw_window::RawAction;
use glfw_window::RawEvent;
use glfw_window::WindowState;
use glfw_window::JOYSTICK_COUNT;
use glfw_window::KEY_CODE_ESCAPE;

fn state() -> WindowState {
    WindowState::new("demo".to_string(), false, true, false)
}

fn drain(s: &mut WindowState) -> Vec<Input> {
    let mut out = Vec::new();
    while let Some(ev) = s.next_event() {
        out.push(ev);
    }
    out
}

#[test]
fn fresh_state() {
    let mut s = WindowState::new("demo".to_string(), true, false, true);
    assert_eq!(s.get_title(), "demo".to_string());
    assert!(s.get_exit_on_esc());
    assert!(!s.get_automatic_close());
    assert_eq!(s.joystick_deadzone, 0);
    assert_eq!(s.joysticks.len(), JOYSTICK_COUNT);
    for (k, j) in s.joysticks.iter().enumerate() {
        assert_eq!(j.id, k as u32);
        assert!(!j.connected);
    }
    assert_eq!(s.next_event(), None);
}

#[test]
fn controllers_off_means_no_joysticks() {
    let s = state();
    assert!(s.joysticks.is_empty());
}

#[test]
fn from_pieces_defaults() {
    let s = WindowState::from_pieces(true);
    assert_eq!(
        s.get_title(),
        "<unknown window title, created from_pieces>".to_string()
    );
    assert!(s.get_exit_on_esc());
    assert!(s.get_automatic_close());
    assert_eq!(s.joysticks.len(), JOYSTICK_COUNT);
}

#[test]
fn escape_press_requests_close() {
    let mut s = WindowState::new("demo".to_string(), true, true, false);
    let close = s.handle_event(RawEvent::Key {
        key: KEY_CODE_ESCAPE,
        scancode: 9,
        action: RawAction::Press,
    });
    assert_eq!(close, Some(true));
    // the press is swallowed, not queued
    assert_eq!(s.next_event(), None);
}

#[test]
fn escape_press_without_exit_on_esc_is_a_key() {
    let mut s = state();
    let close = s.handle_event(RawEvent::Key {
        key: KEY_CODE_ESCAPE,
        scancode: 9,
        action: RawAction::Press,
    });
    assert_eq!(close, None);
    assert_eq!(
        drain(&mut s),
        vec![Input::Button(ButtonArgs {
            state: ButtonState::Press,
            button: Button::Keyboard(Key::Escape),
            scancode: Some(9),
        })]
    );
}

#[test]
fn escape_release_is_a_key_even_with_exit_on_esc() {
    let mut s = WindowState::new("demo".to_string(), true, true, false);
    let close = s.handle_event(RawEvent::Key {
        key: KEY_CODE_ESCAPE,
        scancode: 9,
        action: RawAction::Release,
    });
    assert_eq!(close, None);
    assert_eq!(
        drain(&mut s),
        vec![Input::Button(ButtonArgs {
            state: ButtonState::Release,
            button: Button::Keyboard(Key::Escape),
            scancode: Some(9),
        })]
    );
}

#[test]
fn key_press_and_release_carry_scancode() {
    let mut s = state();
    assert_eq!(
        s.handle_event(RawEvent::Key { key: 87, scancode: 25, action: RawAction::Press }),
        None
    );
    assert_eq!(
        s.handle_event(RawEvent::Key { key: 87, scancode: 25, action: RawAction::Release }),
        None
    );
    assert_eq!(
        drain(&mut s),
        vec![
            Input::Button(ButtonArgs {
                state: ButtonState::Press,
                button: Button::Keyboard(Key::W),
                scancode: Some(25),
            }),
            Input::Button(ButtonArgs {
                state: ButtonState::Release,
                button: Button::Keyboard(Key::W),
                scancode: Some(25),
            }),
        ]
    );
}

#[test]
fn key_repeat_is_ignored() {
    let mut s = state();
    assert_eq!(
        s.handle_event(RawEvent::Key { key: 65, scancode: 38, action: RawAction::Repeat }),
        None
    );
    assert_eq!(s.next_event(), None);
}

#[test]
fn close_with_automatic_close_passes_through() {
    let mut s = state();
    assert_eq!(s.handle_event(RawEvent::Close), None);
    assert_eq!(drain(&mut s), vec![Input::Close]);
}

#[test]
fn close_without_automatic_close_is_cancelled() {
    let mut s = WindowState::new("demo".to_string(), false, false, false);
    assert_eq!(s.handle_event(RawEvent::Close), Some(false));
    assert_eq!(drain(&mut s), vec![Input::Close]);
}

#[test]
fn character_becomes_text() {
    let mut s = state();
    assert_eq!(s.handle_event(RawEvent::Char { ch: 'q' }), None);
    assert_eq!(drain(&mut s), vec![Input::Text('q')]);
}

#[test]
fn mouse_buttons_are_mapped() {
    let mut s = state();
    s.handle_event(RawEvent::MouseButton { button: 0, action: RawAction::Press });
    s.handle_event(RawEvent::MouseButton { button: 1, action: RawAction::Release });
    assert_eq!(
        drain(&mut s),
        vec![
            Input::Button(ButtonArgs {
                state: ButtonState::Press,
                button: Button::Mouse(MouseButton::Left),
                scancode: None,
            }),
            Input::Button(ButtonArgs {
                state: ButtonState::Release,
                button: Button::Mouse(MouseButton::Right),
                scancode: None,
            }),
        ]
    );
}

#[test]
fn first_cursor_move_has_no_relative_motion() {
    let mut s = state();
    s.handle_event(RawEvent::CursorPos { x: 100, y: 200 });
    assert_eq!(drain(&mut s), vec![Input::Move(Motion::MouseCursor { x: 100, y: 200 })]);
}

#[test]
fn second_cursor_move_derives_relative_motion() {
    let mut s = state();
    s.handle_event(RawEvent::CursorPos { x: 100, y: 200 });
    s.handle_event(RawEvent::CursorPos { x: 103, y: 198 });
    assert_eq!(
        drain(&mut s),
        vec![
            Input::Move(Motion::MouseCursor { x: 100, y: 200 }),
            Input::Move(Motion::MouseCursor { x: 103, y: 198 }),
            Input::Move(Motion::MouseRelative { dx: 3, dy: -2 }),
        ]
    );
}

#[test]
fn releasing_cursor_capture_forgets_the_position() {
    let mut s = state();
    s.handle_event(RawEvent::CursorPos { x: 10, y: 10 });
    assert_eq!(s.set_capture_cursor(false), CursorMode::Normal);
    s.handle_event(RawEvent::CursorPos { x: 15, y: 15 });
    // no relative motion right after the capture was released
    assert_eq!(
        drain(&mut s),
        vec![
            Input::Move(Motion::MouseCursor { x: 10, y: 10 }),
            Input::Move(Motion::MouseCursor { x: 15, y: 15 }),
        ]
    );
}

#[test]
fn enabling_cursor_capture_keeps_the_position() {
    let mut s = state();
    s.handle_event(RawEvent::CursorPos { x: 10, y: 10 });
    assert_eq!(s.set_capture_cursor(true), CursorMode::Disabled);
    s.handle_event(RawEvent::CursorPos { x: 15, y: 15 });
    assert_eq!(
        drain(&mut s),
        vec![
            Input::Move(Motion::MouseCursor { x: 10, y: 10 }),
            Input::Move(Motion::MouseCursor { x: 15, y: 15 }),
            Input::Move(Motion::MouseRelative { dx: 5, dy: 5 }),
        ]
    );
}

#[test]
fn scroll_size_focus_and_cursor_enter() {
    let mut s = state();
    s.handle_event(RawEvent::Scroll { dx: 0, dy: -1 });
    s.handle_event(RawEvent::Size { width: 640, height: 480, draw_width: 1280, draw_height: 960 });
    s.handle_event(RawEvent::Focus { focus: true });
    s.handle_event(RawEvent::CursorEnter { enter: false });
    assert_eq!(
        drain(&mut s),
        vec![
            Input::Move(Motion::MouseScroll { dx: 0, dy: -1 }),
            Input::Resize { width: 640, height: 480, draw_width: 1280, draw_height: 960 },
            Input::Focus(true),
            Input::Cursor(false),
        ]
    );
}

#[test]
fn file_drop_keeps_the_order() {
    let mut s = state();
    s.handle_event(RawEvent::FileDrop {
        files: vec!["a.png".to_string(), "b.png".to_string(), "c.png".to_string()],
    });
    assert_eq!(
        drain(&mut s),
        vec![
            Input::FileDrag("a.png".to_string()),
            Input::FileDrag("b.png".to_string()),
            Input::FileDrag("c.png".to_string()),
        ]
    );
}

#[test]
fn other_events_are_ignored() {
    let mut s = state();
    assert_eq!(s.handle_event(RawEvent::Other), None);
    assert_eq!(s.next_event(), None);
}

#[test]
fn events_come_out_in_order() {
    let mut s = state();
    s.handle_event(RawEvent::Char { ch: 'a' });
    s.handle_event(RawEvent::Char { ch: 'b' });
    s.handle_event(RawEvent::Focus { focus: false });
    assert_eq!(s.next_event(), Some(Input::Text('a')));
    assert_eq!(s.next_event(), Some(Input::Text('b')));
    assert_eq!(s.next_event(), Some(Input::Focus(false)));
    assert_eq!(s.next_event(), None);
}

#[test]
fn flag_setters() {
    let mut s = state();
    assert!(!s.get_exit_on_esc());
    s.set_exit_on_esc(true);
    assert!(s.get_exit_on_esc());
    assert!(s.get_automatic_close());
    s.set_automatic_close(false);
    assert!(!s.get_automatic_close());
}
