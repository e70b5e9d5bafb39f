use glfw_game_window::event::{Action, Button, InputEvent, Motion, RawEvent};
use glfw_game_window::keyboard::{map_key, Key, NATIVE_KEY_ESCAPE};
use glfw_game_window::mouse::{map_mouse, MouseButton};
use glfw_game_window::translator::Translator;

type Pos = (f64, f64);

fn drain(t: &mut Translator<Pos>) -> Vec<InputEvent<Pos>> {
    let mut out = Vec::new();
    while let Some(e) = t.next_event() {
        out.push(e);
    }
    out
}

fn pump(t: &mut Translator<Pos>, batch: Vec<RawEvent<Pos>>) -> (bool, Vec<InputEvent<Pos>>) {
    assert!(t.is_drained());
    let close = t.refill(batch);
    (close, drain(t))
}

fn key(code: i32, action: Action) -> RawEvent<Pos> {
    RawEvent::Key { code, action }
}

#[test]
fn relative_motion_is_derived_from_previous_position() {
    let mut t = Translator::new(false);
    let (_, first) = pump(&mut t, vec![RawEvent::CursorPos((10.0, 10.0))]);
    assert_eq!(first, vec![InputEvent::Move(Motion::MouseCursor((10.0, 10.0)))]);
    let (_, second) = pump(&mut t, vec![RawEvent::CursorPos((13.0, 7.0))]);
    assert_eq!(
        second,
        vec![
            InputEvent::Move(Motion::MouseCursor((13.0, 7.0))),
            InputEvent::Move(Motion::MouseRelative { from: (10.0, 10.0), to: (13.0, 7.0) }),
        ]
    );
    match second[1] {
        InputEvent::Move(Motion::MouseRelative { from, to }) => {
            assert_eq!((to.0 - from.0, to.1 - from.1), (3.0, -3.0));
        }
        _ => panic!("expected relative motion"),
    }
}

#[test]
fn first_motion_after_creation_has_no_relative() {
    let mut t = Translator::new(false);
    let (_, events) = pump(&mut t, vec![key(65, Action::Press), RawEvent::CursorPos((4.0, 5.0))]);
    assert_eq!(
        events,
        vec![
            InputEvent::Press(Button::Keyboard(Key::A)),
            InputEvent::Move(Motion::MouseCursor((4.0, 5.0))),
        ]
    );
}

#[test]
fn first_motion_after_capture_release_has_no_relative() {
    let mut t = Translator::new(false);
    pump(&mut t, vec![RawEvent::CursorPos((1.0, 1.0))]);
    t.capture_cursor(true);
    let (_, kept) = pump(&mut t, vec![RawEvent::CursorPos((2.0, 3.0))]);
    assert_eq!(kept.len(), 2);
    t.capture_cursor(false);
    let (_, events) = pump(&mut t, vec![RawEvent::CursorPos((50.0, 60.0))]);
    assert_eq!(events, vec![InputEvent::Move(Motion::MouseCursor((50.0, 60.0)))]);
}

#[test]
fn repeated_key_produces_nothing() {
    let mut t = Translator::new(false);
    let (close, events) = pump(
        &mut t,
        vec![key(87, Action::Press), key(87, Action::Repeat), key(87, Action::Repeat), key(87, Action::Release)],
    );
    assert!(!close);
    assert_eq!(
        events,
        vec![InputEvent::Press(Button::Keyboard(Key::W)), InputEvent::Release(Button::Keyboard(Key::W))]
    );
}

#[test]
fn escape_closes_when_enabled() {
    let mut t = Translator::new(true);
    assert!(t.exit_on_esc());
    let (close, events) = pump(&mut t, vec![key(NATIVE_KEY_ESCAPE, Action::Press)]);
    assert!(close);
    assert!(events.is_empty());
    let (close, events) = pump(&mut t, vec![key(NATIVE_KEY_ESCAPE, Action::Release)]);
    assert!(!close);
    assert_eq!(events, vec![InputEvent::Release(Button::Keyboard(Key::Escape))]);
}

#[test]
fn escape_is_an_ordinary_press_when_disabled() {
    let mut t = Translator::new(false);
    let (close, events) = pump(&mut t, vec![key(NATIVE_KEY_ESCAPE, Action::Press)]);
    assert!(!close);
    assert_eq!(events, vec![InputEvent::Press(Button::Keyboard(Key::Escape))]);
}

#[test]
fn empty_pump_returns_none() {
    let mut t: Translator<Pos> = Translator::new(false);
    assert!(t.is_drained());
    assert!(!t.refill(Vec::new()));
    assert!(t.is_drained());
    assert_eq!(t.next_event(), None);
    assert_eq!(t.next_event(), None);
}

#[test]
fn events_drain_in_arrival_order() {
    let mut t = Translator::new(false);
    let batch = vec![
        RawEvent::Char('h'),
        RawEvent::MouseButton { code: 0, action: Action::Press },
        RawEvent::Other,
        RawEvent::CursorPos((1.0, 2.0)),
        RawEvent::Scroll((0.0, -1.5)),
        RawEvent::CursorPos((4.0, 4.0)),
        RawEvent::MouseButton { code: 1, action: Action::Release },
    ];
    assert!(!t.refill(batch));
    let expected = vec![
        InputEvent::Text('h'),
        InputEvent::Press(Button::Mouse(MouseButton::Left)),
        InputEvent::Move(Motion::MouseCursor((1.0, 2.0))),
        InputEvent::Move(Motion::MouseScroll((0.0, -1.5))),
        InputEvent::Move(Motion::MouseCursor((4.0, 4.0))),
        InputEvent::Move(Motion::MouseRelative { from: (1.0, 2.0), to: (4.0, 4.0) }),
        InputEvent::Release(Button::Mouse(MouseButton::Right)),
    ];
    for e in &expected {
        assert!(!t.is_drained());
        assert_eq!(t.next_event(), Some(*e));
    }
    assert!(t.is_drained());
    assert_eq!(t.next_event(), None);
}

#[test]
fn refill_appends_after_pending_events() {
    let mut t = Translator::new(false);
    t.refill(vec![RawEvent::Char('a')]);
    t.refill(vec![RawEvent::Char('b')]);
    assert_eq!(drain(&mut t), vec![InputEvent::Text('a'), InputEvent::Text('b')]);
}

#[test]
fn escape_among_others_requests_close() {
    let mut t = Translator::new(true);
    let (close, events) = pump(
        &mut t,
        vec![RawEvent::Char('x'), key(NATIVE_KEY_ESCAPE, Action::Press), RawEvent::Char('y')],
    );
    assert!(close);
    assert_eq!(events, vec![InputEvent::Text('x'), InputEvent::Text('y')]);
}

#[test]
fn key_table_exact_values() {
    assert_eq!(map_key(48), Key::D0);
    assert_eq!(map_key(57), Key::D9);
    assert_eq!(map_key(65), Key::A);
    assert_eq!(map_key(90), Key::Z);
    assert_eq!(map_key(32), Key::Space);
    assert_eq!(map_key(257), Key::Return);
    assert_eq!(map_key(61), Key::Equals);
    assert_eq!(map_key(290), Key::F1);
    assert_eq!(map_key(313), Key::F24);
    assert_eq!(map_key(320), Key::NumPad0);
    assert_eq!(map_key(333), Key::NumPadMinus);
    assert_eq!(map_key(334), Key::NumPadPlus);
    assert_eq!(map_key(341), Key::LCtrl);
    assert_eq!(map_key(347), Key::RGui);
    assert_eq!(map_key(282), Key::NumLockClear);
    assert_eq!(map_key(348), Key::Menu);
}

#[test]
fn keys_without_logical_counterpart_are_unknown() {
    for code in [39, 96, 161, 162, 314, -1, 0, 349, i32::MIN, i32::MAX] {
        assert_eq!(map_key(code), Key::Unknown);
    }
}

#[test]
fn mouse_table_exact_values() {
    let expected = [
        MouseButton::Left,
        MouseButton::Right,
        MouseButton::Middle,
        MouseButton::X1,
        MouseButton::X2,
        MouseButton::Button6,
        MouseButton::Button7,
        MouseButton::Button8,
    ];
    for (code, b) in expected.iter().enumerate() {
        assert_eq!(map_mouse(code as i32), *b);
    }
    assert_eq!(map_mouse(8), MouseButton::Unknown);
    assert_eq!(map_mouse(-1), MouseButton::Unknown);
}

#[test]
fn mouse_press_and_release() {
    let mut t = Translator::new(false);
    let (_, events) = pump(
        &mut t,
        vec![
            RawEvent::MouseButton { code: 2, action: Action::Press },
            RawEvent::MouseButton { code: 2, action: Action::Repeat },
            RawEvent::MouseButton { code: 2, action: Action::Release },
        ],
    );
    assert_eq!(
        events,
        vec![
            InputEvent::Press(Button::Mouse(MouseButton::Middle)),
            InputEvent::Release(Button::Mouse(MouseButton::Middle)),
        ]
    );
}
