use engine::event_loop::{handle_event, Action, DeviceEvent, Event};
use engine::input::{key_binding, on_kb_inp, Axis, ElementState, KeyCode, Velocity, WindowEvent};

fn key(k: KeyCode, s: ElementState) -> WindowEvent {
    WindowEvent::KeyboardInput { key: k, state: s }
}

fn vel(x: i8, y: i8, z: i8) -> Velocity {
    Velocity { x, y, z }
}

#[test]
fn zero_is_at_rest() {
    assert_eq!(Velocity::zero(), vel(0, 0, 0));
}

#[test]
fn bindings_of_movement_keys() {
    assert_eq!(key_binding(KeyCode::KeyW), Some((Axis::Z, 1)));
    assert_eq!(key_binding(KeyCode::KeyS), Some((Axis::Z, -1)));
    assert_eq!(key_binding(KeyCode::KeyA), Some((Axis::X, 1)));
    assert_eq!(key_binding(KeyCode::KeyD), Some((Axis::X, -1)));
    assert_eq!(key_binding(KeyCode::Other), None);
}

#[test]
fn pressing_keys_sets_their_axis() {
    let v = Velocity::zero();
    assert_eq!(on_kb_inp(&key(KeyCode::KeyW, ElementState::Pressed), &v), vel(0, 0, 1));
    assert_eq!(on_kb_inp(&key(KeyCode::KeyS, ElementState::Pressed), &v), vel(0, 0, -1));
    assert_eq!(on_kb_inp(&key(KeyCode::KeyA, ElementState::Pressed), &v), vel(1, 0, 0));
    assert_eq!(on_kb_inp(&key(KeyCode::KeyD, ElementState::Pressed), &v), vel(-1, 0, 0));
}

#[test]
fn pressing_overrides_the_opposite_key() {
    let v = vel(1, 0, 1);
    assert_eq!(on_kb_inp(&key(KeyCode::KeyS, ElementState::Pressed), &v), vel(1, 0, -1));
    assert_eq!(on_kb_inp(&key(KeyCode::KeyD, ElementState::Pressed), &v), vel(-1, 0, 1));
}

#[test]
fn releasing_a_key_stops_its_own_motion() {
    let v = vel(-1, 0, 1);
    assert_eq!(on_kb_inp(&key(KeyCode::KeyW, ElementState::Released), &v), vel(-1, 0, 0));
    assert_eq!(on_kb_inp(&key(KeyCode::KeyD, ElementState::Released), &v), vel(0, 0, 1));
}

#[test]
fn releasing_an_overridden_key_keeps_moving() {
    // W held, then S pressed: releasing W must not stop the backward motion.
    let mut v = Velocity::zero();
    v = on_kb_inp(&key(KeyCode::KeyW, ElementState::Pressed), &v);
    v = on_kb_inp(&key(KeyCode::KeyS, ElementState::Pressed), &v);
    v = on_kb_inp(&key(KeyCode::KeyW, ElementState::Released), &v);
    assert_eq!(v, vel(0, 0, -1));
    v = on_kb_inp(&key(KeyCode::KeyS, ElementState::Released), &v);
    assert_eq!(v, vel(0, 0, 0));
}

#[test]
fn press_then_release_returns_axis_to_rest() {
    for start in [vel(1, 1, -1), vel(-1, 0, 0), vel(0, -1, 1)] {
        for k in [KeyCode::KeyW, KeyCode::KeyS, KeyCode::KeyA, KeyCode::KeyD] {
            let pressed = on_kb_inp(&key(k, ElementState::Pressed), &start);
            let released = on_kb_inp(&key(k, ElementState::Released), &pressed);
            match key_binding(k).unwrap().0 {
                Axis::Z => assert_eq!(released, vel(start.x, start.y, 0)),
                Axis::X => assert_eq!(released, vel(0, start.y, start.z)),
            }
        }
    }
}

#[test]
fn press_and_release_are_idempotent() {
    let v = vel(0, 0, -1);
    for k in [KeyCode::KeyW, KeyCode::KeyS, KeyCode::KeyA, KeyCode::KeyD, KeyCode::Other] {
        for s in [ElementState::Pressed, ElementState::Released] {
            let once = on_kb_inp(&key(k, s), &v);
            let twice = on_kb_inp(&key(k, s), &once);
            assert_eq!(once, twice);
        }
    }
}

#[test]
fn keys_on_different_axes_commute() {
    let v = vel(1, 0, -1);
    let a = on_kb_inp(&key(KeyCode::KeyS, ElementState::Released), &on_kb_inp(&key(KeyCode::KeyD, ElementState::Pressed), &v));
    let b = on_kb_inp(&key(KeyCode::KeyD, ElementState::Pressed), &on_kb_inp(&key(KeyCode::KeyS, ElementState::Released), &v));
    assert_eq!(a, b);
    assert_eq!(a, vel(-1, 0, 0));
}

#[test]
fn other_input_keeps_velocity() {
    let v = vel(1, -1, 1);
    assert_eq!(on_kb_inp(&key(KeyCode::Other, ElementState::Pressed), &v), v);
    assert_eq!(on_kb_inp(&key(KeyCode::Other, ElementState::Released), &v), v);
    assert_eq!(on_kb_inp(&WindowEvent::CloseRequested, &v), v);
    assert_eq!(on_kb_inp(&WindowEvent::RedrawRequested, &v), v);
    assert_eq!(on_kb_inp(&WindowEvent::Resized { width: 800, height: 600 }, &v), v);
    assert_eq!(on_kb_inp(&WindowEvent::Other, &v), v);
}

#[test]
fn velocity_stays_unit_and_level() {
    let keys = [KeyCode::KeyW, KeyCode::KeyS, KeyCode::KeyA, KeyCode::KeyD, KeyCode::Other];
    let mut v = Velocity::zero();
    let mut n: u32 = 7;
    for _ in 0..200 {
        n = n.wrapping_mul(1103515245).wrapping_add(12345);
        let k = keys[((n >> 8) % 5) as usize];
        let s = if (n >> 16) % 2 == 0 { ElementState::Pressed } else { ElementState::Released };
        v = on_kb_inp(&key(k, s), &v);
        assert!((-1..=1).contains(&v.x) && (-1..=1).contains(&v.z));
        assert_eq!(v.y, 0);
    }
}

#[test]
fn loop_actions() {
    let v = vel(0, 0, 1);
    assert_eq!(handle_event(&v, &Event::DeviceEvent(DeviceEvent::MouseMotion)), (v, Action::Look));
    assert_eq!(handle_event(&v, &Event::DeviceEvent(DeviceEvent::Other)), (v, Action::Nothing));
    assert_eq!(handle_event(&v, &Event::WindowEvent(WindowEvent::CloseRequested)), (v, Action::Exit));
    assert_eq!(
        handle_event(&v, &Event::WindowEvent(WindowEvent::Resized { width: 640, height: 480 })),
        (v, Action::Resize { width: 640, height: 480 })
    );
    assert_eq!(handle_event(&v, &Event::WindowEvent(WindowEvent::RedrawRequested)), (v, Action::Redraw));
    assert_eq!(handle_event(&v, &Event::AboutToWait), (v, Action::RequestRedraw));
    assert_eq!(handle_event(&v, &Event::Other), (v, Action::Nothing));
}

#[test]
fn loop_keyboard_events_move_the_camera() {
    let v = Velocity::zero();
    let e = Event::WindowEvent(key(KeyCode::KeyA, ElementState::Pressed));
    assert_eq!(handle_event(&v, &e), (vel(1, 0, 0), Action::Nothing));
    let e = Event::WindowEvent(key(KeyCode::KeyA, ElementState::Released));
    assert_eq!(handle_event(&vel(1, 0, 0), &e), (vel(0, 0, 0), Action::Nothing));
}
