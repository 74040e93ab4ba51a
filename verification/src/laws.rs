//! Properties of the keyboard controls that hold for every velocity and event.

use vstd::prelude::*;
use crate::input::{Axis, ElementState, KeyCode, Velocity, WindowEvent, binding, kb_run, kb_step};
use crate::event_loop::{Action, DeviceEvent, Event, event_action, event_velocity};

verus! {

/// The window event of `key` going down or up.
pub open spec fn key_event(key: KeyCode, state: ElementState) -> WindowEvent {
    WindowEvent::KeyboardInput { key, state }
}

/// Pressing a movement key and then releasing it leaves its axis at rest and
/// every other component as it was before the press.
pub proof fn lemma_press_then_release_stops(vel: Velocity, key: KeyCode)
    requires
        binding(key) is Some,
    ensures
        ({
            let (axis, dir) = binding(key).unwrap();
            let after = kb_step(kb_step(vel, key_event(key, ElementState::Pressed)),
                key_event(key, ElementState::Released));
            after == vel.with(axis, 0)
        }),
{
}

/// Pressing the same key twice is the same as pressing it once.
pub proof fn lemma_press_idempotent(vel: Velocity, key: KeyCode)
    ensures
        kb_step(kb_step(vel, key_event(key, ElementState::Pressed)), key_event(key, ElementState::Pressed))
            == kb_step(vel, key_event(key, ElementState::Pressed)),
{
}

/// Releasing the same key twice is the same as releasing it once.
pub proof fn lemma_release_idempotent(vel: Velocity, key: KeyCode)
    ensures
        kb_step(kb_step(vel, key_event(key, ElementState::Released)), key_event(key, ElementState::Released))
            == kb_step(vel, key_event(key, ElementState::Released)),
{
}

/// Releasing a key whose direction its axis no longer moves in (because the
/// opposite key was pressed since) changes nothing.
pub proof fn lemma_release_of_overridden_key(vel: Velocity, key: KeyCode)
    requires
        binding(key) is Some,
        vel.get(binding(key).unwrap().0) != binding(key).unwrap().1,
    ensures
        kb_step(vel, key_event(key, ElementState::Released)) == vel,
{
}

/// Two key events on different axes give the same velocity in either order.
pub proof fn lemma_other_axis_events_commute(
    vel: Velocity,
    k1: KeyCode,
    s1: ElementState,
    k2: KeyCode,
    s2: ElementState,
)
    requires
        binding(k1) is Some,
        binding(k2) is Some,
        binding(k1).unwrap().0 != binding(k2).unwrap().0,
    ensures
        kb_step(kb_step(vel, key_event(k1, s1)), key_event(k2, s2))
            == kb_step(kb_step(vel, key_event(k2, s2)), key_event(k1, s1)),
{
}

/// One event keeps every component of a velocity within -1, 0 and 1.
pub proof fn lemma_step_keeps_unit(vel: Velocity, event: WindowEvent)
    requires
        vel.is_unit(),
    ensures
        kb_step(vel, event).is_unit(),
{
}

/// Any sequence of events keeps every component of a velocity within -1, 0
/// and 1, and never changes the vertical component.
pub proof fn lemma_run_keeps_unit_and_vertical(vel: Velocity, events: Seq<WindowEvent>)
    requires
        vel.is_unit(),
    ensures
        kb_run(vel, events).is_unit(),
        kb_run(vel, events).y == vel.y,
    decreases events.len(),
{
    if events.len() > 0 {
        lemma_step_keeps_unit(vel, events[0]);
        lemma_run_keeps_unit_and_vertical(kb_step(vel, events[0]), events.drop_first());
    }
}

/// Only window events change the camera velocity in the main loop.
pub proof fn lemma_only_window_events_move(vel: Velocity, event: Event)
    requires
        !(event is WindowEvent),
    ensures
        event_velocity(vel, event) == vel,
{
}

/// Non-keyboard window events, and keys that are not bound, leave the
/// velocity unchanged.
pub proof fn lemma_unbound_input_keeps_velocity(vel: Velocity, event: WindowEvent)
    requires
        !(event is KeyboardInput) || binding(event->key) is None,
    ensures
        kb_step(vel, event) == vel,
{
}

/// What each key does to the velocity when it goes down: W and S set the
/// forward component to 1 and -1, A and D set the sideways component to 1 and
/// -1, every other component stays, and any other key changes nothing.
pub proof fn lemma_key_press_effect(vel: Velocity, key: KeyCode)
    ensures
        ({
            let after = kb_step(vel, key_event(key, ElementState::Pressed));
            &&& key == KeyCode::KeyW ==> after == Velocity { z: 1i8, ..vel }
            &&& key == KeyCode::KeyS ==> after == Velocity { z: -1i8, ..vel }
            &&& key == KeyCode::KeyA ==> after == Velocity { x: 1i8, ..vel }
            &&& key == KeyCode::KeyD ==> after == Velocity { x: -1i8, ..vel }
            &&& key == KeyCode::Other ==> after == vel
        }),
{
}

/// What each key does to the velocity when it goes up: it stops its own axis
/// if that axis still moves in the key's direction, and otherwise (and for any
/// other key) nothing changes.
pub proof fn lemma_key_release_effect(vel: Velocity, key: KeyCode)
    ensures
        ({
            let after = kb_step(vel, key_event(key, ElementState::Released));
            &&& key == KeyCode::KeyW ==> after == (if vel.z == 1 { Velocity { z: 0, ..vel } } else { vel })
            &&& key == KeyCode::KeyS ==> after == (if vel.z == -1 { Velocity { z: 0, ..vel } } else { vel })
            &&& key == KeyCode::KeyA ==> after == (if vel.x == 1 { Velocity { x: 0, ..vel } } else { vel })
            &&& key == KeyCode::KeyD ==> after == (if vel.x == -1 { Velocity { x: 0, ..vel } } else { vel })
            &&& key == KeyCode::Other ==> after == vel
        }),
{
}

/// In the main loop a window event moves the camera exactly as the keyboard
/// step does, so every key press and release reaches the velocity.
pub proof fn lemma_loop_velocity_is_keyboard_step(vel: Velocity, w: WindowEvent)
    ensures
        event_velocity(vel, Event::WindowEvent(w)) == kb_step(vel, w),
{
}

/// The main loop's velocity after a key goes down or up, stated per key:
/// W and S drive the forward component, A and D the sideways one; a release
/// stops the axis only while it still moves the key's way; other keys and
/// other window events change nothing.
pub proof fn lemma_loop_key_effect(vel: Velocity, key: KeyCode)
    ensures
        ({
            let pressed = event_velocity(vel, Event::WindowEvent(key_event(key, ElementState::Pressed)));
            let released = event_velocity(vel, Event::WindowEvent(key_event(key, ElementState::Released)));
            &&& key == KeyCode::KeyW ==> pressed == Velocity { z: 1i8, ..vel }
            &&& key == KeyCode::KeyS ==> pressed == Velocity { z: -1i8, ..vel }
            &&& key == KeyCode::KeyA ==> pressed == Velocity { x: 1i8, ..vel }
            &&& key == KeyCode::KeyD ==> pressed == Velocity { x: -1i8, ..vel }
            &&& key == KeyCode::Other ==> pressed == vel
            &&& key == KeyCode::KeyW ==> released == (if vel.z == 1 { Velocity { z: 0, ..vel } } else { vel })
            &&& key == KeyCode::KeyS ==> released == (if vel.z == -1 { Velocity { z: 0, ..vel } } else { vel })
            &&& key == KeyCode::KeyA ==> released == (if vel.x == 1 { Velocity { x: 0, ..vel } } else { vel })
            &&& key == KeyCode::KeyD ==> released == (if vel.x == -1 { Velocity { x: 0, ..vel } } else { vel })
            &&& key == KeyCode::Other ==> released == vel
        }),
{
}

/// The event reports that the window was resized.
pub open spec fn is_resize(e: Event) -> bool {
    match e {
        Event::WindowEvent(WindowEvent::Resized { .. }) => true,
        _ => false,
    }
}

/// Which events lead to which action: the loop looks around exactly on mouse
/// motion, exits exactly on a close request, resizes exactly on a resize (to
/// the new size), redraws exactly on a redraw request, asks for a frame
/// exactly when about to wait, and does nothing for every other event.
pub proof fn lemma_action_of_event(e: Event)
    ensures
        event_action(e) == Action::Look <==> e == Event::DeviceEvent(DeviceEvent::MouseMotion),
        event_action(e) == Action::Exit <==> e == Event::WindowEvent(WindowEvent::CloseRequested),
        event_action(e) is Resize <==> is_resize(e),
        event_action(e) == Action::Redraw <==> e == Event::WindowEvent(WindowEvent::RedrawRequested),
        event_action(e) == Action::RequestRedraw <==> e == Event::AboutToWait,
        event_action(e) == Action::Nothing <==> !(
            e == Event::DeviceEvent(DeviceEvent::MouseMotion)
            || e == Event::WindowEvent(WindowEvent::CloseRequested)
            || is_resize(e)
            || e == Event::WindowEvent(WindowEvent::RedrawRequested)
            || e == Event::AboutToWait
        ),
{
}

/// A resize asks for the display to take exactly the window's new size,
/// whatever that size is.
pub proof fn lemma_resize_keeps_size(width: u32, height: u32)
    ensures
        event_action(Event::WindowEvent(WindowEvent::Resized { width, height }))
            == (Action::Resize { width, height }),
{
}

/// Keyboard input never makes the loop do anything but update the velocity:
/// every key event, bound or not, pressed or released, calls for no action.
pub proof fn lemma_keyboard_calls_for_nothing(key: KeyCode, state: ElementState)
    ensures
        event_action(Event::WindowEvent(key_event(key, state))) == Action::Nothing,
{
}

} // verus!
