//! Keyboard-driven camera velocity.
//!
//! The camera moves along two axes: `z` (forwards / backwards, keys W and S)
//! and `x` (sideways, keys A and D). Each component of the velocity counts
//! unit steps: pressing a key sets its axis to the key's direction, and
//! releasing it stops that axis only when the axis still moves in that key's
//! direction.

use vstd::prelude::*;

verus! {

/// The physical keys the camera listens to; every other key is `Other`.
#[derive(Clone, Copy, Debug, PartialEq, Eq, Structural)]
pub enum KeyCode {
    KeyW,
    KeyS,
    KeyA,
    KeyD,
    Other,
}

/// Whether a key went down or up.
#[derive(Clone, Copy, Debug, PartialEq, Eq, Structural)]
pub enum ElementState {
    Pressed,
    Released,
}

/// An axis of camera movement that a key can drive.
#[derive(Clone, Copy, Debug, PartialEq, Eq, Structural)]
pub enum Axis {
    X,
    Z,
}

/// Camera velocity, one signed step count per axis.
#[derive(Clone, Copy, Debug, PartialEq, Eq, Structural)]
pub struct Velocity {
    pub x: i8,
    pub y: i8,
    pub z: i8,
}

/// Events delivered to the window.
#[derive(Clone, Copy, Debug, PartialEq, Eq, Structural)]
pub enum WindowEvent {
    KeyboardInput { key: KeyCode, state: ElementState },
    CloseRequested,
    Resized { width: u32, height: u32 },
    RedrawRequested,
    Other,
}

impl Velocity {
    /// The component of the velocity along `axis`.
    pub open spec fn get(self, axis: Axis) -> i8 {
        match axis {
            Axis::X => self.x,
            Axis::Z => self.z,
        }
    }

    /// The velocity with its component along `axis` replaced by `v`.
    pub open spec fn with(self, axis: Axis, v: i8) -> Velocity {
        match axis {
            Axis::X => Velocity { x: v, ..self },
            Axis::Z => Velocity { z: v, ..self },
        }
    }

    /// Every component is -1, 0 or 1.
    pub open spec fn is_unit(self) -> bool {
        &&& -1 <= self.x <= 1
        &&& -1 <= self.y <= 1
        &&& -1 <= self.z <= 1
    }

    /// The camera at rest.
    pub fn zero() -> (v: Velocity)
        ensures
            v == (Velocity { x: 0, y: 0, z: 0 }),
    {
        Velocity { x: 0, y: 0, z: 0 }
    }
}

/// The axis a key drives and the direction it sets, if the key moves the camera.
pub open spec fn binding(key: KeyCode) -> Option<(Axis, i8)> {
    match key {
        KeyCode::KeyW => Some((Axis::Z, 1i8)),
        KeyCode::KeyS => Some((Axis::Z, -1i8)),
        KeyCode::KeyA => Some((Axis::X, 1i8)),
        KeyCode::KeyD => Some((Axis::X, -1i8)),
        KeyCode::Other => None,
    }
}

/// The velocity after one window event.
pub open spec fn kb_step(vel: Velocity, event: WindowEvent) -> Velocity {
    match event {
        WindowEvent::KeyboardInput { key, state } => match binding(key) {
            Some((axis, dir)) => match state {
                ElementState::Pressed => vel.with(axis, dir),
                ElementState::Released => if vel.get(axis) == dir {
                    vel.with(axis, 0)
                } else {
                    vel
                },
            },
            None => vel,
        },
        _ => vel,
    }
}

/// The velocity after a sequence of window events, taken in order.
pub open spec fn kb_run(vel: Velocity, events: Seq<WindowEvent>) -> Velocity
    decreases events.len(),
{
    if events.len() == 0 {
        vel
    } else {
        kb_run(kb_step(vel, events[0]), events.drop_first())
    }
}

/// The axis and direction of a key, if it moves the camera.
pub fn key_binding(key: KeyCode) -> (b: Option<(Axis, i8)>)
    ensures
        b == binding(key),
{
    match key {
        KeyCode::KeyW => Some((Axis::Z, 1)),
        KeyCode::KeyS => Some((Axis::Z, -1)),
        KeyCode::KeyA => Some((Axis::X, 1)),
        KeyCode::KeyD => Some((Axis::X, -1)),
        KeyCode::Other => None,
    }
}

/// The new camera velocity after `event`: a movement key that goes down sets
/// its axis to its direction; one that goes up stops its axis if the axis
/// still moves in its direction; anything else leaves the velocity as it is.
pub fn on_kb_inp(event: &WindowEvent, cam_vel: &Velocity) -> (new_vel: Velocity)
    ensures
        new_vel == kb_step(*cam_vel, *event),
        new_vel.y == cam_vel.y,
{
    let mut new_vel = *cam_vel;
    match event {
        WindowEvent::KeyboardInput { key, state } => match key_binding(*key) {
            Some((axis, dir)) => match axis {
                Axis::Z => match state {
                    ElementState::Pressed => {
                        new_vel.z = dir;
                    },
                    ElementState::Released => {
                        if new_vel.z == dir {
                            new_vel.z = 0;
                        }
                    },
                },
                Axis::X => match state {
                    ElementState::Pressed => {
                        new_vel.x = dir;
                    },
                    ElementState::Released => {
                        if new_vel.x == dir {
                            new_vel.x = 0;
                        }
                    },
                },
            },
            None => {},
        },
        _ => {},
    }
    new_vel
}

} // verus!
