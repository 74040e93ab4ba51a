//! What the main loop does with each event it receives.

use vstd::prelude::*;
use crate::input::{Velocity, WindowEvent, kb_step, on_kb_inp};

verus! {

/// Raw device events; only mouse motion matters to the camera.
#[derive(Clone, Copy, Debug, PartialEq, Eq, Structural)]
pub enum DeviceEvent {
    MouseMotion,
    Other,
}

/// Events that the event loop delivers.
#[derive(Clone, Copy, Debug, PartialEq, Eq, Structural)]
pub enum Event {
    DeviceEvent(DeviceEvent),
    WindowEvent(WindowEvent),
    AboutToWait,
    Other,
}

/// What the loop has to do after an event.
#[derive(Clone, Copy, Debug, PartialEq, Eq, Structural)]
pub enum Action {
    /// Turn the camera by the mouse movement.
    Look,
    /// Leave the event loop.
    Exit,
    /// Resize the display to the given size.
    Resize { width: u32, height: u32 },
    /// Move the camera by its velocity and draw a frame.
    Redraw,
    /// Ask the window for a new frame.
    RequestRedraw,
    /// Nothing to do.
    Nothing,
}

/// The action an event calls for.
pub open spec fn event_action(event: Event) -> Action {
    match event {
        Event::DeviceEvent(DeviceEvent::MouseMotion) => Action::Look,
        Event::DeviceEvent(DeviceEvent::Other) => Action::Nothing,
        Event::WindowEvent(w) => match w {
            WindowEvent::CloseRequested => Action::Exit,
            WindowEvent::Resized { width, height } => Action::Resize { width, height },
            WindowEvent::RedrawRequested => Action::Redraw,
            _ => Action::Nothing,
        },
        Event::AboutToWait => Action::RequestRedraw,
        Event::Other => Action::Nothing,
    }
}

/// The camera velocity after an event: only window events can change it.
pub open spec fn event_velocity(vel: Velocity, event: Event) -> Velocity {
    match event {
        Event::WindowEvent(w) => kb_step(vel, w),
        _ => vel,
    }
}

/// One turn of the main loop: the new camera velocity and the action to
/// perform for `event`.
pub fn handle_event(cam_vel: &Velocity, event: &Event) -> (res: (Velocity, Action))
    ensures
        res.0 == event_velocity(*cam_vel, *event),
        res.1 == event_action(*event),
{
    match event {
        Event::DeviceEvent(d) => {
            let action = match d {
                DeviceEvent::MouseMotion => Action::Look,
                DeviceEvent::Other => Action::Nothing,
            };
            (*cam_vel, action)
        },
        Event::WindowEvent(w) => {
            let new_vel = on_kb_inp(w, cam_vel);
            let action = match w {
                WindowEvent::CloseRequested => Action::Exit,
                WindowEvent::Resized { width, height } => Action::Resize {
                    width: *width,
                    height: *height,
                },
                WindowEvent::RedrawRequested => Action::Redraw,
                _ => Action::Nothing,
            };
            (new_vel, action)
        },
        Event::AboutToWait => (*cam_vel, Action::RequestRedraw),
        Event::Other => (*cam_vel, Action::Nothing),
    }
}

} // verus!
