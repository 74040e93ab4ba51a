//! Input handling of a small free-flying camera demo: which keys move the
//! camera and how, and what the main event loop does with each event.

pub mod input;
pub mod event_loop;
pub mod laws;
