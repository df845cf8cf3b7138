//! The event model: kinds, categories, payloads and the concrete events.

pub mod application_events;
pub mod describe;
pub mod event;
pub mod key_events;
pub mod mouse_events;
pub mod render_events;
pub mod window_events;
