//! Event dispatch and synchronisation for a small application engine.
//!
//! The crate holds the typed event model, the signal/slot registries that
//! deliver events to subscribers in connection order, the layer stack that
//! fixes the order of per-frame updates, and the decisions of the
//! application loop. Window creation, graphics bring-up, persistence and
//! logging are left to the program that embeds the crate.

pub mod application;
pub mod events;
pub mod graphics;
pub mod layers;
pub mod object;
pub mod settings;
pub mod signals;
pub mod text;
pub mod window;
