//! The terminal user interface: what the user's keys mean, what they do to the
//! state, and what is shown.

pub mod event;
pub mod law;
pub mod position;
pub mod screen;
pub mod selection;
pub mod spinner;
pub mod state;
