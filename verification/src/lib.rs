//! Session dashboard logic: web push notifications, transition sounds and the
//! terminal user interface.
pub mod clock;
pub mod keyed;
pub mod session;
pub mod sound;
pub mod text;

pub mod push;
pub mod tui;
