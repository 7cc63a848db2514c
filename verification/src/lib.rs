//! Verified core of `typd`, a Wayland on-screen keyboard: the key tables,
//! the order in which keys are laid out, and the decisions that the
//! keyboard makes on pointer, keyboard and timer events. Drawing, the
//! Wayland connection and all floating-point geometry live in the
//! application around this library.
pub mod layout;
pub mod physical;
pub mod keycodes;
pub mod window;
pub mod state;
