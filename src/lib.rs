//! Drive a desktop session from a game controller.
//!
//! The library holds the logic of the controller-to-keyboard emulator: the
//! button mapping, the debounced axis-to-arrow translation, the life cycle of
//! one emulation run, the supervisor that arms and disarms it, and the output
//! layouts that the companion menu can apply.
pub mod display;
pub mod engine;
pub mod keys;
pub mod supervisor;
