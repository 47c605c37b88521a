//! Decision logic of a small application scaffold around a windowing engine.
//!
//! The engine itself (opening windows, polling events, drawing) is driven by
//! the caller; this library decides what to ask of it and which application
//! callback each event reaches.
pub mod events;
pub mod window;
