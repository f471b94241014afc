//! Keeps a desktop session from looking idle by moving the cursor on a fixed
//! cadence until a stop key is pressed.
//!
//! The library holds the decisions: where the cursor goes next, how densely a
//! curved segment is sampled, when the loop stops, and how the single-shot
//! stop notification behaves. Driving the real mouse and reading the real
//! keyboard is left to the program that uses it.
pub mod config;
pub mod keys;
pub mod movement;
pub mod movement_loop;
pub mod signal;
