//! Engine for a desktop "buddy": an animated character rendered as a
//! click-through overlay that idles, walks across the screen, and plays a
//! short one-shot animation when clicked.
//!
//! This crate holds the behavioural core, with machine-checked contracts:
//! the five-state character automaton, the animation and movement tick
//! logic, the sprite-set assembly and reload protocol, and the startup
//! bounds gate.  Window creation, timers, image decoding and configuration
//! loading live with the caller; the engine exchanges plain values with
//! them and decides everything else.

pub mod config;
pub mod engine;
pub mod error;
pub mod motion;
pub mod sprites;
pub mod startup;
pub mod state;
