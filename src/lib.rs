//! Terminal MIDI helpers: decoding of wire messages, per-route filtering,
//! channel remapping and forwarding, event presentation and tempo tracking.
pub mod midi;
pub mod text;
pub mod avg;
pub mod clock;
pub mod display;
pub mod route;
