//! A scripting-runtime `Date` value with component-level adjustment, plus a
//! small model of scripted display-object properties.
//!
//! The date engine models a mutable, possibly-invalid wall-clock instant
//! (milliseconds since the Unix epoch) and exposes getters and setters for
//! its calendar components with the scripting quirks intact: cascading
//! "argument not supplied" semantics, month and day-of-month overflow
//! normalization, a local-timezone view beside the UTC view, and a permanent
//! "Invalid Date" state for every non-finite or unrepresentable input.

pub mod adjust;
pub mod calendar;
pub mod civil;
pub mod date;
pub mod display;
pub mod laws;
pub mod text;
