//! Core of a terminal HTTP request inspector: the focus-driven field model,
//! the request builder, the JSON highlighter, and the session event engine.
//! Terminal rendering and the network transport live outside the library and
//! talk to it through plain values.

pub mod builder;
pub mod fields;
pub mod focus;
pub mod highlight;
pub mod respond;
pub mod session;
pub mod style;
pub mod text;

pub use focus::Focus;
