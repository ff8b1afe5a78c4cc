//! Wire-format construction and broadcast modelling for a face-tracking
//! telemetry stream, plus camera-device description formatting.
//!
//! The verified core builds the exact UTF-8 JSON text that is sent, one
//! datagram per tracking frame. Numeric values travel through the library as
//! their decimal text, rendered by the caller; the library is responsible for
//! the message shape: which fields appear, in which order, and how strings
//! are escaped.

pub mod broadcast;
pub mod camera;
pub mod json;
pub mod wire;
