//! A small serial-terminal library: a hex-escape codec for embedding raw
//! byte values in printable command text, and a session manager that owns at
//! most one open serial connection and answers every operation with a uniform
//! success-plus-message outcome.

pub mod codec;
pub mod serial_port;
