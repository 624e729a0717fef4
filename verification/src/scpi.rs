//! The `scpi` driver: a REPL over a USB test-and-measurement link.

pub mod device;
pub mod producer;
