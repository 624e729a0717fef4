//! The `serial-port` driver: an `open` switch and a `data` stream on one port.

pub mod driver;
pub mod model;
pub mod producer;
pub mod waker;
