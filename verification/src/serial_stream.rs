//! The `serial-stream` driver: a byte stream to a device over TCP or a serial port.

pub mod device;
pub mod reboot;
pub mod settings;
pub mod stream;
