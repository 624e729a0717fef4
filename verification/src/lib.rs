//! Verified core of the `std` plugin: configuration decoding, the decision
//! logic of the device drivers and the byte/text handling of the helper tools.

pub mod echo_server;
pub mod scpi;
pub mod serial_port;
pub mod serial_stream;
pub mod stream_viewer;
pub mod text;
