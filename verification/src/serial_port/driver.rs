use super::model::Request;
use serial2_tokio::SerialPort;
use vstd::prelude::*;
use vstd::string::*;

verus! {

/// A serial port of `serial2_tokio`, carried opaquely.
#[verifier::external_type_specification]
#[verifier::external_body]
pub struct ExSerialPort(SerialPort);

/// The port that the driver opens when asked to.
pub open spec fn default_port_name() -> Seq<char> {
    "COM7"@
}

/// The baud rate that the driver opens the port with.
pub const DEFAULT_BAUD_RATE: u32 = 115200;

/// How long a read waits when no port is open, in milliseconds.
pub const IDLE_READ_DELAY_MS: u64 = 60000;

/// A port to open.
pub struct PortTarget {
    pub port_name: String,
    pub baud_rate: u32,
}

/// The data driver of the port: the port, once opened.
pub struct Driver {
    pub serial_stream: Option<SerialPort>,
}

/// What the request task does with a request taken from the model.
#[derive(Clone, Copy, PartialEq, Eq, Debug)]
pub enum RequestAction {
    /// Open the port.
    OpenPort,
    /// The request has no implementation: stop.
    Unimplemented,
}

/// The action for a request taken from the model.
pub open spec fn spec_request_action(request: Option<Request>) -> RequestAction {
    match request {
        Some(Request::Open) => RequestAction::OpenPort,
        _ => RequestAction::Unimplemented,
    }
}

/// Only an `Open` request opens the port; `Close`, `Restart` and no request
/// at all have no implementation.
pub proof fn lemma_only_open_is_served(request: Option<Request>)
    ensures
        spec_request_action(request) == RequestAction::OpenPort <==> request == Some(Request::Open),
        spec_request_action(request) == RequestAction::Unimplemented <==> request != Some(
            Request::Open,
        ),
{
}

/// The action for a request taken from the model: only opening is served.
pub fn request_action(request: Option<Request>) -> (res: RequestAction)
    ensures
        res == spec_request_action(request),
{
    match request {
        Some(Request::Open) => RequestAction::OpenPort,
        _ => RequestAction::Unimplemented,
    }
}

impl Driver {
    /// A driver with no port open.
    pub fn new() -> (res: Driver)
        ensures
            res.serial_stream is None,
    {
        Driver { serial_stream: None }
    }

    /// The port to open for an open request; none when a port is already
    /// open, which is then kept.
    pub fn open_target(&self) -> (res: Option<PortTarget>)
        ensures
            self.serial_stream is Some <==> res is None,
            res matches Some(t) ==> t.port_name@ == default_port_name() && t.baud_rate
                == DEFAULT_BAUD_RATE,
    {
        if self.serial_stream.is_some() {
            None
        } else {
            Some(PortTarget { port_name: String::from_str("COM7"), baud_rate: DEFAULT_BAUD_RATE })
        }
    }

    /// Keeps the port that was opened.
    pub fn attach(&mut self, port: SerialPort)
        ensures
            final(self).serial_stream == Some(port),
    {
        self.serial_stream = Some(port);
    }
}

} // verus!
