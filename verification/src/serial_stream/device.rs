use super::settings::{
    spec_stream_settings, transport_kind, SettingValueView, Settings, SettingsError, Transport,
};
use super::stream::{ReadOutcome, ReadOutcomeView, RX_BUFFER_SIZE};
use vstd::prelude::*;
use vstd::string::*;

verus! {

/// The serial stream driver. Mounting it and waiting for a reboot are driven
/// by the state machines below: the caller performs each action, then hands
/// back what came of it as an event.
pub struct Device {}

impl Default for Device {
    fn default() -> (res: Device)
        ensures
            res == (Device {  }),
    {
        Device {  }
    }
}

impl Device {
    /// Constructor.
    pub fn new() -> (res: Device) {
        Device {  }
    }
}

/// Read timeout of the serial port, in milliseconds.
pub const SERIAL_TIMEOUT_MS: u64 = 1000;

/// What is written to the device to complete its initialisation: the ASCII
/// bytes of `ping`.
pub open spec fn ping_payload() -> Seq<u8> {
    seq![0x70u8, 0x69u8, 0x6eu8, 0x67u8]
}

fn ping_bytes() -> (res: Vec<u8>)
    ensures
        res@ == ping_payload(),
{
    let res: Vec<u8> = vec![0x70u8, 0x69u8, 0x6eu8, 0x67u8];
    assert(res@ =~= ping_payload());
    res
}

/// Why mounting the driver failed.
#[derive(Clone, Copy, PartialEq, Eq, Debug)]
pub enum MountError {
    /// The instance has no settings.
    NoSettings,
    /// The TCP connection or the serial port could not be opened.
    ConnectionFailed,
    /// The initialisation message could not be written.
    PingWriteFailed,
    /// The reply to the initialisation message could not be read.
    PingReadFailed,
    /// Mounting the `serial-stream` class failed; its own error is passed on.
    ClassMountFailed,
}

/// The driver error text of a mount failure; none where the class's own error
/// is passed on.
pub open spec fn mount_error_text(error: MountError) -> Option<Seq<char>> {
    match error {
        MountError::NoSettings => Some("No settings found to mount the driver"@),
        MountError::ConnectionFailed => Some("Connection failed"@),
        MountError::PingWriteFailed => Some("Write error during message on connect"@),
        MountError::PingReadFailed => Some("Read error during message on connect"@),
        MountError::ClassMountFailed => None,
    }
}

impl MountError {
    /// The driver error text of this failure; none where the class's own
    /// error is passed on.
    pub fn text(&self) -> (res: Option<&'static str>)
        ensures
            match res {
                None => mount_error_text(*self) is None,
                Some(t) => mount_error_text(*self) == Some(t@),
            },
    {
        match self {
            MountError::NoSettings => Some("No settings found to mount the driver"),
            MountError::ConnectionFailed => Some("Connection failed"),
            MountError::PingWriteFailed => Some("Write error during message on connect"),
            MountError::PingReadFailed => Some("Read error during message on connect"),
            MountError::ClassMountFailed => None,
        }
    }
}

/// Where the mount of the driver stands.
#[derive(Clone, Copy, PartialEq, Eq, Debug)]
pub enum MountState {
    /// Waiting for the instance settings.
    AwaitSettings,
    /// Waiting for the TCP connection; `handshake` tells whether the
    /// initialisation message must be exchanged once connected.
    AwaitTcpConnection { handshake: bool },
    /// Waiting for the initialisation message to be written.
    AwaitPingSent,
    /// Waiting for the device's reply to the initialisation message.
    AwaitPingReply,
    /// Waiting for the `serial-stream` class to be mounted over TCP.
    AwaitTcpClass,
    /// Waiting for the serial port to open.
    AwaitSerialPort,
    /// Waiting for the `serial-stream` class to be mounted over the port.
    AwaitSerialClass,
    /// The settings cannot be used.
    Rejected { error: SettingsError },
    /// The mount is over, with this result.
    Finished { result: Result<(), MountError> },
}

/// What came of the last action.
pub enum MountEvent {
    SettingsFetched(Option<Settings>),
    TcpConnected(bool),
    PingSent(bool),
    PingReplied(ReadOutcome),
    TcpClassMounted(bool),
    SerialPortOpened(bool),
    SerialClassMounted(bool),
}

/// Mathematical form of a `MountEvent`.
pub enum MountEventView {
    SettingsFetched(Option<Seq<(Seq<char>, SettingValueView)>>),
    TcpConnected(bool),
    PingSent(bool),
    PingReplied(ReadOutcomeView),
    TcpClassMounted(bool),
    SerialPortOpened(bool),
    SerialClassMounted(bool),
}

impl View for MountEvent {
    type V = MountEventView;

    open spec fn view(&self) -> MountEventView {
        match self {
            MountEvent::SettingsFetched(s) => MountEventView::SettingsFetched(
                match s {
                    None => None,
                    Some(s) => Some(s@),
                },
            ),
            MountEvent::TcpConnected(b) => MountEventView::TcpConnected(*b),
            MountEvent::PingSent(b) => MountEventView::PingSent(*b),
            MountEvent::PingReplied(r) => MountEventView::PingReplied(r@),
            MountEvent::TcpClassMounted(b) => MountEventView::TcpClassMounted(*b),
            MountEvent::SerialPortOpened(b) => MountEventView::SerialPortOpened(*b),
            MountEvent::SerialClassMounted(b) => MountEventView::SerialClassMounted(*b),
        }
    }
}

/// What the caller must do next.
pub enum MountAction {
    /// Fetch the instance settings.
    FetchSettings,
    /// Connect to this `ip:port` address over TCP.
    ConnectTcp { address: String },
    /// Write these bytes to the TCP connection.
    SendPing { payload: Vec<u8> },
    /// Read the reply into a buffer of this size.
    ReadPingReply { capacity: usize },
    /// Mount the `serial-stream` class over the TCP connection.
    MountTcpClass,
    /// Open this serial port.
    OpenSerialPort { port_name: String, baud_rate: u32, timeout_ms: u64 },
    /// Mount the `serial-stream` class over the serial port.
    MountSerialClass,
    /// The settings cannot be used: stop with this error.
    RejectSettings { error: SettingsError },
    /// The mount is over, with this result.
    Complete { result: Result<(), MountError> },
    /// Nothing: the event did not answer the pending action.
    Wait,
}

/// Mathematical form of a `MountAction`.
pub enum MountActionView {
    FetchSettings,
    ConnectTcp { address: Seq<char> },
    SendPing { payload: Seq<u8> },
    ReadPingReply { capacity: nat },
    MountTcpClass,
    OpenSerialPort { port_name: Seq<char>, baud_rate: u32, timeout_ms: u64 },
    MountSerialClass,
    RejectSettings { error: SettingsError },
    Complete { result: Result<(), MountError> },
    Wait,
}

impl View for MountAction {
    type V = MountActionView;

    open spec fn view(&self) -> MountActionView {
        match self {
            MountAction::FetchSettings => MountActionView::FetchSettings,
            MountAction::ConnectTcp { address } => MountActionView::ConnectTcp {
                address: address@,
            },
            MountAction::SendPing { payload } => MountActionView::SendPing { payload: payload@ },
            MountAction::ReadPingReply { capacity } => MountActionView::ReadPingReply {
                capacity: *capacity as nat,
            },
            MountAction::MountTcpClass => MountActionView::MountTcpClass,
            MountAction::OpenSerialPort { port_name, baud_rate, timeout_ms } =>
                MountActionView::OpenSerialPort {
                port_name: port_name@,
                baud_rate: *baud_rate,
                timeout_ms: *timeout_ms,
            },
            MountAction::MountSerialClass => MountActionView::MountSerialClass,
            MountAction::RejectSettings { error } => MountActionView::RejectSettings {
                error: *error,
            },
            MountAction::Complete { result } => MountActionView::Complete { result: *result },
            MountAction::Wait => MountActionView::Wait,
        }
    }
}

/// Where the mount goes once the settings are known.
pub open spec fn mount_after_settings(settings: Option<Seq<(Seq<char>, SettingValueView)>>) -> (
    MountState,
    MountActionView,
) {
    match settings {
        None => (
            MountState::Finished { result: Err(MountError::NoSettings) },
            MountActionView::Complete { result: Err(MountError::NoSettings) },
        ),
        Some(entries) => match spec_stream_settings(entries) {
            Err(error) => (MountState::Rejected { error }, MountActionView::RejectSettings { error }),
            Ok(s) => match transport_kind(s.transport) {
                Transport::Tcp => (
                    MountState::AwaitTcpConnection { handshake: s.message_on_connect },
                    MountActionView::ConnectTcp { address: s.tcp_ip + ":"@ + s.tcp_port },
                ),
                Transport::SerialPort => (
                    MountState::AwaitSerialPort,
                    MountActionView::OpenSerialPort {
                        port_name: s.serial_port_name,
                        baud_rate: s.serial_baud_rate,
                        timeout_ms: SERIAL_TIMEOUT_MS,
                    },
                ),
                Transport::Unsupported => (
                    MountState::Finished { result: Ok(()) },
                    MountActionView::Complete { result: Ok(()) },
                ),
            },
        },
    }
}

/// One step of the mount: the next state and action for an event.
pub open spec fn spec_mount_step(state: MountState, event: MountEventView) -> (
    MountState,
    MountActionView,
) {
    match (state, event) {
        (MountState::AwaitSettings, MountEventView::SettingsFetched(s)) => mount_after_settings(s),
        (MountState::AwaitTcpConnection { handshake }, MountEventView::TcpConnected(ok)) => if !ok {
            (
                MountState::Finished { result: Err(MountError::ConnectionFailed) },
                MountActionView::Complete { result: Err(MountError::ConnectionFailed) },
            )
        } else if handshake {
            (MountState::AwaitPingSent, MountActionView::SendPing { payload: ping_payload() })
        } else {
            (MountState::AwaitTcpClass, MountActionView::MountTcpClass)
        },
        (MountState::AwaitPingSent, MountEventView::PingSent(ok)) => if ok {
            (
                MountState::AwaitPingReply,
                MountActionView::ReadPingReply { capacity: RX_BUFFER_SIZE as nat },
            )
        } else {
            (
                MountState::Finished { result: Err(MountError::PingWriteFailed) },
                MountActionView::Complete { result: Err(MountError::PingWriteFailed) },
            )
        },
        (MountState::AwaitPingReply, MountEventView::PingReplied(r)) => match r {
            ReadOutcomeView::Received(n) => if n > 0 {
                (MountState::AwaitTcpClass, MountActionView::MountTcpClass)
            } else {
                (MountState::AwaitPingSent, MountActionView::SendPing { payload: ping_payload() })
            },
            ReadOutcomeView::Failed(_) => (
                MountState::Finished { result: Err(MountError::PingReadFailed) },
                MountActionView::Complete { result: Err(MountError::PingReadFailed) },
            ),
        },
        (MountState::AwaitTcpClass, MountEventView::TcpClassMounted(ok)) => {
            let result: Result<(), MountError> = if ok {
                Ok(())
            } else {
                Err(MountError::ClassMountFailed)
            };
            (MountState::Finished { result }, MountActionView::Complete { result })
        },
        (MountState::AwaitSerialPort, MountEventView::SerialPortOpened(ok)) => if ok {
            (MountState::AwaitSerialClass, MountActionView::MountSerialClass)
        } else {
            (
                MountState::Finished { result: Err(MountError::ConnectionFailed) },
                MountActionView::Complete { result: Err(MountError::ConnectionFailed) },
            )
        },
        (MountState::AwaitSerialClass, MountEventView::SerialClassMounted(ok)) => {
            let result: Result<(), MountError> = if ok {
                Ok(())
            } else {
                Err(MountError::ClassMountFailed)
            };
            (MountState::Finished { result }, MountActionView::Complete { result })
        },
        _ => (state, MountActionView::Wait),
    }
}

fn finish(error: MountError) -> (res: (MountState, MountAction))
    ensures
        res.0 == (MountState::Finished { result: Err(error) }),
        res.1@ == (MountActionView::Complete { result: Err(error) }),
{
    (MountState::Finished { result: Err(error) }, MountAction::Complete { result: Err(error) })
}

fn mount_settings_step(settings: Option<Settings>) -> (res: (MountState, MountAction))
    ensures
        (res.0, res.1@) == mount_after_settings(
            match settings {
                None => None,
                Some(s) => Some(s@),
            },
        ),
{
    match settings {
        None => finish(MountError::NoSettings),
        Some(entries) => match entries.stream_settings() {
            Err(error) => (MountState::Rejected { error }, MountAction::RejectSettings { error }),
            Ok(s) => match s.transport_kind() {
                Transport::Tcp => (
                    MountState::AwaitTcpConnection { handshake: s.message_on_connect },
                    MountAction::ConnectTcp { address: s.tcp_address() },
                ),
                Transport::SerialPort => (
                    MountState::AwaitSerialPort,
                    MountAction::OpenSerialPort {
                        port_name: s.serial_port_name,
                        baud_rate: s.serial_baud_rate,
                        timeout_ms: SERIAL_TIMEOUT_MS,
                    },
                ),
                Transport::Unsupported => (
                    MountState::Finished { result: Ok(()) },
                    MountAction::Complete { result: Ok(()) },
                ),
            },
        },
    }
}

impl Device {
    /// The first state and action of a mount.
    pub fn start_mount(&self) -> (res: (MountState, MountAction))
        ensures
            res.0 == MountState::AwaitSettings,
            res.1@ == MountActionView::FetchSettings,
    {
        (MountState::AwaitSettings, MountAction::FetchSettings)
    }

    /// One step of the mount: the next state and action for an event.
    pub fn mount_step(&self, state: MountState, event: MountEvent) -> (res: (
        MountState,
        MountAction,
    ))
        ensures
            (res.0, res.1@) == spec_mount_step(state, event@),
    {
        match (state, event) {
            (MountState::AwaitSettings, MountEvent::SettingsFetched(s)) => mount_settings_step(s),
            (MountState::AwaitTcpConnection { handshake }, MountEvent::TcpConnected(ok)) => {
                if !ok {
                    finish(MountError::ConnectionFailed)
                } else if handshake {
                    (MountState::AwaitPingSent, MountAction::SendPing { payload: ping_bytes() })
                } else {
                    (MountState::AwaitTcpClass, MountAction::MountTcpClass)
                }
            },
            (MountState::AwaitPingSent, MountEvent::PingSent(ok)) => {
                if ok {
                    (
                        MountState::AwaitPingReply,
                        MountAction::ReadPingReply { capacity: RX_BUFFER_SIZE },
                    )
                } else {
                    finish(MountError::PingWriteFailed)
                }
            },
            (MountState::AwaitPingReply, MountEvent::PingReplied(r)) => match r {
                ReadOutcome::Received(n) => {
                    if n > 0 {
                        (MountState::AwaitTcpClass, MountAction::MountTcpClass)
                    } else {
                        (MountState::AwaitPingSent, MountAction::SendPing { payload: ping_bytes() })
                    }
                },
                ReadOutcome::Failed(_) => finish(MountError::PingReadFailed),
            },
            (MountState::AwaitTcpClass, MountEvent::TcpClassMounted(ok)) => {
                let result: Result<(), MountError> = if ok {
                    Ok(())
                } else {
                    Err(MountError::ClassMountFailed)
                };
                (MountState::Finished { result }, MountAction::Complete { result })
            },
            (MountState::AwaitSerialPort, MountEvent::SerialPortOpened(ok)) => {
                if ok {
                    (MountState::AwaitSerialClass, MountAction::MountSerialClass)
                } else {
                    finish(MountError::ConnectionFailed)
                }
            },
            (MountState::AwaitSerialClass, MountEvent::SerialClassMounted(ok)) => {
                let result: Result<(), MountError> = if ok {
                    Ok(())
                } else {
                    Err(MountError::ClassMountFailed)
                };
                (MountState::Finished { result }, MountAction::Complete { result })
            },
            (state, _) => (state, MountAction::Wait),
        }
    }
}


/// A mount that is over stays over: every later event leaves the state as it
/// is and asks for nothing.
pub proof fn lemma_mount_end_is_final(state: MountState, event: MountEventView)
    requires
        state is Finished || state is Rejected,
    ensures
        spec_mount_step(state, event) == (state, MountActionView::Wait),
{
}

/// The initialisation exchange repeats until the device answers: once the
/// message is written, an empty reply writes it again, and a reply of at
/// least one byte goes on to mount the class.
pub proof fn lemma_handshake_repeats_until_reply(n: nat)
    ensures
        spec_mount_step(MountState::AwaitPingSent, MountEventView::PingSent(true)) == (
            MountState::AwaitPingReply,
            MountActionView::ReadPingReply { capacity: RX_BUFFER_SIZE as nat },
        ),
        n == 0 ==> spec_mount_step(
            MountState::AwaitPingReply,
            MountEventView::PingReplied(ReadOutcomeView::Received(n)),
        ) == (MountState::AwaitPingSent, MountActionView::SendPing { payload: ping_payload() }),
        n == 0 ==> spec_mount_step(
            MountState::AwaitPingReply,
            MountEventView::PingReplied(ReadOutcomeView::Received(n)),
        ) == (MountState::AwaitPingSent, MountActionView::SendPing { payload: ping_bytes_literal() }),
        n > 0 ==> spec_mount_step(
            MountState::AwaitPingReply,
            MountEventView::PingReplied(ReadOutcomeView::Received(n)),
        ) == (MountState::AwaitTcpClass, MountActionView::MountTcpClass),
{
    assert(ping_payload() =~= ping_bytes_literal());
}

/// Without `message_on_connect`, a TCP mount never writes the initialisation
/// message: the settings lead to a connection attempt, and a connection to
/// mounting the class.
pub proof fn lemma_tcp_without_handshake(entries: Seq<(Seq<char>, SettingValueView)>)
    requires
        spec_stream_settings(entries) is Ok,
        transport_kind(spec_stream_settings(entries)->Ok_0.transport) == Transport::Tcp,
        !spec_stream_settings(entries)->Ok_0.message_on_connect,
    ensures
        ({
            let (state, action) = spec_mount_step(
                MountState::AwaitSettings,
                MountEventView::SettingsFetched(Some(entries)),
            );
            &&& action is ConnectTcp
            &&& spec_mount_step(state, MountEventView::TcpConnected(true)) == (
                MountState::AwaitTcpClass,
                MountActionView::MountTcpClass,
            )
        }),
{
}

/// The event brings settings that decode and name neither `tcp` nor
/// `serial-port`.
pub open spec fn unsupported_transport_settings(event: MountEventView) -> bool {
    match event {
        MountEventView::SettingsFetched(Some(entries)) => match spec_stream_settings(entries) {
            Ok(s) => transport_kind(s.transport) == Transport::Unsupported,
            Err(_) => false,
        },
        _ => false,
    }
}

/// A mount succeeds only when the transport is neither `tcp` nor
/// `serial-port`, or when the `serial-stream` class was mounted.
pub proof fn lemma_mount_success_needs_class(state: MountState, event: MountEventView)
    requires
        spec_mount_step(state, event).1 == (MountActionView::Complete { result: Ok(()) }),
    ensures
        (state == MountState::AwaitSettings && unsupported_transport_settings(event)) || (state
            == MountState::AwaitTcpClass && event == MountEventView::TcpClassMounted(true)) || (
        state == MountState::AwaitSerialClass && event == MountEventView::SerialClassMounted(
            true,
        )),
{
}

/// The bytes `p`, `i`, `n`, `g`.
pub open spec fn ping_bytes_literal() -> Seq<u8> {
    seq!['p' as u8, 'i' as u8, 'n' as u8, 'g' as u8]
}

/// A failed connection ends the mount with `ConnectionFailed`, whatever the
/// handshake flag: nothing is mounted over a connection that does not exist.
/// A failed opening of the serial port ends it the same way.
pub proof fn lemma_connection_failure_ends_mount(handshake: bool)
    ensures
        spec_mount_step(
            MountState::AwaitTcpConnection { handshake },
            MountEventView::TcpConnected(false),
        ) == (
            MountState::Finished { result: Err(MountError::ConnectionFailed) },
            MountActionView::Complete { result: Err(MountError::ConnectionFailed) },
        ),
        spec_mount_step(MountState::AwaitSerialPort, MountEventView::SerialPortOpened(false)) == (
            MountState::Finished { result: Err(MountError::ConnectionFailed) },
            MountActionView::Complete { result: Err(MountError::ConnectionFailed) },
        ),
{
}

/// Once connected, the driver writes `ping` when the handshake is asked for,
/// and mounts the class over the connection otherwise; once the serial port
/// is open, it mounts the class over the port.
pub proof fn lemma_connection_success_goes_on(handshake: bool)
    ensures
        handshake ==> spec_mount_step(
            MountState::AwaitTcpConnection { handshake },
            MountEventView::TcpConnected(true),
        ) == (MountState::AwaitPingSent, MountActionView::SendPing { payload: ping_bytes_literal() }),
        !handshake ==> spec_mount_step(
            MountState::AwaitTcpConnection { handshake },
            MountEventView::TcpConnected(true),
        ) == (MountState::AwaitTcpClass, MountActionView::MountTcpClass),
        spec_mount_step(MountState::AwaitSerialPort, MountEventView::SerialPortOpened(true)) == (
            MountState::AwaitSerialClass,
            MountActionView::MountSerialClass,
        ),
{
    assert(ping_payload() =~= ping_bytes_literal());
}

/// The handshake's failures end the mount: a ping that cannot be written with
/// `PingWriteFailed`, a reply that cannot be read with `PingReadFailed`; a
/// written ping is answered by reading up to 1024 bytes.
pub proof fn lemma_handshake_failures(error: Seq<char>)
    ensures
        spec_mount_step(MountState::AwaitPingSent, MountEventView::PingSent(true)) == (
            MountState::AwaitPingReply,
            MountActionView::ReadPingReply { capacity: 1024 },
        ),
        spec_mount_step(MountState::AwaitPingSent, MountEventView::PingSent(false)) == (
            MountState::Finished { result: Err(MountError::PingWriteFailed) },
            MountActionView::Complete { result: Err(MountError::PingWriteFailed) },
        ),
        spec_mount_step(
            MountState::AwaitPingReply,
            MountEventView::PingReplied(ReadOutcomeView::Failed(error)),
        ) == (
            MountState::Finished { result: Err(MountError::PingReadFailed) },
            MountActionView::Complete { result: Err(MountError::PingReadFailed) },
        ),
{
}

/// A mounted class completes the mount successfully, over TCP as over the
/// serial port; a class that fails to mount ends it with `ClassMountFailed`.
pub proof fn lemma_class_mount_completes(ok: bool)
    ensures
        ok ==> spec_mount_step(MountState::AwaitTcpClass, MountEventView::TcpClassMounted(ok)) == (
            MountState::Finished { result: Ok(()) },
            MountActionView::Complete { result: Ok(()) },
        ),
        ok ==> spec_mount_step(
            MountState::AwaitSerialClass,
            MountEventView::SerialClassMounted(ok),
        ) == (MountState::Finished { result: Ok(()) }, MountActionView::Complete { result: Ok(()) }),
        !ok ==> spec_mount_step(MountState::AwaitTcpClass, MountEventView::TcpClassMounted(ok))
            == (
            MountState::Finished { result: Err(MountError::ClassMountFailed) },
            MountActionView::Complete { result: Err(MountError::ClassMountFailed) },
        ),
        !ok ==> spec_mount_step(
            MountState::AwaitSerialClass,
            MountEventView::SerialClassMounted(ok),
        ) == (
            MountState::Finished { result: Err(MountError::ClassMountFailed) },
            MountActionView::Complete { result: Err(MountError::ClassMountFailed) },
        ),
{
}

/// What the settings lead to: without settings the mount fails with
/// `NoSettings`; settings that do not decode are rejected with their error;
/// decoded settings connect to `tcp_ip:tcp_port` for `tcp` (with the
/// handshake flag of `message_on_connect`), open `serial_port_name` at
/// `serial_baud_rate` with a 1000 ms timeout for `serial-port`, and end the
/// mount successfully for any other transport.
pub proof fn lemma_mount_settings(settings: Option<Seq<(Seq<char>, SettingValueView)>>)
    ensures
        settings is None ==> spec_mount_step(
            MountState::AwaitSettings,
            MountEventView::SettingsFetched(settings),
        ) == (
            MountState::Finished { result: Err(MountError::NoSettings) },
            MountActionView::Complete { result: Err(MountError::NoSettings) },
        ),
        settings matches Some(e) ==> match spec_stream_settings(e) {
            Err(error) => spec_mount_step(
                MountState::AwaitSettings,
                MountEventView::SettingsFetched(settings),
            ) == (MountState::Rejected { error }, MountActionView::RejectSettings { error }),
            Ok(s) => spec_mount_step(
                MountState::AwaitSettings,
                MountEventView::SettingsFetched(settings),
            ) == if s.transport == "tcp"@ {
                (
                    MountState::AwaitTcpConnection { handshake: s.message_on_connect },
                    MountActionView::ConnectTcp { address: s.tcp_ip + ":"@ + s.tcp_port },
                )
            } else if s.transport == "serial-port"@ {
                (
                    MountState::AwaitSerialPort,
                    MountActionView::OpenSerialPort {
                        port_name: s.serial_port_name,
                        baud_rate: s.serial_baud_rate,
                        timeout_ms: 1000,
                    },
                )
            } else {
                (MountState::Finished { result: Ok(()) }, MountActionView::Complete { result: Ok(()) })
            },
        },
{
}

/// The driver error texts of the mount failures; the class's own error is
/// passed on when the class cannot be mounted.
pub proof fn lemma_mount_error_texts()
    ensures
        mount_error_text(MountError::NoSettings) == Some("No settings found to mount the driver"@),
        mount_error_text(MountError::ConnectionFailed) == Some("Connection failed"@),
        mount_error_text(MountError::PingWriteFailed) == Some(
            "Write error during message on connect"@,
        ),
        mount_error_text(MountError::PingReadFailed) == Some(
            "Read error during message on connect"@,
        ),
        mount_error_text(MountError::ClassMountFailed) is None,
{
}

} // verus!
