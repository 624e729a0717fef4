use super::device::{Device, SERIAL_TIMEOUT_MS};
use super::settings::{
    spec_reconnect_settings, transport_kind, ReconnectSettings, ReconnectSettingsView,
    SettingValueView, Settings, SettingsError, Transport,
};
use vstd::prelude::*;

verus! {

/// How long the driver waits before it tries to reach the device again, in
/// milliseconds.
pub const REBOOT_DELAY_MS: u64 = 5000;

/// Pause between two attempts to open the serial port, in milliseconds.
pub const SERIAL_RETRY_DELAY_MS: u64 = 1000;

/// Pause after the reopened serial port is released, in milliseconds.
pub const PORT_SETTLE_DELAY_MS: u64 = 300;

/// How waiting for a reboot ended.
#[derive(Clone, Copy, PartialEq, Eq, Debug)]
pub enum RebootOutcome {
    /// The device answers again.
    Reconnected,
    /// The instance has no settings, so the device was not tried.
    NoSettings,
    /// The transport is neither `tcp` nor `serial-port`.
    UnsupportedTransport,
}

/// Where the wait for a reboot stands.
pub enum RebootState {
    AwaitRebootDelay,
    AwaitSettings,
    AwaitTcpReconnect { settings: ReconnectSettings },
    AwaitSerialReopen { settings: ReconnectSettings },
    AwaitRetryDelay { settings: ReconnectSettings },
    AwaitPortRelease,
    AwaitSettleDelay,
    Rejected { error: SettingsError },
    Finished { outcome: RebootOutcome },
}

/// Mathematical form of a `RebootState`.
pub enum RebootStateView {
    AwaitRebootDelay,
    AwaitSettings,
    AwaitTcpReconnect { settings: ReconnectSettingsView },
    AwaitSerialReopen { settings: ReconnectSettingsView },
    AwaitRetryDelay { settings: ReconnectSettingsView },
    AwaitPortRelease,
    AwaitSettleDelay,
    Rejected { error: SettingsError },
    Finished { outcome: RebootOutcome },
}

impl View for RebootState {
    type V = RebootStateView;

    open spec fn view(&self) -> RebootStateView {
        match self {
            RebootState::AwaitRebootDelay => RebootStateView::AwaitRebootDelay,
            RebootState::AwaitSettings => RebootStateView::AwaitSettings,
            RebootState::AwaitTcpReconnect { settings } => RebootStateView::AwaitTcpReconnect {
                settings: settings@,
            },
            RebootState::AwaitSerialReopen { settings } => RebootStateView::AwaitSerialReopen {
                settings: settings@,
            },
            RebootState::AwaitRetryDelay { settings } => RebootStateView::AwaitRetryDelay {
                settings: settings@,
            },
            RebootState::AwaitPortRelease => RebootStateView::AwaitPortRelease,
            RebootState::AwaitSettleDelay => RebootStateView::AwaitSettleDelay,
            RebootState::Rejected { error } => RebootStateView::Rejected { error: *error },
            RebootState::Finished { outcome } => RebootStateView::Finished { outcome: *outcome },
        }
    }
}

/// What came of the last action.
pub enum RebootEvent {
    DelayElapsed,
    SettingsFetched(Option<Settings>),
    TcpConnected(bool),
    SerialPortOpened(bool),
    PortReleased,
}

/// Mathematical form of a `RebootEvent`.
pub enum RebootEventView {
    DelayElapsed,
    SettingsFetched(Option<Seq<(Seq<char>, SettingValueView)>>),
    TcpConnected(bool),
    SerialPortOpened(bool),
    PortReleased,
}

impl View for RebootEvent {
    type V = RebootEventView;

    open spec fn view(&self) -> RebootEventView {
        match self {
            RebootEvent::DelayElapsed => RebootEventView::DelayElapsed,
            RebootEvent::SettingsFetched(s) => RebootEventView::SettingsFetched(
                match s {
                    None => None,
                    Some(s) => Some(s@),
                },
            ),
            RebootEvent::TcpConnected(b) => RebootEventView::TcpConnected(*b),
            RebootEvent::SerialPortOpened(b) => RebootEventView::SerialPortOpened(*b),
            RebootEvent::PortReleased => RebootEventView::PortReleased,
        }
    }
}

/// What the caller must do next.
pub enum RebootAction {
    /// Sleep this many milliseconds.
    Sleep { ms: u64 },
    /// Fetch the instance settings.
    FetchSettings,
    /// Try to connect to this `ip:port` address over TCP.
    ConnectTcp { address: String },
    /// Try to open this serial port.
    OpenSerialPort { port_name: String, baud_rate: u32, timeout_ms: u64 },
    /// Close the serial port that was just opened.
    ReleasePort,
    /// The settings cannot be used: stop with this error.
    RejectSettings { error: SettingsError },
    /// The wait is over.
    Complete { outcome: RebootOutcome },
    /// Nothing: the event did not answer the pending action.
    Wait,
}

/// Mathematical form of a `RebootAction`.
pub enum RebootActionView {
    Sleep { ms: u64 },
    FetchSettings,
    ConnectTcp { address: Seq<char> },
    OpenSerialPort { port_name: Seq<char>, baud_rate: u32, timeout_ms: u64 },
    ReleasePort,
    RejectSettings { error: SettingsError },
    Complete { outcome: RebootOutcome },
    Wait,
}

impl View for RebootAction {
    type V = RebootActionView;

    open spec fn view(&self) -> RebootActionView {
        match self {
            RebootAction::Sleep { ms } => RebootActionView::Sleep { ms: *ms },
            RebootAction::FetchSettings => RebootActionView::FetchSettings,
            RebootAction::ConnectTcp { address } => RebootActionView::ConnectTcp {
                address: address@,
            },
            RebootAction::OpenSerialPort { port_name, baud_rate, timeout_ms } =>
                RebootActionView::OpenSerialPort {
                port_name: port_name@,
                baud_rate: *baud_rate,
                timeout_ms: *timeout_ms,
            },
            RebootAction::ReleasePort => RebootActionView::ReleasePort,
            RebootAction::RejectSettings { error } => RebootActionView::RejectSettings {
                error: *error,
            },
            RebootAction::Complete { outcome } => RebootActionView::Complete { outcome: *outcome },
            RebootAction::Wait => RebootActionView::Wait,
        }
    }
}

/// The TCP connection attempt for these settings.
pub open spec fn reconnect_tcp(s: ReconnectSettingsView) -> RebootActionView {
    RebootActionView::ConnectTcp { address: s.tcp_ip + ":"@ + s.tcp_port }
}

/// The serial port opening attempt for these settings.
pub open spec fn reopen_serial(s: ReconnectSettingsView) -> RebootActionView {
    RebootActionView::OpenSerialPort {
        port_name: s.serial_port_name,
        baud_rate: s.serial_baud_rate,
        timeout_ms: SERIAL_TIMEOUT_MS,
    }
}

/// Where the wait goes once the settings are known.
pub open spec fn reboot_after_settings(settings: Option<Seq<(Seq<char>, SettingValueView)>>) -> (
    RebootStateView,
    RebootActionView,
) {
    match settings {
        None => (
            RebootStateView::Finished { outcome: RebootOutcome::NoSettings },
            RebootActionView::Complete { outcome: RebootOutcome::NoSettings },
        ),
        Some(entries) => match spec_reconnect_settings(entries) {
            Err(error) => (
                RebootStateView::Rejected { error },
                RebootActionView::RejectSettings { error },
            ),
            Ok(s) => match transport_kind(s.transport) {
                Transport::Tcp => (
                    RebootStateView::AwaitTcpReconnect { settings: s },
                    reconnect_tcp(s),
                ),
                Transport::SerialPort => (
                    RebootStateView::AwaitSerialReopen { settings: s },
                    reopen_serial(s),
                ),
                Transport::Unsupported => (
                    RebootStateView::Finished { outcome: RebootOutcome::UnsupportedTransport },
                    RebootActionView::Complete { outcome: RebootOutcome::UnsupportedTransport },
                ),
            },
        },
    }
}

/// One step of the wait for a reboot: the next state and action for an event.
pub open spec fn spec_reboot_step(state: RebootStateView, event: RebootEventView) -> (
    RebootStateView,
    RebootActionView,
) {
    match (state, event) {
        (RebootStateView::AwaitRebootDelay, RebootEventView::DelayElapsed) => (
            RebootStateView::AwaitSettings,
            RebootActionView::FetchSettings,
        ),
        (RebootStateView::AwaitSettings, RebootEventView::SettingsFetched(s)) =>
            reboot_after_settings(s),
        (RebootStateView::AwaitTcpReconnect { settings }, RebootEventView::TcpConnected(ok)) =>
            if ok {
            (
                RebootStateView::Finished { outcome: RebootOutcome::Reconnected },
                RebootActionView::Complete { outcome: RebootOutcome::Reconnected },
            )
        } else {
            (RebootStateView::AwaitTcpReconnect { settings }, reconnect_tcp(settings))
        },
        (
            RebootStateView::AwaitSerialReopen { settings },
            RebootEventView::SerialPortOpened(ok),
        ) => if ok {
            (RebootStateView::AwaitPortRelease, RebootActionView::ReleasePort)
        } else {
            (
                RebootStateView::AwaitRetryDelay { settings },
                RebootActionView::Sleep { ms: SERIAL_RETRY_DELAY_MS },
            )
        },
        (RebootStateView::AwaitRetryDelay { settings }, RebootEventView::DelayElapsed) => (
            RebootStateView::AwaitSerialReopen { settings },
            reopen_serial(settings),
        ),
        (RebootStateView::AwaitPortRelease, RebootEventView::PortReleased) => (
            RebootStateView::AwaitSettleDelay,
            RebootActionView::Sleep { ms: PORT_SETTLE_DELAY_MS },
        ),
        (RebootStateView::AwaitSettleDelay, RebootEventView::DelayElapsed) => (
            RebootStateView::Finished { outcome: RebootOutcome::Reconnected },
            RebootActionView::Complete { outcome: RebootOutcome::Reconnected },
        ),
        _ => (state, RebootActionView::Wait),
    }
}

fn reconnect_tcp_action(s: &ReconnectSettings) -> (res: RebootAction)
    ensures
        res@ == reconnect_tcp(s@),
{
    RebootAction::ConnectTcp { address: s.tcp_address() }
}

fn reopen_serial_action(s: &ReconnectSettings) -> (res: RebootAction)
    ensures
        res@ == reopen_serial(s@),
{
    RebootAction::OpenSerialPort {
        port_name: s.serial_port_name.clone(),
        baud_rate: s.serial_baud_rate,
        timeout_ms: SERIAL_TIMEOUT_MS,
    }
}

fn reboot_settings_step(settings: Option<Settings>) -> (res: (RebootState, RebootAction))
    ensures
        (res.0@, res.1@) == reboot_after_settings(
            match settings {
                None => None,
                Some(s) => Some(s@),
            },
        ),
{
    match settings {
        None => (
            RebootState::Finished { outcome: RebootOutcome::NoSettings },
            RebootAction::Complete { outcome: RebootOutcome::NoSettings },
        ),
        Some(entries) => match entries.reconnect_settings() {
            Err(error) => (RebootState::Rejected { error }, RebootAction::RejectSettings { error }),
            Ok(s) => match s.transport_kind() {
                Transport::Tcp => {
                    let action = reconnect_tcp_action(&s);
                    (RebootState::AwaitTcpReconnect { settings: s }, action)
                },
                Transport::SerialPort => {
                    let action = reopen_serial_action(&s);
                    (RebootState::AwaitSerialReopen { settings: s }, action)
                },
                Transport::Unsupported => (
                    RebootState::Finished { outcome: RebootOutcome::UnsupportedTransport },
                    RebootAction::Complete { outcome: RebootOutcome::UnsupportedTransport },
                ),
            },
        },
    }
}

impl Device {
    /// The first state and action of the wait for a reboot: sleep first.
    pub fn start_reboot_wait(&self) -> (res: (RebootState, RebootAction))
        ensures
            res.0@ == RebootStateView::AwaitRebootDelay,
            res.1@ == (RebootActionView::Sleep { ms: REBOOT_DELAY_MS }),
    {
        (RebootState::AwaitRebootDelay, RebootAction::Sleep { ms: REBOOT_DELAY_MS })
    }

    /// One step of the wait for a reboot: the next state and action for an
    /// event.
    pub fn reboot_step(&self, state: RebootState, event: RebootEvent) -> (res: (
        RebootState,
        RebootAction,
    ))
        ensures
            (res.0@, res.1@) == spec_reboot_step(state@, event@),
    {
        match (state, event) {
            (RebootState::AwaitRebootDelay, RebootEvent::DelayElapsed) => (
                RebootState::AwaitSettings,
                RebootAction::FetchSettings,
            ),
            (RebootState::AwaitSettings, RebootEvent::SettingsFetched(s)) => reboot_settings_step(
                s,
            ),
            (RebootState::AwaitTcpReconnect { settings }, RebootEvent::TcpConnected(ok)) => {
                if ok {
                    (
                        RebootState::Finished { outcome: RebootOutcome::Reconnected },
                        RebootAction::Complete { outcome: RebootOutcome::Reconnected },
                    )
                } else {
                    let action = reconnect_tcp_action(&settings);
                    (RebootState::AwaitTcpReconnect { settings }, action)
                }
            },
            (RebootState::AwaitSerialReopen { settings }, RebootEvent::SerialPortOpened(ok)) => {
                if ok {
                    (RebootState::AwaitPortRelease, RebootAction::ReleasePort)
                } else {
                    (
                        RebootState::AwaitRetryDelay { settings },
                        RebootAction::Sleep { ms: SERIAL_RETRY_DELAY_MS },
                    )
                }
            },
            (RebootState::AwaitRetryDelay { settings }, RebootEvent::DelayElapsed) => {
                let action = reopen_serial_action(&settings);
                (RebootState::AwaitSerialReopen { settings }, action)
            },
            (RebootState::AwaitPortRelease, RebootEvent::PortReleased) => (
                RebootState::AwaitSettleDelay,
                RebootAction::Sleep { ms: PORT_SETTLE_DELAY_MS },
            ),
            (RebootState::AwaitSettleDelay, RebootEvent::DelayElapsed) => (
                RebootState::Finished { outcome: RebootOutcome::Reconnected },
                RebootAction::Complete { outcome: RebootOutcome::Reconnected },
            ),
            (state, _) => (state, RebootAction::Wait),
        }
    }
}


/// A wait that is over stays over.
pub proof fn lemma_reboot_end_is_final(state: RebootStateView, event: RebootEventView)
    requires
        state is Finished || state is Rejected,
    ensures
        spec_reboot_step(state, event) == (state, RebootActionView::Wait),
{
}

/// A failed TCP attempt is retried at once, at the same address.
pub proof fn lemma_tcp_retried_at_same_address(settings: ReconnectSettingsView)
    ensures
        spec_reboot_step(
            RebootStateView::AwaitTcpReconnect { settings },
            RebootEventView::TcpConnected(false),
        ) == (RebootStateView::AwaitTcpReconnect { settings }, reconnect_tcp(settings)),
{
}

/// A failed attempt to open the serial port is followed by a pause of
/// `SERIAL_RETRY_DELAY_MS`, then by the same attempt again.
pub proof fn lemma_serial_retry_after_pause(settings: ReconnectSettingsView)
    ensures
        ({
            let (waiting, pause) = spec_reboot_step(
                RebootStateView::AwaitSerialReopen { settings },
                RebootEventView::SerialPortOpened(false),
            );
            &&& pause == RebootActionView::Sleep { ms: SERIAL_RETRY_DELAY_MS }
            &&& spec_reboot_step(waiting, RebootEventView::DelayElapsed) == (
                RebootStateView::AwaitSerialReopen { settings },
                reopen_serial(settings),
            )
        }),
{
}

/// A reopened serial port is released and the driver pauses
/// `PORT_SETTLE_DELAY_MS` before it reports the device back.
pub proof fn lemma_serial_release_then_settle(settings: ReconnectSettingsView)
    ensures
        ({
            let (releasing, release) = spec_reboot_step(
                RebootStateView::AwaitSerialReopen { settings },
                RebootEventView::SerialPortOpened(true),
            );
            let (settling, pause) = spec_reboot_step(releasing, RebootEventView::PortReleased);
            &&& release == RebootActionView::ReleasePort
            &&& pause == RebootActionView::Sleep { ms: PORT_SETTLE_DELAY_MS }
            &&& spec_reboot_step(settling, RebootEventView::DelayElapsed) == (
                RebootStateView::Finished { outcome: RebootOutcome::Reconnected },
                RebootActionView::Complete { outcome: RebootOutcome::Reconnected },
            )
        }),
{
}

/// The wait starts with a 5 s sleep, then reads the settings.
pub proof fn lemma_reboot_starts_with_delay()
    ensures
        REBOOT_DELAY_MS == 5000,
        spec_reboot_step(RebootStateView::AwaitRebootDelay, RebootEventView::DelayElapsed) == (
            RebootStateView::AwaitSettings,
            RebootActionView::FetchSettings,
        ),
{
}

/// What the settings lead to: without settings the wait ends with
/// `NoSettings`; settings that do not decode are rejected with their error;
/// decoded settings try `tcp_ip:tcp_port` for `tcp`, open
/// `serial_port_name` at `serial_baud_rate` with a 1000 ms timeout for
/// `serial-port`, and end the wait for any other transport.
pub proof fn lemma_reboot_settings(settings: Option<Seq<(Seq<char>, SettingValueView)>>)
    ensures
        settings is None ==> spec_reboot_step(
            RebootStateView::AwaitSettings,
            RebootEventView::SettingsFetched(settings),
        ) == (
            RebootStateView::Finished { outcome: RebootOutcome::NoSettings },
            RebootActionView::Complete { outcome: RebootOutcome::NoSettings },
        ),
        settings matches Some(e) ==> match spec_reconnect_settings(e) {
            Err(error) => spec_reboot_step(
                RebootStateView::AwaitSettings,
                RebootEventView::SettingsFetched(settings),
            ) == (RebootStateView::Rejected { error }, RebootActionView::RejectSettings { error }),
            Ok(s) => spec_reboot_step(
                RebootStateView::AwaitSettings,
                RebootEventView::SettingsFetched(settings),
            ) == if s.transport == "tcp"@ {
                (
                    RebootStateView::AwaitTcpReconnect { settings: s },
                    RebootActionView::ConnectTcp { address: s.tcp_ip + ":"@ + s.tcp_port },
                )
            } else if s.transport == "serial-port"@ {
                (
                    RebootStateView::AwaitSerialReopen { settings: s },
                    RebootActionView::OpenSerialPort {
                        port_name: s.serial_port_name,
                        baud_rate: s.serial_baud_rate,
                        timeout_ms: 1000,
                    },
                )
            } else {
                (
                    RebootStateView::Finished { outcome: RebootOutcome::UnsupportedTransport },
                    RebootActionView::Complete { outcome: RebootOutcome::UnsupportedTransport },
                )
            },
        },
{
}

/// Every retry goes to the place the settings name: a failed TCP attempt is
/// retried at once at `tcp_ip:tcp_port`; a failed opening waits 1000 ms and
/// then opens `serial_port_name` at `serial_baud_rate` again, with a 1000 ms
/// timeout; a successful one releases the port, waits 300 ms and ends the
/// wait; a successful connection ends it at once.
pub proof fn lemma_reboot_retries(s: ReconnectSettingsView)
    ensures
        spec_reboot_step(
            RebootStateView::AwaitTcpReconnect { settings: s },
            RebootEventView::TcpConnected(false),
        ) == (
            RebootStateView::AwaitTcpReconnect { settings: s },
            RebootActionView::ConnectTcp { address: s.tcp_ip + ":"@ + s.tcp_port },
        ),
        spec_reboot_step(
            RebootStateView::AwaitTcpReconnect { settings: s },
            RebootEventView::TcpConnected(true),
        ) == (
            RebootStateView::Finished { outcome: RebootOutcome::Reconnected },
            RebootActionView::Complete { outcome: RebootOutcome::Reconnected },
        ),
        spec_reboot_step(
            RebootStateView::AwaitSerialReopen { settings: s },
            RebootEventView::SerialPortOpened(false),
        ) == (
            RebootStateView::AwaitRetryDelay { settings: s },
            RebootActionView::Sleep { ms: 1000 },
        ),
        spec_reboot_step(
            RebootStateView::AwaitRetryDelay { settings: s },
            RebootEventView::DelayElapsed,
        ) == (
            RebootStateView::AwaitSerialReopen { settings: s },
            RebootActionView::OpenSerialPort {
                port_name: s.serial_port_name,
                baud_rate: s.serial_baud_rate,
                timeout_ms: 1000,
            },
        ),
        spec_reboot_step(
            RebootStateView::AwaitSerialReopen { settings: s },
            RebootEventView::SerialPortOpened(true),
        ) == (RebootStateView::AwaitPortRelease, RebootActionView::ReleasePort),
        spec_reboot_step(RebootStateView::AwaitPortRelease, RebootEventView::PortReleased) == (
            RebootStateView::AwaitSettleDelay,
            RebootActionView::Sleep { ms: 300 },
        ),
        spec_reboot_step(RebootStateView::AwaitSettleDelay, RebootEventView::DelayElapsed) == (
            RebootStateView::Finished { outcome: RebootOutcome::Reconnected },
            RebootActionView::Complete { outcome: RebootOutcome::Reconnected },
        ),
{
}

} // verus!
