use pza_plugin_std::serial_stream::device::{
    Device, MountAction, MountError, MountEvent, MountState, SERIAL_TIMEOUT_MS,
};
use pza_plugin_std::serial_stream::reboot::{
    RebootAction, RebootEvent, RebootOutcome, RebootState, PORT_SETTLE_DELAY_MS, REBOOT_DELAY_MS,
    SERIAL_RETRY_DELAY_MS,
};
use pza_plugin_std::serial_stream::settings::{
    SettingEntry, SettingKey, SettingValue, Settings, SettingsError, Transport,
};
use pza_plugin_std::serial_stream::stream::{
    publish_failure, rx_step, send_failure, ReadOutcome, RxStep, RX_BUFFER_SIZE,
};

fn text(key: &str, value: &str) -> SettingEntry {
    SettingEntry { key: key.to_string(), value: SettingValue::Text(value.to_string()) }
}

fn settings(transport: &str, baud: &str, message_on_connect: bool) -> Settings {
    Settings {
        entries: vec![
            text("transport", transport),
            text("tcp_ip", "127.0.0.1"),
            text("tcp_port", "12345"),
            text("serial_port_name", "COM5"),
            text("serial_baud_rate", baud),
            SettingEntry {
                key: "message_on_connect".to_string(),
                value: SettingValue::Flag(message_on_connect),
            },
        ],
    }
}

fn without(mut s: Settings, key: &str) -> Settings {
    s.entries.retain(|e| e.key != key);
    s
}

fn replaced(mut s: Settings, key: &str, value: SettingValue) -> Settings {
    for e in s.entries.iter_mut() {
        if e.key == key {
            e.value = value;
            return s;
        }
    }
    panic!("no such key");
}

#[test]
fn stream_settings_decodes_all_keys() {
    let s = settings("tcp", "115200", true).stream_settings().unwrap();
    assert_eq!(s.transport, "tcp");
    assert_eq!(s.tcp_ip, "127.0.0.1");
    assert_eq!(s.tcp_port, "12345");
    assert_eq!(s.serial_port_name, "COM5");
    assert_eq!(s.serial_baud_rate, 115200);
    assert!(s.message_on_connect);
    assert_eq!(s.transport_kind(), Transport::Tcp);
    assert_eq!(s.tcp_address(), "127.0.0.1:12345");
}

#[test]
fn stream_settings_reports_missing_keys_in_order() {
    let all = settings("tcp", "115200", false);
    assert_eq!(
        without(settings("tcp", "1", false), "transport").stream_settings().err(),
        Some(SettingsError::Missing(SettingKey::Transport))
    );
    assert_eq!(
        without(settings("tcp", "1", false), "tcp_port").stream_settings().err(),
        Some(SettingsError::Missing(SettingKey::TcpPort))
    );
    assert_eq!(
        without(settings("tcp", "1", false), "message_on_connect").stream_settings().err(),
        Some(SettingsError::Missing(SettingKey::MessageOnConnect))
    );
    let neither = without(without(all, "tcp_ip"), "serial_baud_rate");
    assert_eq!(
        neither.stream_settings().err(),
        Some(SettingsError::Missing(SettingKey::TcpIp))
    );
}

#[test]
fn stream_settings_reports_wrong_types() {
    let s = replaced(settings("tcp", "1", false), "tcp_ip", SettingValue::Other);
    assert_eq!(s.stream_settings().err(), Some(SettingsError::NotText(SettingKey::TcpIp)));
    let s = replaced(settings("tcp", "1", false), "serial_port_name", SettingValue::Flag(true));
    assert_eq!(
        s.stream_settings().err(),
        Some(SettingsError::NotText(SettingKey::SerialPortName))
    );
    let s = replaced(
        settings("tcp", "1", false),
        "message_on_connect",
        SettingValue::Text("false".to_string()),
    );
    assert_eq!(
        s.stream_settings().err(),
        Some(SettingsError::NotFlag(SettingKey::MessageOnConnect))
    );
}

#[test]
fn stream_settings_rejects_bad_baud_rate() {
    assert_eq!(
        settings("tcp", "fast", false).stream_settings().err(),
        Some(SettingsError::BadBaudRate)
    );
    assert_eq!(
        settings("tcp", "4294967296", false).stream_settings().err(),
        Some(SettingsError::BadBaudRate)
    );
}

#[test]
fn settings_get_finds_first_entry() {
    let mut s = settings("tcp", "1", false);
    s.entries.push(text("transport", "serial-port"));
    match s.get("transport") {
        Some(SettingValue::Text(t)) => assert_eq!(t, "tcp"),
        _ => panic!("transport not found"),
    }
    assert!(s.get("absent").is_none());
}

#[test]
fn setting_key_names() {
    assert_eq!(SettingKey::Transport.name(), "transport");
    assert_eq!(SettingKey::SerialBaudRate.name(), "serial_baud_rate");
    assert_eq!(SettingKey::MessageOnConnect.name(), "message_on_connect");
}

#[test]
fn transport_kinds() {
    let kind = |t: &str| settings(t, "1", false).stream_settings().unwrap().transport_kind();
    assert_eq!(kind("tcp"), Transport::Tcp);
    assert_eq!(kind("serial-port"), Transport::SerialPort);
    assert_eq!(kind("usb"), Transport::Unsupported);
    assert_eq!(kind("TCP"), Transport::Unsupported);
}

fn fetched(device: &Device, s: Option<Settings>) -> (MountState, MountAction) {
    let (state, action) = device.start_mount();
    assert_eq!(state, MountState::AwaitSettings);
    assert!(matches!(action, MountAction::FetchSettings));
    device.mount_step(state, MountEvent::SettingsFetched(s))
}

#[test]
fn mount_tcp_with_handshake_retries_until_reply() {
    let device = Device::new();
    let (state, action) = fetched(&device, Some(settings("tcp", "115200", true)));
    match action {
        MountAction::ConnectTcp { address } => assert_eq!(address, "127.0.0.1:12345"),
        _ => panic!("expected a TCP connection"),
    }
    let (state, action) = device.mount_step(state, MountEvent::TcpConnected(true));
    match action {
        MountAction::SendPing { payload } => assert_eq!(payload, b"ping".to_vec()),
        _ => panic!("expected the ping"),
    }
    let (state, action) = device.mount_step(state, MountEvent::PingSent(true));
    assert!(matches!(action, MountAction::ReadPingReply { capacity } if capacity == RX_BUFFER_SIZE));
    let (state, action) =
        device.mount_step(state, MountEvent::PingReplied(ReadOutcome::Received(0)));
    assert_eq!(state, MountState::AwaitPingSent);
    assert!(matches!(action, MountAction::SendPing { .. }));
    let (state, _) = device.mount_step(state, MountEvent::PingSent(true));
    let (state, action) =
        device.mount_step(state, MountEvent::PingReplied(ReadOutcome::Received(16)));
    assert_eq!(state, MountState::AwaitTcpClass);
    assert!(matches!(action, MountAction::MountTcpClass));
    let (state, action) = device.mount_step(state, MountEvent::TcpClassMounted(true));
    assert_eq!(state, MountState::Finished { result: Ok(()) });
    assert!(matches!(action, MountAction::Complete { result: Ok(()) }));
}

#[test]
fn mount_tcp_without_handshake_skips_ping() {
    let device = Device::new();
    let (state, _) = fetched(&device, Some(settings("tcp", "115200", false)));
    let (state, action) = device.mount_step(state, MountEvent::TcpConnected(true));
    assert_eq!(state, MountState::AwaitTcpClass);
    assert!(matches!(action, MountAction::MountTcpClass));
}

#[test]
fn mount_serial_port() {
    let device = Device::new();
    let (state, action) = fetched(&device, Some(settings("serial-port", "9600", true)));
    match action {
        MountAction::OpenSerialPort { port_name, baud_rate, timeout_ms } => {
            assert_eq!(port_name, "COM5");
            assert_eq!(baud_rate, 9600);
            assert_eq!(timeout_ms, SERIAL_TIMEOUT_MS);
            assert_eq!(timeout_ms, 1000);
        }
        _ => panic!("expected the serial port"),
    }
    let (state, action) = device.mount_step(state, MountEvent::SerialPortOpened(true));
    assert!(matches!(action, MountAction::MountSerialClass));
    let (state, action) = device.mount_step(state, MountEvent::SerialClassMounted(false));
    assert_eq!(state, MountState::Finished { result: Err(MountError::ClassMountFailed) });
    assert!(matches!(
        action,
        MountAction::Complete { result: Err(MountError::ClassMountFailed) }
    ));
}

#[test]
fn mount_unsupported_transport_succeeds_without_device() {
    let device = Device::new();
    let (state, action) = fetched(&device, Some(settings("usb", "1", false)));
    assert_eq!(state, MountState::Finished { result: Ok(()) });
    assert!(matches!(action, MountAction::Complete { result: Ok(()) }));
}

#[test]
fn mount_errors() {
    let device = Device::new();
    let (_, action) = fetched(&device, None);
    assert!(matches!(action, MountAction::Complete { result: Err(MountError::NoSettings) }));

    let (state, action) = fetched(&device, Some(settings("tcp", "x", false)));
    assert_eq!(state, MountState::Rejected { error: SettingsError::BadBaudRate });
    assert!(matches!(action, MountAction::RejectSettings { error: SettingsError::BadBaudRate }));

    let (state, _) = fetched(&device, Some(settings("tcp", "1", true)));
    let (_, action) = device.mount_step(state, MountEvent::TcpConnected(false));
    assert!(matches!(action, MountAction::Complete { result: Err(MountError::ConnectionFailed) }));

    let (state, _) = fetched(&device, Some(settings("tcp", "1", true)));
    let (state, _) = device.mount_step(state, MountEvent::TcpConnected(true));
    let (_, action) = device.mount_step(state, MountEvent::PingSent(false));
    assert!(matches!(action, MountAction::Complete { result: Err(MountError::PingWriteFailed) }));

    let (state, _) = fetched(&device, Some(settings("tcp", "1", true)));
    let (state, _) = device.mount_step(state, MountEvent::TcpConnected(true));
    let (state, _) = device.mount_step(state, MountEvent::PingSent(true));
    let (_, action) = device.mount_step(
        state,
        MountEvent::PingReplied(ReadOutcome::Failed("reset".to_string())),
    );
    assert!(matches!(action, MountAction::Complete { result: Err(MountError::PingReadFailed) }));

    let (state, _) = fetched(&device, Some(settings("serial-port", "1", true)));
    let (_, action) = device.mount_step(state, MountEvent::SerialPortOpened(false));
    assert!(matches!(action, MountAction::Complete { result: Err(MountError::ConnectionFailed) }));
}

#[test]
fn mount_error_texts() {
    assert_eq!(MountError::NoSettings.text(), Some("No settings found to mount the driver"));
    assert_eq!(MountError::ConnectionFailed.text(), Some("Connection failed"));
    assert_eq!(MountError::PingWriteFailed.text(), Some("Write error during message on connect"));
    assert_eq!(MountError::PingReadFailed.text(), Some("Read error during message on connect"));
    assert_eq!(MountError::ClassMountFailed.text(), None);
}

#[test]
fn mount_ignores_unexpected_events_and_stays_finished() {
    let device = Device::new();
    let (state, action) = device.mount_step(MountState::AwaitSettings, MountEvent::PingSent(true));
    assert_eq!(state, MountState::AwaitSettings);
    assert!(matches!(action, MountAction::Wait));
    let done = MountState::Finished { result: Ok(()) };
    let (state, action) = device.mount_step(done, MountEvent::TcpClassMounted(false));
    assert_eq!(state, done);
    assert!(matches!(action, MountAction::Wait));
}

fn reboot_settings(device: &Device, s: Option<Settings>) -> (RebootState, RebootAction) {
    let (state, action) = device.start_reboot_wait();
    assert!(matches!(state, RebootState::AwaitRebootDelay));
    assert!(matches!(action, RebootAction::Sleep { ms } if ms == REBOOT_DELAY_MS && ms == 5000));
    let (state, action) = device.reboot_step(state, RebootEvent::DelayElapsed);
    assert!(matches!(action, RebootAction::FetchSettings));
    device.reboot_step(state, RebootEvent::SettingsFetched(s))
}

#[test]
fn reboot_tcp_retries_until_connected() {
    let device = Device::new();
    let (state, action) = reboot_settings(&device, Some(settings("tcp", "1", false)));
    assert!(matches!(&action, RebootAction::ConnectTcp { address } if address == "127.0.0.1:12345"));
    let (state, action) = device.reboot_step(state, RebootEvent::TcpConnected(false));
    assert!(matches!(&action, RebootAction::ConnectTcp { address } if address == "127.0.0.1:12345"));
    let (state, action) = device.reboot_step(state, RebootEvent::TcpConnected(true));
    assert!(matches!(state, RebootState::Finished { outcome: RebootOutcome::Reconnected }));
    assert!(matches!(action, RebootAction::Complete { outcome: RebootOutcome::Reconnected }));
}

#[test]
fn reboot_serial_retries_with_pause() {
    let device = Device::new();
    let (state, action) = reboot_settings(&device, Some(settings("serial-port", "57600", false)));
    assert!(matches!(&action, RebootAction::OpenSerialPort { port_name, baud_rate: 57600, timeout_ms: 1000 } if port_name == "COM5"));
    let (state, action) = device.reboot_step(state, RebootEvent::SerialPortOpened(false));
    assert!(matches!(action, RebootAction::Sleep { ms } if ms == SERIAL_RETRY_DELAY_MS && ms == 1000));
    let (state, action) = device.reboot_step(state, RebootEvent::DelayElapsed);
    assert!(matches!(&action, RebootAction::OpenSerialPort { port_name, baud_rate: 57600, .. } if port_name == "COM5"));
    let (state, action) = device.reboot_step(state, RebootEvent::SerialPortOpened(true));
    assert!(matches!(action, RebootAction::ReleasePort));
    let (state, action) = device.reboot_step(state, RebootEvent::PortReleased);
    assert!(matches!(action, RebootAction::Sleep { ms } if ms == PORT_SETTLE_DELAY_MS && ms == 300));
    let (state, action) = device.reboot_step(state, RebootEvent::DelayElapsed);
    assert!(matches!(state, RebootState::Finished { outcome: RebootOutcome::Reconnected }));
    assert!(matches!(action, RebootAction::Complete { outcome: RebootOutcome::Reconnected }));
}

#[test]
fn reboot_other_outcomes() {
    let device = Device::new();
    let (_, action) = reboot_settings(&device, None);
    assert!(matches!(action, RebootAction::Complete { outcome: RebootOutcome::NoSettings }));
    let (_, action) = reboot_settings(&device, Some(settings("usb", "1", false)));
    assert!(matches!(action, RebootAction::Complete { outcome: RebootOutcome::UnsupportedTransport }));
    let (state, action) = reboot_settings(&device, Some(without(settings("tcp", "1", false), "tcp_ip")));
    assert!(matches!(action, RebootAction::RejectSettings { error: SettingsError::Missing(SettingKey::TcpIp) }));
    let (state, action) = device.reboot_step(state, RebootEvent::DelayElapsed);
    assert!(matches!(state, RebootState::Rejected { .. }));
    assert!(matches!(action, RebootAction::Wait));
}

#[test]
fn reboot_needs_no_message_on_connect() {
    let device = Device::new();
    let tcp = without(settings("tcp", "1", false), "message_on_connect");
    let (state, action) = reboot_settings(&device, Some(tcp));
    assert!(matches!(&action, RebootAction::ConnectTcp { address } if address == "127.0.0.1:12345"));
    let (_, action) = device.reboot_step(state, RebootEvent::TcpConnected(true));
    assert!(matches!(action, RebootAction::Complete { outcome: RebootOutcome::Reconnected }));

    let serial = without(settings("serial-port", "9600", true), "message_on_connect");
    let (_, action) = reboot_settings(&device, Some(serial));
    assert!(matches!(&action, RebootAction::OpenSerialPort { port_name, baud_rate: 9600, timeout_ms: 1000 } if port_name == "COM5"));

    let other = replaced(settings("usb", "1", false), "message_on_connect", SettingValue::Other);
    let (_, action) = reboot_settings(&device, Some(other));
    assert!(matches!(action, RebootAction::Complete { outcome: RebootOutcome::UnsupportedTransport }));

    let bad_baud = without(settings("tcp", "fast", false), "message_on_connect");
    let (_, action) = reboot_settings(&device, Some(bad_baud));
    assert!(matches!(action, RebootAction::RejectSettings { error: SettingsError::BadBaudRate }));
}

#[test]
fn reconnect_settings_reads_five_keys() {
    let s = without(settings("serial-port", "+57600", true), "message_on_connect");
    let r = s.reconnect_settings().unwrap();
    assert_eq!(r.transport, "serial-port");
    assert_eq!(r.serial_port_name, "COM5");
    assert_eq!(r.serial_baud_rate, 57600);
    assert_eq!(r.transport_kind(), Transport::SerialPort);
    assert_eq!(r.tcp_address(), "127.0.0.1:12345");
    assert_eq!(
        s.stream_settings().err(),
        Some(SettingsError::Missing(SettingKey::MessageOnConnect))
    );
    assert_eq!(
        without(settings("tcp", "1", true), "serial_port_name").reconnect_settings().err(),
        Some(SettingsError::Missing(SettingKey::SerialPortName))
    );
}

#[test]
fn rx_step_publishes_received_bytes() {
    let buffer = [b'h', b'i', b'!', 0, 0];
    match rx_step(&ReadOutcome::Received(3), &buffer) {
        RxStep::Publish(data) => assert_eq!(data, b"hi!".to_vec()),
        RxStep::Stop(_) => panic!("expected data"),
    }
}

#[test]
fn rx_step_stops_on_close_or_error() {
    let buffer = [0u8; 4];
    match rx_step(&ReadOutcome::Received(0), &buffer) {
        RxStep::Stop(m) => assert_eq!(m, "Connection closed by the device"),
        _ => panic!("expected a stop"),
    }
    match rx_step(&ReadOutcome::Failed("broken pipe".to_string()), &buffer) {
        RxStep::Stop(m) => assert_eq!(m, "Read error: broken pipe"),
        _ => panic!("expected a stop"),
    }
}

#[test]
fn stream_failure_texts() {
    assert_eq!(publish_failure("full"), "Failed to set data in att_serial_stream_rx: full");
    assert_eq!(send_failure("closed"), "Failed to send the command to the device: closed");
}
