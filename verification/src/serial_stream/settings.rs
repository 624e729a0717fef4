use crate::text::{parse_u32, same_text, spec_parse_u32};
use vstd::prelude::*;
use vstd::string::*;

verus! {

/// One value of the instance settings, as far as the driver reads it.
pub enum SettingValue {
    Text(String),
    Flag(bool),
    Other,
}

/// Mathematical form of a `SettingValue`.
pub enum SettingValueView {
    Text(Seq<char>),
    Flag(bool),
    Other,
}

impl View for SettingValue {
    type V = SettingValueView;

    open spec fn view(&self) -> SettingValueView {
        match self {
            SettingValue::Text(s) => SettingValueView::Text(s@),
            SettingValue::Flag(b) => SettingValueView::Flag(*b),
            SettingValue::Other => SettingValueView::Other,
        }
    }
}

/// One key of the instance settings with its value.
pub struct SettingEntry {
    pub key: String,
    pub value: SettingValue,
}

/// The settings of an instance: the entries of its JSON settings object.
pub struct Settings {
    pub entries: Vec<SettingEntry>,
}

impl View for Settings {
    type V = Seq<(Seq<char>, SettingValueView)>;

    open spec fn view(&self) -> Seq<(Seq<char>, SettingValueView)> {
        self.entries@.map_values(|e: SettingEntry| (e.key@, e.value@))
    }
}

/// The value of the first entry whose key is `key`.
pub open spec fn lookup(entries: Seq<(Seq<char>, SettingValueView)>, key: Seq<char>) -> Option<
    SettingValueView,
>
    decreases entries.len(),
{
    if entries.len() == 0 {
        None
    } else if entries[0].0 == key {
        Some(entries[0].1)
    } else {
        lookup(entries.drop_first(), key)
    }
}

/// The keys that the driver reads.
#[derive(Clone, Copy, PartialEq, Eq, Structural, Debug)]
pub enum SettingKey {
    Transport,
    TcpIp,
    TcpPort,
    SerialPortName,
    SerialBaudRate,
    MessageOnConnect,
}

/// The name of a key in the settings object.
pub open spec fn key_name(key: SettingKey) -> Seq<char> {
    match key {
        SettingKey::Transport => "transport"@,
        SettingKey::TcpIp => "tcp_ip"@,
        SettingKey::TcpPort => "tcp_port"@,
        SettingKey::SerialPortName => "serial_port_name"@,
        SettingKey::SerialBaudRate => "serial_baud_rate"@,
        SettingKey::MessageOnConnect => "message_on_connect"@,
    }
}

impl SettingKey {
    /// The name of this key in the settings object.
    pub fn name(&self) -> (res: &'static str)
        ensures
            res@ == key_name(*self),
    {
        match self {
            SettingKey::Transport => "transport",
            SettingKey::TcpIp => "tcp_ip",
            SettingKey::TcpPort => "tcp_port",
            SettingKey::SerialPortName => "serial_port_name",
            SettingKey::SerialBaudRate => "serial_baud_rate",
            SettingKey::MessageOnConnect => "message_on_connect",
        }
    }
}

/// Why the settings cannot drive the serial stream.
#[derive(Clone, Copy, PartialEq, Eq, Structural, Debug)]
pub enum SettingsError {
    /// The key is absent.
    Missing(SettingKey),
    /// The key holds something else than a string.
    NotText(SettingKey),
    /// The key holds something else than a boolean.
    NotFlag(SettingKey),
    /// `serial_baud_rate` is not a decimal 32-bit unsigned integer.
    BadBaudRate,
}

/// How the driver reaches the device.
#[derive(Clone, Copy, PartialEq, Eq, Structural, Debug)]
pub enum Transport {
    Tcp,
    SerialPort,
    Unsupported,
}

/// The transport that the `transport` setting names.
pub open spec fn transport_kind(name: Seq<char>) -> Transport {
    if name == "tcp"@ {
        Transport::Tcp
    } else if name == "serial-port"@ {
        Transport::SerialPort
    } else {
        Transport::Unsupported
    }
}

/// The settings that reaching the device again needs: all but
/// `message_on_connect`.
pub struct ReconnectSettings {
    pub transport: String,
    pub tcp_ip: String,
    pub tcp_port: String,
    pub serial_port_name: String,
    pub serial_baud_rate: u32,
}

/// Mathematical form of `ReconnectSettings`.
pub struct ReconnectSettingsView {
    pub transport: Seq<char>,
    pub tcp_ip: Seq<char>,
    pub tcp_port: Seq<char>,
    pub serial_port_name: Seq<char>,
    pub serial_baud_rate: u32,
}

impl View for ReconnectSettings {
    type V = ReconnectSettingsView;

    open spec fn view(&self) -> ReconnectSettingsView {
        ReconnectSettingsView {
            transport: self.transport@,
            tcp_ip: self.tcp_ip@,
            tcp_port: self.tcp_port@,
            serial_port_name: self.serial_port_name@,
            serial_baud_rate: self.serial_baud_rate,
        }
    }
}

/// The settings of the serial stream driver, decoded.
pub struct StreamSettings {
    pub transport: String,
    pub tcp_ip: String,
    pub tcp_port: String,
    pub serial_port_name: String,
    pub serial_baud_rate: u32,
    pub message_on_connect: bool,
}

/// Mathematical form of `StreamSettings`.
pub struct StreamSettingsView {
    pub transport: Seq<char>,
    pub tcp_ip: Seq<char>,
    pub tcp_port: Seq<char>,
    pub serial_port_name: Seq<char>,
    pub serial_baud_rate: u32,
    pub message_on_connect: bool,
}

impl View for StreamSettings {
    type V = StreamSettingsView;

    open spec fn view(&self) -> StreamSettingsView {
        StreamSettingsView {
            transport: self.transport@,
            tcp_ip: self.tcp_ip@,
            tcp_port: self.tcp_port@,
            serial_port_name: self.serial_port_name@,
            serial_baud_rate: self.serial_baud_rate,
            message_on_connect: self.message_on_connect,
        }
    }
}

/// The text under `key`, or why there is none.
pub open spec fn text_setting(entries: Seq<(Seq<char>, SettingValueView)>, key: SettingKey) -> Result<
    Seq<char>,
    SettingsError,
> {
    match lookup(entries, key_name(key)) {
        None => Err(SettingsError::Missing(key)),
        Some(SettingValueView::Text(t)) => Ok(t),
        Some(_) => Err(SettingsError::NotText(key)),
    }
}

/// The flag under `key`, or why there is none.
pub open spec fn flag_setting(entries: Seq<(Seq<char>, SettingValueView)>, key: SettingKey) -> Result<
    bool,
    SettingsError,
> {
    match lookup(entries, key_name(key)) {
        None => Err(SettingsError::Missing(key)),
        Some(SettingValueView::Flag(b)) => Ok(b),
        Some(_) => Err(SettingsError::NotFlag(key)),
    }
}

/// The settings for reaching the device again, or the first problem met when
/// the keys are read in the order `transport`, `tcp_ip`, `tcp_port`,
/// `serial_port_name`, `serial_baud_rate` (read, then parsed).
pub open spec fn spec_reconnect_settings(entries: Seq<(Seq<char>, SettingValueView)>) -> Result<
    ReconnectSettingsView,
    SettingsError,
> {
    match text_setting(entries, SettingKey::Transport) {
        Err(e) => Err(e),
        Ok(transport) => match text_setting(entries, SettingKey::TcpIp) {
            Err(e) => Err(e),
            Ok(tcp_ip) => match text_setting(entries, SettingKey::TcpPort) {
                Err(e) => Err(e),
                Ok(tcp_port) => match text_setting(entries, SettingKey::SerialPortName) {
                    Err(e) => Err(e),
                    Ok(serial_port_name) => match text_setting(
                        entries,
                        SettingKey::SerialBaudRate,
                    ) {
                        Err(e) => Err(e),
                        Ok(baud_text) => match spec_parse_u32(baud_text) {
                            None => Err(SettingsError::BadBaudRate),
                            Some(serial_baud_rate) => Ok(
                                ReconnectSettingsView {
                                    transport,
                                    tcp_ip,
                                    tcp_port,
                                    serial_port_name,
                                    serial_baud_rate,
                                },
                            ),
                        },
                    },
                },
            },
        },
    }
}

/// The decoded stream settings, or the first problem met when the keys are
/// read in the order `transport`, `tcp_ip`, `tcp_port`, `serial_port_name`,
/// `serial_baud_rate` (read, then parsed), `message_on_connect`.
pub open spec fn spec_stream_settings(entries: Seq<(Seq<char>, SettingValueView)>) -> Result<
    StreamSettingsView,
    SettingsError,
> {
    match spec_reconnect_settings(entries) {
        Err(e) => Err(e),
        Ok(r) => match flag_setting(entries, SettingKey::MessageOnConnect) {
            Err(e) => Err(e),
            Ok(message_on_connect) => Ok(
                StreamSettingsView {
                    transport: r.transport,
                    tcp_ip: r.tcp_ip,
                    tcp_port: r.tcp_port,
                    serial_port_name: r.serial_port_name,
                    serial_baud_rate: r.serial_baud_rate,
                    message_on_connect,
                },
            ),
        },
    }
}

/// The text stored under the key named `name`, if the first entry with that
/// key holds text.
pub open spec fn text_under(entries: Seq<(Seq<char>, SettingValueView)>, name: Seq<char>) -> Option<
    Seq<char>,
> {
    match lookup(entries, name) {
        Some(SettingValueView::Text(t)) => Some(t),
        _ => None,
    }
}

/// The flag stored under the key named `name`, if the first entry with that
/// key holds a boolean.
pub open spec fn flag_under(entries: Seq<(Seq<char>, SettingValueView)>, name: Seq<char>) -> Option<
    bool,
> {
    match lookup(entries, name) {
        Some(SettingValueView::Flag(b)) => Some(b),
        _ => None,
    }
}

/// The settings for reaching the device again decode exactly when the keys
/// `transport`, `tcp_ip`, `tcp_port`, `serial_port_name` and
/// `serial_baud_rate` hold text and the baud rate parses as a `u32`; the
/// decoded fields are those texts and that number.
pub proof fn lemma_reconnect_settings_read_keys(entries: Seq<(Seq<char>, SettingValueView)>)
    ensures
        spec_reconnect_settings(entries) is Ok <==> {
            &&& text_under(entries, "transport"@) is Some
            &&& text_under(entries, "tcp_ip"@) is Some
            &&& text_under(entries, "tcp_port"@) is Some
            &&& text_under(entries, "serial_port_name"@) is Some
            &&& text_under(entries, "serial_baud_rate"@) is Some
            &&& spec_parse_u32(text_under(entries, "serial_baud_rate"@)->0) is Some
        },
        spec_reconnect_settings(entries) matches Ok(s) ==> {
            &&& Some(s.transport) == text_under(entries, "transport"@)
            &&& Some(s.tcp_ip) == text_under(entries, "tcp_ip"@)
            &&& Some(s.tcp_port) == text_under(entries, "tcp_port"@)
            &&& Some(s.serial_port_name) == text_under(entries, "serial_port_name"@)
            &&& Some(s.serial_baud_rate) == spec_parse_u32(
                text_under(entries, "serial_baud_rate"@)->0,
            )
        },
{
}

/// The stream settings decode exactly when the settings for reaching the
/// device decode and `message_on_connect` holds a boolean; they carry the
/// same texts and baud rate, and that boolean.
pub proof fn lemma_stream_settings_read_keys(entries: Seq<(Seq<char>, SettingValueView)>)
    ensures
        spec_stream_settings(entries) is Ok <==> spec_reconnect_settings(entries) is Ok && flag_under(
            entries,
            "message_on_connect"@,
        ) is Some,
        spec_stream_settings(entries) matches Ok(s) ==> {
            let r = spec_reconnect_settings(entries)->Ok_0;
            &&& s.transport == r.transport
            &&& s.tcp_ip == r.tcp_ip
            &&& s.tcp_port == r.tcp_port
            &&& s.serial_port_name == r.serial_port_name
            &&& s.serial_baud_rate == r.serial_baud_rate
            &&& Some(s.message_on_connect) == flag_under(entries, "message_on_connect"@)
        },
{
}

impl Settings {
    /// The value of the first entry whose key is `key`.
    pub fn get(&self, key: &str) -> (res: Option<&SettingValue>)
        ensures
            match res {
                None => lookup(self@, key@) is None,
                Some(v) => lookup(self@, key@) == Some(v@),
            },
    {
        let n = self.entries.len();
        let mut i: usize = 0;
        assert(self@.skip(0) =~= self@);
        while i < n
            invariant
                i <= n,
                n == self.entries@.len(),
                lookup(self@, key@) == lookup(self@.skip(i as int), key@),
            decreases n - i,
        {
            let entry = &self.entries[i];
            assert(self@.skip(i as int)[0] == (entry.key@, entry.value@));
            if same_text(entry.key.as_str(), key) {
                return Some(&entry.value);
            }
            assert(self@.skip(i as int).drop_first() =~= self@.skip(i + 1));
            i = i + 1;
        }
        None
    }

    fn text(&self, key: SettingKey) -> (res: Result<String, SettingsError>)
        ensures
            match res {
                Ok(s) => text_setting(self@, key) == Ok::<Seq<char>, SettingsError>(s@),
                Err(e) => text_setting(self@, key) == Err::<Seq<char>, SettingsError>(e),
            },
    {
        match self.get(key.name()) {
            None => Err(SettingsError::Missing(key)),
            Some(SettingValue::Text(t)) => Ok(t.clone()),
            Some(_) => Err(SettingsError::NotText(key)),
        }
    }

    fn flag(&self, key: SettingKey) -> (res: Result<bool, SettingsError>)
        ensures
            res == flag_setting(self@, key),
    {
        match self.get(key.name()) {
            None => Err(SettingsError::Missing(key)),
            Some(SettingValue::Flag(b)) => Ok(*b),
            Some(_) => Err(SettingsError::NotFlag(key)),
        }
    }

    /// Reads the settings for reaching the device again.
    pub fn reconnect_settings(&self) -> (res: Result<ReconnectSettings, SettingsError>)
        ensures
            match res {
                Ok(s) => spec_reconnect_settings(self@) == Ok::<
                    ReconnectSettingsView,
                    SettingsError,
                >(s@),
                Err(e) => spec_reconnect_settings(self@) == Err::<
                    ReconnectSettingsView,
                    SettingsError,
                >(e),
            },
    {
        let transport = match self.text(SettingKey::Transport) {
            Ok(t) => t,
            Err(e) => return Err(e),
        };
        let tcp_ip = match self.text(SettingKey::TcpIp) {
            Ok(t) => t,
            Err(e) => return Err(e),
        };
        let tcp_port = match self.text(SettingKey::TcpPort) {
            Ok(t) => t,
            Err(e) => return Err(e),
        };
        let serial_port_name = match self.text(SettingKey::SerialPortName) {
            Ok(t) => t,
            Err(e) => return Err(e),
        };
        let baud_text = match self.text(SettingKey::SerialBaudRate) {
            Ok(t) => t,
            Err(e) => return Err(e),
        };
        let serial_baud_rate = match parse_u32(baud_text.as_str()) {
            Some(b) => b,
            None => return Err(SettingsError::BadBaudRate),
        };
        Ok(ReconnectSettings { transport, tcp_ip, tcp_port, serial_port_name, serial_baud_rate })
    }

    /// Reads the serial stream settings.
    pub fn stream_settings(&self) -> (res: Result<StreamSettings, SettingsError>)
        ensures
            match res {
                Ok(s) => spec_stream_settings(self@) == Ok::<StreamSettingsView, SettingsError>(
                    s@,
                ),
                Err(e) => spec_stream_settings(self@) == Err::<StreamSettingsView, SettingsError>(
                    e,
                ),
            },
    {
        let r = match self.reconnect_settings() {
            Ok(r) => r,
            Err(e) => return Err(e),
        };
        let message_on_connect = match self.flag(SettingKey::MessageOnConnect) {
            Ok(b) => b,
            Err(e) => return Err(e),
        };
        Ok(
            StreamSettings {
                transport: r.transport,
                tcp_ip: r.tcp_ip,
                tcp_port: r.tcp_port,
                serial_port_name: r.serial_port_name,
                serial_baud_rate: r.serial_baud_rate,
                message_on_connect,
            },
        )
    }
}

/// The transport that a `transport` setting names.
fn transport_of(name: &String) -> (res: Transport)
    ensures
        res == transport_kind(name@),
{
    if same_text(name.as_str(), "tcp") {
        Transport::Tcp
    } else if same_text(name.as_str(), "serial-port") {
        Transport::SerialPort
    } else {
        Transport::Unsupported
    }
}

/// The `ip:port` address of a TCP device.
fn address_of(ip: &String, port: &String) -> (res: String)
    ensures
        res@ == ip@ + ":"@ + port@,
{
    let mut address = ip.clone();
    address.append(":");
    address.append(port.as_str());
    address
}

impl ReconnectSettings {
    /// The transport that the `transport` setting names.
    pub fn transport_kind(&self) -> (res: Transport)
        ensures
            res == transport_kind(self.transport@),
    {
        transport_of(&self.transport)
    }

    /// The `ip:port` address of the device for the TCP transport.
    pub fn tcp_address(&self) -> (res: String)
        ensures
            res@ == self.tcp_ip@ + ":"@ + self.tcp_port@,
    {
        address_of(&self.tcp_ip, &self.tcp_port)
    }
}

impl StreamSettings {
    /// The transport that the `transport` setting names.
    pub fn transport_kind(&self) -> (res: Transport)
        ensures
            res == transport_kind(self.transport@),
    {
        transport_of(&self.transport)
    }

    /// The `ip:port` address of the device for the TCP transport.
    pub fn tcp_address(&self) -> (res: String)
        ensures
            res@ == self.tcp_ip@ + ":"@ + self.tcp_port@,
    {
        address_of(&self.tcp_ip, &self.tcp_port)
    }
}

} // verus!
