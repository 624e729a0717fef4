use pza_plugin_std::scpi::device::{Device, ScpiMountError};
use pza_plugin_std::scpi::producer::StdScpi;
use pza_plugin_std::serial_stream::settings::{SettingEntry, SettingValue, Settings};

#[test]
fn scpi_requires_settings() {
    let device = Device::new();
    assert_eq!(device.usb_settings(None).err(), Some(ScpiMountError::BadSettings));
    assert_eq!(ScpiMountError::BadSettings.text(), "Usb Settings are required for this instance");
    let settings = Settings {
        entries: vec![SettingEntry { key: "vendor".to_string(), value: SettingValue::Other }],
    };
    let kept = device.usb_settings(Some(settings)).unwrap();
    assert_eq!(kept.entries.len(), 1);
    assert_eq!(kept.entries[0].key, "vendor");
}

#[test]
fn scpi_producer_names() {
    let p = StdScpi::new();
    assert_eq!(p.manufacturer(), "std");
    assert_eq!(p.model(), "scpi");
    assert_eq!(p.description(), "");
}

#[test]
fn devices_have_defaults() {
    let _scpi: Device = Default::default();
    let _stream: pza_plugin_std::serial_stream::device::Device = Default::default();
}
