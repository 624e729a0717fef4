use crate::serial_stream::settings::Settings;
use vstd::prelude::*;

verus! {

/// The SCPI driver.
pub struct Device {}

/// Why the SCPI driver cannot be mounted.
#[derive(Clone, Copy, PartialEq, Eq, Debug)]
pub enum ScpiMountError {
    /// The instance has no settings to find the USB device with.
    BadSettings,
}

/// The text of the `BadSettings` error.
pub open spec fn bad_settings_text() -> Seq<char> {
    "Usb Settings are required for this instance"@
}

impl ScpiMountError {
    /// The error text.
    pub fn text(&self) -> (res: &'static str)
        ensures
            res@ == bad_settings_text(),
    {
        "Usb Settings are required for this instance"
    }
}

impl Default for Device {
    fn default() -> (res: Device)
        ensures
            res == (Device {  }),
    {
        Device {  }
    }
}

impl Device {
    /// Constructor.
    pub fn new() -> (res: Device) {
        Device {  }
    }

    /// The settings the USB device is looked up with; the mount cannot go on
    /// without them.
    pub fn usb_settings(&self, settings: Option<Settings>) -> (res: Result<
        Settings,
        ScpiMountError,
    >)
        ensures
            match settings {
                Some(s) => res == Ok::<Settings, ScpiMountError>(s),
                None => res == Err::<Settings, ScpiMountError>(ScpiMountError::BadSettings),
            },
    {
        match settings {
            Some(s) => Ok(s),
            None => Err(ScpiMountError::BadSettings),
        }
    }
}

} // verus!
