use vstd::prelude::*;
use vstd::string::*;

verus! {

/// Producer of the `std` / `serial-port` driver.
pub struct StdSerialPort {}

impl StdSerialPort {
    /// A boxed producer.
    pub fn new() -> (res: Box<StdSerialPort>) {
        Box::new(StdSerialPort {  })
    }

    /// The manufacturer name the producer is registered under.
    pub fn manufacturer(&self) -> (res: String)
        ensures
            res@ == "std"@,
    {
        String::from_str("std")
    }

    /// The model name the producer is registered under.
    pub fn model(&self) -> (res: String)
        ensures
            res@ == "serial-port"@,
    {
        String::from_str("serial-port")
    }

    /// The description of the driver: empty.
    pub fn description(&self) -> (res: String)
        ensures
            res@ == ""@,
    {
        String::from_str("")
    }
}

} // verus!
