use vstd::prelude::*;
use vstd::string::*;

verus! {

/// Producer of the `std` / `scpi` driver.
pub struct StdScpi {}

impl StdScpi {
    /// A boxed producer.
    pub fn new() -> (res: Box<StdScpi>) {
        Box::new(StdScpi {  })
    }

    /// The manufacturer name the producer is registered under.
    pub fn manufacturer(&self) -> (res: String)
        ensures
            res@ == "std"@,
    {
        String::from_str("std")
    }

    /// The model name the producer is registered under.
    pub fn model(&self) -> (res: String)
        ensures
            res@ == "scpi"@,
    {
        String::from_str("scpi")
    }

    /// The description of the driver: empty.
    pub fn description(&self) -> (res: String)
        ensures
            res@ == ""@,
    {
        String::from_str("")
    }
}

} // verus!
