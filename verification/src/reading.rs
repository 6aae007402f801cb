use vstd::prelude::*;

verus! {

/// One decoded heart-rate reading.
#[derive(Debug, Clone, Copy, PartialEq, Eq, Structural)]
pub struct HeartRateData {
    /// Heart rate in beats per minute.
    pub value: u16,
    /// `Some(true)`: the sensor reports skin contact; `Some(false)`: it
    /// reports none; `None`: the sensor cannot tell.
    pub sensor_contact_detected: Option<bool>,
    /// Seconds since the Unix epoch at which the reading was decoded.
    pub timestamp: u64,
}

} // verus!
