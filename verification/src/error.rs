use vstd::prelude::*;

verus! {

/// Everything that can go wrong while acquiring readings.
///
/// Only `AdapterUnavailable` is fatal. Every other kind ends at most the
/// current device session and is followed by a retry after the backoff delay;
/// `MalformedMeasurement` does not even end the session.
#[derive(Debug, Clone, Copy, PartialEq, Eq, Structural)]
pub enum AcquisitionError {
    /// No usable Bluetooth radio at start-up.
    AdapterUnavailable,
    /// Neither a connected device nor the scan produced a sensor.
    NoDeviceFound,
    /// The sensor rejected the connection.
    ConnectionError,
    /// The sensor does not expose the heart-rate service.
    ServiceNotFound,
    /// The heart-rate service lacks the measurement characteristic.
    CharacteristicNotFound,
    /// A notification is shorter than its flags byte declares.
    MalformedMeasurement,
}

impl AcquisitionError {
    /// Whether the acquisition loop survives this error.
    pub open spec fn recoverable(self) -> bool {
        self != AcquisitionError::AdapterUnavailable
    }

    /// Whether the acquisition loop survives this error: true of every kind
    /// but `AdapterUnavailable`.
    pub fn is_recoverable(&self) -> (r: bool)
        ensures
            r == self.recoverable(),
    {
        match self {
            AcquisitionError::AdapterUnavailable => false,
            _ => true,
        }
    }

    /// Whether this error is absorbed inside a running session.
    pub open spec fn skipped_in_session(self) -> bool {
        self == AcquisitionError::MalformedMeasurement
    }

    /// Whether this error is absorbed inside a running session, which then
    /// keeps streaming: true of `MalformedMeasurement` alone.
    pub fn is_skipped_in_session(&self) -> (r: bool)
        ensures
            r == self.skipped_in_session(),
    {
        match self {
            AcquisitionError::MalformedMeasurement => true,
            _ => false,
        }
    }
}

} // verus!
