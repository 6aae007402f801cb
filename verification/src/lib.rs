//! Bridge between one Bluetooth heart-rate sensor and any number of live
//! consumers: the measurement decoder, the device session and acquisition
//! state machines, the latest-reading store and the broadcast hub.

pub mod acquisition;
pub mod decoder;
pub mod distribution;
pub mod error;
pub mod hub;
pub mod ordering;
pub mod query;
pub mod reading;
pub mod session;
pub mod store;
pub mod subscriber;
