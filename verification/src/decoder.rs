//! Decoder for one Heart Rate Measurement notification.
//!
//! Byte 0 holds the flags. Bit 0 selects the width of the heart-rate value
//! that follows: one byte when clear, two bytes in little-endian order when
//! set. Bit 2 says whether the sensor can detect skin contact, and only then
//! does bit 1 carry the contact status. Whatever follows the value (energy
//! expended, RR intervals) is not read.

use vstd::prelude::*;
use crate::error::AcquisitionError;
use crate::reading::HeartRateData;

verus! {

/// Flag bit 0: the heart-rate value is 16 bits wide.
pub const FLAG_WIDE_VALUE: u8 = 0x01;

/// Flag bit 1: the sensor is in contact with the skin.
pub const FLAG_CONTACT_DETECTED: u8 = 0x02;

/// Flag bit 2: the sensor can detect skin contact.
pub const FLAG_CONTACT_SUPPORTED: u8 = 0x04;

/// The flags announce a two-byte heart-rate value.
pub open spec fn wide_value(flags: u8) -> bool {
    flags & FLAG_WIDE_VALUE != 0
}

/// The flags announce that the sensor can detect skin contact.
pub open spec fn contact_supported(flags: u8) -> bool {
    flags & FLAG_CONTACT_SUPPORTED != 0
}

/// The contact bit of the flags, meaningful only with `contact_supported`.
pub open spec fn contact_bit(flags: u8) -> bool {
    flags & FLAG_CONTACT_DETECTED != 0
}

/// Number of bytes a notification with these flags must at least have: the
/// flags byte and the heart-rate value.
pub open spec fn required_len(flags: u8) -> nat {
    if wide_value(flags) {
        3
    } else {
        2
    }
}

/// A notification is well formed when it has a flags byte and every byte of
/// the value that the flags announce.
pub open spec fn well_formed(bytes: Seq<u8>) -> bool {
    bytes.len() >= 1 && bytes.len() >= required_len(bytes[0])
}

/// The heart-rate value of a well-formed notification.
pub open spec fn measured_value(bytes: Seq<u8>) -> int
    recommends
        well_formed(bytes),
{
    if wide_value(bytes[0]) {
        bytes[1] + 256 * bytes[2]
    } else {
        bytes[1] as int
    }
}

/// The contact status that the flags byte encodes.
pub open spec fn measured_contact(flags: u8) -> Option<bool> {
    if contact_supported(flags) {
        Some(contact_bit(flags))
    } else {
        None
    }
}

/// What decoding `bytes` at time `timestamp` yields.
pub open spec fn decoded(bytes: Seq<u8>, timestamp: u64) -> Result<
    HeartRateData,
    AcquisitionError,
> {
    if well_formed(bytes) {
        Ok(
            HeartRateData {
                value: measured_value(bytes) as u16,
                sensor_contact_detected: measured_contact(bytes[0]),
                timestamp,
            },
        )
    } else {
        Err(AcquisitionError::MalformedMeasurement)
    }
}

/// Joining a low and a high byte with `|` and `<<` gives the little-endian
/// number `low + 256 * high`.
pub proof fn lemma_little_endian(low: u8, high: u8)
    ensures
        (low as u16) | ((high as u16) << 8) == low + 256 * high,
{
    assert((low as u16) | ((high as u16) << 8) == low + 256 * high) by (bit_vector);
}

/// Decodes one notification, stamping the reading with `timestamp`.
///
/// Fails with `MalformedMeasurement` exactly when the notification is empty
/// or shorter than its flags byte requires.
pub fn decode_measurement(bytes: &[u8], timestamp: u64) -> (r: Result<
    HeartRateData,
    AcquisitionError,
>)
    ensures
        r == decoded(bytes@, timestamp),
{
    if bytes.len() < 2 {
        return Err(AcquisitionError::MalformedMeasurement);
    }
    let flags: u8 = bytes[0];
    let low: u8 = bytes[1];
    let value: u16 = if flags & FLAG_WIDE_VALUE != 0 {
        if bytes.len() < 3 {
            return Err(AcquisitionError::MalformedMeasurement);
        }
        let high: u8 = bytes[2];
        proof {
            lemma_little_endian(low, high);
        }
        (low as u16) | ((high as u16) << 8)
    } else {
        low as u16
    };
    let sensor_contact_detected: Option<bool> = if flags & FLAG_CONTACT_SUPPORTED != 0 {
        Some(flags & FLAG_CONTACT_DETECTED != 0)
    } else {
        None
    };
    Ok(HeartRateData { value, sensor_contact_detected, timestamp })
}

/// With bit 0 of the flags clear, a notification of two bytes (or more)
/// decodes, and its value is the second byte.
pub proof fn lemma_narrow_value(bytes: Seq<u8>, timestamp: u64)
    requires
        bytes.len() >= 2,
        bytes[0] & 0x01 == 0,
    ensures
        decoded(bytes, timestamp) is Ok,
        decoded(bytes, timestamp)->Ok_0.value == bytes[1],
{
}

/// With bit 0 of the flags set, a notification of three bytes (or more)
/// decodes, and its value is the second byte joined with the third byte
/// shifted left by eight.
pub proof fn lemma_wide_value(bytes: Seq<u8>, timestamp: u64)
    requires
        bytes.len() >= 3,
        bytes[0] & 0x01 != 0,
    ensures
        decoded(bytes, timestamp) is Ok,
        decoded(bytes, timestamp)->Ok_0.value == (bytes[1] as u16) | ((bytes[2] as u16) << 8),
        decoded(bytes, timestamp)->Ok_0.value == bytes[1] + 256 * bytes[2],
{
    lemma_little_endian(bytes[1], bytes[2]);
}

/// With bit 2 of the flags clear, a decoded reading carries no contact
/// status, whatever bit 1 holds.
pub proof fn lemma_contact_unsupported(bytes: Seq<u8>, timestamp: u64)
    requires
        well_formed(bytes),
        bytes[0] & 0x04 == 0,
    ensures
        decoded(bytes, timestamp) is Ok,
        decoded(bytes, timestamp)->Ok_0.sensor_contact_detected is None,
{
}

/// With bit 2 of the flags set, a decoded reading carries bit 1 as its
/// contact status.
pub proof fn lemma_contact_supported(bytes: Seq<u8>, timestamp: u64)
    requires
        well_formed(bytes),
        bytes[0] & 0x04 != 0,
    ensures
        decoded(bytes, timestamp) is Ok,
        decoded(bytes, timestamp)->Ok_0.sensor_contact_detected == Some(bytes[0] & 0x02 != 0),
{
}

/// A notification that lacks a byte of its value is rejected: one byte with
/// bit 0 clear, and one or two bytes with bit 0 set.
pub proof fn lemma_short_input_rejected(bytes: Seq<u8>, timestamp: u64)
    requires
        bytes.len() >= 1,
        (bytes[0] & 0x01 == 0 && bytes.len() == 1) || (bytes[0] & 0x01 != 0 && bytes.len() <= 2),
    ensures
        decoded(bytes, timestamp) == Err::<HeartRateData, AcquisitionError>(
            AcquisitionError::MalformedMeasurement,
        ),
{
}

/// Decoding succeeds exactly on well-formed notifications, fails with
/// `MalformedMeasurement` on all others, and the reading carries the
/// timestamp it was given.
pub proof fn lemma_decoded_ok_iff_well_formed(bytes: Seq<u8>, timestamp: u64)
    ensures
        decoded(bytes, timestamp) is Ok <==> well_formed(bytes),
        decoded(bytes, timestamp) is Ok ==> decoded(bytes, timestamp)->Ok_0.timestamp == timestamp,
        decoded(bytes, timestamp) is Err ==> decoded(bytes, timestamp)->Err_0
            == AcquisitionError::MalformedMeasurement,
{
}

} // verus!
