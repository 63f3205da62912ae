//! Readings decoder: four independent sensor channels out of a fixed
//! 20-byte response payload.
//!
//! The payload holds four 5-byte fields at offsets 0, 5, 10 and 15; each
//! field is one validity byte followed by the four big-endian bytes of a
//! 32-bit measurement. A channel whose validity byte is not the OK marker
//! becomes a tagged sensor error, independently of the other channels. The
//! measurement is carried as the 32-bit pattern of the instrument's
//! floating value; interpreting the pattern as a float is the caller's
//! concern.

use vstd::prelude::*;

verus! {

/// Validity marker: the byte a channel's field leads with when the channel
/// holds a usable measurement.
pub const OK_BIT: u8 = 10;

/// Byte length of a readings response payload.
pub const READINGS_SIZE: usize = 20;

/// Why a channel carries no measurement. `NotConnected` is the state before
/// any successful read; `BadMeasurement` is what the decoder assigns when a
/// channel's validity byte is not the OK marker; `BusFault` is reported by
/// the instrument's firmware itself.
#[derive(Clone, Copy, PartialEq, Eq, Structural, Debug)]
pub enum SensorError {
    /// The instrument reported a fault on its internal bus.
    BusFault,
    /// No successful exchange with the instrument yet.
    NotConnected,
    /// The channel's validity byte marked the measurement unusable.
    BadMeasurement,
}

/// One decoded response: the four channels in instrument order, each either
/// the 32-bit pattern of its measured floating value or a sensor error.
/// Replaced wholesale on each successful decode, never patched per field.
#[allow(non_snake_case)]
#[derive(Clone, Copy, PartialEq, Eq, Debug)]
pub struct Readings {
    /// Temperature.
    pub T: Result<u32, SensorError>,
    /// Acidity.
    pub pH: Result<u32, SensorError>,
    /// Oxidation-reduction potential.
    pub ORP: Result<u32, SensorError>,
    /// Electrical conductivity.
    pub ec: Result<u32, SensorError>,
}

/// The 32-bit value whose big-endian bytes stand at `off`.
pub open spec fn be_word(s: Seq<u8>, off: int) -> u32 {
    (s[off] * 0x1000000 + s[off + 1] * 0x10000 + s[off + 2] * 0x100 + s[off + 3]) as u32
}

/// The channel whose 5-byte field starts at `off`: the measurement's bit
/// pattern when the validity byte is the OK marker, a tagged error
/// otherwise. The result depends on the field's five bytes alone.
pub open spec fn spec_channel(s: Seq<u8>, off: int) -> Result<u32, SensorError> {
    if s[off] == OK_BIT {
        Ok(be_word(s, off + 1))
    } else {
        Err(SensorError::BadMeasurement)
    }
}

/// Read the 32-bit value whose big-endian bytes start at `off`.
pub(crate) fn word_at(buf: &[u8], off: usize) -> (r: u32)
    requires
        off + 4 <= buf@.len(),
    ensures
        r == be_word(buf@, off as int),
{
    (buf[off] as u32) * 0x1000000 + (buf[off + 1] as u32) * 0x10000 + (buf[off + 2] as u32) * 0x100
        + (buf[off + 3] as u32)
}

/// The 32-bit value whose big-endian bytes fill the 4-byte buffer. The
/// result is the bit pattern of the transmitted floating value; turning it
/// into a float is left to unverified callers.
pub fn bytes_to_float_bits(bytes: &[u8]) -> (r: u32)
    requires
        bytes@.len() == 4,
    ensures
        r == be_word(bytes@, 0),
{
    word_at(bytes, 0)
}

impl Readings {
    /// Decode a readings payload of at least `READINGS_SIZE` bytes: each of
    /// the four channels comes from its own 5-byte field, independently of
    /// the rest of the buffer. Every validity-byte combination yields a
    /// well-formed value; a shorter buffer is a caller contract violation.
    pub fn from_bytes(buf: &[u8]) -> (r: Self)
        requires
            buf@.len() >= READINGS_SIZE,
        ensures
            r.T == spec_channel(buf@, 0),
            r.pH == spec_channel(buf@, 5),
            r.ORP == spec_channel(buf@, 10),
            r.ec == spec_channel(buf@, 15),
    {
        let mut result = Readings {
            T: Err(SensorError::BadMeasurement),
            pH: Err(SensorError::BadMeasurement),
            ORP: Err(SensorError::BadMeasurement),
            ec: Err(SensorError::BadMeasurement),
        };
        if buf[0] == OK_BIT {
            result.T = Ok(word_at(buf, 1));
        }
        if buf[5] == OK_BIT {
            result.pH = Ok(word_at(buf, 6));
        }
        if buf[10] == OK_BIT {
            result.ORP = Ok(word_at(buf, 11));
        }
        if buf[15] == OK_BIT {
            result.ec = Ok(word_at(buf, 16));
        }
        result
    }
}

/// The record every channel holds before the first successful exchange.
pub open spec fn spec_default_readings() -> Readings {
    Readings {
        T: Err(SensorError::NotConnected),
        pH: Err(SensorError::NotConnected),
        ORP: Err(SensorError::NotConnected),
        ec: Err(SensorError::NotConnected),
    }
}

impl Default for Readings {
    /// Every channel reports `NotConnected` until a read succeeds.
    fn default() -> (r: Self)
        ensures
            r == spec_default_readings(),
    {
        Readings {
            T: Err(SensorError::NotConnected),
            pH: Err(SensorError::NotConnected),
            ORP: Err(SensorError::NotConnected),
            ec: Err(SensorError::NotConnected),
        }
    }
}

/// Channel independence: a channel's decoded value is a function of its own
/// 5-byte field alone, and its success or failure mirrors exactly whether
/// the field's validity byte is the OK marker — whatever the other fifteen
/// bytes hold.
pub proof fn lemma_channel_independence(b1: Seq<u8>, b2: Seq<u8>, off: int)
    requires
        0 <= off,
        off + 5 <= b1.len(),
        off + 5 <= b2.len(),
        forall|j: int| off <= j < off + 5 ==> b1[j] == b2[j],
    ensures
        spec_channel(b1, off) == spec_channel(b2, off),
        spec_channel(b1, off) is Ok <==> b1[off] == OK_BIT,
{
}

/// The fixed 3-byte request that asks the instrument for a readings
/// response.
pub fn readings_request() -> (r: Vec<u8>)
    ensures
        r@.len() == 3,
        r@[0] == 100u8,
        r@[1] == 150u8,
        r@[2] == 200u8,
{
    let mut v: Vec<u8> = Vec::new();
    v.push(100);
    v.push(150);
    v.push(200);
    v
}

} // verus!
