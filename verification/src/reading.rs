//! From frame bytes to a reading.
//!
//! The two sensor families lay their values out differently. The DHT2x
//! family sends each value as a 16-bit number of tenths, the temperature
//! with a sign bit on top; the DHT1x family sends an integral and a
//! fractional byte that are added up. Either way the sign of the temperature
//! is the top bit of the third frame byte.
use vstd::prelude::*;
use crate::DHTSensorError;
use crate::frame::{checksum_holds, verify_checksum};

verus! {

/// The sensor family on the wire.
#[derive(Debug, Clone, Copy, PartialEq, Eq, Structural)]
pub enum SensorModel {
    /// DHT11 and relatives: byte sums, a wake-up pulse of 20 ms.
    Dht1x,
    /// DHT21, DHT22 and relatives: 16-bit values, a wake-up pulse of 1.1 ms.
    Dht2x,
}

/// One reading, in the sensor's native resolution.
///
/// The temperature is kept as magnitude and sign, as the sensor sends it, so
/// that a reading of minus zero stays apart from one of zero.
#[derive(Debug, Clone, Copy, PartialEq, Eq, Structural)]
pub struct DTHResponse {
    /// Relative humidity in tenths of a percent.
    pub humidity_tenths: u16,
    /// Magnitude of the temperature in tenths of a degree Celsius.
    pub temperature_tenths: u16,
    /// Whether the temperature is below zero.
    pub temperature_negative: bool,
}

/// The highest humidity, in tenths of a percent, that a sensor can mean.
pub const MAX_HUMIDITY_TENTHS: u16 = 1000;

/// The humidity, in tenths of a percent, that two frame bytes stand for.
pub open spec fn humidity_of(model: SensorModel, high: u8, low: u8) -> int {
    match model {
        SensorModel::Dht2x => high * 256 + low,
        SensorModel::Dht1x => high + low,
    }
}

/// The magnitude of the temperature, in tenths of a degree, that two frame
/// bytes stand for. The DHT2x family keeps the sign bit out of the number.
pub open spec fn temperature_magnitude_of(model: SensorModel, high: u8, low: u8) -> int {
    match model {
        SensorModel::Dht2x => (high % 128) * 256 + low,
        SensorModel::Dht1x => high + low,
    }
}

/// The temperature is below zero: the top bit of its high byte is set.
pub open spec fn temperature_negative_of(high: u8) -> bool {
    high >= 128
}

/// The reading that the four data bytes of a frame stand for.
pub open spec fn reading_of(model: SensorModel, frame: Seq<u8>) -> DTHResponse {
    DTHResponse {
        humidity_tenths: humidity_of(model, frame[0], frame[1]) as u16,
        temperature_tenths: temperature_magnitude_of(model, frame[2], frame[3]) as u16,
        temperature_negative: temperature_negative_of(frame[2]),
    }
}

/// What a frame decodes to: its reading, if the checksum holds.
pub open spec fn decode_frame_of(model: SensorModel, frame: Seq<u8>) -> Result<
    DTHResponse,
    DHTSensorError,
> {
    if checksum_holds(frame) {
        Ok(reading_of(model, frame))
    } else {
        Err(DHTSensorError::ChecksumError)
    }
}

impl DTHResponse {
    /// The temperature in tenths of a degree Celsius, with its sign.
    pub open spec fn signed_temperature(self) -> int {
        if self.temperature_negative {
            -(self.temperature_tenths as int)
        } else {
            self.temperature_tenths as int
        }
    }

    /// The humidity is one that a sensor can mean: at most 100 %.
    pub open spec fn plausible(self) -> bool {
        self.humidity_tenths <= MAX_HUMIDITY_TENTHS
    }

    /// The temperature in tenths of a degree Celsius, with its sign.
    pub fn temperature_tenths_signed(&self) -> (tenths: i32)
        ensures
            tenths == self.signed_temperature(),
    {
        if self.temperature_negative {
            0 - self.temperature_tenths as i32
        } else {
            self.temperature_tenths as i32
        }
    }

    /// Tells whether the humidity is at most 100 %.
    pub fn is_plausible(&self) -> (plausible: bool)
        ensures
            plausible == self.plausible(),
    {
        self.humidity_tenths <= MAX_HUMIDITY_TENTHS
    }
}

/// A frame whose checksum holds decodes, and to these values: for the DHT2x
/// family the humidity is the first two bytes read as one 16-bit number and
/// the temperature the next two with the top bit as the sign; for the DHT1x
/// family each value is the sum of its two bytes, the temperature again
/// signed by the top bit of its first byte.
pub proof fn lemma_decode_follows_formula(model: SensorModel, frame: Seq<u8>)
    requires
        frame.len() == 5,
        checksum_holds(frame),
    ensures
        decode_frame_of(model, frame).is_ok(),
        model == SensorModel::Dht2x ==> {
            let reading = decode_frame_of(model, frame).unwrap();
            &&& reading.humidity_tenths == 256 * frame[0] + frame[1]
            &&& frame[2] < 128 ==> reading.signed_temperature() == 256 * frame[2] + frame[3]
            &&& frame[2] >= 128 ==> reading.signed_temperature() == -(256 * (frame[2] - 128)
                + frame[3])
        },
        model == SensorModel::Dht1x ==> {
            let reading = decode_frame_of(model, frame).unwrap();
            &&& reading.humidity_tenths == frame[0] + frame[1]
            &&& frame[2] < 128 ==> reading.signed_temperature() == frame[2] + frame[3]
            &&& frame[2] >= 128 ==> reading.signed_temperature() == -(frame[2] + frame[3])
        },
        decode_frame_of(model, frame).unwrap().temperature_negative == (frame[2] >= 128),
{
}

/// A frame decodes exactly when its last byte is the low eight bits of the
/// sum of the other four; with any other last byte the outcome is
/// `ChecksumError` and nothing else.
pub proof fn lemma_checksum_decides(model: SensorModel, frame: Seq<u8>)
    requires
        frame.len() == 5,
    ensures
        frame[4] == (frame[0] + frame[1] + frame[2] + frame[3]) % 256 ==> decode_frame_of(
            model,
            frame,
        ).is_ok(),
        frame[4] != (frame[0] + frame[1] + frame[2] + frame[3]) % 256 ==> decode_frame_of(
            model,
            frame,
        ) == Err::<DTHResponse, DHTSensorError>(DHTSensorError::ChecksumError),
{
}

/// Converts the two humidity bytes of a frame into tenths of a percent.
pub fn humidity(model: SensorModel, high: u8, low: u8) -> (tenths: u16)
    ensures
        tenths == humidity_of(model, high, low),
{
    match model {
        SensorModel::Dht2x => {
            let wide: u16 = high as u16;
            let joined: u16 = (wide << 8) | low as u16;
            assert(joined == wide * 256 + low) by (bit_vector)
                requires
                    joined == (wide << 8) | low as u16,
                    wide < 256,
            ;
            joined
        },
        SensorModel::Dht1x => high as u16 + low as u16,
    }
}

/// Converts the two temperature bytes of a frame into a magnitude in tenths
/// of a degree and a sign.
pub fn temperature(model: SensorModel, high: u8, low: u8) -> (value: (u16, bool))
    ensures
        value.0 == temperature_magnitude_of(model, high, low),
        value.1 == temperature_negative_of(high),
{
    let negative: bool = high & 0x80 != 0;
    assert(negative == (high >= 128)) by (bit_vector)
        requires
            negative == (high & 0x80 != 0),
    ;
    let magnitude: u16 = match model {
        SensorModel::Dht2x => {
            let wide: u16 = high as u16;
            let joined: u16 = ((wide & 0x7F) << 8) | low as u16;
            assert(joined == (wide % 128) * 256 + low) by (bit_vector)
                requires
                    joined == ((wide & 0x7F) << 8) | low as u16,
                    wide < 256,
            ;
            joined
        },
        SensorModel::Dht1x => high as u16 + low as u16,
    };
    (magnitude, negative)
}

/// Converts the data bytes of a frame into a reading, without looking at the
/// checksum.
pub fn convert(model: SensorModel, frame: &[u8; 5]) -> (reading: DTHResponse)
    ensures
        reading == reading_of(model, frame@),
{
    let tenths: u16 = humidity(model, frame[0], frame[1]);
    let (magnitude, negative) = temperature(model, frame[2], frame[3]);
    DTHResponse {
        humidity_tenths: tenths,
        temperature_tenths: magnitude,
        temperature_negative: negative,
    }
}

/// Decodes a frame: checks its checksum and converts its data bytes.
///
/// The only failure is `ChecksumError`, and it comes exactly when the last
/// byte is not the low eight bits of the sum of the other four.
pub fn decode_frame(model: SensorModel, frame: &[u8; 5]) -> (outcome: Result<
    DTHResponse,
    DHTSensorError,
>)
    ensures
        outcome == decode_frame_of(model, frame@),
{
    match verify_checksum(frame) {
        Ok(()) => Ok(convert(model, frame)),
        Err(error) => Err(error),
    }
}

} // verus!
