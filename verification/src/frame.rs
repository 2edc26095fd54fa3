//! From pulse widths to frame bytes.
//!
//! An acquisition yields 80 cycle counts: for each of the 40 data bits the
//! length of its low phase, then of its high phase. A bit whose two phases
//! both ran into their bound never resolved, and spoils the acquisition.
//! Otherwise the bit is 1 when the high phase was the longer one. Bits arrive
//! most significant first; the fifth byte is a checksum over the other four.
use vstd::prelude::*;
use crate::{DHTSensorError, HIGH_LEVEL_THRESHOLD, LOW_LEVEL_THRESHOLD};

verus! {

/// Both phases of data bit `bit` reached their bound. A count equal to the
/// bound already counts as reaching it.
pub open spec fn bit_unresolved(samples: Seq<u32>, bit: int) -> bool {
    samples[2 * bit] >= LOW_LEVEL_THRESHOLD && samples[2 * bit + 1] >= HIGH_LEVEL_THRESHOLD
}

/// Every one of the 40 data bits resolved.
pub open spec fn all_bits_resolved(samples: Seq<u32>) -> bool {
    forall|bit: int| 0 <= bit < 40 ==> !#[trigger] bit_unresolved(samples, bit)
}

/// The value of data bit `bit`: 1 when its high phase outlasted its low phase.
pub open spec fn bit_value(samples: Seq<u32>, bit: int) -> nat {
    if samples[2 * bit + 1] > samples[2 * bit] {
        1
    } else {
        0
    }
}

/// The number spelled by `count` consecutive data bits starting at `first`,
/// most significant bit first.
pub open spec fn bits_value(samples: Seq<u32>, first: int, count: nat) -> nat
    decreases count,
{
    if count == 0 {
        0
    } else {
        2 * bits_value(samples, first, (count - 1) as nat) + bit_value(
            samples,
            first + count - 1,
        )
    }
}

/// Byte `index` of the frame that the samples spell.
pub open spec fn frame_byte(samples: Seq<u32>, index: int) -> nat {
    bits_value(samples, 8 * index, 8)
}

/// The five bytes that the samples spell.
pub open spec fn frame_of(samples: Seq<u32>) -> Seq<u8> {
    Seq::new(5, |index: int| frame_byte(samples, index) as u8)
}

/// The checksum that belongs to four data bytes: the low eight bits of their
/// sum.
pub open spec fn checksum_of(b0: u8, b1: u8, b2: u8, b3: u8) -> int {
    (b0 + b1 + b2 + b3) % 256
}

/// The frame's last byte is the checksum of its first four.
pub open spec fn checksum_holds(frame: Seq<u8>) -> bool {
    frame[4] == checksum_of(frame[0], frame[1], frame[2], frame[3])
}

/// What an acquisition's samples decode to: the frame, or the reason there
/// is none. An unresolved bit takes precedence over a bad checksum.
pub open spec fn decode_samples(samples: Seq<u32>) -> Result<Seq<u8>, DHTSensorError> {
    if !all_bits_resolved(samples) {
        Err(DHTSensorError::Timeout)
    } else if !checksum_holds(frame_of(samples)) {
        Err(DHTSensorError::ChecksumError)
    } else {
        Ok(frame_of(samples))
    }
}

/// `count` bits spell a number below two to the `count`.
pub proof fn lemma_bits_value_bound(samples: Seq<u32>, first: int, count: nat)
    requires
        count <= 8,
    ensures
        bits_value(samples, first, count) < vstd::arithmetic::power2::pow2(count),
    decreases count,
{
    vstd::arithmetic::power2::lemma2_to64();
    if count > 0 {
        lemma_bits_value_bound(samples, first, (count - 1) as nat);
        vstd::arithmetic::power2::lemma_pow2_unfold(count);
    } else {
        reveal_with_fuel(bits_value, 1);
    }
}

/// A data bit whose two counts both reached their bound, be it exactly,
/// makes the whole acquisition a timeout, whatever the other samples hold.
pub proof fn lemma_bound_reached_is_timeout(samples: Seq<u32>, bit: int)
    requires
        0 <= bit < 40,
        samples[2 * bit] >= LOW_LEVEL_THRESHOLD,
        samples[2 * bit + 1] >= HIGH_LEVEL_THRESHOLD,
    ensures
        decode_samples(samples) == Err::<Seq<u8>, DHTSensorError>(DHTSensorError::Timeout),
{
    assert(bit_unresolved(samples, bit));
}

/// A data bit resolves as soon as one of its counts stayed under its bound:
/// a low phase of exactly the bound is made good by a shorter high phase,
/// and the other way round.
pub proof fn lemma_one_phase_resolves_bit(samples: Seq<u32>, bit: int)
    requires
        samples[2 * bit] < LOW_LEVEL_THRESHOLD || samples[2 * bit + 1] < HIGH_LEVEL_THRESHOLD,
    ensures
        !bit_unresolved(samples, bit),
{
}

/// Of the 256 values that the last byte of a frame can take, exactly one
/// passes the checksum: the low eight bits of the sum of the data bytes.
pub proof fn lemma_checksum_is_unique(frame: Seq<u8>, other: u8)
    requires
        frame.len() == 5,
    ensures
        checksum_holds(frame.update(4, other)) <==> other == (frame[0] + frame[1] + frame[2]
            + frame[3]) % 256,
{
}

/// Computes the checksum of four data bytes.
pub fn checksum(b0: u8, b1: u8, b2: u8, b3: u8) -> (sum: u8)
    ensures
        sum == checksum_of(b0, b1, b2, b3),
{
    let total: u16 = b0 as u16 + b1 as u16 + b2 as u16 + b3 as u16;
    let low: u16 = total & 0x00FF;
    assert(low == total % 256) by (bit_vector)
        requires
            low == total & 0x00FF,
    ;
    low as u8
}

/// Tells whether a frame carries the checksum of its data bytes.
pub fn verify_checksum(frame: &[u8; 5]) -> (outcome: Result<(), DHTSensorError>)
    ensures
        checksum_holds(frame@) ==> outcome == Ok::<(), DHTSensorError>(()),
        !checksum_holds(frame@) ==> outcome == Err::<(), DHTSensorError>(
            DHTSensorError::ChecksumError,
        ),
{
    if frame[4] == checksum(frame[0], frame[1], frame[2], frame[3]) {
        Ok(())
    } else {
        Err(DHTSensorError::ChecksumError)
    }
}

/// Recovers the five frame bytes from the samples of one acquisition.
///
/// Fails with `Timeout` exactly when some data bit is unresolved; the
/// checksum is not looked at here.
pub fn recover_frame(samples: &[u32; 80]) -> (outcome: Result<[u8; 5], DHTSensorError>)
    ensures
        all_bits_resolved(samples@) ==> outcome.is_ok() && outcome.unwrap()@ == frame_of(samples@),
        !all_bits_resolved(samples@) ==> outcome == Err::<[u8; 5], DHTSensorError>(
            DHTSensorError::Timeout,
        ),
{
    let mut frame: [u8; 5] = [0; 5];
    let mut index: usize = 0;
    while index < 5
        invariant
            index <= 5,
            forall|bit: int| 0 <= bit < 8 * index ==> !#[trigger] bit_unresolved(samples@, bit),
            forall|k: int| 0 <= k < index ==> frame@[k] == #[trigger] frame_byte(samples@, k),
        decreases 5 - index,
    {
        let mut byte: u8 = 0;
        let mut offset: usize = 0;
        while offset < 8
            invariant
                index < 5,
                offset <= 8,
                byte == bits_value(samples@, 8 * index, offset as nat),
                forall|bit: int|
                    0 <= bit < 8 * index + offset ==> !#[trigger] bit_unresolved(samples@, bit),
            decreases 8 - offset,
        {
            let bit: usize = 8 * index + offset;
            let low_cycles: u32 = samples[2 * bit];
            let high_cycles: u32 = samples[2 * bit + 1];
            if low_cycles >= LOW_LEVEL_THRESHOLD && high_cycles >= HIGH_LEVEL_THRESHOLD {
                assert(bit_unresolved(samples@, bit as int));
                return Err(DHTSensorError::Timeout);
            }
            proof {
                lemma_bits_value_bound(samples@, 8 * index, offset as nat);
                vstd::arithmetic::power2::lemma2_to64();
                assert(vstd::arithmetic::power2::pow2(offset as nat) <= 128) by {
                    vstd::arithmetic::power2::lemma_pow2_strictly_increases(offset as nat, 8);
                    if offset < 7 {
                        vstd::arithmetic::power2::lemma_pow2_strictly_increases(offset as nat, 7);
                    }
                }
            }
            byte = byte * 2;
            if high_cycles > low_cycles {
                byte = byte + 1;
            }
            offset = offset + 1;
        }
        frame[index] = byte;
        index = index + 1;
    }
    assert(frame@ =~= frame_of(samples@));
    Ok(frame)
}

/// Decodes the samples of one acquisition into a checked frame.
pub fn decode(samples: &[u32; 80]) -> (outcome: Result<[u8; 5], DHTSensorError>)
    ensures
        match outcome {
            Ok(frame) => decode_samples(samples@) == Ok::<Seq<u8>, DHTSensorError>(frame@),
            Err(error) => decode_samples(samples@) == Err::<Seq<u8>, DHTSensorError>(error),
        },
{
    match recover_frame(samples) {
        Ok(frame) => match verify_checksum(&frame) {
            Ok(()) => Ok(frame),
            Err(error) => Err(error),
        },
        Err(error) => Err(error),
    }
}

} // verus!
