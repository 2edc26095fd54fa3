//! The sensor's memory: one last good reading, and when it is used.
//!
//! A fresh reading is accepted when its acquisition decoded and its humidity
//! is at most 100 %; it then replaces the remembered one. Whatever else
//! happens, a sensor that remembers a reading answers with it, and only one
//! that remembers none reports the failure.
use vstd::prelude::*;
use crate::DHTSensorError;
use crate::frame::{decode, decode_samples};
use crate::bus::{Acquisition, AcquisitionState};
use crate::reading::{convert, reading_of, DTHResponse, SensorModel};

verus! {

/// What one acquisition amounts to, before the fallback: the fresh reading,
/// or the reason there is none. A decoded reading with a humidity above
/// 100 % is still a reading here.
pub open spec fn fresh_reading(model: SensorModel, samples: Seq<u32>) -> Result<
    DTHResponse,
    DHTSensorError,
> {
    match decode_samples(samples) {
        Ok(frame) => Ok(reading_of(model, frame)),
        Err(error) => Err(error),
    }
}

/// The reading is accepted as it is: it decoded and is plausible.
pub open spec fn accepted(fresh: Result<DTHResponse, DHTSensorError>) -> bool {
    fresh.is_ok() && fresh.unwrap().plausible()
}

/// The reading remembered after an acquisition.
pub open spec fn cache_after(
    cache: Option<DTHResponse>,
    fresh: Result<DTHResponse, DHTSensorError>,
) -> Option<DTHResponse> {
    if accepted(fresh) {
        Some(fresh.unwrap())
    } else {
        cache
    }
}

/// The answer to the caller after an acquisition.
pub open spec fn answer_after(
    cache: Option<DTHResponse>,
    fresh: Result<DTHResponse, DHTSensorError>,
) -> Result<DTHResponse, DHTSensorError> {
    if accepted(fresh) {
        fresh
    } else if cache.is_some() {
        Ok(cache.unwrap())
    } else if fresh.is_ok() {
        Err(DHTSensorError::InvalidData)
    } else {
        fresh
    }
}

/// An acquisition fails only as a timeout or with a bad checksum.
pub proof fn lemma_acquisition_errors(model: SensorModel, samples: Seq<u32>)
    ensures
        fresh_reading(model, samples).is_err() ==> {
            let error = fresh_reading(model, samples).unwrap_err();
            error == DHTSensorError::Timeout || error == DHTSensorError::ChecksumError
        },
{
}

/// After a read that accepted a reading, a read whose acquisition fails, in
/// whatever way, answers with that same reading and leaves it remembered.
pub proof fn lemma_failed_read_repeats_last(
    cache: Option<DTHResponse>,
    first: Result<DTHResponse, DHTSensorError>,
    second: Result<DTHResponse, DHTSensorError>,
)
    requires
        accepted(first),
        second.is_err(),
    ensures
        answer_after(cache, first) == first,
        cache_after(cache, first) == Some(first.unwrap()),
        answer_after(cache_after(cache, first), second) == first,
        cache_after(cache_after(cache, first), second) == Some(first.unwrap()),
{
}

/// A sensor that remembers nothing reports the failure of an acquisition as
/// it is: a timeout as `Timeout`, a bad checksum as `ChecksumError`, never
/// as `InvalidData`. It still remembers nothing afterwards.
pub proof fn lemma_first_failure_surfaces(model: SensorModel, samples: Seq<u32>)
    requires
        fresh_reading(model, samples).is_err(),
    ensures
        answer_after(None, fresh_reading(model, samples)) == fresh_reading(model, samples),
        answer_after(None, fresh_reading(model, samples)) != Err::<DTHResponse, DHTSensorError>(
            DHTSensorError::InvalidData,
        ),
        cache_after(None, fresh_reading(model, samples)).is_none(),
{
    lemma_acquisition_errors(model, samples);
}

/// A reading with a humidity above 100 % never replaces the remembered one,
/// which is the answer then; where nothing is remembered the answer is
/// `InvalidData`.
pub proof fn lemma_implausible_reading_rejected(cache: Option<DTHResponse>, reading: DTHResponse)
    requires
        !reading.plausible(),
    ensures
        cache_after(cache, Ok(reading)) == cache,
        cache.is_some() ==> answer_after(cache, Ok(reading)) == Ok::<DTHResponse, DHTSensorError>(
            cache.unwrap(),
        ),
        cache.is_none() ==> answer_after(cache, Ok(reading)) == Err::<
            DTHResponse,
            DHTSensorError,
        >(DHTSensorError::InvalidData),
{
}

/// Whatever an acquisition brings, an answer that is a reading is either
/// the fresh plausible one or the one remembered before, and what is
/// remembered afterwards is plausible if what was remembered before was.
pub proof fn lemma_answers_are_good_readings(
    cache: Option<DTHResponse>,
    fresh: Result<DTHResponse, DHTSensorError>,
)
    requires
        cache.is_some() ==> cache.unwrap().plausible(),
    ensures
        answer_after(cache, fresh).is_ok() ==> answer_after(cache, fresh).unwrap().plausible(),
        answer_after(cache, fresh).is_ok() ==> (accepted(fresh) && answer_after(cache, fresh)
            == fresh) || (!accepted(fresh) && Some(answer_after(cache, fresh).unwrap()) == cache),
        cache_after(cache, fresh).is_some() ==> cache_after(cache, fresh).unwrap().plausible(),
        answer_after(cache, fresh).is_ok() ==> cache_after(cache, fresh) == Some(
            answer_after(cache, fresh).unwrap(),
        ),
{
}

/// A sensor of one family together with its last good reading.
pub struct DHTSensor {
    model: SensorModel,
    last_response: Option<DTHResponse>,
}

impl DHTSensor {
    /// The sensor family.
    pub closed spec fn model(&self) -> SensorModel {
        self.model
    }

    /// The remembered reading.
    pub closed spec fn cache(&self) -> Option<DTHResponse> {
        self.last_response
    }

    /// A remembered reading is always a plausible one.
    #[verifier::type_invariant]
    pub closed spec fn well_formed(&self) -> bool {
        self.last_response.is_some() ==> self.last_response.unwrap().plausible()
    }

    /// A sensor that remembers nothing yet.
    pub fn new(model: SensorModel) -> (sensor: Self)
        ensures
            sensor.model() == model,
            sensor.cache().is_none(),
    {
        DHTSensor { model, last_response: None }
    }

    /// The sensor family.
    pub fn sensor_model(&self) -> (model: SensorModel)
        ensures
            model == self.model(),
    {
        self.model
    }

    /// The remembered reading, if there is one. It is plausible.
    pub fn last_response(&self) -> (cached: Option<DTHResponse>)
        ensures
            cached == self.cache(),
            cached.is_some() ==> cached.unwrap().plausible(),
    {
        proof {
            use_type_invariant(self);
        }
        self.last_response
    }

    /// A new acquisition for this sensor's family, at the start of its
    /// script.
    pub fn acquire(&self) -> (acquisition: Acquisition)
        ensures
            acquisition@ == AcquisitionState::initial(self.model()),
    {
        Acquisition::new(self.model)
    }

    /// Applies the fallback policy to the outcome of one acquisition.
    ///
    /// A plausible fresh reading is remembered and returned. Otherwise the
    /// remembered reading stays and is the answer; where there is none, a
    /// failed acquisition reports its own error and an implausible reading
    /// reports `InvalidData`.
    pub fn settle(&mut self, fresh: Result<DTHResponse, DHTSensorError>) -> (answer: Result<
        DTHResponse,
        DHTSensorError,
    >)
        ensures
            final(self).model() == old(self).model(),
            final(self).cache() == cache_after(old(self).cache(), fresh),
            answer == answer_after(old(self).cache(), fresh),
            answer.is_ok() ==> answer.unwrap().plausible(),
    {
        proof {
            use_type_invariant(&*self);
        }
        match fresh {
            Ok(reading) => {
                if reading.is_plausible() {
                    self.last_response = Some(reading);
                    Ok(reading)
                } else {
                    match self.last_response {
                        Some(cached) => Ok(cached),
                        None => Err(DHTSensorError::InvalidData),
                    }
                }
            },
            Err(error) => {
                match self.last_response {
                    Some(cached) => Ok(cached),
                    None => Err(error),
                }
            },
        }
    }

    /// Turns the samples of one acquisition into the answer to the caller:
    /// decodes them, converts the frame, and applies the fallback policy.
    pub fn read(&mut self, samples: &[u32; 80]) -> (answer: Result<DTHResponse, DHTSensorError>)
        ensures
            final(self).model() == old(self).model(),
            final(self).cache() == cache_after(
                old(self).cache(),
                fresh_reading(old(self).model(), samples@),
            ),
            answer == answer_after(old(self).cache(), fresh_reading(old(self).model(), samples@)),
            answer.is_ok() ==> answer.unwrap().plausible(),
    {
        let fresh: Result<DTHResponse, DHTSensorError> = match decode(samples) {
            Ok(frame) => Ok(convert(self.model, &frame)),
            Err(error) => Err(error),
        };
        self.settle(fresh)
    }
}

} // verus!
