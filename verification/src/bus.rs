//! The order of pin operations and pauses of one acquisition.
//!
//! Talking to the sensor takes a pin and a clock, which this crate does not
//! have. So an acquisition is a sequencer: it names the next thing to do on
//! the bus ([`Action`]), the caller does it and reports back ([`Event`]), and
//! the sequencer decides what comes next. The caller runs this exchange with
//! interrupts off, since every pause is measured in microseconds.
//!
//! One acquisition goes through a fixed script. The pin is driven low for
//! the wake-up interval of the sensor family, then high for 25 µs, then
//! released with a pull-up for 55 µs. The sensor's ready handshake, low then
//! high, is waited out as far as it shows. Then each of the 40 data bits is
//! measured as a low phase and a high phase, and the pin is driven high
//! again for one more wake-up interval.
//!
//! Waiting out a level means polling the pin, pausing 1 µs after every poll
//! that still shows the level, and counting the pauses, up to a bound. The
//! count is the measure of the pulse; one that reaches its bound timed out.
use vstd::prelude::*;
use crate::reading::SensorModel;
use crate::{HIGH_LEVEL_THRESHOLD, LOW_LEVEL_THRESHOLD, WAIT_FOR_READINESS_LEVEL_THRESHOLD};

verus! {

/// The state of the wire.
#[derive(Debug, Clone, Copy, PartialEq, Eq, Structural)]
pub enum Level {
    Low,
    High,
}

/// What the caller is to do on the bus next.
#[derive(Debug, Clone, Copy, PartialEq, Eq, Structural)]
pub enum Action {
    /// Switch the pin to output mode.
    SetAsOutput,
    /// Switch the pin to input mode.
    SetAsInput,
    /// Enable the pull-up resistor.
    SetPullUp,
    /// Drive the pin high.
    SetHigh,
    /// Drive the pin low.
    SetLow,
    /// Block for this many microseconds.
    DelayMicros(u64),
    /// Read the level of the pin and report it.
    ReadLevel,
    /// Nothing: the acquisition is over and its samples are complete.
    Finished,
}

/// What the caller reports back.
#[derive(Debug, Clone, Copy, PartialEq, Eq, Structural)]
pub enum Event {
    /// The pin operation or the pause is done.
    Completed,
    /// The pin was read and showed this level.
    Observed(Level),
}

/// What one stage of the script asks for.
#[derive(Debug, Clone, Copy, PartialEq, Eq, Structural)]
pub enum Stage {
    /// One pin operation or one pause.
    Command(Action),
    /// Wait while the pin shows `level`, for at most `bound` pauses.
    Wait { level: Level, bound: u32 },
    /// The script is over.
    End,
}

/// The request pulse: the pin is held high this long, in microseconds.
pub const REQUEST_PULSE_MICROS: u64 = 25;

/// After the pin is released the line is given this long to settle, in
/// microseconds.
pub const SETTLE_MICROS: u64 = 55;

/// The pause between two polls of a wait, in microseconds.
pub const POLL_MICROS: u64 = 1;

/// The first stage that measures a data bit.
pub const FIRST_SAMPLE_STAGE: usize = 10;

/// The first stage after the data bits.
pub const RELEASE_STAGE: usize = 90;

/// The stage at which the script is over.
pub const END_STAGE: usize = 93;

/// How long the sensor family wants the wake-up pulse, in microseconds.
pub open spec fn wake_micros_of(model: SensorModel) -> u64 {
    match model {
        SensorModel::Dht1x => 20_000,
        SensorModel::Dht2x => 1_100,
    }
}

/// The script: what stage number `stage` asks for.
pub open spec fn script(model: SensorModel, stage: int) -> Stage {
    if stage == 0 {
        Stage::Command(Action::SetAsOutput)
    } else if stage == 1 {
        Stage::Command(Action::SetLow)
    } else if stage == 2 {
        Stage::Command(Action::DelayMicros(wake_micros_of(model)))
    } else if stage == 3 {
        Stage::Command(Action::SetHigh)
    } else if stage == 4 {
        Stage::Command(Action::DelayMicros(REQUEST_PULSE_MICROS))
    } else if stage == 5 {
        Stage::Command(Action::SetAsInput)
    } else if stage == 6 {
        Stage::Command(Action::SetPullUp)
    } else if stage == 7 {
        Stage::Command(Action::DelayMicros(SETTLE_MICROS))
    } else if stage == 8 {
        Stage::Wait { level: Level::Low, bound: WAIT_FOR_READINESS_LEVEL_THRESHOLD }
    } else if stage == 9 {
        Stage::Wait { level: Level::High, bound: WAIT_FOR_READINESS_LEVEL_THRESHOLD }
    } else if FIRST_SAMPLE_STAGE <= stage < RELEASE_STAGE {
        if (stage - FIRST_SAMPLE_STAGE) % 2 == 0 {
            Stage::Wait { level: Level::Low, bound: LOW_LEVEL_THRESHOLD }
        } else {
            Stage::Wait { level: Level::High, bound: HIGH_LEVEL_THRESHOLD }
        }
    } else if stage == 90 {
        Stage::Command(Action::SetAsOutput)
    } else if stage == 91 {
        Stage::Command(Action::SetHigh)
    } else if stage == 92 {
        Stage::Command(Action::DelayMicros(wake_micros_of(model)))
    } else {
        Stage::End
    }
}

/// The sample slot that a stage fills: the waits of the data bits fill the
/// slots in order, the low phase of bit `b` slot `2 b`, its high phase slot
/// `2 b + 1`. The handshake fills none.
pub open spec fn slot_of(stage: int) -> Option<int> {
    if FIRST_SAMPLE_STAGE <= stage < RELEASE_STAGE {
        Some(stage - FIRST_SAMPLE_STAGE)
    } else {
        None
    }
}

/// The bound of the wait that fills sample slot `slot`.
pub open spec fn slot_bound(slot: int) -> u32 {
    if slot % 2 == 0 {
        LOW_LEVEL_THRESHOLD
    } else {
        HIGH_LEVEL_THRESHOLD
    }
}

/// An acquisition as a mathematical value.
pub struct AcquisitionState {
    /// The sensor family.
    pub model: SensorModel,
    /// The stage of the script that is under way.
    pub stage: int,
    /// Within a wait, the pauses made so far.
    pub elapsed: int,
    /// Within a wait, whether a pause is under way rather than a poll.
    pub pausing: bool,
    /// The samples measured so far; slots not reached yet hold 0.
    pub samples: Seq<u32>,
}

impl AcquisitionState {
    /// The state before anything was done.
    pub open spec fn initial(model: SensorModel) -> AcquisitionState {
        AcquisitionState {
            model,
            stage: 0,
            elapsed: 0,
            pausing: false,
            samples: Seq::new(80, |slot: int| 0u32),
        }
    }

    /// What the script asks for at this point.
    pub open spec fn current(self) -> Stage {
        script(self.model, self.stage)
    }

    /// The states that an acquisition can be in.
    pub open spec fn well_formed(self) -> bool {
        &&& 0 <= self.stage <= END_STAGE
        &&& self.samples.len() == 80
        &&& match self.current() {
            Stage::Wait { level, bound } => 0 <= self.elapsed <= bound && (self.pausing
                ==> self.elapsed < bound),
            _ => self.elapsed == 0 && !self.pausing,
        }
        &&& forall|slot: int|
            0 <= slot < 80 ==> (#[trigger] self.samples[slot]) <= slot_bound(slot)
        &&& forall|slot: int|
            0 <= slot < 80 && slot + FIRST_SAMPLE_STAGE > self.stage
                ==> (#[trigger] self.samples[slot]) == 0
    }

    /// What the caller is to do now.
    pub open spec fn pending(self) -> Action {
        match self.current() {
            Stage::Command(action) => action,
            Stage::Wait { level, bound } => if self.pausing {
                Action::DelayMicros(POLL_MICROS)
            } else {
                Action::ReadLevel
            },
            Stage::End => Action::Finished,
        }
    }

    /// Whether `event` is the report that the pending action calls for.
    pub open spec fn answers(self, event: Event) -> bool {
        match self.pending() {
            Action::Finished => false,
            Action::ReadLevel => event is Observed,
            _ => event is Completed,
        }
    }

    /// The state at the start of the next stage. A wait that ends here
    /// leaves its count of pauses in its sample slot, whether it ran into its
    /// bound or not.
    pub open spec fn next_stage(self) -> AcquisitionState {
        AcquisitionState {
            model: self.model,
            stage: self.stage + 1,
            elapsed: 0,
            pausing: false,
            samples: match (self.current(), slot_of(self.stage)) {
                (Stage::Wait { level, bound }, Some(slot)) => self.samples.update(
                    slot,
                    self.elapsed as u32,
                ),
                _ => self.samples,
            },
        }
    }

    /// The state after `event`. A report that the pending action does not
    /// call for changes nothing.
    pub open spec fn next(self, event: Event) -> AcquisitionState {
        if !self.answers(event) {
            self
        } else {
            match (self.current(), event) {
                (Stage::Wait { level, bound }, Event::Observed(seen)) => {
                    if seen == level && self.elapsed < bound {
                        AcquisitionState { pausing: true, ..self }
                    } else {
                        self.next_stage()
                    }
                },
                (Stage::Wait { level, bound }, Event::Completed) => AcquisitionState {
                    elapsed: self.elapsed + 1,
                    pausing: false,
                    ..self
                },
                _ => self.next_stage(),
            }
        }
    }

    /// The wait under way ran into its bound.
    pub open spec fn timed_out(self) -> bool {
        match self.current() {
            Stage::Wait { level, bound } => self.elapsed >= bound,
            _ => false,
        }
    }
}

/// The most reports that one stage of the script can take: one for a
/// command; for a wait one poll more than pauses.
pub open spec fn stage_cost(model: SensorModel, stage: int) -> nat {
    match script(model, stage) {
        Stage::Command(action) => 1,
        Stage::Wait { level, bound } => (2 * bound + 1) as nat,
        Stage::End => 0,
    }
}

/// The most reports that the script can take from the start of `stage` on.
pub open spec fn cost_from(model: SensorModel, stage: int) -> nat
    decreases END_STAGE - stage,
{
    if stage >= END_STAGE {
        0
    } else {
        stage_cost(model, stage) + cost_from(model, stage + 1)
    }
}

/// The most reports that an acquisition in state `state` can still take.
pub open spec fn reports_left(state: AcquisitionState) -> nat {
    let rest = cost_from(state.model, state.stage + 1);
    match state.current() {
        Stage::Command(action) => 1 + rest,
        Stage::Wait { level, bound } => (2 * (bound - state.elapsed) + if state.pausing {
            0int
        } else {
            1int
        } + rest) as nat,
        Stage::End => 0,
    }
}

/// The most reports that a whole acquisition can take: 8 commands, the two
/// halves of the handshake, 40 data bits and 3 commands to release the line.
pub const MAX_REPORTS: u32 = 10_813;

/// Every step leads from a state that an acquisition can be in to another.
pub proof fn lemma_next_is_well_formed(state: AcquisitionState, event: Event)
    requires
        state.well_formed(),
    ensures
        state.next(event).well_formed(),
{
    let after = state.next(event);
    if state.answers(event) && after.stage == state.stage + 1 {
        assert forall|slot: int| 0 <= slot < 80 implies (#[trigger] after.samples[slot])
            <= slot_bound(slot) by {
            assert(state.samples[slot] <= slot_bound(slot));
        }
        assert forall|slot: int|
            0 <= slot < 80 && slot + FIRST_SAMPLE_STAGE > after.stage implies (
        #[trigger] after.samples[slot]) == 0 by {
            assert(state.samples[slot] == 0);
        }
    }
}

/// The state at the start of a stage has that stage's whole cost before it.
proof fn lemma_fresh_stage_cost(state: AcquisitionState)
    requires
        0 <= state.stage <= END_STAGE,
        state.elapsed == 0,
        !state.pausing,
    ensures
        reports_left(state) == cost_from(state.model, state.stage),
{
    if state.stage < END_STAGE {
        reveal_with_fuel(cost_from, 2);
    }
}

/// Every report that answers the pending action brings the end nearer, so a
/// caller that always answers finishes; a report that does not answer
/// changes nothing; and nothing is left to report exactly when the
/// acquisition is over.
pub proof fn lemma_reports_run_out(state: AcquisitionState, event: Event)
    requires
        state.well_formed(),
    ensures
        state.answers(event) ==> reports_left(state.next(event)) < reports_left(state),
        !state.answers(event) ==> state.next(event) == state,
        reports_left(state) == 0 <==> state.pending() == Action::Finished,
{
    if state.answers(event) {
        let after = state.next(event);
        if after.stage == state.stage + 1 {
            lemma_fresh_stage_cost(after);
        }
    }
}

/// The cost of the data bits that are still to come at the start of a bit.
proof fn lemma_cost_of_bits(model: SensorModel, stage: int)
    requires
        FIRST_SAMPLE_STAGE <= stage <= RELEASE_STAGE,
        (stage - FIRST_SAMPLE_STAGE) % 2 == 0,
    ensures
        cost_from(model, stage) == 3 + 131 * (RELEASE_STAGE - stage),
    decreases RELEASE_STAGE - stage,
{
    if stage < RELEASE_STAGE {
        lemma_cost_of_bits(model, stage + 2);
        reveal_with_fuel(cost_from, 3);
    } else {
        reveal_with_fuel(cost_from, 4);
    }
}

/// A whole acquisition takes at most `MAX_REPORTS` reports.
pub proof fn lemma_reports_of_acquisition(model: SensorModel)
    ensures
        reports_left(AcquisitionState::initial(model)) == MAX_REPORTS,
{
    lemma_cost_of_bits(model, FIRST_SAMPLE_STAGE as int);
    lemma_fresh_stage_cost(AcquisitionState::initial(model));
    reveal_with_fuel(cost_from, 11);
}

/// A wait that ran into its bound leaves exactly the bound in its sample
/// slot, and one that the level ended leaves a count under the bound: in the
/// samples a count equal to the bound always means a timeout.
pub proof fn lemma_wait_records_count(state: AcquisitionState, seen: Level)
    requires
        state.well_formed(),
        state.pending() == Action::ReadLevel,
        slot_of(state.stage).is_some(),
    ensures
        ({
            let slot = slot_of(state.stage).unwrap();
            let after = state.next(Event::Observed(seen));
            &&& after.pausing ==> after.stage == state.stage && after.samples == state.samples
            &&& !after.pausing ==> after.stage == state.stage + 1 && after.samples[slot]
                == state.elapsed
            &&& !after.pausing ==> (state.timed_out() <==> after.samples[slot] == slot_bound(
                slot,
            ))
        }),
{
}

/// The length of the pulse that a series of polls saw: the number of polls
/// from the first on that showed `level`, counted up to `bound`.
pub open spec fn pulse_length(seen: Seq<Level>, level: Level, bound: nat) -> nat
    decreases seen.len(),
{
    if seen.len() == 0 || bound == 0 || seen[0] != level {
        0
    } else {
        1 + pulse_length(seen.drop_first(), level, (bound - 1) as nat)
    }
}

/// The state after a series of polls, each reported and, where a pause was
/// asked for, followed by the report of that pause.
pub open spec fn after_polls(state: AcquisitionState, seen: Seq<Level>) -> AcquisitionState
    decreases seen.len(),
{
    if seen.len() == 0 {
        state
    } else {
        let polled = state.next(Event::Observed(seen[0]));
        let paused = if polled.pausing {
            polled.next(Event::Completed)
        } else {
            polled
        };
        after_polls(paused, seen.drop_first())
    }
}

/// A wait measures the pulse: polled until the level changes or the bound
/// is reached, it ends at that poll, and what it leaves behind is the number
/// of polls that showed the level. It timed out exactly when that number is
/// the bound.
pub proof fn lemma_wait_measures_pulse(state: AcquisitionState, seen: Seq<Level>)
    requires
        state.well_formed(),
        state.pending() == Action::ReadLevel,
        seen.len() == 1 + pulse_length(
            seen,
            state.current()->level,
            (state.current()->bound - state.elapsed) as nat,
        ),
    ensures
        ({
            let length = pulse_length(
                seen,
                state.current()->level,
                (state.current()->bound - state.elapsed) as nat,
            );
            let measured = AcquisitionState { elapsed: state.elapsed + length, ..state };
            &&& after_polls(state, seen) == measured.next_stage()
            &&& measured.timed_out() <==> state.elapsed + length == state.current()->bound
            &&& measured.timed_out() || seen.last() != state.current()->level
        }),
    decreases seen.len(),
{
    let level = state.current()->level;
    let bound = state.current()->bound;
    let polled = state.next(Event::Observed(seen[0]));
    reveal_with_fuel(after_polls, 2);
    if polled.pausing {
        let paused = polled.next(Event::Completed);
        lemma_next_is_well_formed(state, Event::Observed(seen[0]));
        lemma_next_is_well_formed(polled, Event::Completed);
        lemma_wait_measures_pulse(paused, seen.drop_first());
        let length = pulse_length(seen, level, (bound - state.elapsed) as nat);
        let measured = AcquisitionState { elapsed: state.elapsed + length, ..state };
        let inner = AcquisitionState {
            elapsed: paused.elapsed + (length - 1) as nat,
            ..paused
        };
        assert(inner == measured);
        assert(seen.drop_first().last() == seen.last());
    } else {
        assert(seen.drop_first().len() == 0);
    }
}

/// How long the sensor family wants the wake-up pulse, in microseconds.
pub fn wake_micros(model: SensorModel) -> (micros: u64)
    ensures
        micros == wake_micros_of(model),
{
    match model {
        SensorModel::Dht1x => 20_000,
        SensorModel::Dht2x => 1_100,
    }
}

/// Looks up what stage number `stage` of the script asks for.
pub fn stage_at(model: SensorModel, stage: usize) -> (asked: Stage)
    ensures
        asked == script(model, stage as int),
{
    if stage >= END_STAGE {
        Stage::End
    } else if stage >= RELEASE_STAGE {
        if stage == 90 {
            Stage::Command(Action::SetAsOutput)
        } else if stage == 91 {
            Stage::Command(Action::SetHigh)
        } else {
            Stage::Command(Action::DelayMicros(wake_micros(model)))
        }
    } else if stage >= FIRST_SAMPLE_STAGE {
        if (stage - FIRST_SAMPLE_STAGE) % 2 == 0 {
            Stage::Wait { level: Level::Low, bound: LOW_LEVEL_THRESHOLD }
        } else {
            Stage::Wait { level: Level::High, bound: HIGH_LEVEL_THRESHOLD }
        }
    } else if stage == 0 {
        Stage::Command(Action::SetAsOutput)
    } else if stage == 1 {
        Stage::Command(Action::SetLow)
    } else if stage == 2 {
        Stage::Command(Action::DelayMicros(wake_micros(model)))
    } else if stage == 3 {
        Stage::Command(Action::SetHigh)
    } else if stage == 4 {
        Stage::Command(Action::DelayMicros(REQUEST_PULSE_MICROS))
    } else if stage == 5 {
        Stage::Command(Action::SetAsInput)
    } else if stage == 6 {
        Stage::Command(Action::SetPullUp)
    } else if stage == 7 {
        Stage::Command(Action::DelayMicros(SETTLE_MICROS))
    } else if stage == 8 {
        Stage::Wait { level: Level::Low, bound: WAIT_FOR_READINESS_LEVEL_THRESHOLD }
    } else {
        Stage::Wait { level: Level::High, bound: WAIT_FOR_READINESS_LEVEL_THRESHOLD }
    }
}

/// One acquisition under way.
pub struct Acquisition {
    model: SensorModel,
    stage: usize,
    elapsed: u32,
    pausing: bool,
    samples: [u32; 80],
}

impl View for Acquisition {
    type V = AcquisitionState;

    closed spec fn view(&self) -> AcquisitionState {
        AcquisitionState {
            model: self.model,
            stage: self.stage as int,
            elapsed: self.elapsed as int,
            pausing: self.pausing,
            samples: self.samples@,
        }
    }
}

impl Acquisition {
    #[verifier::type_invariant]
    closed spec fn inv(&self) -> bool {
        self@.well_formed()
    }

    /// An acquisition at the start of its script.
    pub fn new(model: SensorModel) -> (acquisition: Self)
        ensures
            acquisition@ == AcquisitionState::initial(model),
            acquisition@.well_formed(),
    {
        let acquisition = Acquisition {
            model,
            stage: 0,
            elapsed: 0,
            pausing: false,
            samples: [0; 80],
        };
        assert(acquisition@.samples =~= AcquisitionState::initial(model).samples);
        acquisition
    }

    /// What the caller is to do now.
    pub fn pending(&self) -> (action: Action)
        ensures
            action == self@.pending(),
            self@.well_formed(),
    {
        proof {
            use_type_invariant(self);
        }
        match stage_at(self.model, self.stage) {
            Stage::Command(action) => action,
            Stage::Wait { level: _, bound: _ } => if self.pausing {
                Action::DelayMicros(POLL_MICROS)
            } else {
                Action::ReadLevel
            },
            Stage::End => Action::Finished,
        }
    }

    /// Whether the script is over.
    pub fn is_finished(&self) -> (finished: bool)
        ensures
            finished == (self@.pending() == Action::Finished),
            finished == (self@.stage == END_STAGE),
    {
        proof {
            use_type_invariant(self);
        }
        self.stage >= END_STAGE
    }

    /// The samples measured so far, two per data bit: the count of its low
    /// phase, then of its high phase.
    pub fn samples(&self) -> (samples: &[u32; 80])
        ensures
            samples@ == self@.samples,
    {
        &self.samples
    }

    /// Takes the caller's report and names the next action.
    pub fn step(&mut self, event: Event) -> (action: Action)
        ensures
            final(self)@ == old(self)@.next(event),
            final(self)@.well_formed(),
            action == final(self)@.pending(),
    {
        proof {
            use_type_invariant(&*self);
        }
        match (stage_at(self.model, self.stage), event) {
            (Stage::Command(_), Event::Completed) => {
                self.stage = self.stage + 1;
            },
            (Stage::Wait { level, bound }, Event::Observed(seen)) => {
                if !self.pausing {
                    if seen == level && self.elapsed < bound {
                        self.pausing = true;
                    } else {
                        let count: u32 = self.elapsed;
                        self.elapsed = 0;
                        if self.stage >= FIRST_SAMPLE_STAGE {
                            self.samples[self.stage - FIRST_SAMPLE_STAGE] = count;
                        }
                        self.stage = self.stage + 1;
                    }
                }
            },
            (Stage::Wait { level: _, bound: _ }, Event::Completed) => {
                if self.pausing {
                    self.pausing = false;
                    self.elapsed = self.elapsed + 1;
                }
            },
            _ => {},
        }
        assert(self@.samples =~= old(self)@.next(event).samples);
        self.pending()
    }
}

} // verus!
