use embassy_dht_sensor::bus::{stage_at, wake_micros, Stage, MAX_REPORTS};
use embassy_dht_sensor::{
    Acquisition, Action, DHTSensor, DHTSensorError, DTHResponse, Event, Level, SensorModel,
};

/// A line that follows a list of (level, microseconds) segments from the
/// moment the pin is released, and idles high afterwards.
struct Line {
    segments: Vec<(Level, u64)>,
    now: u64,
    released_at: Option<u64>,
    log: Vec<Action>,
    reports: u32,
}

impl Line {
    fn new(segments: Vec<(Level, u64)>) -> Line {
        Line { segments, now: 0, released_at: None, log: Vec::new(), reports: 0 }
    }

    fn level(&self) -> Level {
        let mut since = self.now - self.released_at.unwrap();
        for &(level, micros) in &self.segments {
            if since < micros {
                return level;
            }
            since -= micros;
        }
        Level::High
    }

    /// Runs a whole acquisition against this line.
    fn run(&mut self, acquisition: &mut Acquisition) {
        let mut action = acquisition.pending();
        while action != Action::Finished {
            let event = match action {
                Action::ReadLevel => Event::Observed(self.level()),
                Action::DelayMicros(micros) => {
                    self.now += micros;
                    if micros != 1 {
                        self.log.push(action);
                    }
                    Event::Completed
                }
                Action::SetAsInput => {
                    self.released_at = Some(self.now);
                    self.log.push(action);
                    Event::Completed
                }
                _ => {
                    self.log.push(action);
                    Event::Completed
                }
            };
            self.reports += 1;
            action = acquisition.step(event);
        }
    }
}

/// What a sensor puts on the line after the pin is released: 30 µs of
/// nothing, the handshake, then 50 µs low and 27 or 70 µs high per bit.
fn sensor_answer(frame: [u8; 5]) -> Vec<(Level, u64)> {
    let mut segments = vec![(Level::High, 30), (Level::Low, 80), (Level::High, 78)];
    for bit in 0..40 {
        let one = (frame[bit / 8] >> (7 - bit % 8)) & 1 == 1;
        segments.push((Level::Low, 50));
        segments.push((Level::High, if one { 70 } else { 27 }));
    }
    segments.push((Level::Low, 50));
    segments
}

#[test]
fn wake_up_interval_depends_on_the_family() {
    assert_eq!(wake_micros(SensorModel::Dht1x), 20_000);
    assert_eq!(wake_micros(SensorModel::Dht2x), 1_100);
}

#[test]
fn script_starts_with_wake_up_and_request() {
    let model = SensorModel::Dht2x;
    assert_eq!(stage_at(model, 0), Stage::Command(Action::SetAsOutput));
    assert_eq!(stage_at(model, 1), Stage::Command(Action::SetLow));
    assert_eq!(stage_at(model, 2), Stage::Command(Action::DelayMicros(1_100)));
    assert_eq!(stage_at(model, 3), Stage::Command(Action::SetHigh));
    assert_eq!(stage_at(model, 4), Stage::Command(Action::DelayMicros(25)));
    assert_eq!(stage_at(model, 5), Stage::Command(Action::SetAsInput));
    assert_eq!(stage_at(model, 6), Stage::Command(Action::SetPullUp));
    assert_eq!(stage_at(model, 7), Stage::Command(Action::DelayMicros(55)));
}

#[test]
fn script_waits_for_handshake_then_bits_then_releases() {
    let model = SensorModel::Dht1x;
    assert_eq!(stage_at(model, 8), Stage::Wait { level: Level::Low, bound: 80 });
    assert_eq!(stage_at(model, 9), Stage::Wait { level: Level::High, bound: 80 });
    for bit in 0..40 {
        assert_eq!(stage_at(model, 10 + 2 * bit), Stage::Wait { level: Level::Low, bound: 55 });
        assert_eq!(stage_at(model, 11 + 2 * bit), Stage::Wait { level: Level::High, bound: 75 });
    }
    assert_eq!(stage_at(model, 90), Stage::Command(Action::SetAsOutput));
    assert_eq!(stage_at(model, 91), Stage::Command(Action::SetHigh));
    assert_eq!(stage_at(model, 92), Stage::Command(Action::DelayMicros(20_000)));
    assert_eq!(stage_at(model, 93), Stage::End);
    assert_eq!(stage_at(model, usize::MAX), Stage::End);
}

#[test]
fn new_acquisition_is_at_the_start() {
    let acquisition = Acquisition::new(SensorModel::Dht2x);
    assert_eq!(acquisition.pending(), Action::SetAsOutput);
    assert!(!acquisition.is_finished());
    assert_eq!(acquisition.samples(), &[0u32; 80]);
}

#[test]
fn report_that_does_not_answer_changes_nothing() {
    let mut acquisition = Acquisition::new(SensorModel::Dht2x);
    assert_eq!(acquisition.step(Event::Observed(Level::Low)), Action::SetAsOutput);
    assert_eq!(acquisition.step(Event::Observed(Level::High)), Action::SetAsOutput);
    assert_eq!(acquisition.step(Event::Completed), Action::SetLow);
    for _ in 0..7 {
        acquisition.step(Event::Completed);
    }
    assert_eq!(acquisition.pending(), Action::ReadLevel);
    assert_eq!(acquisition.step(Event::Completed), Action::ReadLevel);
    assert_eq!(acquisition.step(Event::Observed(Level::Low)), Action::DelayMicros(1));
    assert_eq!(acquisition.step(Event::Observed(Level::High)), Action::DelayMicros(1));
    assert_eq!(acquisition.step(Event::Completed), Action::ReadLevel);
}

#[test]
fn wait_counts_pauses_until_the_level_changes() {
    let mut acquisition = Acquisition::new(SensorModel::Dht2x);
    for _ in 0..8 {
        acquisition.step(Event::Completed);
    }
    // The handshake shows nothing: both halves end at their first poll.
    assert_eq!(acquisition.step(Event::Observed(Level::High)), Action::ReadLevel);
    assert_eq!(acquisition.step(Event::Observed(Level::Low)), Action::ReadLevel);
    // Low phase of the first bit: three polls low, then high.
    for _ in 0..3 {
        assert_eq!(acquisition.step(Event::Observed(Level::Low)), Action::DelayMicros(1));
        assert_eq!(acquisition.step(Event::Completed), Action::ReadLevel);
    }
    assert_eq!(acquisition.step(Event::Observed(Level::High)), Action::ReadLevel);
    assert_eq!(acquisition.samples()[0], 3);
    // High phase: five polls high, then low.
    for _ in 0..5 {
        assert_eq!(acquisition.step(Event::Observed(Level::High)), Action::DelayMicros(1));
        assert_eq!(acquisition.step(Event::Completed), Action::ReadLevel);
    }
    assert_eq!(acquisition.step(Event::Observed(Level::Low)), Action::ReadLevel);
    assert_eq!(acquisition.samples()[1], 5);
    assert_eq!(acquisition.samples()[2], 0);
}

#[test]
fn wait_that_reaches_its_bound_records_the_bound() {
    let mut acquisition = Acquisition::new(SensorModel::Dht2x);
    for _ in 0..8 {
        acquisition.step(Event::Completed);
    }
    acquisition.step(Event::Observed(Level::High));
    acquisition.step(Event::Observed(Level::Low));
    for _ in 0..55 {
        assert_eq!(acquisition.step(Event::Observed(Level::Low)), Action::DelayMicros(1));
        assert_eq!(acquisition.step(Event::Completed), Action::ReadLevel);
    }
    // The bound is reached: the next poll ends the wait whatever it shows.
    assert_eq!(acquisition.step(Event::Observed(Level::Low)), Action::ReadLevel);
    assert_eq!(acquisition.samples()[0], 55);
    for _ in 0..75 {
        assert_eq!(acquisition.step(Event::Observed(Level::High)), Action::DelayMicros(1));
        assert_eq!(acquisition.step(Event::Completed), Action::ReadLevel);
    }
    assert_eq!(acquisition.step(Event::Observed(Level::Low)), Action::ReadLevel);
    assert_eq!(acquisition.samples()[1], 75);
}

#[test]
fn acquisition_reads_a_sensor_answer() {
    let frame = [0x02, 0x8C, 0x01, 0x11, 0xA0];
    let mut line = Line::new(sensor_answer(frame));
    let mut sensor = DHTSensor::new(SensorModel::Dht2x);
    let mut acquisition = sensor.acquire();
    line.run(&mut acquisition);
    assert!(acquisition.is_finished());
    assert_eq!(acquisition.pending(), Action::Finished);
    for bit in 0..40 {
        let one = (frame[bit / 8] >> (7 - bit % 8)) & 1 == 1;
        assert_eq!(acquisition.samples()[2 * bit], 50);
        assert_eq!(acquisition.samples()[2 * bit + 1], if one { 70 } else { 27 });
    }
    assert_eq!(
        sensor.read(acquisition.samples()),
        Ok(DTHResponse { humidity_tenths: 652, temperature_tenths: 273, temperature_negative: false })
    );
    assert_eq!(
        line.log,
        vec![
            Action::SetAsOutput,
            Action::SetLow,
            Action::DelayMicros(1_100),
            Action::SetHigh,
            Action::DelayMicros(25),
            Action::SetAsInput,
            Action::SetPullUp,
            Action::DelayMicros(55),
            Action::SetAsOutput,
            Action::SetHigh,
            Action::DelayMicros(1_100),
        ]
    );
}

#[test]
fn dht1x_acquisition_holds_the_line_for_20_ms() {
    let mut line = Line::new(sensor_answer([40, 0, 22, 0, 62]));
    let mut sensor = DHTSensor::new(SensorModel::Dht1x);
    let mut acquisition = sensor.acquire();
    line.run(&mut acquisition);
    assert_eq!(line.log[2], Action::DelayMicros(20_000));
    assert_eq!(line.log[10], Action::DelayMicros(20_000));
    assert_eq!(
        sensor.read(acquisition.samples()),
        Ok(DTHResponse { humidity_tenths: 40, temperature_tenths: 22, temperature_negative: false })
    );
}

#[test]
fn line_stuck_high_gives_a_checksum_error() {
    let mut line = Line::new(Vec::new());
    let mut sensor = DHTSensor::new(SensorModel::Dht2x);
    let mut acquisition = sensor.acquire();
    line.run(&mut acquisition);
    for bit in 0..40 {
        assert_eq!(acquisition.samples()[2 * bit], 0);
        assert_eq!(acquisition.samples()[2 * bit + 1], 75);
    }
    assert_eq!(sensor.read(acquisition.samples()), Err(DHTSensorError::ChecksumError));
}

#[test]
fn unresolved_pulses_give_a_timeout() {
    // A line that changes so slowly that both phases of every bit run into
    // their bound.
    let model = SensorModel::Dht2x;
    let mut acquisition = Acquisition::new(model);
    let mut action = acquisition.pending();
    let mut stage: usize = 0;
    let mut reports: u32 = 0;
    while action != Action::Finished {
        match action {
            Action::ReadLevel => {
                let waited_for = match stage_at(model, stage) {
                    Stage::Wait { level, bound: _ } => level,
                    other => panic!("stage {} is {:?}", stage, other),
                };
                action = acquisition.step(Event::Observed(waited_for));
                if action != Action::DelayMicros(1) {
                    stage += 1;
                }
            }
            Action::DelayMicros(1) => {
                action = acquisition.step(Event::Completed);
            }
            _ => {
                action = acquisition.step(Event::Completed);
                stage += 1;
            }
        }
        reports += 1;
    }
    assert_eq!(stage, 93);
    for bit in 0..40 {
        assert_eq!(acquisition.samples()[2 * bit], 55);
        assert_eq!(acquisition.samples()[2 * bit + 1], 75);
    }
    assert_eq!(reports, MAX_REPORTS);
    let mut sensor = DHTSensor::new(SensorModel::Dht2x);
    assert_eq!(sensor.read(acquisition.samples()), Err(DHTSensorError::Timeout));
}

#[test]
fn acquisition_never_takes_more_than_the_most_reports() {
    assert_eq!(MAX_REPORTS, 8 + 2 * 161 + 40 * (111 + 151) + 3);
    let mut line = Line::new(sensor_answer([0xFF, 0xFF, 0xFF, 0xFF, 0xFC]));
    let mut acquisition = Acquisition::new(SensorModel::Dht2x);
    line.run(&mut acquisition);
    assert!(line.reports <= MAX_REPORTS);
    assert_eq!(acquisition.step(Event::Completed), Action::Finished);
    assert_eq!(acquisition.step(Event::Observed(Level::Low)), Action::Finished);
}
