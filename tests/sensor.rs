use microbit_thingy::sensor::{
    sensor_start, sensor_step, Sample, SensorAction, SensorOutcome, SensorPhase,
};

#[test]
fn bring_up_then_poll() {
    let (phase, delay) = sensor_start();
    assert_eq!((phase, delay), (SensorPhase::PowerUp, 30));
    let (phase, action) = sensor_step(phase, SensorOutcome::Done);
    assert_eq!(action, SensorAction::StopPeriodic);
    let (phase, action) = sensor_step(phase, SensorOutcome::Failed);
    assert_eq!(action, SensorAction::ReadSerial);
    let (phase, action) = sensor_step(phase, SensorOutcome::Failed);
    assert_eq!(action, SensorAction::StartPeriodic);
    let (phase, action) = sensor_step(phase, SensorOutcome::Done);
    assert_eq!((phase, action), (SensorPhase::Polling, SensorAction::WaitThenPoll(0)));
    let (phase, action) = sensor_step(phase, SensorOutcome::Ready(false));
    assert_eq!(action, SensorAction::WaitThenPoll(1000));
    let (phase, action) = sensor_step(phase, SensorOutcome::Ready(true));
    assert_eq!(action, SensorAction::ReadMeasurement);
    let s = Sample { co2_ppm: 842, temperature_c: 24, humidity_pct: 41 };
    let (phase, action) = sensor_step(phase, SensorOutcome::Measured(s));
    assert_eq!((phase, action), (SensorPhase::Polling, SensorAction::PublishThenPoll(s, 1000)));
}

#[test]
fn start_failure_is_fatal() {
    let (phase, action) = sensor_step(SensorPhase::Starting, SensorOutcome::Failed);
    assert_eq!((phase, action), (SensorPhase::Halted, SensorAction::Halt));
    assert_eq!(sensor_step(phase, SensorOutcome::Done), (SensorPhase::Halted, SensorAction::Halt));
}

#[test]
fn bus_failure_after_start_is_fatal() {
    assert_eq!(
        sensor_step(SensorPhase::Polling, SensorOutcome::Failed),
        (SensorPhase::Halted, SensorAction::Halt)
    );
    assert_eq!(
        sensor_step(SensorPhase::Measuring, SensorOutcome::Failed),
        (SensorPhase::Halted, SensorAction::Halt)
    );
}
