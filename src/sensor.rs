//! The sensor producer's decisions: bring the SCD4x up, then poll it and
//! publish each measurement.
use vstd::prelude::*;

verus! {

/// Wait after the I2C bus comes up before the first command.
pub const STARTUP_DELAY_MS: u64 = 30;

/// Wait between two polls of the sensor.
pub const POLL_INTERVAL_MS: u64 = 1000;

/// One measurement, in the units that go on the air.
#[derive(Clone, Copy, Debug, PartialEq, Eq, Structural)]
pub struct Sample {
    pub co2_ppm: u16,
    pub temperature_c: i8,
    pub humidity_pct: u8,
}

/// Where the bring-up and polling of the sensor stand.
#[derive(Clone, Copy, Debug, PartialEq, Eq, Structural)]
pub enum SensorPhase {
    /// Waiting for the bus to settle.
    PowerUp,
    /// A stop of periodic measurement was asked (a warm reset may have left it running).
    Stopping,
    /// The serial number was asked.
    ReadingSerial,
    /// Periodic measurement was asked to start.
    Starting,
    /// Asked whether a measurement is ready.
    Polling,
    /// Asked for the measurement.
    Measuring,
    /// A fatal failure: nothing more is done.
    Halted,
}

/// How the last request to the sensor (or the last wait) ended.
#[derive(Clone, Copy, Debug, PartialEq, Eq, Structural)]
pub enum SensorOutcome {
    /// The wait or the command completed.
    Done,
    /// The command failed on the bus.
    Failed,
    /// The answer to "is a measurement ready?".
    Ready(bool),
    /// The measurement that was read.
    Measured(Sample),
}

/// What the sensor task is to do next.
#[derive(Clone, Copy, Debug, PartialEq, Eq, Structural)]
pub enum SensorAction {
    StopPeriodic,
    ReadSerial,
    StartPeriodic,
    /// Wait the given milliseconds, then ask whether a measurement is ready.
    WaitThenPoll(u64),
    ReadMeasurement,
    /// Publish the sample on the three channels, wait the given milliseconds, then poll.
    PublishThenPoll(Sample, u64),
    /// Stop with a diagnostic.
    Halt,
}

/// The first action of the sensor task: wait for the bus to settle.
pub fn sensor_start() -> (r: (SensorPhase, u64))
    ensures
        r == (SensorPhase::PowerUp, STARTUP_DELAY_MS),
{
    (SensorPhase::PowerUp, STARTUP_DELAY_MS)
}

/// Takes how the last step ended and gives the next phase and action.
pub fn sensor_step(phase: SensorPhase, outcome: SensorOutcome) -> (r: (SensorPhase, SensorAction))
    ensures
        phase == SensorPhase::PowerUp ==> r == (SensorPhase::Stopping, SensorAction::StopPeriodic),
        phase == SensorPhase::Stopping ==> r == (SensorPhase::ReadingSerial, SensorAction::ReadSerial),
        phase == SensorPhase::ReadingSerial ==> r == (
            SensorPhase::Starting,
            SensorAction::StartPeriodic,
        ),
        phase == SensorPhase::Starting ==> (if outcome == SensorOutcome::Failed {
            r == (SensorPhase::Halted, SensorAction::Halt)
        } else {
            r == (SensorPhase::Polling, SensorAction::WaitThenPoll(0))
        }),
        phase == SensorPhase::Polling ==> (match outcome {
            SensorOutcome::Ready(true) => r == (SensorPhase::Measuring, SensorAction::ReadMeasurement),
            SensorOutcome::Ready(false) => r == (
                SensorPhase::Polling,
                SensorAction::WaitThenPoll(POLL_INTERVAL_MS),
            ),
            _ => r == (SensorPhase::Halted, SensorAction::Halt),
        }),
        phase == SensorPhase::Measuring ==> (match outcome {
            SensorOutcome::Measured(s) => r == (
                SensorPhase::Polling,
                SensorAction::PublishThenPoll(s, POLL_INTERVAL_MS),
            ),
            _ => r == (SensorPhase::Halted, SensorAction::Halt),
        }),
        phase == SensorPhase::Halted ==> r == (SensorPhase::Halted, SensorAction::Halt),
{
    match phase {
        SensorPhase::PowerUp => (SensorPhase::Stopping, SensorAction::StopPeriodic),
        SensorPhase::Stopping => (SensorPhase::ReadingSerial, SensorAction::ReadSerial),
        SensorPhase::ReadingSerial => (SensorPhase::Starting, SensorAction::StartPeriodic),
        SensorPhase::Starting => match outcome {
            SensorOutcome::Failed => (SensorPhase::Halted, SensorAction::Halt),
            _ => (SensorPhase::Polling, SensorAction::WaitThenPoll(0)),
        },
        SensorPhase::Polling => match outcome {
            SensorOutcome::Ready(true) => (SensorPhase::Measuring, SensorAction::ReadMeasurement),
            SensorOutcome::Ready(false) => (
                SensorPhase::Polling,
                SensorAction::WaitThenPoll(POLL_INTERVAL_MS),
            ),
            _ => (SensorPhase::Halted, SensorAction::Halt),
        },
        SensorPhase::Measuring => match outcome {
            SensorOutcome::Measured(s) => (
                SensorPhase::Polling,
                SensorAction::PublishThenPoll(s, POLL_INTERVAL_MS),
            ),
            _ => (SensorPhase::Halted, SensorAction::Halt),
        },
        SensorPhase::Halted => (SensorPhase::Halted, SensorAction::Halt),
    }
}

} // verus!
