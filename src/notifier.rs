//! The environment notifier: which signal it waits for next, and what it
//! notifies for each new reading.
use crate::environment::{TesGas, TesTemperature};
use crate::profile::{GAS_HANDLE, HUMIDITY_HANDLE, TEMPERATURE_HANDLE};
use crate::wire::push_le;
use vstd::prelude::*;

verus! {

/// The environment signals, each published on its own channel.
#[derive(Clone, Copy, Debug, PartialEq, Eq, Structural)]
pub enum Signal {
    Co2,
    Temperature,
    Humidity,
}

/// A new value on one of the signals.
#[derive(Clone, Copy, Debug, PartialEq, Eq, Structural)]
pub enum Reading {
    Co2(u16),
    Temperature(i8),
    Humidity(u8),
}

impl Reading {
    pub open spec fn signal(self) -> Signal {
        match self {
            Reading::Co2(_) => Signal::Co2,
            Reading::Temperature(_) => Signal::Temperature,
            Reading::Humidity(_) => Signal::Humidity,
        }
    }

    /// The characteristic that carries the reading.
    pub open spec fn handle(self) -> usize {
        match self {
            Reading::Co2(_) => GAS_HANDLE,
            Reading::Temperature(_) => TEMPERATURE_HANDLE,
            Reading::Humidity(_) => HUMIDITY_HANDLE,
        }
    }

    /// The value notified for the reading.
    pub open spec fn payload(self) -> Seq<u8> {
        match self {
            Reading::Co2(c) => TesGas { co2_ppm: c, tvoc_ppb: 0 }.wire(),
            Reading::Temperature(t) => TesTemperature { integer: t, decimal: 0 }.wire(),
            Reading::Humidity(h) => crate::wire::le_bytes(h as nat, 1),
        }
    }
}

/// The signal awaited after `s`: CO2, temperature, humidity, then CO2 again.
pub open spec fn spec_next_signal(s: Signal) -> Signal {
    match s {
        Signal::Co2 => Signal::Temperature,
        Signal::Temperature => Signal::Humidity,
        Signal::Humidity => Signal::Co2,
    }
}

/// Waits on the three environment signals in turn and turns each reading into
/// a notification.
pub struct EnvNotifier {
    pub awaiting: Signal,
}

impl EnvNotifier {
    /// A notifier that waits for CO2 first.
    pub fn new() -> (r: Self)
        ensures
            r.awaiting == Signal::Co2,
    {
        EnvNotifier { awaiting: Signal::Co2 }
    }

    /// Takes the reading of the awaited signal and gives the characteristic
    /// handle and value to notify; the next signal is then awaited.
    pub fn on_reading(&mut self, reading: Reading) -> (r: (usize, Vec<u8>))
        requires
            reading.signal() == old(self).awaiting,
        ensures
            r.0 == reading.handle(),
            r.1@ == reading.payload(),
            final(self).awaiting == spec_next_signal(old(self).awaiting),
    {
        self.awaiting = match self.awaiting {
            Signal::Co2 => Signal::Temperature,
            Signal::Temperature => Signal::Humidity,
            Signal::Humidity => Signal::Co2,
        };
        notification_for(reading)
    }
}

/// The characteristic handle and value notified for a reading.
pub fn notification_for(reading: Reading) -> (r: (usize, Vec<u8>))
    ensures
        r.0 == reading.handle(),
        r.1@ == reading.payload(),
{
    match reading {
        Reading::Co2(c) => (GAS_HANDLE, TesGas::new(c).as_gatt()),
        Reading::Temperature(t) => (TEMPERATURE_HANDLE, TesTemperature::new(t).as_gatt()),
        Reading::Humidity(h) => {
            let mut v: Vec<u8> = Vec::new();
            push_le(&mut v, h as u128, 1);
            (HUMIDITY_HANDLE, v)
        },
    }
}

} // verus!
