//! The Thingy motion service: identifiers and its configuration value.
use crate::wire::{
    lemma_le_bytes_injective,
    lemma_le_bytes_len,
    lemma_split_last,
    pow256,
    le_bytes,
    push_le,
    read_uint,
    FromGattError,
};
use vstd::prelude::*;

verus! {

/// Thingy UUID identifiers of the service and of its characteristics.
pub const TMS: u16 = 0x0400;

pub const TMS_CONFIG: u16 = 0x0401;

pub const TMS_TAP: u16 = 0x0402;

pub const TMS_ORIENTATION: u16 = 0x0403;

pub const TMS_QUATERNION: u16 = 0x0404;

pub const TMS_PEDOMETER: u16 = 0x0405;

pub const TMS_RAW: u16 = 0x0406;

pub const TMS_EULER: u16 = 0x0407;

pub const TMS_ROTATION_MATRIX: u16 = 0x0408;

pub const TMS_HEADING: u16 = 0x0409;

pub const TMS_GRAVITY: u16 = 0x040A;

/// Size on the air of the gravity vector: three 32-bit floats.
pub const TMS_GRAVITY_SIZE: usize = 12;

/// Sampling intervals of the motion sensors and the wake-on-motion switch.
#[derive(Clone, Copy, Debug, PartialEq, Eq, Structural)]
pub struct TmsConfiguration {
    pub pedometer_interval_ms: u16,
    pub temperature_interval_ms: u16,
    pub compass_interval_ms: u16,
    pub motion_frequency_hz: u16,
    pub wake_on_motion: u8,
}

impl TmsConfiguration {
    pub const SIZE: usize = 9;

    pub open spec fn wire(self) -> Seq<u8> {
        le_bytes(self.pedometer_interval_ms as nat, 2) + le_bytes(
            self.temperature_interval_ms as nat,
            2,
        ) + le_bytes(self.compass_interval_ms as nat, 2) + le_bytes(
            self.motion_frequency_hz as nat,
            2,
        ) + le_bytes(self.wake_on_motion as nat, 1)
    }

    /// Values with one encoding are equal: decoding what `as_gatt` gives returns the value.
    pub proof fn lemma_wire_injective(a: Self, b: Self)
        requires
            a.wire() == b.wire(),
        ensures
            a == b,
    {
        reveal_with_fuel(pow256, 5);
        lemma_le_bytes_len(a.pedometer_interval_ms as nat, 2);
        lemma_le_bytes_len(b.pedometer_interval_ms as nat, 2);
        lemma_le_bytes_len(a.temperature_interval_ms as nat, 2);
        lemma_le_bytes_len(b.temperature_interval_ms as nat, 2);
        lemma_le_bytes_len(a.compass_interval_ms as nat, 2);
        lemma_le_bytes_len(b.compass_interval_ms as nat, 2);
        lemma_le_bytes_len(a.motion_frequency_hz as nat, 2);
        lemma_le_bytes_len(b.motion_frequency_hz as nat, 2);
        lemma_le_bytes_len(a.wake_on_motion as nat, 1);
        lemma_le_bytes_len(b.wake_on_motion as nat, 1);
        lemma_split_last(
            le_bytes(a.pedometer_interval_ms as nat, 2)
                + le_bytes(a.temperature_interval_ms as nat, 2)
                + le_bytes(a.compass_interval_ms as nat, 2)
                + le_bytes(a.motion_frequency_hz as nat, 2),
            le_bytes(a.wake_on_motion as nat, 1),
            le_bytes(b.pedometer_interval_ms as nat, 2)
                + le_bytes(b.temperature_interval_ms as nat, 2)
                + le_bytes(b.compass_interval_ms as nat, 2)
                + le_bytes(b.motion_frequency_hz as nat, 2),
            le_bytes(b.wake_on_motion as nat, 1),
        );
        lemma_split_last(
            le_bytes(a.pedometer_interval_ms as nat, 2)
                + le_bytes(a.temperature_interval_ms as nat, 2)
                + le_bytes(a.compass_interval_ms as nat, 2),
            le_bytes(a.motion_frequency_hz as nat, 2),
            le_bytes(b.pedometer_interval_ms as nat, 2)
                + le_bytes(b.temperature_interval_ms as nat, 2)
                + le_bytes(b.compass_interval_ms as nat, 2),
            le_bytes(b.motion_frequency_hz as nat, 2),
        );
        lemma_split_last(
            le_bytes(a.pedometer_interval_ms as nat, 2)
                + le_bytes(a.temperature_interval_ms as nat, 2),
            le_bytes(a.compass_interval_ms as nat, 2),
            le_bytes(b.pedometer_interval_ms as nat, 2)
                + le_bytes(b.temperature_interval_ms as nat, 2),
            le_bytes(b.compass_interval_ms as nat, 2),
        );
        lemma_split_last(
            le_bytes(a.pedometer_interval_ms as nat, 2),
            le_bytes(a.temperature_interval_ms as nat, 2),
            le_bytes(b.pedometer_interval_ms as nat, 2),
            le_bytes(b.temperature_interval_ms as nat, 2),
        );
        lemma_le_bytes_injective(a.pedometer_interval_ms as nat, b.pedometer_interval_ms as nat, 2);
        lemma_le_bytes_injective(a.temperature_interval_ms as nat, b.temperature_interval_ms as nat, 2);
        lemma_le_bytes_injective(a.compass_interval_ms as nat, b.compass_interval_ms as nat, 2);
        lemma_le_bytes_injective(a.motion_frequency_hz as nat, b.motion_frequency_hz as nat, 2);
        lemma_le_bytes_injective(a.wake_on_motion as nat, b.wake_on_motion as nat, 1);
    }

    pub fn as_gatt(&self) -> (r: Vec<u8>)
        ensures
            r@ == self.wire(),
    {
        let mut r: Vec<u8> = Vec::new();
        push_le(&mut r, self.pedometer_interval_ms as u128, 2);
        push_le(&mut r, self.temperature_interval_ms as u128, 2);
        push_le(&mut r, self.compass_interval_ms as u128, 2);
        push_le(&mut r, self.motion_frequency_hz as u128, 2);
        push_le(&mut r, self.wake_on_motion as u128, 1);
        r
    }

    pub fn from_gatt(data: &[u8]) -> (r: Result<Self, FromGattError>)
        ensures
            data@.len() == Self::SIZE <==> r is Ok,
            r is Err ==> r == Err::<Self, FromGattError>(FromGattError::InvalidLength),
            r matches Ok(v) ==> v.wire() == data@,
    {
        if data.len() != Self::SIZE {
            return Err(FromGattError::InvalidLength);
        }
        let pedometer_interval_ms = read_uint(data, 0, 2) as u16;
        let temperature_interval_ms = read_uint(data, 2, 2) as u16;
        let compass_interval_ms = read_uint(data, 4, 2) as u16;
        let motion_frequency_hz = read_uint(data, 6, 2) as u16;
        let wake_on_motion = read_uint(data, 8, 1) as u8;
        assert(data@ =~= data@.subrange(0, 2) + data@.subrange(2, 4) + data@.subrange(4, 6)
            + data@.subrange(6, 8) + data@.subrange(8, 9));
        Ok(
            TmsConfiguration {
                pedometer_interval_ms,
                temperature_interval_ms,
                compass_interval_ms,
                motion_frequency_hz,
                wake_on_motion,
            },
        )
    }
}

impl Default for TmsConfiguration {
    fn default() -> (r: Self)
        ensures
            r == (TmsConfiguration {
                pedometer_interval_ms: 1000,
                temperature_interval_ms: 500,
                compass_interval_ms: 500,
                motion_frequency_hz: 10,
                wake_on_motion: 1,
            }),
    {
        TmsConfiguration {
            pedometer_interval_ms: 1000,
            temperature_interval_ms: 500,
            compass_interval_ms: 500,
            motion_frequency_hz: 10,
            wake_on_motion: 1,
        }
    }
}

} // verus!
