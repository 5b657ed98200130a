//! The Thingy configuration service: identifiers, advertising constants and
//! the advertising and connection parameter values.
use crate::wire::{
    lemma_le_bytes_injective,
    lemma_le_bytes_len,
    lemma_split_last,
    pow256,
    le_bytes,
    push_le,
    read_uint,
    FromGattError,
};
use vstd::prelude::*;

verus! {

/// Thingy UUID identifiers of the service and of its characteristics.
pub const TCS: u16 = 0x0100;

pub const TCS_DEVICE_NAME: u16 = 0x0101;

pub const TCS_ADV_PARAMS: u16 = 0x0102;

pub const TCS_CONN_PARAMS: u16 = 0x0104;

pub const TCS_BEACON_DATA: u16 = 0x0105;

pub const TCS_CLOUD_DATA: u16 = 0x0106;

pub const TCS_FW_VERSION: u16 = 0x0107;

pub const TCS_MTU: u16 = 0x0108;

pub const TCS_NFC: u16 = 0x0109;

/// The complete local name, also the default device name.
pub const BLE_NAME: &'static str = "microbit";

/// Nordic Semiconductor's Bluetooth company identifier.
pub const MSP_NORDIC_COMPANY_ID: u16 = 0x0059;

/// Units of the advertising interval on the air: 625 microseconds.
pub const ADV_INTERVAL_UNIT_US: usize = 625;

/// Units of connection intervals and of the supervision timeout divisor: 25.
pub const CONN_UNIT_DIVISOR: usize = 25;

/// Microseconds in `us`, counted in units of `divisor` microseconds (rounded down).
pub open spec fn units_of_us(us: int, divisor: int) -> int {
    us / divisor
}

/// Milliseconds in `ms`, counted in units of `divisor` microseconds (rounded down).
pub open spec fn units_of_ms(ms: int, divisor: int) -> int {
    ms * 1000 / divisor
}

/// The advertising parameters as the configuration characteristic holds them:
/// the interval in units of 0.625 ms and the timeout in seconds.
#[derive(Clone, Copy, Debug, PartialEq, Eq, Structural)]
pub struct TcsAdvertisingParameters {
    pub interval: u16,
    pub timeout: u8,
}

/// Advertising parameters in plain time units.
#[derive(Clone, Copy, Debug, PartialEq, Eq, Structural)]
pub struct AdvertisingParameters {
    pub interval_ms: usize,
    pub timeout_s: usize,
}

impl AdvertisingParameters {
    pub open spec fn spec_default() -> Self {
        AdvertisingParameters { interval_ms: 380, timeout_s: 180 }
    }
}

impl Default for AdvertisingParameters {
    fn default() -> (r: Self)
        ensures
            r == Self::spec_default(),
    {
        AdvertisingParameters { interval_ms: 380, timeout_s: 180 }
    }
}

impl TcsAdvertisingParameters {
    /// Size of the packed value on the air.
    pub const SIZE: usize = 3;

    /// The packed little-endian layout: interval (2 bytes), then timeout (1 byte).
    pub open spec fn wire(self) -> Seq<u8> {
        le_bytes(self.interval as nat, 2) + le_bytes(self.timeout as nat, 1)
    }

    pub open spec fn spec_from(v: AdvertisingParameters) -> Self {
        TcsAdvertisingParameters {
            interval: units_of_ms(v.interval_ms as int, ADV_INTERVAL_UNIT_US as int) as u16,
            timeout: v.timeout_s as u8,
        }
    }

    /// Values with one encoding are equal: decoding what `as_gatt` gives returns the value.
    pub proof fn lemma_wire_injective(a: Self, b: Self)
        requires
            a.wire() == b.wire(),
        ensures
            a == b,
    {
        reveal_with_fuel(pow256, 5);
        lemma_le_bytes_len(a.interval as nat, 2);
        lemma_le_bytes_len(b.interval as nat, 2);
        lemma_le_bytes_len(a.timeout as nat, 1);
        lemma_le_bytes_len(b.timeout as nat, 1);
        lemma_split_last(
            le_bytes(a.interval as nat, 2),
            le_bytes(a.timeout as nat, 1),
            le_bytes(b.interval as nat, 2),
            le_bytes(b.timeout as nat, 1),
        );
        lemma_le_bytes_injective(a.interval as nat, b.interval as nat, 2);
        lemma_le_bytes_injective(a.timeout as nat, b.timeout as nat, 1);
    }

    pub fn as_gatt(&self) -> (r: Vec<u8>)
        ensures
            r@ == self.wire(),
    {
        let mut r: Vec<u8> = Vec::new();
        push_le(&mut r, self.interval as u128, 2);
        push_le(&mut r, self.timeout as u128, 1);
        r
    }

    pub fn from_gatt(data: &[u8]) -> (r: Result<Self, FromGattError>)
        ensures
            data@.len() == Self::SIZE <==> r is Ok,
            r is Err ==> r == Err::<Self, FromGattError>(FromGattError::InvalidLength),
            r matches Ok(v) ==> v.wire() == data@,
    {
        if data.len() != Self::SIZE {
            return Err(FromGattError::InvalidLength);
        }
        let interval = read_uint(data, 0, 2) as u16;
        let timeout = read_uint(data, 2, 1) as u8;
        assert(data@ =~= data@.subrange(0, 2) + data@.subrange(2, 3));
        Ok(TcsAdvertisingParameters { interval, timeout })
    }
}

impl From<AdvertisingParameters> for TcsAdvertisingParameters {
    fn from(value: AdvertisingParameters) -> (r: Self) {
        let us = (value.interval_ms as u128) * 1000;
        TcsAdvertisingParameters {
            interval: (us / (ADV_INTERVAL_UNIT_US as u128)) as u16,
            timeout: value.timeout_s as u8,
        }
    }
}

impl vstd::std_specs::convert::FromSpecImpl<AdvertisingParameters> for TcsAdvertisingParameters {
    open spec fn obeys_from_spec() -> bool {
        true
    }

    open spec fn from_spec(v: AdvertisingParameters) -> Self {
        Self::spec_from(v)
    }
}

impl Default for TcsAdvertisingParameters {
    fn default() -> (r: Self)
        ensures
            r == Self::spec_from(AdvertisingParameters::spec_default()),
            r == (TcsAdvertisingParameters { interval: 608, timeout: 180 }),
    {
        Self::from(AdvertisingParameters::default())
    }
}

/// The connection parameters as the configuration characteristic holds them:
/// intervals in units of 1.25 ms, latency in events, supervision timeout in
/// units of 10 ms.
#[derive(Clone, Copy, Debug, PartialEq, Eq, Structural)]
pub struct TcsConnectionParameters {
    pub min_interval: u16,
    pub max_interval: u16,
    pub slave_latency: u16,
    pub sup_timeout: u16,
}

/// Connection parameters in plain time units.
#[derive(Clone, Copy, Debug, PartialEq, Eq, Structural)]
pub struct ConnectionParameters {
    pub min_interval_us: usize,
    pub max_interval_us: usize,
    pub slave_latency: usize,
    pub sup_timeout_ms: usize,
}

impl ConnectionParameters {
    pub open spec fn spec_default() -> Self {
        ConnectionParameters {
            min_interval_us: 7_500,
            max_interval_us: 30_000,
            slave_latency: 0,
            sup_timeout_ms: 3_200,
        }
    }
}

impl Default for ConnectionParameters {
    fn default() -> (r: Self)
        ensures
            r == Self::spec_default(),
    {
        ConnectionParameters {
            min_interval_us: 7_500,
            max_interval_us: 30_000,
            slave_latency: 0,
            sup_timeout_ms: 3_200,
        }
    }
}

impl TcsConnectionParameters {
    /// Size of the packed value on the air.
    pub const SIZE: usize = 8;

    /// The packed little-endian layout: the four fields, two bytes each, in order.
    pub open spec fn wire(self) -> Seq<u8> {
        le_bytes(self.min_interval as nat, 2) + le_bytes(self.max_interval as nat, 2) + le_bytes(
            self.slave_latency as nat,
            2,
        ) + le_bytes(self.sup_timeout as nat, 2)
    }

    pub open spec fn spec_from(v: ConnectionParameters) -> Self {
        TcsConnectionParameters {
            min_interval: units_of_us(v.min_interval_us as int, CONN_UNIT_DIVISOR as int) as u16,
            max_interval: units_of_us(v.max_interval_us as int, CONN_UNIT_DIVISOR as int) as u16,
            slave_latency: v.slave_latency as u16,
            sup_timeout: units_of_ms(v.sup_timeout_ms as int, CONN_UNIT_DIVISOR as int) as u16,
        }
    }

    /// Values with one encoding are equal: decoding what `as_gatt` gives returns the value.
    pub proof fn lemma_wire_injective(a: Self, b: Self)
        requires
            a.wire() == b.wire(),
        ensures
            a == b,
    {
        reveal_with_fuel(pow256, 5);
        lemma_le_bytes_len(a.min_interval as nat, 2);
        lemma_le_bytes_len(b.min_interval as nat, 2);
        lemma_le_bytes_len(a.max_interval as nat, 2);
        lemma_le_bytes_len(b.max_interval as nat, 2);
        lemma_le_bytes_len(a.slave_latency as nat, 2);
        lemma_le_bytes_len(b.slave_latency as nat, 2);
        lemma_le_bytes_len(a.sup_timeout as nat, 2);
        lemma_le_bytes_len(b.sup_timeout as nat, 2);
        lemma_split_last(
            le_bytes(a.min_interval as nat, 2)
                + le_bytes(a.max_interval as nat, 2)
                + le_bytes(a.slave_latency as nat, 2),
            le_bytes(a.sup_timeout as nat, 2),
            le_bytes(b.min_interval as nat, 2)
                + le_bytes(b.max_interval as nat, 2)
                + le_bytes(b.slave_latency as nat, 2),
            le_bytes(b.sup_timeout as nat, 2),
        );
        lemma_split_last(
            le_bytes(a.min_interval as nat, 2) + le_bytes(a.max_interval as nat, 2),
            le_bytes(a.slave_latency as nat, 2),
            le_bytes(b.min_interval as nat, 2) + le_bytes(b.max_interval as nat, 2),
            le_bytes(b.slave_latency as nat, 2),
        );
        lemma_split_last(
            le_bytes(a.min_interval as nat, 2),
            le_bytes(a.max_interval as nat, 2),
            le_bytes(b.min_interval as nat, 2),
            le_bytes(b.max_interval as nat, 2),
        );
        lemma_le_bytes_injective(a.min_interval as nat, b.min_interval as nat, 2);
        lemma_le_bytes_injective(a.max_interval as nat, b.max_interval as nat, 2);
        lemma_le_bytes_injective(a.slave_latency as nat, b.slave_latency as nat, 2);
        lemma_le_bytes_injective(a.sup_timeout as nat, b.sup_timeout as nat, 2);
    }

    pub fn as_gatt(&self) -> (r: Vec<u8>)
        ensures
            r@ == self.wire(),
    {
        let mut r: Vec<u8> = Vec::new();
        push_le(&mut r, self.min_interval as u128, 2);
        push_le(&mut r, self.max_interval as u128, 2);
        push_le(&mut r, self.slave_latency as u128, 2);
        push_le(&mut r, self.sup_timeout as u128, 2);
        r
    }

    pub fn from_gatt(data: &[u8]) -> (r: Result<Self, FromGattError>)
        ensures
            data@.len() == Self::SIZE <==> r is Ok,
            r is Err ==> r == Err::<Self, FromGattError>(FromGattError::InvalidLength),
            r matches Ok(v) ==> v.wire() == data@,
    {
        if data.len() != Self::SIZE {
            return Err(FromGattError::InvalidLength);
        }
        let min_interval = read_uint(data, 0, 2) as u16;
        let max_interval = read_uint(data, 2, 2) as u16;
        let slave_latency = read_uint(data, 4, 2) as u16;
        let sup_timeout = read_uint(data, 6, 2) as u16;
        assert(data@ =~= data@.subrange(0, 2) + data@.subrange(2, 4) + data@.subrange(4, 6)
            + data@.subrange(6, 8));
        Ok(TcsConnectionParameters { min_interval, max_interval, slave_latency, sup_timeout })
    }
}

impl From<ConnectionParameters> for TcsConnectionParameters {
    fn from(value: ConnectionParameters) -> (r: Self) {
        let divisor = CONN_UNIT_DIVISOR as u128;
        TcsConnectionParameters {
            min_interval: ((value.min_interval_us as u128) / divisor) as u16,
            max_interval: ((value.max_interval_us as u128) / divisor) as u16,
            slave_latency: value.slave_latency as u16,
            sup_timeout: ((value.sup_timeout_ms as u128) * 1000 / divisor) as u16,
        }
    }
}

impl vstd::std_specs::convert::FromSpecImpl<ConnectionParameters> for TcsConnectionParameters {
    open spec fn obeys_from_spec() -> bool {
        true
    }

    open spec fn from_spec(v: ConnectionParameters) -> Self {
        Self::spec_from(v)
    }
}

impl Default for TcsConnectionParameters {
    fn default() -> (r: Self)
        ensures
            r == Self::spec_from(ConnectionParameters::spec_default()),
    {
        Self::from(ConnectionParameters::default())
    }
}

} // verus!
