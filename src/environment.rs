//! The Thingy environment service: identifiers and the packed values of its
//! characteristics.
use crate::wire::{
    lemma_le_bytes_injective,
    lemma_le_bytes_len,
    lemma_split_last,
    pow256,
    copy_into,
    le_bytes,
    push_all,
    push_le,
    read_uint,
    FromGattError,
};
use vstd::prelude::*;

verus! {

/// Thingy UUID identifiers of the service and of its characteristics.
pub const TES: u16 = 0x0200;

pub const TES_TEMPERATURE: u16 = 0x0201;

pub const TES_PRESSURE: u16 = 0x0202;

pub const TES_HUMIDITY: u16 = 0x0203;

pub const TES_GAS: u16 = 0x0204;

pub const TES_COLOR: u16 = 0x0205;

pub const TES_CONFIG: u16 = 0x0206;

/// A temperature in degrees Celsius: whole part and hundredths.
#[derive(Clone, Copy, Debug, PartialEq, Eq, Structural)]
pub struct TesTemperature {
    pub integer: i8,
    pub decimal: u8,
}

impl TesTemperature {
    pub const SIZE: usize = 2;

    pub open spec fn wire(self) -> Seq<u8> {
        le_bytes(self.integer as u8 as nat, 1) + le_bytes(self.decimal as nat, 1)
    }

    pub fn new(temperature_c: i8) -> (r: Self)
        ensures
            r == (TesTemperature { integer: temperature_c, decimal: 0 }),
    {
        TesTemperature { integer: temperature_c, decimal: 0 }
    }

    /// Values with one encoding are equal: decoding what `as_gatt` gives returns the value.
    pub proof fn lemma_wire_injective(a: Self, b: Self)
        requires
            a.wire() == b.wire(),
        ensures
            a == b,
    {
        reveal_with_fuel(pow256, 5);
        lemma_le_bytes_len(a.integer as u8 as nat, 1);
        lemma_le_bytes_len(b.integer as u8 as nat, 1);
        lemma_le_bytes_len(a.decimal as nat, 1);
        lemma_le_bytes_len(b.decimal as nat, 1);
        lemma_split_last(
            le_bytes(a.integer as u8 as nat, 1),
            le_bytes(a.decimal as nat, 1),
            le_bytes(b.integer as u8 as nat, 1),
            le_bytes(b.decimal as nat, 1),
        );
        lemma_le_bytes_injective(a.integer as u8 as nat, b.integer as u8 as nat, 1);
        let (x, y) = (a.integer, b.integer);
        assert(x as u8 == y as u8 ==> x == y) by (bit_vector);
        lemma_le_bytes_injective(a.decimal as nat, b.decimal as nat, 1);
    }

    pub fn as_gatt(&self) -> (r: Vec<u8>)
        ensures
            r@ == self.wire(),
    {
        let mut r: Vec<u8> = Vec::new();
        push_le(&mut r, self.integer as u8 as u128, 1);
        push_le(&mut r, self.decimal as u128, 1);
        r
    }

    pub fn from_gatt(data: &[u8]) -> (r: Result<Self, FromGattError>)
        ensures
            data@.len() == Self::SIZE <==> r is Ok,
            r is Err ==> r == Err::<Self, FromGattError>(FromGattError::InvalidLength),
            r matches Ok(v) ==> v.wire() == data@,
    {
        if data.len() != Self::SIZE {
            return Err(FromGattError::InvalidLength);
        }
        let raw = read_uint(data, 0, 1) as u8;
        let integer = #[verifier::truncate] (raw as i8);
        let decimal = read_uint(data, 1, 1) as u8;
        assert(#[verifier::truncate] ((#[verifier::truncate] (raw as i8)) as u8) == raw) by (bit_vector);
        assert(data@ =~= data@.subrange(0, 1) + data@.subrange(1, 2));
        Ok(TesTemperature { integer, decimal })
    }
}

/// A pressure in hectopascal: whole part and hundredths.
#[derive(Clone, Copy, Debug, PartialEq, Eq, Structural)]
pub struct TesPressure {
    pub integer: i32,
    pub decimal: u8,
}

impl TesPressure {
    pub const SIZE: usize = 5;

    pub open spec fn wire(self) -> Seq<u8> {
        le_bytes(self.integer as u32 as nat, 4) + le_bytes(self.decimal as nat, 1)
    }

    pub fn new(pressure_hpa: u16) -> (r: Self)
        ensures
            r == (TesPressure { integer: pressure_hpa as i32, decimal: 0 }),
    {
        TesPressure { integer: pressure_hpa as i32, decimal: 0 }
    }

    /// Values with one encoding are equal: decoding what `as_gatt` gives returns the value.
    pub proof fn lemma_wire_injective(a: Self, b: Self)
        requires
            a.wire() == b.wire(),
        ensures
            a == b,
    {
        reveal_with_fuel(pow256, 5);
        lemma_le_bytes_len(a.integer as u32 as nat, 4);
        lemma_le_bytes_len(b.integer as u32 as nat, 4);
        lemma_le_bytes_len(a.decimal as nat, 1);
        lemma_le_bytes_len(b.decimal as nat, 1);
        lemma_split_last(
            le_bytes(a.integer as u32 as nat, 4),
            le_bytes(a.decimal as nat, 1),
            le_bytes(b.integer as u32 as nat, 4),
            le_bytes(b.decimal as nat, 1),
        );
        lemma_le_bytes_injective(a.integer as u32 as nat, b.integer as u32 as nat, 4);
        let (x, y) = (a.integer, b.integer);
        assert(x as u32 == y as u32 ==> x == y) by (bit_vector);
        lemma_le_bytes_injective(a.decimal as nat, b.decimal as nat, 1);
    }

    pub fn as_gatt(&self) -> (r: Vec<u8>)
        ensures
            r@ == self.wire(),
    {
        let mut r: Vec<u8> = Vec::new();
        push_le(&mut r, self.integer as u32 as u128, 4);
        push_le(&mut r, self.decimal as u128, 1);
        r
    }

    pub fn from_gatt(data: &[u8]) -> (r: Result<Self, FromGattError>)
        ensures
            data@.len() == Self::SIZE <==> r is Ok,
            r is Err ==> r == Err::<Self, FromGattError>(FromGattError::InvalidLength),
            r matches Ok(v) ==> v.wire() == data@,
    {
        if data.len() != Self::SIZE {
            return Err(FromGattError::InvalidLength);
        }
        let raw = read_uint(data, 0, 4) as u32;
        let integer = #[verifier::truncate] (raw as i32);
        let decimal = read_uint(data, 4, 1) as u8;
        assert(#[verifier::truncate] ((#[verifier::truncate] (raw as i32)) as u32) == raw) by (bit_vector);
        assert(data@ =~= data@.subrange(0, 4) + data@.subrange(4, 5));
        Ok(TesPressure { integer, decimal })
    }
}

/// Gas readings: CO2 in ppm and total volatile organic compounds in ppb.
#[derive(Clone, Copy, Debug, PartialEq, Eq, Structural)]
pub struct TesGas {
    pub co2_ppm: u16,
    pub tvoc_ppb: u16,
}

impl TesGas {
    pub const SIZE: usize = 4;

    pub open spec fn wire(self) -> Seq<u8> {
        le_bytes(self.co2_ppm as nat, 2) + le_bytes(self.tvoc_ppb as nat, 2)
    }

    pub fn new(co2_ppm: u16) -> (r: Self)
        ensures
            r == (TesGas { co2_ppm, tvoc_ppb: 0 }),
    {
        TesGas { co2_ppm, tvoc_ppb: 0 }
    }

    /// Values with one encoding are equal: decoding what `as_gatt` gives returns the value.
    pub proof fn lemma_wire_injective(a: Self, b: Self)
        requires
            a.wire() == b.wire(),
        ensures
            a == b,
    {
        reveal_with_fuel(pow256, 5);
        lemma_le_bytes_len(a.co2_ppm as nat, 2);
        lemma_le_bytes_len(b.co2_ppm as nat, 2);
        lemma_le_bytes_len(a.tvoc_ppb as nat, 2);
        lemma_le_bytes_len(b.tvoc_ppb as nat, 2);
        lemma_split_last(
            le_bytes(a.co2_ppm as nat, 2),
            le_bytes(a.tvoc_ppb as nat, 2),
            le_bytes(b.co2_ppm as nat, 2),
            le_bytes(b.tvoc_ppb as nat, 2),
        );
        lemma_le_bytes_injective(a.co2_ppm as nat, b.co2_ppm as nat, 2);
        lemma_le_bytes_injective(a.tvoc_ppb as nat, b.tvoc_ppb as nat, 2);
    }

    pub fn as_gatt(&self) -> (r: Vec<u8>)
        ensures
            r@ == self.wire(),
    {
        let mut r: Vec<u8> = Vec::new();
        push_le(&mut r, self.co2_ppm as u128, 2);
        push_le(&mut r, self.tvoc_ppb as u128, 2);
        r
    }

    pub fn from_gatt(data: &[u8]) -> (r: Result<Self, FromGattError>)
        ensures
            data@.len() == Self::SIZE <==> r is Ok,
            r is Err ==> r == Err::<Self, FromGattError>(FromGattError::InvalidLength),
            r matches Ok(v) ==> v.wire() == data@,
    {
        if data.len() != Self::SIZE {
            return Err(FromGattError::InvalidLength);
        }
        let co2_ppm = read_uint(data, 0, 2) as u16;
        let tvoc_ppb = read_uint(data, 2, 2) as u16;
        assert(data@ =~= data@.subrange(0, 2) + data@.subrange(2, 4));
        Ok(TesGas { co2_ppm, tvoc_ppb })
    }
}

/// Colour sensor channels.
#[derive(Clone, Copy, Debug, PartialEq, Eq, Structural)]
pub struct TesColor {
    pub red: u16,
    pub green: u16,
    pub blue: u16,
    pub clear: u16,
}

impl TesColor {
    pub const SIZE: usize = 8;

    pub open spec fn wire(self) -> Seq<u8> {
        le_bytes(self.red as nat, 2) + le_bytes(self.green as nat, 2) + le_bytes(
            self.blue as nat,
            2,
        ) + le_bytes(self.clear as nat, 2)
    }

    pub fn new(red: u16, green: u16, blue: u16, clear: u16) -> (r: Self)
        ensures
            r == (TesColor { red, green, blue, clear }),
    {
        TesColor { red, green, blue, clear }
    }

    /// Values with one encoding are equal: decoding what `as_gatt` gives returns the value.
    pub proof fn lemma_wire_injective(a: Self, b: Self)
        requires
            a.wire() == b.wire(),
        ensures
            a == b,
    {
        reveal_with_fuel(pow256, 5);
        lemma_le_bytes_len(a.red as nat, 2);
        lemma_le_bytes_len(b.red as nat, 2);
        lemma_le_bytes_len(a.green as nat, 2);
        lemma_le_bytes_len(b.green as nat, 2);
        lemma_le_bytes_len(a.blue as nat, 2);
        lemma_le_bytes_len(b.blue as nat, 2);
        lemma_le_bytes_len(a.clear as nat, 2);
        lemma_le_bytes_len(b.clear as nat, 2);
        lemma_split_last(
            le_bytes(a.red as nat, 2) + le_bytes(a.green as nat, 2) + le_bytes(a.blue as nat, 2),
            le_bytes(a.clear as nat, 2),
            le_bytes(b.red as nat, 2) + le_bytes(b.green as nat, 2) + le_bytes(b.blue as nat, 2),
            le_bytes(b.clear as nat, 2),
        );
        lemma_split_last(
            le_bytes(a.red as nat, 2) + le_bytes(a.green as nat, 2),
            le_bytes(a.blue as nat, 2),
            le_bytes(b.red as nat, 2) + le_bytes(b.green as nat, 2),
            le_bytes(b.blue as nat, 2),
        );
        lemma_split_last(
            le_bytes(a.red as nat, 2),
            le_bytes(a.green as nat, 2),
            le_bytes(b.red as nat, 2),
            le_bytes(b.green as nat, 2),
        );
        lemma_le_bytes_injective(a.red as nat, b.red as nat, 2);
        lemma_le_bytes_injective(a.green as nat, b.green as nat, 2);
        lemma_le_bytes_injective(a.blue as nat, b.blue as nat, 2);
        lemma_le_bytes_injective(a.clear as nat, b.clear as nat, 2);
    }

    pub fn as_gatt(&self) -> (r: Vec<u8>)
        ensures
            r@ == self.wire(),
    {
        let mut r: Vec<u8> = Vec::new();
        push_le(&mut r, self.red as u128, 2);
        push_le(&mut r, self.green as u128, 2);
        push_le(&mut r, self.blue as u128, 2);
        push_le(&mut r, self.clear as u128, 2);
        r
    }

    pub fn from_gatt(data: &[u8]) -> (r: Result<Self, FromGattError>)
        ensures
            data@.len() == Self::SIZE <==> r is Ok,
            r is Err ==> r == Err::<Self, FromGattError>(FromGattError::InvalidLength),
            r matches Ok(v) ==> v.wire() == data@,
    {
        if data.len() != Self::SIZE {
            return Err(FromGattError::InvalidLength);
        }
        let red = read_uint(data, 0, 2) as u16;
        let green = read_uint(data, 2, 2) as u16;
        let blue = read_uint(data, 4, 2) as u16;
        let clear = read_uint(data, 6, 2) as u16;
        assert(data@ =~= data@.subrange(0, 2) + data@.subrange(2, 4) + data@.subrange(4, 6)
            + data@.subrange(6, 8));
        Ok(TesColor { red, green, blue, clear })
    }
}

/// Sampling intervals of the environment sensors, the gas sensor mode and the
/// colour sensor's LED configuration.
#[derive(Clone, Copy, Debug)]
pub struct TesConfiguration {
    pub temperature_interval_ms: u16,
    pub pressure_interval_ms: u16,
    pub humidity_interval_ms: u16,
    pub color_interval_ms: u16,
    pub gas_interval_mode: u8,
    pub color_config: [u8; 3],
}

impl TesConfiguration {
    pub const SIZE: usize = 12;

    pub open spec fn wire(self) -> Seq<u8> {
        le_bytes(self.temperature_interval_ms as nat, 2) + le_bytes(
            self.pressure_interval_ms as nat,
            2,
        ) + le_bytes(self.humidity_interval_ms as nat, 2) + le_bytes(
            self.color_interval_ms as nat,
            2,
        ) + le_bytes(self.gas_interval_mode as nat, 1) + self.color_config@
    }

    /// Values with one encoding are equal: decoding what `as_gatt` gives returns the value.
    pub proof fn lemma_wire_injective(a: Self, b: Self)
        requires
            a.wire() == b.wire(),
        ensures
            a == b,
    {
        reveal_with_fuel(pow256, 5);
        lemma_le_bytes_len(a.temperature_interval_ms as nat, 2);
        lemma_le_bytes_len(b.temperature_interval_ms as nat, 2);
        lemma_le_bytes_len(a.pressure_interval_ms as nat, 2);
        lemma_le_bytes_len(b.pressure_interval_ms as nat, 2);
        lemma_le_bytes_len(a.humidity_interval_ms as nat, 2);
        lemma_le_bytes_len(b.humidity_interval_ms as nat, 2);
        lemma_le_bytes_len(a.color_interval_ms as nat, 2);
        lemma_le_bytes_len(b.color_interval_ms as nat, 2);
        lemma_le_bytes_len(a.gas_interval_mode as nat, 1);
        lemma_le_bytes_len(b.gas_interval_mode as nat, 1);
        lemma_split_last(
            le_bytes(a.temperature_interval_ms as nat, 2)
                + le_bytes(a.pressure_interval_ms as nat, 2)
                + le_bytes(a.humidity_interval_ms as nat, 2)
                + le_bytes(a.color_interval_ms as nat, 2)
                + le_bytes(a.gas_interval_mode as nat, 1),
            a.color_config@,
            le_bytes(b.temperature_interval_ms as nat, 2)
                + le_bytes(b.pressure_interval_ms as nat, 2)
                + le_bytes(b.humidity_interval_ms as nat, 2)
                + le_bytes(b.color_interval_ms as nat, 2)
                + le_bytes(b.gas_interval_mode as nat, 1),
            b.color_config@,
        );
        lemma_split_last(
            le_bytes(a.temperature_interval_ms as nat, 2)
                + le_bytes(a.pressure_interval_ms as nat, 2)
                + le_bytes(a.humidity_interval_ms as nat, 2)
                + le_bytes(a.color_interval_ms as nat, 2),
            le_bytes(a.gas_interval_mode as nat, 1),
            le_bytes(b.temperature_interval_ms as nat, 2)
                + le_bytes(b.pressure_interval_ms as nat, 2)
                + le_bytes(b.humidity_interval_ms as nat, 2)
                + le_bytes(b.color_interval_ms as nat, 2),
            le_bytes(b.gas_interval_mode as nat, 1),
        );
        lemma_split_last(
            le_bytes(a.temperature_interval_ms as nat, 2)
                + le_bytes(a.pressure_interval_ms as nat, 2)
                + le_bytes(a.humidity_interval_ms as nat, 2),
            le_bytes(a.color_interval_ms as nat, 2),
            le_bytes(b.temperature_interval_ms as nat, 2)
                + le_bytes(b.pressure_interval_ms as nat, 2)
                + le_bytes(b.humidity_interval_ms as nat, 2),
            le_bytes(b.color_interval_ms as nat, 2),
        );
        lemma_split_last(
            le_bytes(a.temperature_interval_ms as nat, 2)
                + le_bytes(a.pressure_interval_ms as nat, 2),
            le_bytes(a.humidity_interval_ms as nat, 2),
            le_bytes(b.temperature_interval_ms as nat, 2)
                + le_bytes(b.pressure_interval_ms as nat, 2),
            le_bytes(b.humidity_interval_ms as nat, 2),
        );
        lemma_split_last(
            le_bytes(a.temperature_interval_ms as nat, 2),
            le_bytes(a.pressure_interval_ms as nat, 2),
            le_bytes(b.temperature_interval_ms as nat, 2),
            le_bytes(b.pressure_interval_ms as nat, 2),
        );
        lemma_le_bytes_injective(a.temperature_interval_ms as nat, b.temperature_interval_ms as nat, 2);
        lemma_le_bytes_injective(a.pressure_interval_ms as nat, b.pressure_interval_ms as nat, 2);
        lemma_le_bytes_injective(a.humidity_interval_ms as nat, b.humidity_interval_ms as nat, 2);
        lemma_le_bytes_injective(a.color_interval_ms as nat, b.color_interval_ms as nat, 2);
        lemma_le_bytes_injective(a.gas_interval_mode as nat, b.gas_interval_mode as nat, 1);
        assert(a.color_config == b.color_config);
    }

    pub fn as_gatt(&self) -> (r: Vec<u8>)
        ensures
            r@ == self.wire(),
    {
        let mut r: Vec<u8> = Vec::new();
        push_le(&mut r, self.temperature_interval_ms as u128, 2);
        push_le(&mut r, self.pressure_interval_ms as u128, 2);
        push_le(&mut r, self.humidity_interval_ms as u128, 2);
        push_le(&mut r, self.color_interval_ms as u128, 2);
        push_le(&mut r, self.gas_interval_mode as u128, 1);
        push_all(&mut r, self.color_config.as_slice());
        r
    }

    pub fn from_gatt(data: &[u8]) -> (r: Result<Self, FromGattError>)
        ensures
            data@.len() == Self::SIZE <==> r is Ok,
            r is Err ==> r == Err::<Self, FromGattError>(FromGattError::InvalidLength),
            r matches Ok(v) ==> v.wire() == data@,
    {
        if data.len() != Self::SIZE {
            return Err(FromGattError::InvalidLength);
        }
        let temperature_interval_ms = read_uint(data, 0, 2) as u16;
        let pressure_interval_ms = read_uint(data, 2, 2) as u16;
        let humidity_interval_ms = read_uint(data, 4, 2) as u16;
        let color_interval_ms = read_uint(data, 6, 2) as u16;
        let gas_interval_mode = read_uint(data, 8, 1) as u8;
        let mut color_config = [0u8; 3];
        copy_into(&mut color_config, data, 9);
        assert(data@ =~= data@.subrange(0, 2) + data@.subrange(2, 4) + data@.subrange(4, 6)
            + data@.subrange(6, 8) + data@.subrange(8, 9) + data@.subrange(9, 12));
        Ok(
            TesConfiguration {
                temperature_interval_ms,
                pressure_interval_ms,
                humidity_interval_ms,
                color_interval_ms,
                gas_interval_mode,
                color_config,
            },
        )
    }
}

impl Default for TesConfiguration {
    fn default() -> (r: Self)
        ensures
            r.temperature_interval_ms == 2000,
            r.pressure_interval_ms == 2000,
            r.humidity_interval_ms == 2000,
            r.color_interval_ms == 1500,
            r.gas_interval_mode == 2,
            r.color_config@ == seq![107u8, 78, 29],
    {
        let r = TesConfiguration {
            temperature_interval_ms: 2000,
            pressure_interval_ms: 2000,
            humidity_interval_ms: 2000,
            color_interval_ms: 1500,
            gas_interval_mode: 2,
            color_config: [107, 78, 29],
        };
        assert(r.color_config@ =~= seq![107u8, 78, 29]);
        r
    }
}

} // verus!
