//! The GATT profile: every characteristic of the Thingy services with its
//! UUID, permissions, value size and default value, in attribute-table order.
use crate::configuration::{
    AdvertisingParameters, ConnectionParameters, TcsAdvertisingParameters,
    TcsConnectionParameters, TCS, TCS_ADV_PARAMS, TCS_BEACON_DATA, TCS_CLOUD_DATA,
    TCS_CONN_PARAMS, TCS_DEVICE_NAME, TCS_FW_VERSION, TCS_MTU, TCS_NFC,
};
use crate::environment::{
    TesConfiguration, TES, TES_COLOR, TES_CONFIG, TES_GAS, TES_HUMIDITY, TES_PRESSURE,
    TES_TEMPERATURE,
};
use crate::motion::{
    TmsConfiguration, TMS, TMS_CONFIG, TMS_EULER, TMS_GRAVITY, TMS_HEADING, TMS_ORIENTATION,
    TMS_PEDOMETER, TMS_QUATERNION, TMS_RAW, TMS_ROTATION_MATRIX, TMS_TAP,
};
use crate::sound::{TSS, TSS_CONFIG, TSS_MICROPHONE, TSS_SPEAKER, TSS_SPEAKER_STATUS};
use vstd::prelude::*;

verus! {

/// A characteristic or service UUID: a Thingy identifier, or a 16-bit
/// Bluetooth SIG assigned number.
#[derive(Clone, Copy, Debug, PartialEq, Eq, Structural)]
pub enum AttUuid {
    Thingy(u16),
    Sig(u16),
}

/// What a central may do with a characteristic.
#[derive(Clone, Copy, Debug, PartialEq, Eq, Structural)]
pub struct Properties {
    pub read: bool,
    pub write: bool,
    pub write_without_response: bool,
    pub notify: bool,
}

/// The bytes a characteristic value takes: exactly `n` for a packed value, at
/// most `n` of UTF-8 for text.
#[derive(Clone, Copy, Debug, PartialEq, Eq, Structural)]
pub enum ValueSize {
    Fixed(usize),
    Text(usize),
}

#[derive(Clone, Copy, Debug, PartialEq, Eq, Structural)]
pub struct Characteristic {
    pub service: AttUuid,
    pub uuid: AttUuid,
    pub props: Properties,
    pub size: ValueSize,
}

/// The Bluetooth SIG battery service and battery level characteristic.
pub const BATTERY_SERVICE: u16 = 0x180F;

pub const BATTERY_LEVEL: u16 = 0x2A19;

/// Thingy UUID identifiers of the user interface service and its characteristics.
pub const TUS: u16 = 0x0300;

pub const TUS_LED: u16 = 0x0301;

pub const TUS_BUTTON: u16 = 0x0302;

pub const TUS_PIN: u16 = 0x0303;

/// Handles: each characteristic's place in the attribute table.
pub const DEVICE_NAME_HANDLE: usize = 0;

pub const ADV_PARAMS_HANDLE: usize = 1;

pub const CONN_PARAMS_HANDLE: usize = 2;

pub const BEACON_DATA_HANDLE: usize = 3;

pub const CLOUD_DATA_HANDLE: usize = 4;

pub const FW_VERSION_HANDLE: usize = 5;

pub const MTU_HANDLE: usize = 6;

pub const NFC_HANDLE: usize = 7;

pub const TEMPERATURE_HANDLE: usize = 8;

pub const PRESSURE_HANDLE: usize = 9;

pub const HUMIDITY_HANDLE: usize = 10;

pub const GAS_HANDLE: usize = 11;

pub const COLOR_HANDLE: usize = 12;

pub const ENV_CONFIG_HANDLE: usize = 13;

pub const BUTTON_HANDLE: usize = 14;

pub const LED_HANDLE: usize = 15;

pub const PIN_HANDLE: usize = 16;

pub const SOUND_CONFIG_HANDLE: usize = 17;

pub const SPEAKER_HANDLE: usize = 18;

pub const SPEAKER_STATUS_HANDLE: usize = 19;

pub const MICROPHONE_HANDLE: usize = 20;

pub const MOTION_CONFIG_HANDLE: usize = 21;

pub const TAP_HANDLE: usize = 22;

pub const ORIENTATION_HANDLE: usize = 23;

pub const QUATERNION_HANDLE: usize = 24;

pub const PEDOMETER_HANDLE: usize = 25;

pub const RAW_MOTION_HANDLE: usize = 26;

pub const EULER_HANDLE: usize = 27;

pub const ROTATION_MATRIX_HANDLE: usize = 28;

pub const HEADING_HANDLE: usize = 29;

pub const GRAVITY_HANDLE: usize = 30;

pub const BATTERY_LEVEL_HANDLE: usize = 31;

/// Number of characteristics in the profile.
pub const CHARACTERISTIC_COUNT: usize = 32;

pub open spec fn rw() -> Properties {
    Properties { read: true, write: true, write_without_response: false, notify: false }
}

pub open spec fn ro() -> Properties {
    Properties { read: true, write: false, write_without_response: false, notify: false }
}

pub open spec fn notify_only() -> Properties {
    Properties { read: false, write: false, write_without_response: false, notify: true }
}

pub open spec fn write_no_response() -> Properties {
    Properties { read: false, write: false, write_without_response: true, notify: false }
}

pub open spec fn read_notify() -> Properties {
    Properties { read: true, write: false, write_without_response: false, notify: true }
}

pub open spec fn ch(service: u16, id: u16, props: Properties, size: ValueSize) -> Characteristic {
    Characteristic {
        service: AttUuid::Thingy(service),
        uuid: AttUuid::Thingy(id),
        props,
        size,
    }
}

/// The characteristics of the profile, in handle order.
pub open spec fn profile() -> Seq<Characteristic> {
    seq![
        ch(TCS, TCS_DEVICE_NAME, rw(), ValueSize::Text(10)),
        ch(TCS, TCS_ADV_PARAMS, rw(), ValueSize::Fixed(3)),
        ch(TCS, TCS_CONN_PARAMS, rw(), ValueSize::Fixed(8)),
        ch(TCS, TCS_BEACON_DATA, rw(), ValueSize::Text(14)),
        ch(TCS, TCS_CLOUD_DATA, rw(), ValueSize::Text(20)),
        ch(TCS, TCS_FW_VERSION, ro(), ValueSize::Fixed(3)),
        ch(TCS, TCS_MTU, rw(), ValueSize::Fixed(3)),
        ch(TCS, TCS_NFC, rw(), ValueSize::Text(22)),
        ch(TES, TES_TEMPERATURE, notify_only(), ValueSize::Fixed(2)),
        ch(TES, TES_PRESSURE, notify_only(), ValueSize::Fixed(5)),
        ch(TES, TES_HUMIDITY, notify_only(), ValueSize::Fixed(1)),
        ch(TES, TES_GAS, notify_only(), ValueSize::Fixed(4)),
        ch(TES, TES_COLOR, notify_only(), ValueSize::Fixed(8)),
        ch(TES, TES_CONFIG, rw(), ValueSize::Fixed(12)),
        ch(TUS, TUS_BUTTON, notify_only(), ValueSize::Fixed(1)),
        ch(TUS, TUS_LED, rw(), ValueSize::Fixed(8)),
        ch(TUS, TUS_PIN, rw(), ValueSize::Fixed(4)),
        ch(TSS, TSS_CONFIG, rw(), ValueSize::Fixed(8)),
        ch(TSS, TSS_SPEAKER, write_no_response(), ValueSize::Fixed(273)),
        ch(TSS, TSS_SPEAKER_STATUS, notify_only(), ValueSize::Fixed(1)),
        ch(TSS, TSS_MICROPHONE, notify_only(), ValueSize::Fixed(131)),
        ch(TMS, TMS_CONFIG, rw(), ValueSize::Fixed(9)),
        ch(TMS, TMS_TAP, notify_only(), ValueSize::Fixed(2)),
        ch(TMS, TMS_ORIENTATION, notify_only(), ValueSize::Fixed(1)),
        ch(TMS, TMS_QUATERNION, notify_only(), ValueSize::Fixed(16)),
        ch(TMS, TMS_PEDOMETER, notify_only(), ValueSize::Fixed(8)),
        ch(TMS, TMS_RAW, notify_only(), ValueSize::Fixed(18)),
        ch(TMS, TMS_EULER, notify_only(), ValueSize::Fixed(12)),
        ch(TMS, TMS_ROTATION_MATRIX, notify_only(), ValueSize::Fixed(18)),
        ch(TMS, TMS_HEADING, notify_only(), ValueSize::Fixed(4)),
        ch(TMS, TMS_GRAVITY, notify_only(), ValueSize::Fixed(12)),
        Characteristic {
            service: AttUuid::Sig(BATTERY_SERVICE),
            uuid: AttUuid::Sig(BATTERY_LEVEL),
            props: read_notify(),
            size: ValueSize::Fixed(1),
        },
    ]
}

pub open spec fn zeros(n: nat) -> Seq<u8> {
    Seq::new(n, |i: int| 0u8)
}

/// `microbit`
pub open spec fn default_device_name() -> Seq<u8> {
    seq![0x6du8, 0x69, 0x63, 0x72, 0x6f, 0x62, 0x69, 0x74]
}

/// `\x03goo.gl/pIWdir`
pub open spec fn default_beacon_data() -> Seq<u8> {
    seq![0x03u8, 0x67, 0x6f, 0x6f, 0x2e, 0x67, 0x6c, 0x2f, 0x70, 0x49, 0x57, 0x64, 0x69, 0x72]
}

/// `nordicsemi.com/thingy\0`
pub open spec fn default_nfc() -> Seq<u8> {
    seq![
        0x6eu8, 0x6f, 0x72, 0x64, 0x69, 0x63, 0x73, 0x65, 0x6d, 0x69, 0x2e, 0x63, 0x6f, 0x6d,
        0x2f, 0x74, 0x68, 0x69, 0x6e, 0x67, 0x79, 0x00
    ]
}

/// The value each characteristic holds at boot, in handle order.
pub open spec fn default_values() -> Seq<Seq<u8>> {
    seq![
        default_device_name(),
        TcsAdvertisingParameters::spec_from(AdvertisingParameters::spec_default()).wire(),
        TcsConnectionParameters::spec_from(ConnectionParameters::spec_default()).wire(),
        default_beacon_data(),
        Seq::empty(),
        seq![0x02u8, 0x02, 0x00],
        seq![0x00u8, 0x17, 0x00],
        default_nfc(),
        zeros(2),
        zeros(5),
        zeros(1),
        zeros(4),
        zeros(8),
        default_env_config(),
        zeros(1),
        zeros(8),
        zeros(4),
        zeros(8),
        zeros(273),
        zeros(1),
        zeros(131),
        default_motion_config(),
        zeros(2),
        zeros(1),
        zeros(16),
        zeros(8),
        zeros(18),
        zeros(12),
        zeros(18),
        zeros(4),
        zeros(12),
        seq![100u8],
    ]
}

pub open spec fn default_env_config() -> Seq<u8> {
    TesConfiguration {
        temperature_interval_ms: 2000,
        pressure_interval_ms: 2000,
        humidity_interval_ms: 2000,
        color_interval_ms: 1500,
        gas_interval_mode: 2,
        color_config: [107u8, 78, 29],
    }.wire()
}

pub open spec fn default_motion_config() -> Seq<u8> {
    TmsConfiguration {
        pedometer_interval_ms: 1000,
        temperature_interval_ms: 500,
        compass_interval_ms: 500,
        motion_frequency_hz: 10,
        wake_on_motion: 1,
    }.wire()
}

/// The handles of the configuration service's characteristics.
#[derive(Clone, Copy, Debug, PartialEq, Eq, Structural)]
pub struct ThingyConfigurationService {
    pub device_name: usize,
    pub adv_params: usize,
    pub conn_params: usize,
    pub beacon_data: usize,
    pub token_data: usize,
    pub fw_version: usize,
    pub mtu: usize,
    pub nfc: usize,
}

/// The handles of the environment service's characteristics.
#[derive(Clone, Copy, Debug, PartialEq, Eq, Structural)]
pub struct ThingyEnvironmentService {
    pub temperature: usize,
    pub pressure: usize,
    pub humidity: usize,
    pub gas: usize,
    pub color: usize,
    pub config: usize,
}

/// The handles of the user interface service's characteristics.
#[derive(Clone, Copy, Debug, PartialEq, Eq, Structural)]
pub struct ThingyUiService {
    pub button: usize,
    pub led: usize,
    pub pin: usize,
}

/// The handles of the sound service's characteristics.
#[derive(Clone, Copy, Debug, PartialEq, Eq, Structural)]
pub struct ThingySoundService {
    pub configuration: usize,
    pub speaker: usize,
    pub speaker_status: usize,
    pub microphone: usize,
}

/// The handles of the motion service's characteristics.
#[derive(Clone, Copy, Debug, PartialEq, Eq, Structural)]
pub struct ThingyMotionService {
    pub config: usize,
    pub tap: usize,
    pub orientation: usize,
    pub quaternion: usize,
    pub pedometer: usize,
    pub raw: usize,
    pub euler: usize,
    pub rotation_matrix: usize,
    pub heading: usize,
    pub gravity: usize,
}

/// The handle of the battery service's level characteristic.
#[derive(Clone, Copy, Debug, PartialEq, Eq, Structural)]
pub struct BatteryService {
    pub level: usize,
}

impl ThingyConfigurationService {
    pub fn new() -> (r: Self)
        ensures
            r.device_name == DEVICE_NAME_HANDLE && r.adv_params == ADV_PARAMS_HANDLE
                && r.conn_params == CONN_PARAMS_HANDLE && r.beacon_data == BEACON_DATA_HANDLE
                && r.token_data == CLOUD_DATA_HANDLE && r.fw_version == FW_VERSION_HANDLE
                && r.mtu == MTU_HANDLE && r.nfc == NFC_HANDLE,
    {
        ThingyConfigurationService {
            device_name: DEVICE_NAME_HANDLE,
            adv_params: ADV_PARAMS_HANDLE,
            conn_params: CONN_PARAMS_HANDLE,
            beacon_data: BEACON_DATA_HANDLE,
            token_data: CLOUD_DATA_HANDLE,
            fw_version: FW_VERSION_HANDLE,
            mtu: MTU_HANDLE,
            nfc: NFC_HANDLE,
        }
    }
}

impl ThingyEnvironmentService {
    pub fn new() -> (r: Self)
        ensures
            r.temperature == TEMPERATURE_HANDLE && r.pressure == PRESSURE_HANDLE && r.humidity
                == HUMIDITY_HANDLE && r.gas == GAS_HANDLE && r.color == COLOR_HANDLE && r.config
                == ENV_CONFIG_HANDLE,
    {
        ThingyEnvironmentService {
            temperature: TEMPERATURE_HANDLE,
            pressure: PRESSURE_HANDLE,
            humidity: HUMIDITY_HANDLE,
            gas: GAS_HANDLE,
            color: COLOR_HANDLE,
            config: ENV_CONFIG_HANDLE,
        }
    }
}

impl ThingyUiService {
    pub fn new() -> (r: Self)
        ensures
            r.button == BUTTON_HANDLE && r.led == LED_HANDLE && r.pin == PIN_HANDLE,
    {
        ThingyUiService { button: BUTTON_HANDLE, led: LED_HANDLE, pin: PIN_HANDLE }
    }
}

impl ThingySoundService {
    pub fn new() -> (r: Self)
        ensures
            r.configuration == SOUND_CONFIG_HANDLE && r.speaker == SPEAKER_HANDLE
                && r.speaker_status == SPEAKER_STATUS_HANDLE && r.microphone == MICROPHONE_HANDLE,
    {
        ThingySoundService {
            configuration: SOUND_CONFIG_HANDLE,
            speaker: SPEAKER_HANDLE,
            speaker_status: SPEAKER_STATUS_HANDLE,
            microphone: MICROPHONE_HANDLE,
        }
    }
}

impl ThingyMotionService {
    pub fn new() -> (r: Self)
        ensures
            r.config == MOTION_CONFIG_HANDLE && r.tap == TAP_HANDLE && r.orientation
                == ORIENTATION_HANDLE && r.quaternion == QUATERNION_HANDLE && r.pedometer
                == PEDOMETER_HANDLE && r.raw == RAW_MOTION_HANDLE && r.euler == EULER_HANDLE
                && r.rotation_matrix == ROTATION_MATRIX_HANDLE && r.heading == HEADING_HANDLE
                && r.gravity == GRAVITY_HANDLE,
    {
        ThingyMotionService {
            config: MOTION_CONFIG_HANDLE,
            tap: TAP_HANDLE,
            orientation: ORIENTATION_HANDLE,
            quaternion: QUATERNION_HANDLE,
            pedometer: PEDOMETER_HANDLE,
            raw: RAW_MOTION_HANDLE,
            euler: EULER_HANDLE,
            rotation_matrix: ROTATION_MATRIX_HANDLE,
            heading: HEADING_HANDLE,
            gravity: GRAVITY_HANDLE,
        }
    }
}

impl BatteryService {
    pub fn new() -> (r: Self)
        ensures
            r.level == BATTERY_LEVEL_HANDLE,
    {
        BatteryService { level: BATTERY_LEVEL_HANDLE }
    }
}

} // verus!
