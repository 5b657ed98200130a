use microbit_thingy::configuration::{
    AdvertisingParameters, ConnectionParameters, TcsAdvertisingParameters,
    TcsConnectionParameters,
};
use microbit_thingy::environment::{
    TesColor, TesConfiguration, TesGas, TesPressure, TesTemperature,
};
use microbit_thingy::motion::TmsConfiguration;
use microbit_thingy::sound::{TssMicrophone, TssSpeaker};
use microbit_thingy::wire::FromGattError;

#[test]
fn advertising_parameters_from_plain_units() {
    let p = TcsAdvertisingParameters::from(AdvertisingParameters { interval_ms: 380, timeout_s: 180 });
    assert_eq!(p, TcsAdvertisingParameters { interval: 608, timeout: 180 });
    let q = TcsAdvertisingParameters::from(AdvertisingParameters { interval_ms: 100, timeout_s: 7 });
    assert_eq!(q, TcsAdvertisingParameters { interval: 160, timeout: 7 });
}

#[test]
fn advertising_parameters_default() {
    assert_eq!(
        TcsAdvertisingParameters::default(),
        TcsAdvertisingParameters { interval: 608, timeout: 180 }
    );
    assert_eq!(TcsAdvertisingParameters::default().as_gatt(), vec![0x60, 0x02, 0xB4]);
}

#[test]
fn connection_parameters_from_plain_units() {
    let p = TcsConnectionParameters::from(ConnectionParameters {
        min_interval_us: 7_500,
        max_interval_us: 30_000,
        slave_latency: 3,
        sup_timeout_ms: 1_000,
    });
    assert_eq!(
        p,
        TcsConnectionParameters {
            min_interval: 300,
            max_interval: 1200,
            slave_latency: 3,
            sup_timeout: 40_000
        }
    );
}

#[test]
fn connection_parameters_default_truncates_timeout() {
    let d = TcsConnectionParameters::default();
    assert_eq!(d.min_interval, 300);
    assert_eq!(d.max_interval, 1200);
    assert_eq!(d.slave_latency, 0);
    assert_eq!(d.sup_timeout, (3_200u32 * 1000 / 25) as u16);
    assert_eq!(d.as_gatt(), vec![0x2C, 0x01, 0xB0, 0x04, 0x00, 0x00, 0x00, 0xF4]);
}

#[test]
fn gas_wire_layout() {
    assert_eq!(TesGas::new(842).as_gatt(), vec![0x4A, 0x03, 0x00, 0x00]);
    assert_eq!(TesGas::from_gatt(&[0x4A, 0x03, 0x01, 0x00]), Ok(TesGas { co2_ppm: 842, tvoc_ppb: 1 }));
    assert_eq!(TesGas::from_gatt(&[0x4A, 0x03, 0x00]), Err(FromGattError::InvalidLength));
}

#[test]
fn temperature_wire_layout() {
    assert_eq!(TesTemperature::new(24).as_gatt(), vec![0x18, 0x00]);
    assert_eq!(TesTemperature::new(-5).as_gatt(), vec![0xFB, 0x00]);
    assert_eq!(
        TesTemperature::from_gatt(&[0xFB, 0x32]),
        Ok(TesTemperature { integer: -5, decimal: 50 })
    );
    assert_eq!(TesTemperature::from_gatt(&[]), Err(FromGattError::InvalidLength));
}

#[test]
fn pressure_wire_layout() {
    assert_eq!(TesPressure::new(1013).as_gatt(), vec![0xF5, 0x03, 0x00, 0x00, 0x00]);
    assert_eq!(
        TesPressure::from_gatt(&[0xFF, 0xFF, 0xFF, 0xFF, 0x01]),
        Ok(TesPressure { integer: -1, decimal: 1 })
    );
}

#[test]
fn color_round_trip() {
    let c = TesColor::new(1, 0x0203, 0xFFFF, 0x1000);
    let bytes = c.as_gatt();
    assert_eq!(bytes, vec![0x01, 0x00, 0x03, 0x02, 0xFF, 0xFF, 0x00, 0x10]);
    assert_eq!(TesColor::from_gatt(&bytes), Ok(c));
}

#[test]
fn environment_configuration_default() {
    let d = TesConfiguration::default();
    assert_eq!(
        d.as_gatt(),
        vec![0xD0, 0x07, 0xD0, 0x07, 0xD0, 0x07, 0xDC, 0x05, 0x02, 107, 78, 29]
    );
    let back = TesConfiguration::from_gatt(&d.as_gatt()).unwrap();
    assert_eq!(back.color_config, [107, 78, 29]);
    assert!(TesConfiguration::from_gatt(&[0; 11]).is_err());
}

#[test]
fn motion_configuration_default() {
    let d = TmsConfiguration::default();
    assert_eq!(d.as_gatt(), vec![0xE8, 0x03, 0xF4, 0x01, 0xF4, 0x01, 0x0A, 0x00, 0x01]);
    assert_eq!(TmsConfiguration::from_gatt(&d.as_gatt()), Ok(d));
}

#[test]
fn sound_values_have_fixed_sizes() {
    assert_eq!(TssSpeaker::default().as_gatt().len(), 273);
    assert_eq!(TssMicrophone::default().as_gatt().len(), 131);
    let data: Vec<u8> = (0..273).map(|i| i as u8).collect();
    let s = TssSpeaker::from_gatt(&data).unwrap();
    assert_eq!(s.as_gatt(), data);
    assert!(TssSpeaker::from_gatt(&data[..272]).is_err());
    assert!(TssMicrophone::from_gatt(&data[..131]).is_ok());
}

#[test]
fn advertising_parameters_round_trip_bytes() {
    let bytes = [0x10u8, 0x27, 0x05];
    let p = TcsAdvertisingParameters::from_gatt(&bytes).unwrap();
    assert_eq!(p, TcsAdvertisingParameters { interval: 10_000, timeout: 5 });
    assert_eq!(p.as_gatt(), bytes.to_vec());
    assert_eq!(
        TcsConnectionParameters::from_gatt(&[0; 7]),
        Err(FromGattError::InvalidLength)
    );
}
