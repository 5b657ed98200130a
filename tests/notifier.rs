use microbit_thingy::notifier::{notification_for, EnvNotifier, Reading, Signal};
use microbit_thingy::profile::{GAS_HANDLE, HUMIDITY_HANDLE, TEMPERATURE_HANDLE};

#[test]
fn sensor_sample_to_notifications() {
    let mut n = EnvNotifier::new();
    assert_eq!(n.awaiting, Signal::Co2);
    assert_eq!(n.on_reading(Reading::Co2(842)), (GAS_HANDLE, vec![0x4A, 0x03, 0x00, 0x00]));
    assert_eq!(n.awaiting, Signal::Temperature);
    assert_eq!(n.on_reading(Reading::Temperature(24)), (TEMPERATURE_HANDLE, vec![0x18, 0x00]));
    assert_eq!(n.awaiting, Signal::Humidity);
    assert_eq!(n.on_reading(Reading::Humidity(41)), (HUMIDITY_HANDLE, vec![0x29]));
    assert_eq!(n.awaiting, Signal::Co2);
}

#[test]
fn negative_temperature_notification() {
    assert_eq!(notification_for(Reading::Temperature(-1)), (TEMPERATURE_HANDLE, vec![0xFF, 0x00]));
}
