use microbit_thingy::profile::{
    ADV_PARAMS_HANDLE, BATTERY_LEVEL_HANDLE, CHARACTERISTIC_COUNT, DEVICE_NAME_HANDLE,
    FW_VERSION_HANDLE, GAS_HANDLE, LED_HANDLE, MTU_HANDLE, NFC_HANDLE, SPEAKER_HANDLE,
};
use microbit_thingy::server::{AttError, AttributeServer};

#[test]
fn defaults_visible_to_central() {
    let s = AttributeServer::new();
    assert_eq!(s.read(FW_VERSION_HANDLE), Ok(vec![0x02, 0x02, 0x00]));
    assert_eq!(s.read(MTU_HANDLE), Ok(vec![0x00, 0x17, 0x00]));
    assert_eq!(s.read(DEVICE_NAME_HANDLE), Ok(b"microbit".to_vec()));
    assert_eq!(s.read(BATTERY_LEVEL_HANDLE), Ok(vec![0x64]));
    assert_eq!(s.read(NFC_HANDLE), Ok(b"nordicsemi.com/thingy\0".to_vec()));
    assert_eq!(s.len(), CHARACTERISTIC_COUNT);
}

#[test]
fn invalid_length_write_is_refused() {
    let mut s = AttributeServer::new();
    let before = s.read(ADV_PARAMS_HANDLE).unwrap();
    assert_eq!(s.write(ADV_PARAMS_HANDLE, &[1, 2, 3, 4]), Err(AttError::InvalidLength));
    assert_eq!(s.read(ADV_PARAMS_HANDLE).unwrap(), before);
    assert_eq!(s.write(ADV_PARAMS_HANDLE, &[0x40, 0x01, 0x0A]), Ok(()));
    assert_eq!(s.read(ADV_PARAMS_HANDLE), Ok(vec![0x40, 0x01, 0x0A]));
}

#[test]
fn read_after_write_gives_value_back() {
    let mut s = AttributeServer::new();
    let led = [1u8, 2, 3, 4, 5, 6, 7, 8];
    assert_eq!(s.write(LED_HANDLE, &led), Ok(()));
    assert_eq!(s.read(LED_HANDLE), Ok(led.to_vec()));
}

#[test]
fn text_writes() {
    let mut s = AttributeServer::new();
    assert_eq!(s.write(DEVICE_NAME_HANDLE, b"thingy"), Ok(()));
    assert_eq!(s.read(DEVICE_NAME_HANDLE), Ok(b"thingy".to_vec()));
    assert_eq!(s.write(DEVICE_NAME_HANDLE, b"eleven byte"), Err(AttError::InvalidLength));
    assert_eq!(s.write(DEVICE_NAME_HANDLE, &[0xC3, 0x28]), Err(AttError::ValueNotAllowed));
    assert_eq!(s.write(DEVICE_NAME_HANDLE, "h\u{e9}".as_bytes()), Ok(()));
    assert_eq!(s.read(DEVICE_NAME_HANDLE), Ok(vec![0x68, 0xC3, 0xA9]));
}

#[test]
fn permissions_are_enforced() {
    let mut s = AttributeServer::new();
    assert_eq!(s.write(FW_VERSION_HANDLE, &[1, 2, 3]), Err(AttError::WriteNotPermitted));
    assert_eq!(s.read(GAS_HANDLE), Err(AttError::ReadNotPermitted));
    assert_eq!(s.read(SPEAKER_HANDLE), Err(AttError::ReadNotPermitted));
    assert_eq!(s.write(SPEAKER_HANDLE, &[0u8; 273]), Ok(()));
    assert_eq!(s.read(CHARACTERISTIC_COUNT), Err(AttError::InvalidHandle));
    assert_eq!(s.set_subscribed(MTU_HANDLE, true), Err(AttError::WriteNotPermitted));
}

#[test]
fn notifications_need_subscription_and_size() {
    let mut s = AttributeServer::new();
    assert_eq!(s.notify(GAS_HANDLE, &[0x4A, 0x03, 0, 0]), Ok(None));
    assert_eq!(s.set_subscribed(GAS_HANDLE, true), Ok(()));
    assert!(s.is_subscribed(GAS_HANDLE));
    assert_eq!(s.notify(GAS_HANDLE, &[0x4A, 0x03, 0, 0]), Ok(Some(vec![0x4A, 0x03, 0, 0])));
    assert_eq!(s.notify(GAS_HANDLE, &[0x4A, 0x03, 0]), Err(AttError::InvalidLength));
    assert_eq!(s.notify(MTU_HANDLE, &[0, 0, 0]), Err(AttError::WriteNotPermitted));
    s.clear_subscriptions();
    assert!(!s.is_subscribed(GAS_HANDLE));
}
