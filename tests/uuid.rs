use microbit_thingy::configuration::TCS;
use microbit_thingy::environment::TES_GAS;
use microbit_thingy::uuid::ThingyUuid;

#[test]
fn configuration_service_uuid() {
    assert_eq!(
        ThingyUuid(TCS).into_u128(),
        0xEF68_0100_9B35_4933_9B10_52FF_A974_0042
    );
}

#[test]
fn uuid_text_form_matches() {
    for id in [0x0000u16, 0x0204, 0x040A, 0xFFFF] {
        let text = format!("EF68{:04X}9B3549339B1052FFA9740042", id);
        assert_eq!(ThingyUuid(id).into_u128(), u128::from_str_radix(&text, 16).unwrap());
    }
}

#[test]
fn uuid_bytes_are_little_endian() {
    let bytes = ThingyUuid(TES_GAS).to_le_bytes();
    assert_eq!(
        bytes,
        vec![
            0x42, 0x00, 0x74, 0xA9, 0xFF, 0x52, 0x10, 0x9B, 0x33, 0x49, 0x35, 0x9B, 0x04, 0x02,
            0x68, 0xEF
        ]
    );
}
