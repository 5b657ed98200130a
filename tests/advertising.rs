use microbit_thingy::advertising::{advertising_data, encode_slice, scan_response_data, AdField, AdvError};

#[test]
fn advertising_payload() {
    let adv = advertising_data().unwrap();
    assert_eq!(&adv[..3], &[0x02, 0x01, 0x06]);
    assert_eq!(&adv[3..5], &[0x11, 0x07]);
    assert_eq!(
        &adv[5..21],
        &[
            0x42, 0x00, 0x74, 0xA9, 0xFF, 0x52, 0x10, 0x9B, 0x33, 0x49, 0x35, 0x9B, 0x00, 0x01,
            0x68, 0xEF
        ]
    );
    assert_eq!(&adv[21..23], &[0x09, 0x09]);
    assert_eq!(&adv[23..], b"microbit");
    assert_eq!(adv.len(), 31);
}

#[test]
fn scan_response_payload() {
    let sr = scan_response_data().unwrap();
    assert_eq!(sr, vec![0x07, 0xFF, 0x59, 0x00, 0x01, 0x02, 0x03, 0x04]);
}

#[test]
fn oversized_payload_is_refused() {
    let fields = vec![
        AdField::Flags(0x06),
        AdField::CompleteLocalName(b"a name that is far too long".to_vec()),
    ];
    assert_eq!(encode_slice(&fields), Err(AdvError::InsufficientSpace));
    let short = vec![AdField::CompleteLocalName(b"ok".to_vec())];
    assert_eq!(encode_slice(&short), Ok(vec![0x03, 0x09, b'o', b'k']));
}
