use webauthn_client::assertion::authenticator_data;
use webauthn_client::assertion::parse_assertion;
use webauthn_client::assertion::HEADER_LEN;
use webauthn_client::error::SignError;

#[test]
fn five_byte_payload_has_presence_counter_and_no_signature() {
    let parsed = parse_assertion(&[0x01, 0x00, 0x00, 0x00, 0x2A]).unwrap();
    assert_eq!(parsed.user_presence, 1);
    assert_eq!(parsed.counter, 42);
    assert_eq!(parsed.signature, Vec::<u8>::new());
}

#[test]
fn payload_of_four_bytes_or_fewer_is_malformed() {
    let payload = [0x01u8, 0x00, 0x00, 0x00];
    for len in 0..=4 {
        assert_eq!(
            parse_assertion(&payload[..len]).err(),
            Some(SignError::MalformedSignaturePayload),
            "length {}",
            len
        );
    }
}

#[test]
fn header_is_five_bytes() {
    assert_eq!(HEADER_LEN, 5);
}

#[test]
fn counter_is_read_big_endian() {
    let parsed = parse_assertion(&[0x00, 0x01, 0x02, 0x03, 0x04]).unwrap();
    assert_eq!(parsed.counter, 0x0102_0304);
    let parsed = parse_assertion(&[0x00, 0xff, 0xff, 0xff, 0xff]).unwrap();
    assert_eq!(parsed.counter, u32::MAX);
    let parsed = parse_assertion(&[0x00, 0x80, 0x00, 0x00, 0x00]).unwrap();
    assert_eq!(parsed.counter, 0x8000_0000);
    let parsed = parse_assertion(&[0x00, 0x00, 0x00, 0x01, 0x00]).unwrap();
    assert_eq!(parsed.counter, 256);
}

#[test]
fn signature_is_everything_after_the_counter() {
    let parsed = parse_assertion(&[0x81, 0, 0, 0, 7, 0x30, 0x44, 0x02, 0x20]).unwrap();
    assert_eq!(parsed.user_presence, 0x81);
    assert_eq!(parsed.counter, 7);
    assert_eq!(parsed.signature, vec![0x30, 0x44, 0x02, 0x20]);
}

#[test]
fn authenticator_data_is_digest_flag_and_counter() {
    let digest: Vec<u8> = (0u8..32).collect();
    let data = authenticator_data(&digest, 1, 42);
    assert_eq!(data.len(), 37);
    assert_eq!(&data[..32], &digest[..]);
    assert_eq!(&data[32..], &[1, 0, 0, 0, 42]);
}

#[test]
fn authenticator_data_writes_the_counter_big_endian() {
    assert_eq!(authenticator_data(&[], 0, 0x0102_0304), vec![0, 1, 2, 3, 4]);
    assert_eq!(authenticator_data(&[9], 0xff, u32::MAX), vec![9, 0xff, 0xff, 0xff, 0xff, 0xff]);
    assert_eq!(authenticator_data(&[], 5, 0), vec![5, 0, 0, 0, 0]);
}

#[test]
fn authenticator_data_repeats_the_header_of_the_payload() {
    let payloads: [&[u8]; 4] = [
        &[1, 0, 0, 0, 42],
        &[0, 0xde, 0xad, 0xbe, 0xef, 1, 2, 3],
        &[0xff, 0xff, 0xff, 0xff, 0xff, 0],
        &[5, 0, 1, 0, 0],
    ];
    for payload in payloads {
        let parsed = parse_assertion(payload).unwrap();
        let data = authenticator_data(&[7, 7], parsed.user_presence, parsed.counter);
        assert_eq!(&data[..2], &[7, 7]);
        assert_eq!(&data[2..], &payload[..5]);
    }
}

#[test]
fn authenticator_data_holds_no_signature_bytes() {
    let parsed = parse_assertion(&[1, 0, 0, 0, 1, 0xaa, 0xbb, 0xcc]).unwrap();
    let data = authenticator_data(&[0; 32], parsed.user_presence, parsed.counter);
    assert_eq!(data.len(), 32 + 5);
}

#[test]
fn counter_survives_writing_and_reading() {
    for counter in [0u32, 1, 42, 255, 256, 65_535, 65_536, 0x00ff_ff00, 0x7fff_ffff, 0x8000_0001, u32::MAX] {
        let data = authenticator_data(&[], 3, counter);
        let parsed = parse_assertion(&data).unwrap();
        assert_eq!(parsed.user_presence, 3);
        assert_eq!(parsed.counter, counter);
        assert!(parsed.signature.is_empty());
    }
}
