use base64::alphabet;
use base64::engine::general_purpose;
use base64::engine::GeneralPurpose;
use base64::Engine;
use webauthn_client::assertion::SignedAssertion;
use webauthn_client::SignatureResponse;

const CLIENT_DATA: &str =
    "{\"type\":\"webauthn.get\",\"challenge\":\"abc123\",\"origin\":\"https://example.com\"}";

fn standard() -> GeneralPurpose {
    GeneralPurpose::new(&alphabet::STANDARD, general_purpose::PAD)
}

fn url_safe() -> GeneralPurpose {
    GeneralPurpose::new(&alphabet::URL_SAFE, general_purpose::NO_PAD)
}

fn assertion(client_data: &str, signature: &[u8], authenticator_data: &[u8]) -> SignedAssertion {
    SignedAssertion {
        client_data: client_data.to_string(),
        signature: signature.to_vec(),
        authenticator_data: authenticator_data.to_vec(),
    }
}

#[test]
fn response_fields_are_standard_padded_base64() {
    let signed = assertion(CLIENT_DATA, &[0xfb, 0xff, 0xfe, 1, 2], &[1, 0, 0, 0, 42]);
    assert!(signed.is_encodable());
    let response = SignatureResponse::from_assertion(&signed);
    assert_eq!(
        response.client_data,
        "eyJ0eXBlIjoid2ViYXV0aG4uZ2V0IiwiY2hhbGxlbmdlIjoiYWJjMTIzIiwib3JpZ2luIjoiaHR0cHM6Ly9leGFtcGxlLmNvbSJ9"
    );
    assert_eq!(response.signature_data, "+//+AQI=");
    assert_eq!(response.authenticator_data, "AQAAACo=");
}

#[test]
fn empty_byte_strings_encode_to_empty_texts() {
    let response = SignatureResponse::from_assertion(&assertion("", &[], &[]));
    assert_eq!(response.client_data, "");
    assert_eq!(response.signature_data, "");
    assert_eq!(response.authenticator_data, "");
}

#[test]
fn padding_fills_the_last_group() {
    let response = SignatureResponse::from_assertion(&assertion("a", &[1, 2], &[1, 2, 3]));
    assert_eq!(response.client_data, "YQ==");
    assert_eq!(response.signature_data, "AQI=");
    assert_eq!(response.authenticator_data, "AQID");
}

#[test]
fn decoding_the_response_gives_back_the_raw_bytes() {
    let signatures: [&[u8]; 5] = [&[], &[0], &[0xff, 0xfe], &[0xfb, 0xff, 0xfe, 1, 2], &[0x3e; 70]];
    for signature in signatures {
        for client_data in ["", "x", CLIENT_DATA, "caf\u{e9}?>>"] {
            let authenticator_data: Vec<u8> = (0u8..37).map(|i| i.wrapping_mul(7)).collect();
            let signed = assertion(client_data, signature, &authenticator_data);
            let response = SignatureResponse::from_assertion(&signed);
            assert_eq!(standard().decode(&response.client_data).unwrap(), client_data.as_bytes());
            assert_eq!(standard().decode(&response.signature_data).unwrap(), signature);
            assert_eq!(
                standard().decode(&response.authenticator_data).unwrap(),
                authenticator_data
            );
            assert_eq!(response.signature_data.len() % 4, 0);
            assert_eq!(response.client_data.len() % 4, 0);
            assert_eq!(response.authenticator_data.len() % 4, 0);
        }
    }
}

#[test]
fn response_does_not_use_the_url_safe_alphabet() {
    let response = SignatureResponse::from_assertion(&assertion("", &[0xfb, 0xff, 0xfe], &[]));
    assert_eq!(response.signature_data, "+//+");
    assert!(url_safe().decode(&response.signature_data).is_err());
    assert_eq!(url_safe().encode([0xfb, 0xff, 0xfe]), "-__-");
}

#[test]
fn short_assertions_are_encodable() {
    assert!(assertion("", &[], &[]).is_encodable());
    assert!(assertion(CLIENT_DATA, &[1; 72], &[2; 37]).is_encodable());
}
