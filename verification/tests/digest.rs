use webauthn_client::digest::digest_text;
use webauthn_client::digest::input_digests;
use webauthn_client::digest::DIGEST_LEN;
use webauthn_client::error::SignError;
use webauthn_client::mozilla::generate_input_hashes;

const CLIENT_DATA: &str =
    "{\"type\":\"webauthn.get\",\"challenge\":\"abc123\",\"origin\":\"https://example.com\"}";

const CLIENT_DATA_DIGEST: [u8; 32] = [
    145, 121, 205, 98, 63, 208, 178, 195, 215, 215, 188, 177, 255, 186, 56, 128, 255, 228, 168, 80, 37,
    190, 253, 1, 59, 36, 52, 2, 110, 189, 5, 19,
];

const HOST_DIGEST: [u8; 32] = [
    163, 121, 166, 246, 238, 175, 185, 165, 94, 55, 140, 17, 128, 52, 226, 117, 30, 104, 47, 171, 159,
    45, 48, 171, 19, 210, 18, 85, 134, 206, 25, 71,
];

fn hex(bytes: &[u8]) -> String {
    let mut text = String::new();
    for byte in bytes {
        text.push_str(&format!("{:02x}", byte));
    }
    text
}

#[test]
fn digest_of_the_empty_text() {
    assert_eq!(
        hex(&digest_text("")),
        "e3b0c44298fc1c149afbf4c8996fb92427ae41e4649b934ca495991b7852b855"
    );
}

#[test]
fn digest_of_example_client_data_matches_reference() {
    assert_eq!(
        hex(&digest_text(CLIENT_DATA)),
        "9179cd623fd0b2c3d7d7bcb1ffba3880ffe4a85025befd013b2434026ebd0513"
    );
}

#[test]
fn input_digests_cover_client_data_and_bare_host() {
    let (challenge, application) = input_digests(CLIENT_DATA, "example.com");
    assert_eq!(challenge, CLIENT_DATA_DIGEST.to_vec());
    assert_eq!(application, HOST_DIGEST.to_vec());
    assert_eq!(
        hex(&application),
        "a379a6f6eeafb9a55e378c118034e2751e682fab9f2d30ab13d2125586ce1947"
    );
}

#[test]
fn application_digest_is_not_the_digest_of_the_origin() {
    let (_, application) = input_digests(CLIENT_DATA, "example.com");
    assert_ne!(application, digest_text("https://example.com"));
}

#[test]
fn digests_are_32_bytes_for_any_input() {
    for text in ["", "a", "example.com", CLIENT_DATA, "\u{1F511}\u{0}\u{7f}"] {
        assert_eq!(digest_text(text).len(), DIGEST_LEN);
        let (challenge, application) = input_digests(text, text);
        assert_eq!(challenge.len(), 32);
        assert_eq!(application.len(), 32);
    }
}

#[test]
fn hashing_twice_gives_the_same_digests() {
    let first = input_digests(CLIENT_DATA, "example.com");
    let second = input_digests(CLIENT_DATA, "example.com");
    assert_eq!(first, second);
    assert_eq!(digest_text(CLIENT_DATA), digest_text(CLIENT_DATA));
}

#[test]
fn different_texts_give_different_digests() {
    assert_ne!(digest_text("example.com"), digest_text("example.org"));
}

#[test]
fn generate_input_hashes_for_the_example() {
    let (client_data, challenge, application) = generate_input_hashes(
        "https://example.com".to_string(),
        "abc123".to_string(),
        "example.com".to_string(),
    )
    .unwrap();
    assert_eq!(client_data, CLIENT_DATA);
    assert_eq!(challenge, CLIENT_DATA_DIGEST.to_vec());
    assert_eq!(application, HOST_DIGEST.to_vec());
}

#[test]
fn generate_input_hashes_rejects_an_invalid_origin() {
    assert_eq!(
        generate_input_hashes("nonsense".to_string(), "abc123".to_string(), "example.com".to_string()),
        Err(SignError::InvalidOrigin)
    );
}
