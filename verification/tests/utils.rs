use rusttp::utils::hash::sha1;
use rusttp::utils::helper::{generate_token, token_for};
use rusttp::utils::random_str;
use rusttp::utils::serializer::uuid_without_dashes;

#[test]
fn sha1_of_known_inputs() {
    assert_eq!(sha1("abc"), "a9993e364706816aba3e25717850c26c9cd0d89d");
    assert_eq!(sha1(""), "da39a3ee5e6b4b0d3255bfef95601890afd80709");
    assert_eq!(sha1("é").len(), 40);
}

#[test]
fn uuid_without_dashes_is_lowercase_hex() {
    assert_eq!(
        uuid_without_dashes(0x67e5504410b1426f9247bb680e5fe0c8),
        "67e5504410b1426f9247bb680e5fe0c8"
    );
    assert_eq!(uuid_without_dashes(1), "00000000000000000000000000000001");
}

#[test]
fn token_concatenates_both_ids() {
    let t = token_for(0xAB, 0x67e5504410b1426f9247bb680e5fe0c8);
    assert_eq!(t, "000000000000000000000000000000ab67e5504410b1426f9247bb680e5fe0c8");
}

#[test]
fn generate_token_uses_new_v4_id() {
    let (id, token) = generate_token(5);
    assert_eq!((id >> 76) & 0xf, 4);
    assert_eq!((id >> 62) & 0x3, 2);
    assert_eq!(token.len(), 64);
    assert_eq!(&token[..32], uuid_without_dashes(id));
    assert_eq!(&token[32..], "00000000000000000000000000000005");
}

#[test]
fn random_str_has_length_and_charset() {
    let s = random_str(64);
    assert_eq!(s.chars().count(), 64);
    assert!(s.chars().all(|c| c.is_ascii_alphanumeric()));
    assert_eq!(random_str(0), "");
}
