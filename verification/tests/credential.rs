use std::io::{Error, ErrorKind};
use std::path::PathBuf;
use tonic_lnd::credential::load_macaroon;
use tonic_lnd::error::ConnectError;

fn loaded(secret: Vec<u8>) -> String {
    match load_macaroon(PathBuf::from("admin.macaroon"), Ok(secret)) {
        Ok(text) => text,
        Err(error) => panic!("a secret was turned down: {:?}", error),
    }
}

#[test]
fn secret_is_encoded_as_lowercase_hex() {
    assert_eq!(loaded(vec![0x00, 0x01, 0x02, 0x0f, 0x10, 0xab, 0xff]), "0001020f10abff");
    assert_eq!(loaded(b"Hello world!".to_vec()), "48656c6c6f20776f726c6421");
}

#[test]
fn empty_secret_gives_empty_text() {
    assert_eq!(loaded(Vec::new()), "");
}

#[test]
fn encoding_has_two_lowercase_digits_for_each_byte() {
    let secret: Vec<u8> = (0..=255).collect();
    let text = loaded(secret.clone());
    assert_eq!(text.len(), 2 * secret.len());
    assert!(text.chars().all(|c| c.is_ascii_digit() || ('a'..='f').contains(&c)));
    assert_eq!(loaded(secret), text);
    let digits = "0123456789abcdef".as_bytes();
    for (i, pair) in text.as_bytes().chunks(2).enumerate() {
        assert_eq!(pair[0], digits[i / 16]);
        assert_eq!(pair[1], digits[i % 16]);
    }
}

#[test]
fn unreadable_credential_file_is_a_read_failure() {
    let cause = Error::new(ErrorKind::PermissionDenied, "denied");
    match load_macaroon(PathBuf::from("admin.macaroon"), Err(cause)) {
        Err(ConnectError::ReadFailure { file, error }) => {
            assert_eq!(file, PathBuf::from("admin.macaroon"));
            assert_eq!(error.kind(), ErrorKind::PermissionDenied);
        }
        _ => panic!("a file that could not be read gave a credential"),
    }
}
