use std::io::{Error, ErrorKind};
use std::path::PathBuf;
use tonic::Request;
use tonic_lnd::connect::{connect, Connecting};
use tonic_lnd::error::{AddressError, ConnectError, Rejection};
use tonic_lnd::target::ConnectionTarget;

const PEM: &[u8] = b"-----BEGIN CERTIFICATE-----\nY2VydEE=\n-----END CERTIFICATE-----\n";

fn start(address: &str) -> Connecting {
    connect(address.to_string(), PathBuf::from("tls.cert"), PathBuf::from("admin.macaroon"))
}

#[test]
fn setup_reads_the_certificate_and_then_the_credential() {
    let state = start("https://localhost:10009");
    assert_eq!(state.wanted_file(), Some(&PathBuf::from("tls.cert")));
    let state = state.resume(Ok(PEM.to_vec()));
    assert_eq!(state.wanted_file(), Some(&PathBuf::from("admin.macaroon")));
    let state = state.resume(Ok(vec![0x02, 0x01, 0xfe]));
    assert_eq!(state.wanted_file(), None);
    let parts = match state.finish() {
        Some(Ok(parts)) => parts,
        _ => panic!("the setup did not come to its end"),
    };
    assert_eq!(parts.target.address(), "https://localhost:10009");
    assert_eq!(parts.target.scheme(), "https");
    assert_eq!(parts.verifier.verify_server_cert(b"certA", &[]), Ok(()));
    assert_eq!(
        parts.verifier.verify_server_cert(b"certB", &[]),
        Err(Rejection::ContentMismatch)
    );
    assert_eq!(parts.interceptor.macaroon(), "0201fe");
    let stamped = parts.interceptor.call(Request::new(())).unwrap();
    assert_eq!(stamped.metadata().get("macaroon").unwrap(), "0201fe");
}

#[test]
fn pending_setup_has_no_end_yet() {
    assert!(start("https://localhost:10009").finish().is_none());
    let state = start("https://localhost:10009").resume(Ok(PEM.to_vec()));
    assert!(state.finish().is_none());
}

#[test]
fn empty_address_fails_before_any_file_is_asked_for() {
    let state = start("");
    assert_eq!(state.wanted_file(), None);
    match state.finish() {
        Some(Err(ConnectError::InvalidAddress { address, error })) => {
            assert_eq!(address, "");
            assert!(matches!(error, AddressError::Malformed(_)));
        }
        _ => panic!("the empty address was accepted"),
    }
}

#[test]
fn address_without_scheme_fails_before_any_file_is_asked_for() {
    let state = start("localhost:10009");
    assert_eq!(state.wanted_file(), None);
    match state.finish() {
        Some(Err(ConnectError::InvalidAddress { address, error })) => {
            assert_eq!(address, "localhost:10009");
            assert!(matches!(error, AddressError::MissingScheme));
        }
        _ => panic!("an address without a scheme was accepted"),
    }
}

#[test]
fn malformed_address_is_invalid() {
    for address in ["https://", "https://local host", "https://[::1", "/only/a/path?x", "\n"] {
        let state = start(address);
        assert_eq!(state.wanted_file(), None);
        match state.finish() {
            Some(Err(ConnectError::InvalidAddress { address: given, .. })) => {
                assert_eq!(given, address)
            }
            _ => panic!("the address {:?} was accepted", address),
        }
    }
}

#[test]
fn plaintext_address_fails_before_any_file_is_asked_for() {
    for address in ["http://localhost:10009", "HTTP://localhost:10009/", "ftp://localhost:21"] {
        let state = start(address);
        assert_eq!(state.wanted_file(), None);
        match state.finish() {
            Some(Err(ConnectError::InvalidAddress { address: given, error })) => {
                assert_eq!(given, address);
                assert!(matches!(error, AddressError::InsecureScheme));
            }
            _ => panic!("the address {:?} was accepted", address),
        }
    }
}

#[test]
fn secure_scheme_is_accepted_in_any_case() {
    let state = start("HTTPS://localhost:10009");
    assert_eq!(state.wanted_file(), Some(&PathBuf::from("tls.cert")));
}

#[test]
fn target_keeps_address_and_scheme() {
    let target = match ConnectionTarget::parse("https://10.0.0.1:8080/".to_string()) {
        Ok(target) => target,
        Err(error) => panic!("a valid address was turned down: {:?}", error),
    };
    assert_eq!(target.address(), "https://10.0.0.1:8080/");
    assert_eq!(target.scheme(), "https");
    let target = ConnectionTarget::from_parsed(
        "https://node.example:443".to_string(),
        Ok(Some("https".to_string())),
    );
    match target {
        Ok(target) => {
            assert_eq!(target.address(), "https://node.example:443");
            assert_eq!(target.scheme(), "https");
        }
        Err(error) => panic!("a parsed address was turned down: {:?}", error),
    }
    assert!(matches!(
        ConnectionTarget::from_parsed("node.example:443".to_string(), Ok(None)),
        Err(ConnectError::InvalidAddress { error: AddressError::MissingScheme, .. })
    ));
}

#[test]
fn target_takes_no_scheme_but_the_secure_one() {
    assert!(matches!(
        ConnectionTarget::parse("http://10.0.0.1:8080/".to_string()),
        Err(ConnectError::InvalidAddress { error: AddressError::InsecureScheme, .. })
    ));
    for scheme in ["http", "HTTPS", "https ", "", "httpss", "http", "ws"] {
        match ConnectionTarget::from_parsed(
            "node.example".to_string(),
            Ok(Some(scheme.to_string())),
        ) {
            Err(ConnectError::InvalidAddress { address, error }) => {
                assert_eq!(address, "node.example");
                assert!(matches!(error, AddressError::InsecureScheme));
            }
            _ => panic!("the scheme {:?} was accepted", scheme),
        }
    }
}

#[test]
fn missing_certificate_file_fails_with_its_path() {
    let state = start("https://localhost:10009");
    let state = state.resume(Err(Error::new(ErrorKind::NotFound, "no such file")));
    assert_eq!(state.wanted_file(), None);
    match state.finish() {
        Some(Err(ConnectError::ReadFailure { file, error })) => {
            assert_eq!(file, PathBuf::from("tls.cert"));
            assert_eq!(error.kind(), ErrorKind::NotFound);
        }
        _ => panic!("a missing certificate file did not end the setup"),
    }
}

#[test]
fn missing_credential_file_fails_with_its_path() {
    let state = start("https://localhost:10009").resume(Ok(PEM.to_vec()));
    let state = state.resume(Err(Error::new(ErrorKind::NotFound, "no such file")));
    assert_eq!(state.wanted_file(), None);
    match state.finish() {
        Some(Err(ConnectError::ReadFailure { file, error })) => {
            assert_eq!(file, PathBuf::from("admin.macaroon"));
            assert_eq!(error.kind(), ErrorKind::NotFound);
        }
        _ => panic!("a missing credential file did not end the setup"),
    }
}

#[test]
fn malformed_certificate_file_fails_with_its_path() {
    let state = start("https://localhost:10009");
    let state = state.resume(Ok(b"-----BEGIN CERTIFICATE-----\nY2Vyd".to_vec()));
    assert_eq!(state.wanted_file(), None);
    match state.finish() {
        Some(Err(ConnectError::ParseFailure { file, .. })) => {
            assert_eq!(file, PathBuf::from("tls.cert"))
        }
        _ => panic!("malformed PEM did not end the setup"),
    }
}

#[test]
fn finished_setup_ignores_further_reads() {
    let state = start("").resume(Ok(PEM.to_vec()));
    assert!(matches!(state.finish(), Some(Err(ConnectError::InvalidAddress { .. }))));
    let state = start("https://localhost:10009")
        .resume(Ok(PEM.to_vec()))
        .resume(Ok(vec![0x01]))
        .resume(Ok(vec![0x02]));
    match state.finish() {
        Some(Ok(parts)) => assert_eq!(parts.interceptor.macaroon(), "01"),
        _ => panic!("the setup did not come to its end"),
    }
}
