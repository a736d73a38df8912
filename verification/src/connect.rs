//! Setting a connection up, one decision at a time.
//!
//! The decisions are taken here; reading the two files is left to the
//! caller. A setup starts with [`connect`], which checks the address before
//! anything is read. While [`Connecting::wanted_file`] names a file, the
//! caller reads it and hands the outcome to [`Connecting::resume`]: first the
//! certificate file, then the credential file. [`Connecting::finish`] gives
//! the parts of the connection, all of them or none.

use crate::credential::{hex_encoding, law_hex_encoding_shape, load_macaroon};
use crate::error::{AddressError, ConnectError};
use crate::interceptor::MacaroonInterceptor;
use crate::pinning::{pem_certificates, CertVerifier};
use crate::target::{secure_scheme, uri_scheme, valid_address, ConnectionTarget};
use std::path::PathBuf;
use vstd::prelude::*;

verus! {

/// What a finished setup hands over: the target, the verifier for the
/// handshakes of this connection, and the interceptor for its requests.
/// None of them changes for as long as the connection lives.
pub struct ConnectionParts {
    pub target: ConnectionTarget,
    pub verifier: CertVerifier,
    pub interceptor: MacaroonInterceptor,
}

/// A connection that is being set up.
pub enum Connecting {
    /// The address is valid; the certificate file has to be read.
    AwaitingCertificate { target: ConnectionTarget, cert_file: PathBuf, macaroon_file: PathBuf },
    /// The certificates are pinned; the credential file has to be read.
    AwaitingMacaroon { target: ConnectionTarget, verifier: CertVerifier, macaroon_file: PathBuf },
    /// Everything is loaded.
    Ready(ConnectionParts),
    /// The setup failed; nothing of the connection is left.
    Failed(ConnectError),
}

impl Connecting {
    /// The file whose contents the setup is waiting for, if any.
    pub open spec fn awaits(self) -> Option<PathBuf> {
        match self {
            Connecting::AwaitingCertificate { cert_file, .. } => Some(cert_file),
            Connecting::AwaitingMacaroon { macaroon_file, .. } => Some(macaroon_file),
            Connecting::Ready(_) => None,
            Connecting::Failed(_) => None,
        }
    }

    /// `next` is where this setup stands after the awaited file was read
    /// with the outcome `contents`.
    ///
    /// A file that could not be read ends the setup with a read failure
    /// that names this file. Certificate text that is no valid PEM ends it
    /// with a parse failure. Otherwise the certificates of the text are
    /// pinned, or the secret is turned into the credential, and the setup
    /// moves on. A setup that awaits nothing stays as it is.
    pub open spec fn resumes_to(
        self,
        contents: Result<Vec<u8>, std::io::Error>,
        next: Connecting,
    ) -> bool {
        match self {
            Connecting::AwaitingCertificate { target, cert_file, macaroon_file } => match contents {
                Ok(text) => match pem_certificates(text@) {
                    Some(certs) => next matches Connecting::AwaitingMacaroon {
                        target: t,
                        verifier,
                        macaroon_file: m,
                    } && t == target && verifier@ == certs && m == macaroon_file,
                    None => next matches Connecting::Failed(
                        ConnectError::ParseFailure { file, .. },
                    ) && file == cert_file,
                },
                Err(cause) => next matches Connecting::Failed(
                    ConnectError::ReadFailure { file, error },
                ) && file == cert_file && error == cause,
            },
            Connecting::AwaitingMacaroon { target, verifier, macaroon_file } => match contents {
                Ok(secret) => next matches Connecting::Ready(parts) && parts.target == target
                    && parts.verifier == verifier && parts.interceptor@ == hex_encoding(secret@),
                Err(cause) => next matches Connecting::Failed(
                    ConnectError::ReadFailure { file, error },
                ) && file == macaroon_file && error == cause,
            },
            Connecting::Ready(_) => next == self,
            Connecting::Failed(_) => next == self,
        }
    }

    /// The file that the caller has to read next, or `None` where the setup
    /// has come to its end.
    pub fn wanted_file(&self) -> (file: Option<&PathBuf>)
        ensures
            match file {
                Some(path) => self.awaits() == Some(*path),
                None => self.awaits() is None,
            },
    {
        match self {
            Connecting::AwaitingCertificate { cert_file, .. } => Some(cert_file),
            Connecting::AwaitingMacaroon { macaroon_file, .. } => Some(macaroon_file),
            Connecting::Ready(_) => None,
            Connecting::Failed(_) => None,
        }
    }

    /// Takes the outcome of reading the awaited file: its bytes, or the
    /// reason why it could not be read.
    pub fn resume(self, contents: Result<Vec<u8>, std::io::Error>) -> (next: Connecting)
        ensures
            self.resumes_to(contents, next),
            contents is Err && self.awaits() is Some ==> (next matches Connecting::Failed(
                ConnectError::ReadFailure { file, .. },
            ) && Some(file) == self.awaits()),
    {
        match self {
            Connecting::AwaitingCertificate { target, cert_file, macaroon_file } => {
                match CertVerifier::load(cert_file, contents) {
                    Ok(verifier) => Connecting::AwaitingMacaroon { target, verifier, macaroon_file },
                    Err(error) => Connecting::Failed(error),
                }
            },
            Connecting::AwaitingMacaroon { target, verifier, macaroon_file } => {
                match load_macaroon(macaroon_file, contents) {
                    Ok(macaroon) => {
                        proof {
                            law_hex_encoding_shape(contents->Ok_0@);
                        }
                        let interceptor = MacaroonInterceptor::new(macaroon);
                        Connecting::Ready(ConnectionParts { target, verifier, interceptor })
                    },
                    Err(error) => Connecting::Failed(error),
                }
            },
            Connecting::Ready(parts) => Connecting::Ready(parts),
            Connecting::Failed(error) => Connecting::Failed(error),
        }
    }

    /// The end of the setup: the parts of the connection, or the failure
    /// that ended it; `None` while a file is still awaited. A failed setup
    /// gives no part of a connection.
    pub fn finish(self) -> (end: Option<Result<ConnectionParts, ConnectError>>)
        ensures
            match self {
                Connecting::Ready(parts) => end == Some(
                    Ok::<ConnectionParts, ConnectError>(parts),
                ),
                Connecting::Failed(error) => end == Some(
                    Err::<ConnectionParts, ConnectError>(error),
                ),
                _ => end is None,
            },
            end is None <==> self.awaits() is Some,
    {
        match self {
            Connecting::Ready(parts) => Some(Ok(parts)),
            Connecting::Failed(error) => Some(Err(error)),
            _ => None,
        }
    }
}

/// Starts to set up a connection to `address`, with the pinned certificates
/// of the PEM file `cert_file` and the secret of the file `macaroon_file`.
///
/// The address is checked first. An address that is no URI with the scheme
/// `https`, the empty one among them, ends the setup at once, before any
/// file is asked for. With a valid address the setup awaits the certificate
/// file.
pub fn connect(address: String, cert_file: PathBuf, macaroon_file: PathBuf) -> (state: Connecting)
    ensures
        match uri_scheme(address@) {
            Some(Some(scheme)) => if scheme == secure_scheme() {
                state matches Connecting::AwaitingCertificate {
                    target,
                    cert_file: c,
                    macaroon_file: m,
                } && target.address_text() == address@ && target.scheme_text() == secure_scheme()
                    && c == cert_file && m == macaroon_file
            } else {
                state matches Connecting::Failed(
                    ConnectError::InvalidAddress {
                        address: a,
                        error: AddressError::InsecureScheme,
                    },
                ) && a == address
            },
            Some(None) => state matches Connecting::Failed(
                ConnectError::InvalidAddress { address: a, error: AddressError::MissingScheme },
            ) && a == address,
            None => state matches Connecting::Failed(
                ConnectError::InvalidAddress { address: a, error: AddressError::Malformed(_) },
            ) && a == address,
        },
        valid_address(address@) ==> state.awaits() == Some(cert_file),
        !valid_address(address@) ==> state.awaits() is None && (state matches Connecting::Failed(
            ConnectError::InvalidAddress { address: a, .. },
        ) && a == address),
        address@.len() == 0 ==> !valid_address(address@),
{
    match ConnectionTarget::parse(address) {
        Ok(target) => Connecting::AwaitingCertificate { target, cert_file, macaroon_file },
        Err(error) => Connecting::Failed(error),
    }
}

} // verus!
