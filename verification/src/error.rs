//! What can go wrong while a connection is set up or a peer is checked.

use crate::decimal::{decimal, decimal_text};
use std::path::PathBuf;
use vstd::prelude::*;
use vstd::string::StringExecFns;

verus! {

/// `std::path::PathBuf`: a file's path, carried through unread.
#[verifier::external_type_specification]
#[verifier::external_body]
pub struct ExPathBuf(std::path::PathBuf);

/// `std::io::Error`: the cause of a failed read or parse, carried through
/// unread.
#[verifier::external_type_specification]
#[verifier::external_body]
pub struct ExIoError(std::io::Error);

/// `http::uri::InvalidUri`: why an address is no URI, carried through unread.
#[verifier::external_type_specification]
#[verifier::external_body]
pub struct ExInvalidUri(hyper::http::uri::InvalidUri);

/// `tonic::Status`: a failure reported by the transport, carried through
/// unread.
#[verifier::external_type_specification]
#[verifier::external_body]
pub struct ExStatus(tonic::Status);

/// Why a peer's certificates were turned down.
#[derive(Clone, Copy, Debug, PartialEq, Eq)]
pub enum Rejection {
    /// The peer presented another number of certificates than are pinned.
    CountMismatch { expected: usize, presented: usize },
    /// The numbers agree, but some certificate is not a pinned one.
    ContentMismatch,
}

/// The message for a peer that presented `presented` certificates where
/// `expected` are pinned.
pub open spec fn count_mismatch_text(expected: nat, presented: nat) -> Seq<char> {
    "Mismatched number of certificates (Expected: "@ + decimal(expected) + ", Presented: "@
        + decimal(presented) + ")"@
}

/// The message for a peer whose certificates differ from the pinned ones.
pub open spec fn content_mismatch_text() -> Seq<char> {
    "Server certificates do not match ours"@
}

impl Rejection {
    /// The description of this rejection. It names counts, never certificate
    /// bytes.
    pub open spec fn text(self) -> Seq<char> {
        match self {
            Rejection::CountMismatch { expected, presented } => count_mismatch_text(
                expected as nat,
                presented as nat,
            ),
            Rejection::ContentMismatch => content_mismatch_text(),
        }
    }

    /// Writes the description of this rejection.
    pub fn message(&self) -> (message: String)
        ensures
            message@ == self.text(),
    {
        match self {
            Rejection::CountMismatch { expected, presented } => {
                let mut message = String::from_str("Mismatched number of certificates (Expected: ");
                message.append(decimal_text(*expected).as_str());
                message.append(", Presented: ");
                message.append(decimal_text(*presented).as_str());
                message.append(")");
                message
            },
            Rejection::ContentMismatch => String::from_str("Server certificates do not match ours"),
        }
    }
}

/// Why a target address was turned down.
#[derive(Debug)]
pub enum AddressError {
    /// The address is not a well-formed URI.
    Malformed(hyper::http::uri::InvalidUri),
    /// The address is a URI, but names no scheme.
    MissingScheme,
    /// The address names a scheme other than `https`, and with it a
    /// connection that would not be encrypted.
    InsecureScheme,
}

/// The failures of this library, one variant for each kind.
#[derive(Debug)]
#[allow(inconsistent_fields)]
pub enum ConnectError {
    /// A configured file, the certificate's or the credential's, could not
    /// be read.
    ReadFailure { file: PathBuf, error: std::io::Error },
    /// The certificate file does not hold valid PEM data.
    ParseFailure { file: PathBuf, error: std::io::Error },
    /// The target address is not a URI with the scheme `https`.
    InvalidAddress { address: String, error: AddressError },
    /// The peer's certificates are not the pinned ones.
    HandshakeRejected(Rejection),
    /// Any other failure of the transport, as it reported it.
    TransportFailure(tonic::Status),
}

impl From<Rejection> for ConnectError {
    fn from(rejection: Rejection) -> (error: ConnectError) {
        ConnectError::HandshakeRejected(rejection)
    }
}

impl vstd::std_specs::convert::FromSpecImpl<Rejection> for ConnectError {
    open spec fn obeys_from_spec() -> bool {
        true
    }

    open spec fn from_spec(rejection: Rejection) -> ConnectError {
        ConnectError::HandshakeRejected(rejection)
    }
}

} // verus!
