//! The target of a connection: an address that was checked once, when the
//! connection is set up.

use crate::error::{AddressError, ConnectError};
use std::str::FromStr;
use vstd::prelude::*;

verus! {

/// What an address parses to as a URI: `None` where it is no well-formed
/// URI, else the scheme it names, or `Some(None)` where it names none.
pub uninterp spec fn uri_scheme(address: Seq<char>) -> Option<Option<Seq<char>>>;

/// Parses `address` with `Uri::from_str` and reads the scheme of the result
/// with `Uri::scheme_str`. The parser takes the address in one of the forms
/// of a request target; what it returns depends on the address alone. It
/// turns the empty string down.
#[verifier::external_body]
fn parse_scheme(address: &str) -> (parsed: Result<Option<String>, hyper::http::uri::InvalidUri>)
    ensures
        match parsed {
            Ok(Some(scheme)) => uri_scheme(address@) == Some(Some(scheme@)),
            Ok(None) => uri_scheme(address@) == Some(None::<Seq<char>>),
            Err(_) => uri_scheme(address@) is None,
        },
        address@.len() == 0 ==> parsed is Err,
{
    match hyper::Uri::from_str(address) {
        Ok(uri) => Ok(uri.scheme_str().map(String::from)),
        Err(error) => Err(error),
    }
}

/// The scheme of an encrypted connection, the only one that is accepted.
pub open spec fn secure_scheme() -> Seq<char> {
    "https"@
}

/// The address is a well-formed URI that names the secure scheme.
pub open spec fn valid_address(address: Seq<char>) -> bool {
    uri_scheme(address) == Some(Some(secure_scheme()))
}

/// A validated endpoint, reached over an encrypted connection only. It is
/// parsed once and then shared, unchanged, by every service client of a
/// connection.
pub struct ConnectionTarget {
    address: String,
    scheme: String,
}

impl ConnectionTarget {
    /// The address as it was given.
    pub closed spec fn address_text(&self) -> Seq<char> {
        self.address@
    }

    /// The scheme that the address names.
    pub closed spec fn scheme_text(&self) -> Seq<char> {
        self.scheme@
    }

    /// The target behind `address`, given what parsing the address as a URI
    /// brought: its scheme, if it names one, or the reason why it is no URI.
    ///
    /// Only the scheme `https` makes a target: an address with another
    /// scheme would have the credential travel in the clear.
    pub fn from_parsed(
        address: String,
        parsed: Result<Option<String>, hyper::http::uri::InvalidUri>,
    ) -> (target: Result<ConnectionTarget, ConnectError>)
        ensures
            match parsed {
                Ok(Some(scheme)) => if scheme@ == secure_scheme() {
                    target matches Ok(t) && t.address_text() == address@ && t.scheme_text()
                        == secure_scheme()
                } else {
                    target matches Err(
                        ConnectError::InvalidAddress {
                            address: a,
                            error: AddressError::InsecureScheme,
                        },
                    ) && a == address
                },
                Ok(None) => target matches Err(
                    ConnectError::InvalidAddress { address: a, error: AddressError::MissingScheme },
                ) && a == address,
                Err(cause) => target matches Err(
                    ConnectError::InvalidAddress { address: a, error: AddressError::Malformed(e) },
                ) && a == address && e == cause,
            },
    {
        match parsed {
            Ok(Some(scheme)) => {
                let secure = "https".to_owned();
                if scheme == secure {
                    Ok(ConnectionTarget { address, scheme })
                } else {
                    Err(
                        ConnectError::InvalidAddress {
                            address,
                            error: AddressError::InsecureScheme,
                        },
                    )
                }
            },
            Ok(None) => Err(
                ConnectError::InvalidAddress { address, error: AddressError::MissingScheme },
            ),
            Err(cause) => Err(
                ConnectError::InvalidAddress { address, error: AddressError::Malformed(cause) },
            ),
        }
    }

    /// Validates `address`: it has to be a well-formed URI with the scheme
    /// `https`. Every other address, the empty one among them, is turned
    /// down as invalid, with the address itself in the error.
    pub fn parse(address: String) -> (target: Result<ConnectionTarget, ConnectError>)
        ensures
            match uri_scheme(address@) {
                Some(Some(scheme)) => if scheme == secure_scheme() {
                    target matches Ok(t) && t.address_text() == address@ && t.scheme_text()
                        == secure_scheme()
                } else {
                    target matches Err(
                        ConnectError::InvalidAddress {
                            address: a,
                            error: AddressError::InsecureScheme,
                        },
                    ) && a == address
                },
                Some(None) => target matches Err(
                    ConnectError::InvalidAddress { address: a, error: AddressError::MissingScheme },
                ) && a == address,
                None => target matches Err(
                    ConnectError::InvalidAddress { address: a, error: AddressError::Malformed(_) },
                ) && a == address,
            },
            target is Ok <==> valid_address(address@),
            address@.len() == 0 ==> target is Err,
    {
        let parsed = parse_scheme(address.as_str());
        ConnectionTarget::from_parsed(address, parsed)
    }

    /// The address as it was given.
    pub fn address(&self) -> (address: &str)
        ensures
            address@ == self.address_text(),
    {
        self.address.as_str()
    }

    /// The scheme that the address names.
    pub fn scheme(&self) -> (scheme: &str)
        ensures
            scheme@ == self.scheme_text(),
    {
        self.scheme.as_str()
    }
}

} // verus!
