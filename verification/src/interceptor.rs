//! The credential interceptor: it stamps the bearer credential onto the
//! metadata of every request before the request leaves the process.

use crate::credential::{is_lower_hex, is_lower_hex_digit};
use vstd::prelude::*;

verus! {

/// `tonic::Request`: a request on its way out, with the metadata it carries.
#[verifier::external_type_specification]
#[verifier::external_body]
#[verifier::reject_recursive_types(T)]
pub struct ExRequest<T>(tonic::Request<T>);

/// The metadata of a request: the keys it carries, each with the values
/// under it, in their order.
pub uninterp spec fn request_metadata(request: tonic::Request<()>) -> Map<Seq<char>, Seq<Seq<u8>>>;

/// The key under which the credential travels.
pub const MACAROON_KEY: &'static str = "macaroon";

/// The number of keys up to which a request's metadata is certain to take
/// one more. The map behind it cannot grow past 24576 keys, and under a
/// flood of colliding keys it may have to grow, and fail to, from 6554 on.
pub const MAX_METADATA_KEYS: usize = 6553;

/// `key` is a plain word: up to 64 lowercase letters, at least one.
pub open spec fn is_plain_key(key: Seq<char>) -> bool {
    &&& 0 < key.len() <= 64
    &&& forall|i: int| 0 <= i < key.len() ==> 'a' <= #[trigger] key[i] <= 'z'
}

/// `text` holds visible ASCII characters only.
pub open spec fn is_visible_ascii(text: Seq<char>) -> bool {
    forall|i: int| 0 <= i < text.len() ==> ' ' <= #[trigger] text[i] <= '~'
}

/// The bytes of ASCII text.
pub open spec fn ascii_bytes(text: Seq<char>) -> Seq<u8> {
    Seq::new(text.len(), |i: int| text[i] as u8)
}

/// Counts the keys of a request's metadata with `MetadataMap::keys_len`,
/// which gives the number of distinct keys, however many values each has.
#[verifier::external_body]
fn metadata_keys(request: &tonic::Request<()>) -> (keys: usize)
    ensures
        keys == request_metadata(*request).dom().len(),
{
    request.metadata().keys_len()
}

/// Puts `value` under `key` with `HeaderMap::try_insert`, on the header map
/// that `MetadataMap::into_headers` takes out of the request's metadata and
/// `MetadataMap::from_headers` puts back. The result tells whether it was
/// done.
///
/// Where it is done, `value` is the only value under `key` and the other
/// keys are as they were. It is not done only where the map would have to
/// grow and cannot, which takes more than [`MAX_METADATA_KEYS`] keys; the
/// metadata is then as it was. Whether a map of that size has to grow
/// depends on how it was built, not only on what it holds.
///
/// The making of the key panics on a key that is no valid header name, and
/// the making of the value fails on anything but visible ASCII. The
/// conditions leave both out.
#[verifier::external_body]
fn try_insert_metadata(request: tonic::Request<()>, key: &'static str, value: &str) -> (out: (
    tonic::Request<()>,
    bool,
))
    requires
        is_plain_key(key@),
        is_visible_ascii(value@),
    ensures
        out.1 ==> request_metadata(out.0) == request_metadata(request).insert(
            key@,
            seq![ascii_bytes(value@)],
        ),
        !out.1 ==> request_metadata(out.0) == request_metadata(request) && request_metadata(
            request,
        ).dom().len() > MAX_METADATA_KEYS,
{
    let name = hyper::http::header::HeaderName::from_static(key);
    let value = hyper::http::header::HeaderValue::from_str(value).expect("hex produced non-ascii");
    let (metadata, extensions, message) = request.into_parts();
    let mut headers = metadata.into_headers();
    let done = headers.try_insert(name, value).is_ok();
    let metadata = tonic::metadata::MetadataMap::from_headers(headers);
    (tonic::Request::from_parts(metadata, extensions, message), done)
}

/// A request was not stamped, because its metadata could not take one more
/// key.
#[derive(Clone, Copy, Debug, PartialEq, Eq)]
pub struct MetadataFull {
    /// The number of keys that the request carried.
    pub keys: usize,
}

/// Supplies requests with the credential.
pub struct MacaroonInterceptor {
    macaroon: String,
}

impl View for MacaroonInterceptor {
    type V = Seq<char>;

    /// The credential text.
    closed spec fn view(&self) -> Seq<char> {
        self.macaroon@
    }
}

impl Clone for MacaroonInterceptor {
    fn clone(&self) -> (copy: MacaroonInterceptor)
        ensures
            copy@ == self@,
    {
        proof {
            use_type_invariant(self);
        }
        MacaroonInterceptor { macaroon: self.macaroon.clone() }
    }
}

impl MacaroonInterceptor {
    #[verifier::type_invariant]
    spec fn well_formed(self) -> bool {
        is_lower_hex(self.macaroon@)
    }

    /// An interceptor for the credential text `macaroon`.
    pub fn new(macaroon: String) -> (interceptor: MacaroonInterceptor)
        requires
            is_lower_hex(macaroon@),
        ensures
            interceptor@ == macaroon@,
    {
        MacaroonInterceptor { macaroon }
    }

    /// The credential text.
    pub fn macaroon(&self) -> (text: &str)
        ensures
            text@ == self@,
            is_lower_hex(text@),
    {
        proof {
            use_type_invariant(self);
        }
        self.macaroon.as_str()
    }

    /// Stamps the credential onto `request`: afterwards the request carries
    /// exactly one value under the key `macaroon`, the credential text,
    /// whatever it carried under that key before. Nothing else changes.
    ///
    /// Every request with up to [`MAX_METADATA_KEYS`] keys is stamped. A
    /// larger one is stamped too, unless its metadata cannot take one more
    /// key; such a request is not handed on.
    pub fn call(&self, request: tonic::Request<()>) -> (stamped: Result<
        tonic::Request<()>,
        MetadataFull,
    >)
        ensures
            match stamped {
                Ok(out) => {
                    &&& request_metadata(out) == request_metadata(request).insert(
                        MACAROON_KEY@,
                        seq![ascii_bytes(self@)],
                    )
                    &&& request_metadata(out)[MACAROON_KEY@] == seq![ascii_bytes(self@)]
                },
                Err(full) => {
                    &&& request_metadata(request).dom().len() > MAX_METADATA_KEYS
                    &&& full.keys == request_metadata(request).dom().len()
                },
            },
            request_metadata(request).dom().len() <= MAX_METADATA_KEYS ==> stamped is Ok,
    {
        proof {
            use_type_invariant(self);
            reveal_strlit("macaroon");
            lemma_lower_hex_is_visible(self.macaroon@);
        }
        let (out, done) = try_insert_metadata(request, MACAROON_KEY, self.macaroon.as_str());
        if done {
            Ok(out)
        } else {
            let keys = metadata_keys(&out);
            Err(MetadataFull { keys })
        }
    }
}

/// Credential text is safe to carry as an ASCII metadata value.
pub proof fn lemma_lower_hex_is_visible(text: Seq<char>)
    requires
        is_lower_hex(text),
    ensures
        is_visible_ascii(text),
{
    assert forall|i: int| 0 <= i < text.len() implies ' ' <= #[trigger] text[i] <= '~' by {
        assert(is_lower_hex_digit(text[i]));
    }
}

} // verus!
