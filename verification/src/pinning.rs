//! The pinned-certificate verifier: a peer is accepted only if it presents
//! exactly the pinned certificates, in whatever order.

use crate::error::{ConnectError, Rejection};
use crate::order::{contents, lemma_lex_order_total, lex_order, same_bytes, sorted};
use std::path::PathBuf;
use vstd::prelude::*;
use vstd::relations::{sorted_by, total_ordering};
use vstd::seq_lib::lemma_sorted_unique;

verus! {

/// The byte strings held by `certs`.
pub open spec fn byte_strings(certs: Seq<Vec<u8>>) -> Seq<Seq<u8>> {
    Seq::new(certs.len(), |i: int| certs[i]@)
}

/// The certificates that PEM text holds, in the order of the text, each as
/// its DER bytes; `None` where the text is malformed.
pub uninterp spec fn pem_certificates(text: Seq<u8>) -> Option<Seq<Seq<u8>>>;

/// Reads `text` with `rustls_pemfile::certs`. That function walks the text
/// section by section, decodes the base64 body of each `CERTIFICATE` section,
/// skips sections of other kinds, and fails on a section that is cut short,
/// has an ill-formed first line or holds invalid base64. What it returns
/// depends on the text alone.
#[verifier::external_body]
fn parse_pem(text: &[u8]) -> (parsed: Result<Vec<Vec<u8>>, std::io::Error>)
    ensures
        match parsed {
            Ok(certs) => pem_certificates(text@) == Some(byte_strings(certs@)),
            Err(_) => pem_certificates(text@) is None,
        },
{
    let mut reader = text;
    rustls_pemfile::certs(&mut reader)
}

/// What a peer presents in one handshake: its intermediate certificates,
/// then its end-entity certificate.
pub open spec fn presented_chain(end_entity: Seq<u8>, intermediates: Seq<Seq<u8>>) -> Seq<
    Seq<u8>,
> {
    intermediates.push(end_entity)
}

/// The peer is accepted: it presents each pinned certificate as often as it
/// is pinned, and nothing else.
pub open spec fn accepted(pinned: Seq<Seq<u8>>, presented: Seq<Seq<u8>>) -> bool {
    presented.to_multiset() == pinned.to_multiset()
}

/// The outcome of checking `presented` against `pinned`. The counts are
/// compared first, so that a peer with the wrong number of certificates
/// learns only the numbers.
pub open spec fn verdict(pinned: Seq<Seq<u8>>, presented: Seq<Seq<u8>>) -> Result<(), Rejection> {
    if pinned.len() != presented.len() {
        Err(
            Rejection::CountMismatch {
                expected: pinned.len() as usize,
                presented: presented.len() as usize,
            },
        )
    } else if !accepted(pinned, presented) {
        Err(Rejection::ContentMismatch)
    } else {
        Ok(())
    }
}

/// Borrows each certificate of `certs` as a byte slice.
fn as_slices<'a>(certs: &'a [Vec<u8>]) -> (out: Vec<&'a [u8]>)
    ensures
        contents(out@) == byte_strings(certs@),
{
    let mut out: Vec<&'a [u8]> = Vec::new();
    let mut i: usize = 0;
    while i < certs.len()
        invariant
            i <= certs@.len(),
            out@.len() == i,
            forall|k: int| 0 <= k < i ==> (#[trigger] out@[k])@ == certs@[k]@,
        decreases certs@.len() - i,
    {
        out.push(certs[i].as_slice());
        i = i + 1;
    }
    assert(contents(out@) =~= byte_strings(certs@));
    out
}

/// Checks every handshake against a fixed set of pinned certificates.
pub struct CertVerifier {
    certs: Vec<Vec<u8>>,
}

impl View for CertVerifier {
    type V = Seq<Seq<u8>>;

    /// The pinned certificates, in the order in which they were loaded.
    closed spec fn view(&self) -> Seq<Seq<u8>> {
        byte_strings(self.certs@)
    }
}

impl CertVerifier {
    /// Pins the certificates that were parsed from the file `file`, or
    /// reports why the file could not be parsed.
    pub fn from_parsed(file: PathBuf, parsed: Result<Vec<Vec<u8>>, std::io::Error>) -> (loaded:
        Result<CertVerifier, ConnectError>)
        ensures
            match parsed {
                Ok(certs) => loaded matches Ok(verifier) && verifier@ == byte_strings(certs@),
                Err(cause) => loaded matches Err(ConnectError::ParseFailure { file: f, error })
                    && f == file && error == cause,
            },
    {
        match parsed {
            Ok(certs) => Ok(CertVerifier { certs }),
            Err(error) => Err(ConnectError::ParseFailure { file, error }),
        }
    }

    /// Pins the certificates of the PEM file `file`, given what reading the
    /// file brought: its bytes, or the reason why it could not be read.
    ///
    /// A file without any certificate is accepted and pins nothing; no peer
    /// passes such a verifier.
    pub fn load(file: PathBuf, contents: Result<Vec<u8>, std::io::Error>) -> (loaded: Result<
        CertVerifier,
        ConnectError,
    >)
        ensures
            match contents {
                Ok(text) => match pem_certificates(text@) {
                    Some(certs) => loaded matches Ok(verifier) && verifier@ == certs,
                    None => loaded matches Err(ConnectError::ParseFailure { file: f, .. }) && f
                        == file,
                },
                Err(cause) => loaded matches Err(ConnectError::ReadFailure { file: f, error })
                    && f == file && error == cause,
            },
    {
        match contents {
            Ok(text) => CertVerifier::from_parsed(file, parse_pem(text.as_slice())),
            Err(error) => Err(ConnectError::ReadFailure { file, error }),
        }
    }

    /// Checks the certificates that a peer presents in a handshake: its
    /// end-entity certificate and the intermediates it sent along.
    ///
    /// Both sides are lined up in lexicographic order and compared one by
    /// one, so the order of presentation does not matter. The peer is
    /// accepted if and only if it presents exactly the pinned certificates.
    pub fn verify_server_cert(&self, end_entity: &[u8], intermediates: &[Vec<u8>]) -> (outcome:
        Result<(), Rejection>)
        ensures
            outcome == verdict(self@, presented_chain(end_entity@, byte_strings(intermediates@))),
            outcome is Ok <==> accepted(
                self@,
                presented_chain(end_entity@, byte_strings(intermediates@)),
            ),
    {
        let ghost chain = presented_chain(end_entity@, byte_strings(intermediates@));
        let mut offered = as_slices(intermediates);
        offered.push(end_entity);
        assert(contents(offered@) =~= chain);
        let theirs = sorted(&offered);
        let pinned = as_slices(self.certs.as_slice());
        let ours = sorted(&pinned);
        proof {
            lemma_lex_order_total();
            lemma_accepted_same_count(self@, chain);
        }
        if self.certs.len() != offered.len() {
            return Err(
                Rejection::CountMismatch { expected: self.certs.len(), presented: offered.len() },
            );
        }
        let mut i: usize = 0;
        while i < ours.len()
            invariant
                i <= ours@.len(),
                ours@.len() == theirs@.len(),
                self@.len() == chain.len(),
                chain == presented_chain(end_entity@, byte_strings(intermediates@)),
                total_ordering(lex_order()),
                sorted_by(contents(ours@), lex_order()),
                sorted_by(contents(theirs@), lex_order()),
                contents(ours@).to_multiset() == self@.to_multiset(),
                contents(theirs@).to_multiset() == chain.to_multiset(),
                forall|k: int| 0 <= k < i ==> contents(ours@)[k] == contents(theirs@)[k],
            decreases ours@.len() - i,
        {
            if !same_bytes(ours[i], theirs[i]) {
                proof {
                    if accepted(self@, chain) {
                        lemma_sorted_unique(contents(ours@), contents(theirs@), lex_order());
                        assert(contents(ours@)[i as int] == contents(theirs@)[i as int]);
                    }
                }
                return Err(Rejection::ContentMismatch);
            }
            i = i + 1;
        }
        assert(contents(ours@) =~= contents(theirs@));
        Ok(())
    }
}

/// An accepted peer presents as many certificates as are pinned.
pub proof fn lemma_accepted_same_count(pinned: Seq<Seq<u8>>, presented: Seq<Seq<u8>>)
    ensures
        accepted(pinned, presented) ==> pinned.len() == presented.len(),
{
    pinned.to_multiset_ensures();
    presented.to_multiset_ensures();
}

/// A peer passes if and only if what it presents, taken as a multiset of
/// byte strings, is the pinned set taken as a multiset.
pub proof fn law_accepted_iff_same_multiset(pinned: Seq<Seq<u8>>, presented: Seq<Seq<u8>>)
    ensures
        verdict(pinned, presented) is Ok <==> presented.to_multiset() == pinned.to_multiset(),
{
    lemma_accepted_same_count(pinned, presented);
}

/// A chain made of exactly the pinned certificates passes, in the pinned
/// order and in any other: the outcome depends on the presented certificates
/// as a multiset only.
pub proof fn law_pinned_set_accepted(
    pinned: Seq<Seq<u8>>,
    presented: Seq<Seq<u8>>,
    reordered: Seq<Seq<u8>>,
)
    requires
        reordered.to_multiset() == presented.to_multiset(),
    ensures
        verdict(pinned, pinned) is Ok,
        verdict(pinned, reordered) == verdict(pinned, presented),
        pinned.len() > 0 ==> verdict(
            pinned,
            presented_chain(pinned.last(), pinned.drop_last()),
        ) is Ok,
{
    presented.to_multiset_ensures();
    reordered.to_multiset_ensures();
    if pinned.len() > 0 {
        assert(presented_chain(pinned.last(), pinned.drop_last()) =~= pinned);
    }
}

/// Changing a single byte of one certificate of an accepted chain gets the
/// chain rejected.
pub proof fn law_mutation_rejected(
    pinned: Seq<Seq<u8>>,
    presented: Seq<Seq<u8>>,
    cert: int,
    at: int,
    byte: u8,
)
    requires
        verdict(pinned, presented) is Ok,
        0 <= cert < presented.len(),
        0 <= at < presented[cert].len(),
        byte != presented[cert][at],
    ensures
        verdict(pinned, presented.update(cert, presented[cert].update(at, byte))) == Err::<
            (),
            Rejection,
        >(Rejection::ContentMismatch),
{
    broadcast use vstd::multiset::group_multiset_axioms;

    let intact = presented[cert];
    let mutated = intact.update(at, byte);
    assert(mutated[at] != intact[at]);
    vstd::seq_lib::to_multiset_update(presented, cert, mutated);
    let before = presented.to_multiset();
    let after = presented.update(cert, mutated).to_multiset();
    assert(after.count(mutated) == before.count(mutated) + 1);
}

/// An accepted chain with one more certificate, wherever it is put, is
/// rejected for its count.
pub proof fn law_added_certificate_rejected(
    pinned: Seq<Seq<u8>>,
    presented: Seq<Seq<u8>>,
    at: int,
    extra: Seq<u8>,
)
    requires
        verdict(pinned, presented) is Ok,
        0 <= at <= presented.len(),
    ensures
        verdict(pinned, presented.insert(at, extra)) == Err::<(), Rejection>(
            Rejection::CountMismatch {
                expected: pinned.len() as usize,
                presented: (pinned.len() + 1) as usize,
            },
        ),
{
    presented.insert_ensures(at, extra);
}

/// An accepted chain with one certificate taken out is rejected for its
/// count.
pub proof fn law_removed_certificate_rejected(
    pinned: Seq<Seq<u8>>,
    presented: Seq<Seq<u8>>,
    at: int,
)
    requires
        verdict(pinned, presented) is Ok,
        0 <= at < presented.len(),
    ensures
        verdict(pinned, presented.remove(at)) == Err::<(), Rejection>(
            Rejection::CountMismatch {
                expected: pinned.len() as usize,
                presented: (pinned.len() - 1) as usize,
            },
        ),
{
    presented.remove_ensures(at);
}

} // verus!
