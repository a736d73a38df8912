//! The bearer credential: raw secret bytes rendered as lowercase hexadecimal
//! text, which is safe to carry as request metadata.

use crate::error::ConnectError;
use std::path::PathBuf;
use vstd::prelude::*;

verus! {

/// The lowercase hexadecimal digit for `nibble`, where `0 <= nibble < 16`.
pub open spec fn hex_digit(nibble: int) -> char {
    if nibble < 10 {
        ('0' as int + nibble) as char
    } else {
        ('a' as int + nibble - 10) as char
    }
}

/// Lowercase hexadecimal text of `bytes`: two digits per byte, the high
/// nibble first.
pub open spec fn hex_encoding(bytes: Seq<u8>) -> Seq<char> {
    Seq::new(
        2 * bytes.len(),
        |i: int|
            if i % 2 == 0 {
                hex_digit(bytes[i / 2] as int / 16)
            } else {
                hex_digit(bytes[i / 2] as int % 16)
            },
    )
}

/// `c` is one of `0123456789abcdef`.
pub open spec fn is_lower_hex_digit(c: char) -> bool {
    '0' <= c <= '9' || 'a' <= c <= 'f'
}

/// `text` is made of pairs of lowercase hexadecimal digits.
pub open spec fn is_lower_hex(text: Seq<char>) -> bool {
    &&& text.len() % 2 == 0
    &&& forall|i: int| 0 <= i < text.len() ==> is_lower_hex_digit(#[trigger] text[i])
}

/// The number that the lowercase hexadecimal digit `c` stands for.
pub open spec fn hex_value(c: char) -> int {
    if c <= '9' {
        c as int - '0' as int
    } else {
        c as int - 'a' as int + 10
    }
}

/// The bytes that lowercase hexadecimal text stands for.
pub open spec fn hex_decoding(text: Seq<char>) -> Seq<u8> {
    Seq::new(
        text.len() / 2,
        |i: int| (16 * hex_value(text[2 * i]) + hex_value(text[2 * i + 1])) as u8,
    )
}

/// The encoding of `n` bytes has `2 * n` characters, all of them lowercase
/// hexadecimal digits.
pub proof fn law_hex_encoding_shape(bytes: Seq<u8>)
    ensures
        hex_encoding(bytes).len() == 2 * bytes.len(),
        is_lower_hex(hex_encoding(bytes)),
{
}

/// Decoding gives back the bytes that were encoded, so two secrets with the
/// same credential text are the same secret.
pub proof fn law_hex_round_trip(bytes: Seq<u8>)
    ensures
        hex_decoding(hex_encoding(bytes)) == bytes,
{
    let text = hex_encoding(bytes);
    assert forall|i: int| 0 <= i < bytes.len() implies hex_decoding(text)[i] == bytes[i] by {
        let b = bytes[i] as int;
        assert((2 * i) % 2 == 0 && (2 * i) / 2 == i);
        assert((2 * i + 1) % 2 == 1 && (2 * i + 1) / 2 == i);
        assert(text[2 * i] == hex_digit(b / 16));
        assert(text[2 * i + 1] == hex_digit(b % 16));
        assert(hex_value(hex_digit(b / 16)) == b / 16);
        assert(hex_value(hex_digit(b % 16)) == b % 16);
    }
    assert(hex_decoding(text) =~= bytes);
}

/// A lowercase hexadecimal digit is the digit of its own value.
pub proof fn lemma_digit_of_value(c: char)
    requires
        is_lower_hex_digit(c),
    ensures
        0 <= hex_value(c) < 16,
        hex_digit(hex_value(c)) == c,
{
}

/// Text made of pairs of lowercase hexadecimal digits is the encoding of
/// the bytes it decodes to: every such text is the credential of a secret.
pub proof fn law_lower_hex_is_an_encoding(text: Seq<char>)
    requires
        is_lower_hex(text),
    ensures
        hex_encoding(hex_decoding(text)) == text,
{
    let bytes = hex_decoding(text);
    assert(bytes.len() * 2 == text.len());
    assert forall|k: int| 0 <= k < text.len() implies hex_encoding(bytes)[k] == text[k] by {
        let i = k / 2;
        let hi = hex_value(text[2 * i]);
        let lo = hex_value(text[2 * i + 1]);
        lemma_digit_of_value(text[2 * i]);
        lemma_digit_of_value(text[2 * i + 1]);
        assert(bytes[i] as int == 16 * hi + lo);
        if k % 2 == 0 {
            assert(k == 2 * i);
            assert(hex_encoding(bytes)[k] == hex_digit(bytes[i] as int / 16));
        } else {
            assert(k == 2 * i + 1);
            assert(hex_encoding(bytes)[k] == hex_digit(bytes[i] as int % 16));
        }
    }
    assert(hex_encoding(bytes) =~= text);
}

/// Encodes `bytes` with `hex::encode`, which maps every byte to the two
/// characters of `0123456789abcdef` selected by its high and its low nibble.
#[verifier::external_body]
fn encode_hex(bytes: &[u8]) -> (text: String)
    ensures
        text@ == hex_encoding(bytes@),
{
    ::hex::encode(bytes)
}

/// The credential text for the secret of the file `file`, given what reading
/// the file brought: its bytes, or the reason why it could not be read.
///
/// Any bytes are a secret: nothing is asked of their form.
pub fn load_macaroon(file: PathBuf, contents: Result<Vec<u8>, std::io::Error>) -> (loaded: Result<
    String,
    ConnectError,
>)
    ensures
        match contents {
            Ok(secret) => loaded matches Ok(text) && text@ == hex_encoding(secret@),
            Err(cause) => loaded matches Err(ConnectError::ReadFailure { file: f, error }) && f
                == file && error == cause,
        },
{
    match contents {
        Ok(secret) => Ok(encode_hex(secret.as_slice())),
        Err(error) => Err(ConnectError::ReadFailure { file, error }),
    }
}

} // verus!
