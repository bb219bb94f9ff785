//! Decoding of the path of a request URI: percent-decoding of the raw bytes,
//! then a lossy reading of the result as UTF-8.

use vstd::prelude::*;
use vstd::utf8::*;

verus! {

/// The value of an ASCII hexadecimal digit, in either case; `None` for any
/// other byte.
pub open spec fn hex_value(b: u8) -> Option<u8> {
    if 0x30 <= b <= 0x39 {
        Some((b - 0x30) as u8)
    } else if 0x61 <= b <= 0x66 {
        Some((b - 0x61 + 10) as u8)
    } else if 0x41 <= b <= 0x46 {
        Some((b - 0x41 + 10) as u8)
    } else {
        None
    }
}

/// Whether a `%` at the head of `input` starts an escape: two hexadecimal
/// digits follow it.
pub open spec fn starts_with_escape(input: Seq<u8>) -> bool {
    &&& input.len() >= 3
    &&& input[0] == 0x25
    &&& hex_value(input[1]) is Some
    &&& hex_value(input[2]) is Some
}

/// Percent-decoding: every `%` followed by two hexadecimal digits stands for
/// the byte those digits spell; every other byte, a stray `%` included,
/// stands for itself.
pub open spec fn percent_decoded(input: Seq<u8>) -> Seq<u8>
    decreases input.len(),
{
    if input.len() == 0 {
        Seq::empty()
    } else if starts_with_escape(input) {
        seq![(hex_value(input[1])->0 * 16 + hex_value(input[2])->0) as u8] + percent_decoded(
            input.skip(3),
        )
    } else {
        seq![input[0]] + percent_decoded(input.skip(1))
    }
}

/// What a lossy UTF-8 reading makes of bytes that are not valid UTF-8: the
/// text in which each invalid sequence is replaced by U+FFFD.
pub uninterp spec fn replaced_text(bytes: Seq<u8>) -> Seq<char>;

/// The lossy reading of bytes as UTF-8: the text they encode where they are
/// valid, and the repaired text otherwise.
pub open spec fn lossy_text(bytes: Seq<u8>) -> Seq<char> {
    if valid_utf8(bytes) {
        decode_utf8(bytes)
    } else {
        replaced_text(bytes)
    }
}

/// The path a handler sees for the raw path bytes of a URI.
pub open spec fn decoded_path(raw: Seq<u8>) -> Seq<char> {
    lossy_text(percent_decoded(raw))
}

/// Runs `percent_encoding::percent_decode` on the bytes and reads its result
/// with `decode_utf8_lossy`.
///
/// Trusted: the decoder turns each `%` plus two hexadecimal digits into one
/// byte and passes everything else through, and the lossy reading returns
/// valid UTF-8 unchanged and repairs the rest with U+FFFD.
#[verifier::external_body]
fn percent_decode_lossy(raw: &[u8]) -> (text: String)
    ensures
        ({
            let bytes = percent_decoded(raw@);
            text@ == if valid_utf8(bytes) {
                decode_utf8(bytes)
            } else {
                replaced_text(bytes)
            }
        }),
{
    percent_encoding::percent_decode(raw).decode_utf8_lossy().into_owned()
}

/// Decodes the raw path of a URI into the text handed to the handler.
/// Never fails: bytes that do not form UTF-8 after percent-decoding are
/// replaced, not rejected.
pub fn decode_path(raw: &str) -> (path: String)
    ensures
        path@ == decoded_path(encode_utf8(raw@)),
{
    percent_decode_lossy(raw.as_bytes())
}

/// The ASCII hexadecimal digit, in upper case, of a number below sixteen.
pub open spec fn hex_digit(n: int) -> u8 {
    if n < 10 {
        (0x30 + n) as u8
    } else {
        (0x41 + n - 10) as u8
    }
}

/// Bytes with each of them written as an escape: a `%` and the two
/// hexadecimal digits of the byte.
pub open spec fn percent_encoded(bytes: Seq<u8>) -> Seq<u8>
    decreases bytes.len(),
{
    if bytes.len() == 0 {
        Seq::empty()
    } else {
        seq![0x25u8, hex_digit(bytes[0] as int / 16), hex_digit(bytes[0] as int % 16)]
            + percent_encoded(bytes.skip(1))
    }
}

/// Bytes without a `%` are their own decoding.
pub proof fn lemma_plain_bytes_unchanged(raw: Seq<u8>)
    requires
        forall|i: int| 0 <= i < raw.len() ==> raw[i] != 0x25,
    ensures
        percent_decoded(raw) == raw,
    decreases raw.len(),
{
    if raw.len() > 0 {
        lemma_plain_bytes_unchanged(raw.skip(1));
    }
}

/// Decoding undoes encoding: bytes written as escapes decode to the bytes.
pub proof fn lemma_decoding_undoes_encoding(bytes: Seq<u8>)
    ensures
        percent_decoded(percent_encoded(bytes)) == bytes,
    decreases bytes.len(),
{
    if bytes.len() > 0 {
        let b = bytes[0];
        let head = seq![0x25u8, hex_digit(b as int / 16), hex_digit(b as int % 16)];
        let rest = percent_encoded(bytes.skip(1));
        let encoded = percent_encoded(bytes);
        assert(encoded == head + rest);
        assert(hex_value(encoded[1]) == Some((b / 16) as u8));
        assert(hex_value(encoded[2]) == Some((b % 16) as u8));
        assert(starts_with_escape(encoded));
        assert(encoded.skip(3) =~= rest);
        assert((b as int / 16) * 16 + b as int % 16 == b as int);
        lemma_decoding_undoes_encoding(bytes.skip(1));
        assert(seq![b] + bytes.skip(1) =~= bytes);
    }
}

/// A path whose escapes spell the UTF-8 encoding of a text is handed to the
/// handler as that text.
pub proof fn lemma_encoded_text_decodes(raw: Seq<u8>, text: Seq<char>)
    requires
        percent_decoded(raw) == encode_utf8(text),
    ensures
        decoded_path(raw) == text,
{
    encode_utf8_valid_utf8(text);
    encode_utf8_decode_utf8(text);
}

/// A text that is encoded as UTF-8 and written as escapes, byte for byte, is
/// handed to the handler as it was.
pub proof fn lemma_escaped_text_decodes(text: Seq<char>)
    ensures
        decoded_path(percent_encoded(encode_utf8(text))) == text,
{
    lemma_decoding_undoes_encoding(encode_utf8(text));
    lemma_encoded_text_decodes(percent_encoded(encode_utf8(text)), text);
}

/// A path without a `%` is handed to the handler as it came.
pub proof fn lemma_plain_path_unchanged(path: Seq<char>)
    requires
        forall|i: int| 0 <= i < encode_utf8(path).len() ==> encode_utf8(path)[i] != 0x25,
    ensures
        decoded_path(encode_utf8(path)) == path,
{
    lemma_plain_bytes_unchanged(encode_utf8(path));
    lemma_encoded_text_decodes(encode_utf8(path), path);
}

} // verus!
