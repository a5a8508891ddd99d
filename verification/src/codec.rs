//! Text encodings: bytes on disk to text in memory and back.
//!
//! The conversions themselves are done by `encoding_rs`. What it returns is
//! written down here as far as its source states it in a few lines (UTF-8
//! and ASCII-only input); the rest is left as a named result.
//!
//! A file is always read in the encoding the service was started with. A
//! byte-order mark at its start is text like any other, so a document that
//! was written comes back character for character.

use vstd::prelude::*;
use vstd::utf8::*;

verus! {

/// The encodings a document can be stored in.
#[derive(Debug, Clone, Copy, PartialEq, Eq, Structural)]
pub enum Encodes {
    Utf8,
    Gbk,
}

impl Default for Encodes {
    /// UTF-8, the encoding used when none is chosen.
    fn default() -> (encoding: Encodes)
        ensures
            encoding == Encodes::Utf8,
    {
        Encodes::Utf8
    }
}

/// Why a conversion was refused.
#[derive(Debug, Clone, Copy, PartialEq, Eq, Structural)]
pub enum CodecError {
    /// The text holds a character the target encoding cannot represent.
    Unrepresentable,
    /// The bytes are not well formed in the encoding they were read with.
    Malformed,
    /// The input is longer than the converter is called with.
    TooLarge,
}

/// The longest input, in bytes, that is handed to a converter. The largest
/// buffer a converter asks for stays under eight times its input, so with
/// this limit no size it computes overflows. The same limit holds in both
/// directions, so what was written can be read back.
pub open spec fn codec_limit() -> nat {
    (usize::MAX / 16) as nat
}

/// The pair that `encoding_rs::Encoding::encode` returns for a text, as
/// bytes and the flag for unmappable characters.
pub uninterp spec fn encoding_rs_encode(encoding: Encodes, text: Seq<char>) -> (Seq<u8>, bool);

/// The pair that `encoding_rs::Encoding::decode_without_bom_handling`
/// returns for a buffer, as text and the flag for malformed sequences.
pub uninterp spec fn encoding_rs_decode(encoding: Encodes, bytes: Seq<u8>) -> (Seq<char>, bool);

/// Every byte is below 0x80.
pub open spec fn is_ascii_bytes(bytes: Seq<u8>) -> bool {
    forall|i: int| 0 <= i < bytes.len() ==> bytes[i] < 0x80
}

/// Bytes and the unmappable flag for a text written in an encoding.
///
/// UTF-8 output is the text's own bytes, and so is the output for ASCII-only
/// text in GBK; neither can fail. Any other result is the converter's.
pub open spec fn encode_outcome(encoding: Encodes, text: Seq<char>) -> (Seq<u8>, bool) {
    if encoding == Encodes::Utf8 || is_ascii_chars(text) {
        (encode_utf8(text), false)
    } else {
        encoding_rs_encode(encoding, text)
    }
}

/// Text and the malformed flag for a buffer read in an encoding.
///
/// Well-formed UTF-8 decodes to its characters and ill-formed UTF-8 is
/// flagged; ASCII-only bytes in GBK are their own text. Any other result is
/// the converter's.
pub open spec fn decode_outcome(encoding: Encodes, bytes: Seq<u8>) -> (Seq<char>, bool) {
    let other = encoding_rs_decode(encoding, bytes);
    if encoding == Encodes::Utf8 {
        if valid_utf8(bytes) {
            (decode_utf8(bytes), false)
        } else {
            (other.0, true)
        }
    } else if is_ascii_bytes(bytes) {
        (decode_utf8(bytes), false)
    } else {
        other
    }
}

/// Calls `encoding_rs::Encoding::encode` on `encoding_rs::UTF_8` or
/// `encoding_rs::GBK`, whichever `encoding` stands for.
///
/// Trusted: the bytes and the flag are the converter's named result, and
/// that result is as `encode_outcome` states it where it states one: the
/// converter hands back the text's own bytes, with no error, when its
/// output encoding is UTF-8 or the text is ASCII-only. The length bound
/// keeps the converter's buffer-size arithmetic from overflowing, on which
/// it panics.
#[verifier::external_body]
fn encode_with(encoding: Encodes, text: &str) -> (out: (Vec<u8>, bool))
    requires
        encode_utf8(text@).len() <= codec_limit(),
    ensures
        (out.0@, out.1) == encoding_rs_encode(encoding, text@),
        (out.0@, out.1) == encode_outcome(encoding, text@),
{
    let codec = match encoding {
        Encodes::Utf8 => encoding_rs::UTF_8,
        Encodes::Gbk => encoding_rs::GBK,
    };
    let (bytes, _, unmappable) = codec.encode(text);
    (bytes.into_owned(), unmappable)
}

/// Calls `encoding_rs::Encoding::decode_without_bom_handling` on
/// `encoding_rs::UTF_8` or `encoding_rs::GBK`, whichever `encoding` stands
/// for.
///
/// Trusted: the text and the flag are the converter's named result, and
/// that result is as `decode_outcome` states it where it states one: the
/// converter hands back well-formed UTF-8 and ASCII-only input as they
/// are, with no error, and flags UTF-8 that is not well formed. The length
/// bound keeps the converter's buffer-size arithmetic from overflowing, on
/// which it panics.
#[verifier::external_body]
fn decode_with(encoding: Encodes, bytes: &[u8]) -> (out: (String, bool))
    requires
        bytes@.len() <= codec_limit(),
    ensures
        (out.0@, out.1) == encoding_rs_decode(encoding, bytes@),
        (out.0@, out.1) == decode_outcome(encoding, bytes@),
{
    let codec = match encoding {
        Encodes::Utf8 => encoding_rs::UTF_8,
        Encodes::Gbk => encoding_rs::GBK,
    };
    let (text, malformed) = codec.decode_without_bom_handling(bytes);
    (text.into_owned(), malformed)
}

/// Whether an input of `len` bytes is short enough for a converter.
fn within_limit(len: usize) -> (ok: bool)
    ensures
        ok == (len <= codec_limit()),
{
    len <= usize::MAX / 16
}

/// What encoding a text yields: its bytes, or the reason for refusing it.
pub open spec fn encode_result(encoding: Encodes, text: Seq<char>) -> Result<Seq<u8>, CodecError> {
    if encode_utf8(text).len() > codec_limit() {
        Err(CodecError::TooLarge)
    } else if encode_outcome(encoding, text).1 {
        Err(CodecError::Unrepresentable)
    } else {
        Ok(encode_outcome(encoding, text).0)
    }
}

/// What decoding a buffer yields: its text, or the reason for refusing it.
pub open spec fn decode_result(encoding: Encodes, bytes: Seq<u8>) -> Result<Seq<char>, CodecError> {
    if bytes.len() > codec_limit() {
        Err(CodecError::TooLarge)
    } else if decode_outcome(encoding, bytes).1 {
        Err(CodecError::Malformed)
    } else {
        Ok(decode_outcome(encoding, bytes).0)
    }
}

/// Accepts converted bytes unless the converter met a character it could
/// not map; bytes that hold its substitutes are never handed on.
pub fn encoded_or_refused(bytes: Vec<u8>, unmappable: bool) -> (r: Result<Vec<u8>, CodecError>)
    ensures
        unmappable ==> r == Err::<Vec<u8>, CodecError>(CodecError::Unrepresentable),
        !unmappable ==> r == Ok::<Vec<u8>, CodecError>(bytes),
{
    if unmappable {
        Err(CodecError::Unrepresentable)
    } else {
        Ok(bytes)
    }
}

/// Accepts converted text unless the converter met a malformed sequence;
/// text that holds its replacement characters is never handed on.
pub fn decoded_or_refused(text: String, malformed: bool) -> (r: Result<String, CodecError>)
    ensures
        malformed ==> r == Err::<String, CodecError>(CodecError::Malformed),
        !malformed ==> r == Ok::<String, CodecError>(text),
{
    if malformed {
        Err(CodecError::Malformed)
    } else {
        Ok(text)
    }
}

/// Encodes `content` for storage.
pub fn encode_content(content: &str, encoding: Encodes) -> (r: Result<Vec<u8>, CodecError>)
    ensures
        match r {
            Ok(bytes) => encode_result(encoding, content@) == Ok::<Seq<u8>, CodecError>(bytes@),
            Err(e) => encode_result(encoding, content@) == Err::<Seq<u8>, CodecError>(e),
        },
{
    if !within_limit(content.as_bytes().len()) {
        return Err(CodecError::TooLarge);
    }
    let (bytes, unmappable) = encode_with(encoding, content);
    encoded_or_refused(bytes, unmappable)
}

/// Decodes the bytes of a stored document.
pub fn decode_content(bytes: &[u8], encoding: Encodes) -> (r: Result<String, CodecError>)
    ensures
        match r {
            Ok(text) => decode_result(encoding, bytes@) == Ok::<Seq<char>, CodecError>(text@),
            Err(e) => decode_result(encoding, bytes@) == Err::<Seq<char>, CodecError>(e),
        },
{
    if !within_limit(bytes.len()) {
        return Err(CodecError::TooLarge);
    }
    let (text, malformed) = decode_with(encoding, bytes);
    decoded_or_refused(text, malformed)
}

/// The encodings and texts of which this module states both directions:
/// any text in UTF-8, and ASCII-only text in GBK.
pub open spec fn is_stated_text(encoding: Encodes, text: Seq<char>) -> bool {
    encoding == Encodes::Utf8 || is_ascii_chars(text)
}

/// Decoding undoes encoding for every stated text: the bytes are the text's
/// UTF-8 bytes, and they decode to the text with no error.
pub proof fn lemma_decode_undoes_encode(encoding: Encodes, text: Seq<char>)
    requires
        is_stated_text(encoding, text),
    ensures
        encode_outcome(encoding, text) == (encode_utf8(text), false),
        decode_outcome(encoding, encode_utf8(text)) == (text, false),
{
    let bytes = encode_utf8(text);
    encode_utf8_valid_utf8(text);
    encode_utf8_decode_utf8(text);
    if encoding != Encodes::Utf8 {
        is_ascii_chars_encode_utf8(text);
        assert forall|i: int| 0 <= i < bytes.len() implies bytes[i] < 0x80 by {
            assert(text[i] as u8 == bytes[i]);
        }
    }
}

/// A stated text that encodes without error reads back unchanged from the
/// bytes it was stored as.
pub proof fn lemma_stored_text_reads_back(encoding: Encodes, text: Seq<char>)
    requires
        is_stated_text(encoding, text),
        encode_result(encoding, text) is Ok,
    ensures
        decode_result(encoding, encode_result(encoding, text)->Ok_0) == Ok::<
            Seq<char>,
            CodecError,
        >(text),
{
    lemma_decode_undoes_encode(encoding, text);
}

/// Every text can be written in UTF-8 unless it is too long, and then reads
/// back unchanged.
pub proof fn lemma_utf8_is_lossless(text: Seq<char>)
    requires
        encode_utf8(text).len() <= codec_limit(),
    ensures
        encode_result(Encodes::Utf8, text) == Ok::<Seq<u8>, CodecError>(encode_utf8(text)),
        decode_result(Encodes::Utf8, encode_utf8(text)) == Ok::<Seq<char>, CodecError>(text),
{
    lemma_decode_undoes_encode(Encodes::Utf8, text);
}

} // verus!
