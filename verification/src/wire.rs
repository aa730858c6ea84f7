//! The binary layout of text arguments: the byte length as four
//! little-endian bytes, then that many bytes of UTF-8.
//!
//! A text may be as long as its prefix can announce; no shorter limit is
//! set. A prefix that announces more than the input holds is an error, so
//! reading never reserves more memory than the input takes.

use vstd::prelude::*;
use vstd::slice::{slice_subrange, slice_to_vec};
use vstd::utf8::{decode_utf8, encode_utf8, valid_utf8};

verus! {

/// Largest byte length that a prefix can announce.
pub const MAX_TEXT_BYTES: usize = 0xffff_ffff;

/// Why a piece of text could not be read.
#[derive(Clone, Copy, Debug, PartialEq, Eq, Structural)]
pub enum TextError {
    /// The input ends before the four bytes of the length prefix.
    MissingLength,
    /// The prefix announces more bytes than the input still holds.
    MissingBody,
    /// The announced bytes are not UTF-8.
    NotUtf8,
}

/// The number that the first four bytes of `bytes` spell, little end first.
pub open spec fn le_u32(bytes: Seq<u8>) -> nat
    recommends
        bytes.len() >= 4,
{
    (bytes[0] as nat) + 256 * (bytes[1] as nat) + 65536 * (bytes[2] as nat) + 16777216 * (
    bytes[3] as nat)
}

/// The four bytes that spell `value`, little end first.
pub open spec fn u32_le(value: nat) -> Seq<u8>
    recommends
        value <= 0xffff_ffff,
{
    seq![
        (value % 256) as u8,
        (value / 256 % 256) as u8,
        (value / 65536 % 256) as u8,
        (value / 16777216 % 256) as u8,
    ]
}

/// Whether `text` is short enough for its length to fit the prefix.
pub open spec fn encodable(text: Seq<char>) -> bool {
    encode_utf8(text).len() <= 0xffff_ffff
}

/// The encoding of `text`: length prefix, then UTF-8.
pub open spec fn encode_text(text: Seq<char>) -> Seq<u8>
    recommends
        encodable(text),
{
    u32_le(encode_utf8(text).len()) + encode_utf8(text)
}

/// What reading one piece of text from the front of `bytes` yields: the text
/// and the number of bytes it took up, or the reason why there is none.
/// Bytes after the text are left alone.
pub open spec fn decode_text(bytes: Seq<u8>) -> Result<(Seq<char>, nat), TextError> {
    if bytes.len() < 4 {
        Err(TextError::MissingLength)
    } else if bytes.len() - 4 < le_u32(bytes) {
        Err(TextError::MissingBody)
    } else if !valid_utf8(bytes.subrange(4, 4 + le_u32(bytes) as int)) {
        Err(TextError::NotUtf8)
    } else {
        Ok((decode_utf8(bytes.subrange(4, 4 + le_u32(bytes) as int)), 4 + le_u32(bytes)))
    }
}

/// Four base-256 digits are recovered from their sum by division and
/// remainder.
proof fn lemma_digits(a: int, b: int, c: int, d: int)
    requires
        0 <= a < 256,
        0 <= b < 256,
        0 <= c < 256,
        0 <= d < 256,
    ensures
        ({
            let v = a + 256 * b + 65536 * c + 16777216 * d;
            &&& 0 <= v <= 0xffff_ffff
            &&& v % 256 == a
            &&& v / 256 % 256 == b
            &&& v / 65536 % 256 == c
            &&& v / 16777216 % 256 == d
        }),
{
    let v = a + 256 * b + 65536 * c + 16777216 * d;
    assert(v == 256 * (b + 256 * c + 65536 * d) + a);
    assert(v / 256 == b + 256 * c + 65536 * d);
    assert(v == 65536 * (c + 256 * d) + (a + 256 * b));
    assert(v / 65536 == c + 256 * d);
    assert(v == 16777216 * d + (a + 256 * b + 65536 * c));
    assert(v / 16777216 == d);
}

/// A prefix spells a number that fits in 32 bits, and writing that number
/// out again gives the same four bytes.
pub proof fn lemma_prefix_of_bytes(bytes: Seq<u8>)
    requires
        bytes.len() >= 4,
    ensures
        le_u32(bytes) <= 0xffff_ffff,
        u32_le(le_u32(bytes)) == bytes.subrange(0, 4),
{
    lemma_digits(bytes[0] as int, bytes[1] as int, bytes[2] as int, bytes[3] as int);
    assert(u32_le(le_u32(bytes)) =~= bytes.subrange(0, 4));
}

/// Writing a number that fits in 32 bits and reading it back gives the
/// number, whatever follows the four bytes.
pub proof fn lemma_prefix_of_value(value: nat, tail: Seq<u8>)
    requires
        value <= 0xffff_ffff,
    ensures
        u32_le(value).len() == 4,
        le_u32(u32_le(value) + tail) == value,
{
    let bytes = u32_le(value) + tail;
    assert(bytes[0] == u32_le(value)[0]);
    assert(bytes[1] == u32_le(value)[1]);
    assert(bytes[2] == u32_le(value)[2]);
    assert(bytes[3] == u32_le(value)[3]);
}

/// Reading what `encode_text` wrote gives the text back and stops where the
/// encoding ends.
pub proof fn lemma_decode_encoded_text(text: Seq<char>, tail: Seq<u8>)
    requires
        encodable(text),
    ensures
        decode_text(encode_text(text) + tail) == Ok::<(Seq<char>, nat), TextError>(
            (text, encode_text(text).len()),
        ),
{
    let body = encode_utf8(text);
    let bytes = encode_text(text) + tail;
    lemma_prefix_of_value(body.len(), body + tail);
    assert(bytes =~= u32_le(body.len()) + (body + tail));
    assert(bytes.subrange(4, 4 + body.len() as int) =~= body);
    vstd::utf8::encode_utf8_valid_utf8(text);
    vstd::utf8::encode_utf8_decode_utf8(text);
}

/// Encoding the text that was read gives exactly the bytes that were read.
pub proof fn lemma_encode_decoded_text(bytes: Seq<u8>)
    requires
        decode_text(bytes) is Ok,
    ensures
        ({
            let (text, used) = decode_text(bytes)->Ok_0;
            &&& used <= bytes.len()
            &&& encodable(text)
            &&& encode_text(text) == bytes.subrange(0, used as int)
        }),
{
    let n = le_u32(bytes);
    let body = bytes.subrange(4, 4 + n as int);
    lemma_prefix_of_bytes(bytes);
    vstd::utf8::decode_utf8_encode_utf8(body);
    assert(u32_le(n) + body =~= bytes.subrange(0, 4 + n as int));
}

/// Calls `String::from_utf8` of std. The documentation says that it checks
/// that the bytes are UTF-8, fails where they are not, and otherwise turns
/// the vector into a string without changing a byte. The contract says this
/// over vstd's definitions of UTF-8.
#[verifier::external_body]
fn string_from_utf8(bytes: Vec<u8>) -> (text: Option<String>)
    ensures
        text is Some <==> valid_utf8(bytes@),
        text matches Some(s) ==> encode_utf8(s@) == bytes@,
{
    String::from_utf8(bytes).ok()
}

/// Reads one piece of text from the front of `data`.
///
/// Returns the text and the number of bytes that it took up. The length
/// prefix is held against what `data` still holds before anything is
/// allocated.
pub fn read_text(data: &[u8]) -> (result: Result<(String, usize), TextError>)
    ensures
        match decode_text(data@) {
            Ok((text, used)) => result matches Ok((s, n)) && s@ == text && n == used,
            Err(error) => result == Err::<(String, usize), TextError>(error),
        },
{
    if data.len() < 4 {
        return Err(TextError::MissingLength);
    }
    let announced: u32 = data[0] as u32 + data[1] as u32 * 256 + data[2] as u32 * 65536
        + data[3] as u32 * 16777216;
    assert(announced == le_u32(data@));
    if data.len() - 4 < announced as usize {
        return Err(TextError::MissingBody);
    }
    let end: usize = 4 + announced as usize;
    let body = slice_to_vec(slice_subrange(data, 4, end));
    assert(body@ == data@.subrange(4, 4 + le_u32(data@) as int));
    match string_from_utf8(body) {
        Some(text) => {
            proof {
                vstd::utf8::encode_utf8_decode_utf8(text@);
            }
            Ok((text, end))
        },
        None => Err(TextError::NotUtf8),
    }
}

/// Appends the encoding of `text` to `out`.
///
/// Returns `false`, and leaves `out` as it was, where the text is longer
/// than a length prefix can announce.
pub fn write_text(text: &str, out: &mut Vec<u8>) -> (written: bool)
    ensures
        written == encodable(text@),
        written ==> final(out)@ == old(out)@ + encode_text(text@),
        !written ==> final(out)@ == old(out)@,
{
    let body = text.as_bytes();
    if body.len() > MAX_TEXT_BYTES {
        return false;
    }
    let length: usize = body.len();
    let b0: u8 = (length % 256) as u8;
    let b1: u8 = (length / 256 % 256) as u8;
    let b2: u8 = (length / 65536 % 256) as u8;
    let b3: u8 = (length / 16777216 % 256) as u8;
    out.push(b0);
    out.push(b1);
    out.push(b2);
    out.push(b3);
    out.extend_from_slice(body);
    assert(out@ =~= old(out)@ + encode_text(text@));
    true
}

} // verus!
