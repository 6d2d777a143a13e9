//! The calls that the library makes into other crates, each with what it
//! takes from that crate's code without proof.

use bytes::{BufMut, BytesMut};
use rand::{Rng, SeedableRng};
use rand_chacha::ChaCha20Rng;
use vstd::prelude::*;

verus! {

/// The growable byte buffer of the crate `bytes`.
#[verifier::external_type_specification]
#[verifier::external_body]
pub struct ExBytesMut(BytesMut);

/// The bytes that a buffer holds.
pub uninterp spec fn buffer_bytes(buffer: BytesMut) -> Seq<u8>;

/// `BytesMut::new`: a buffer that holds nothing.
#[verifier::external_body]
pub(crate) fn buffer_new() -> (r: BytesMut)
    ensures
        buffer_bytes(r) == Seq::<u8>::empty(),
{
    BytesMut::new()
}

/// `BytesMut::put_slice` (of `BufMut`): puts `source` behind what the buffer
/// holds. It panics where the buffer would have to pass the largest
/// allocation; the bound leaves room for a buffer that doubles as it grows.
/// The library only calls it on buffers that it has made itself.
#[verifier::external_body]
pub(crate) fn buffer_put_slice(buffer: &mut BytesMut, source: &[u8])
    requires
        2 * (buffer_bytes(*old(buffer)).len() + source@.len()) <= isize::MAX,
    ensures
        buffer_bytes(*final(buffer)) == buffer_bytes(*old(buffer)) + source@,
{
    buffer.put_slice(source)
}

/// `BytesMut::put_u8` (of `BufMut`): puts one byte behind what the buffer
/// holds, under the same bound as `put_slice`.
#[verifier::external_body]
pub(crate) fn buffer_put_u8(buffer: &mut BytesMut, byte: u8)
    requires
        2 * (buffer_bytes(*old(buffer)).len() + 1) <= isize::MAX,
    ensures
        buffer_bytes(*final(buffer)) == buffer_bytes(*old(buffer)).push(byte),
{
    buffer.put_u8(byte)
}

/// The hexadecimal digit of a number below sixteen, in lower case.
pub open spec fn hex_digit(n: u8) -> u8 {
    if n < 10 {
        (n + 48) as u8
    } else {
        (n + 87) as u8
    }
}

/// One byte of a text as it stands inside a JSON string: the quote, the
/// backslash and the control characters are escaped, with the short form where
/// there is one; every other byte stands for itself.
pub open spec fn json_byte(byte: u8) -> Seq<u8> {
    if byte == 0x22 {
        seq![0x5cu8, 0x22u8]
    } else if byte == 0x5c {
        seq![0x5cu8, 0x5cu8]
    } else if byte == 0x08 {
        seq![0x5cu8, 0x62u8]
    } else if byte == 0x09 {
        seq![0x5cu8, 0x74u8]
    } else if byte == 0x0a {
        seq![0x5cu8, 0x6eu8]
    } else if byte == 0x0c {
        seq![0x5cu8, 0x66u8]
    } else if byte == 0x0d {
        seq![0x5cu8, 0x72u8]
    } else if byte < 0x20 {
        seq![0x5cu8, 0x75u8, 0x30u8, 0x30u8, hex_digit(byte / 16), hex_digit(byte % 16)]
    } else {
        seq![byte]
    }
}

/// The bytes of a text as they stand between the quotes of a JSON string.
pub open spec fn json_content(bytes: Seq<u8>) -> Seq<u8>
    decreases bytes.len(),
{
    if bytes.len() == 0 {
        Seq::empty()
    } else {
        json_content(bytes.drop_last()) + json_byte(bytes.last())
    }
}

/// A text as a JSON string, in bytes.
pub open spec fn json_string(text: Seq<char>) -> Seq<u8> {
    seq![0x22u8] + json_content(vstd::utf8::encode_utf8(text)) + seq![0x22u8]
}

/// `serde_json::to_vec` of a `String`: its JSON string. Serialising a string
/// into memory does not fail. It panics where the vector that it fills would
/// have to pass the largest allocation; the bound leaves room for a vector
/// that doubles as it grows.
#[verifier::external_body]
pub(crate) fn json_to_vec(text: &String) -> (r: Option<Vec<u8>>)
    requires
        2 * json_string(text@).len() <= isize::MAX,
    ensures
        r is Some,
        r->0@ == json_string(text@),
{
    serde_json::to_vec(text).ok()
}

/// The ChaCha generator of the crate `rand_chacha`.
#[verifier::external_type_specification]
#[verifier::external_body]
pub struct ExChaCha20Rng(ChaCha20Rng);

/// `ChaCha20Rng::from_entropy` (of `SeedableRng`): a generator seeded by the
/// operating system. Nothing is claimed of it. It panics where the system has
/// no entropy to give.
#[verifier::external_body]
pub(crate) fn rng_from_entropy() -> ChaCha20Rng {
    ChaCha20Rng::from_entropy()
}

/// `ChaCha20Rng::gen_range` (of `Rng`) on a half-open range that is not empty:
/// some number of the range.
#[verifier::external_body]
pub(crate) fn rng_gen_range(rng: &mut ChaCha20Rng, low: u32, high: u32) -> (r: u32)
    requires
        low < high,
    ensures
        low <= r < high,
{
    rng.gen_range(low..high)
}

} // verus!
