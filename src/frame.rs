//! Length-prefixed framing: a 4-byte big-endian byte count, then the UTF-8
//! bytes of the message.

use vstd::prelude::*;
use vstd::slice::slice_to_vec;
use vstd::string::*;
use vstd::utf8::*;
use crate::error::{ProtocolError, ProtocolErrorView};

verus! {

/// The big-endian bytes of `n`.
pub open spec fn be_bytes(n: u32) -> Seq<u8> {
    seq![(n / 0x100_0000) as u8, (n / 0x1_0000 % 0x100) as u8, (n / 0x100 % 0x100) as u8, (n % 0x100) as u8]
}

/// The number that the first four bytes of `b` hold, most significant first.
pub open spec fn be_value(b: Seq<u8>) -> nat {
    (b[0] as nat) * 0x100_0000 + (b[1] as nat) * 0x1_0000 + (b[2] as nat) * 0x100 + (b[3] as nat)
}

/// The frame that carries message `m`.
pub open spec fn frame_of(m: Seq<char>) -> Seq<u8> {
    be_bytes(encode_utf8(m).len() as u32) + encode_utf8(m)
}

pub open spec fn short_prefix_detail() -> Seq<char> {
    "Failed to read message length: stream ended"@
}

pub open spec fn short_body_detail() -> Seq<char> {
    "Failed to read message: stream ended"@
}

pub open spec fn bad_utf8_detail() -> Seq<char> {
    "Invalid UTF-8"@
}

/// What a frame body denotes: its text when it is valid UTF-8.
pub open spec fn decode_body(body: Seq<u8>) -> Result<Seq<char>, ProtocolErrorView> {
    if valid_utf8(body) {
        Ok(decode_utf8(body))
    } else {
        Err(ProtocolErrorView::ParseError(bad_utf8_detail()))
    }
}

/// Reading one frame from the bytes a stream delivered before it ended: the
/// length prefix and then that many body bytes must all be there.
pub open spec fn decode_frame(b: Seq<u8>) -> Result<Seq<char>, ProtocolErrorView> {
    if b.len() < 4 {
        Err(ProtocolErrorView::ConnectionError(short_prefix_detail()))
    } else if b.len() - 4 < be_value(b) {
        Err(ProtocolErrorView::ConnectionError(short_body_detail()))
    } else {
        decode_body(b.subrange(4, 4 + be_value(b) as int))
    }
}

pub open spec fn message_result_view(r: Result<String, ProtocolError>) -> Result<
    Seq<char>,
    ProtocolErrorView,
> {
    match r {
        Ok(s) => Ok(s@),
        Err(e) => Err(e@),
    }
}

/// The prefix of a frame reads back as the length it was made from.
pub proof fn lemma_be_round_trip(n: u32)
    ensures
        be_value(be_bytes(n)) == n,
{
    let b = be_bytes(n);
    assert(b[0] as nat == n / 0x100_0000);
    assert(b[1] as nat == n / 0x1_0000 % 0x100);
    assert(b[2] as nat == n / 0x100 % 0x100);
    assert(b[3] as nat == n % 0x100);
}

/// Framing idempotence: the frame of any message that fits the prefix reads
/// back as that message.
pub proof fn lemma_frame_round_trip(m: Seq<char>)
    requires
        encode_utf8(m).len() <= u32::MAX,
    ensures
        decode_frame(frame_of(m)) == Ok::<Seq<char>, ProtocolErrorView>(m),
{
    let body = encode_utf8(m);
    let n = body.len() as u32;
    let f = frame_of(m);
    lemma_be_round_trip(n);
    assert(be_value(f) == be_value(be_bytes(n)));
    assert(f.subrange(4, 4 + be_value(f) as int) =~= body);
    encode_utf8_valid_utf8(m);
    encode_utf8_decode_utf8(m);
}

/// Relies on `String::from_utf8`: it succeeds exactly on valid UTF-8, and the
/// text is what the bytes encode.
#[verifier::external_body]
fn utf8_string(bytes: Vec<u8>) -> (r: Option<String>)
    ensures
        match r {
            Some(s) => valid_utf8(bytes@) && s@ == decode_utf8(bytes@),
            None => !valid_utf8(bytes@),
        },
{
    String::from_utf8(bytes).ok()
}

/// Encodes a message as a frame.
pub fn serialize_message(message: &str) -> (r: Vec<u8>)
    requires
        message.spec_bytes().len() <= u32::MAX,
    ensures
        r@ == frame_of(message@),
{
    let bytes = message.as_bytes();
    let n = bytes.len() as u32;
    let mut r: Vec<u8> = Vec::new();
    r.push((n / 0x100_0000) as u8);
    r.push((n / 0x1_0000 % 0x100) as u8);
    r.push((n / 0x100 % 0x100) as u8);
    r.push((n % 0x100) as u8);
    let mut i: usize = 0;
    while i < bytes.len()
        invariant
            bytes@ == message.spec_bytes(),
            n == bytes@.len(),
            i <= bytes@.len(),
            r@ == be_bytes(n) + bytes@.subrange(0, i as int),
        decreases bytes@.len() - i,
    {
        r.push(bytes[i]);
        i = i + 1;
        assert(r@ =~= be_bytes(n) + bytes@.subrange(0, i as int));
    }
    assert(bytes@.subrange(0, i as int) =~= bytes@);
    r
}

/// The body length that a 4-byte frame prefix announces.
pub fn frame_length(prefix: &[u8]) -> (r: u32)
    requires
        prefix@.len() == 4,
    ensures
        r == be_value(prefix@),
{
    (prefix[0] as u32) * 0x100_0000 + (prefix[1] as u32) * 0x1_0000 + (prefix[2] as u32) * 0x100
        + (prefix[3] as u32)
}

/// The text of a frame body, which must be valid UTF-8.
pub fn message_from_body(body: Vec<u8>) -> (r: Result<String, ProtocolError>)
    ensures
        message_result_view(r) == decode_body(body@),
{
    match utf8_string(body) {
        Some(s) => Ok(s),
        None => Err(ProtocolError::ParseError(String::from_str("Invalid UTF-8"))),
    }
}

/// Reads the first frame of the bytes a stream delivered before it ended.
pub fn read_message(source: &[u8]) -> (r: Result<String, ProtocolError>)
    ensures
        message_result_view(r) == decode_frame(source@),
{
    if source.len() < 4 {
        return Err(
            ProtocolError::ConnectionError(
                String::from_str("Failed to read message length: stream ended"),
            ),
        );
    }
    let n = frame_length(&source[0..4]);
    assert(source@.subrange(0, 4)[0] == source@[0]);
    if source.len() - 4 < n as usize {
        return Err(
            ProtocolError::ConnectionError(String::from_str("Failed to read message: stream ended")),
        );
    }
    let body = slice_to_vec(&source[4..4 + n as usize]);
    message_from_body(body)
}

} // verus!
