use vstd::prelude::*;

use vstd::string::StrSliceExecFns;
use vstd::utf8::{decode_utf8, encode_utf8, valid_utf8};

use crate::events::opt_text;

verus! {

/// Close code reported when a peer sends a close frame whose payload is one byte long.
pub const PROTOCOL_ERROR_CODE: u16 = 1002;

/// The text that a byte string decodes to as UTF-8, or `None` where it is not
/// valid UTF-8.
pub open spec fn utf8_text(bytes: Seq<u8>) -> Option<Seq<char>> {
    if valid_utf8(bytes) {
        Some(decode_utf8(bytes))
    } else {
        None
    }
}

/// Relies on `String::from_utf8`: it returns the decoded text when the bytes are
/// valid UTF-8 and an error otherwise.
#[verifier::external_body]
fn from_utf8(bytes: Vec<u8>) -> (r: Option<String>)
    ensures
        opt_text(r) == utf8_text(bytes@),
{
    String::from_utf8(bytes).ok()
}

/// Big-endian reading of two bytes.
pub open spec fn be_u16(hi: u8, lo: u8) -> u16 {
    (hi as int * 256 + lo as int) as u16
}

/// The text of a text frame: its payload decoded as UTF-8, or empty where it
/// does not decode.
pub open spec fn text_of(payload: Seq<u8>) -> Seq<char> {
    match utf8_text(payload) {
        Some(t) => t,
        None => Seq::empty(),
    }
}

/// The code carried by a close frame with this payload.
pub open spec fn close_code_of(payload: Seq<u8>) -> Option<u16> {
    if payload.len() == 0 {
        None
    } else if payload.len() == 1 {
        Some(PROTOCOL_ERROR_CODE)
    } else {
        Some(be_u16(payload[0], payload[1]))
    }
}

/// The reason carried by a close frame with this payload: what follows the
/// code, where there is anything and it decodes.
pub open spec fn close_reason_text_of(payload: Seq<u8>) -> Option<Seq<char>> {
    if payload.len() > 2 {
        utf8_text(payload.subrange(2, payload.len() as int))
    } else {
        None
    }
}

/// Code and reason of a connection that was closed.
pub struct CloseReason {
    pub code: Option<u16>,
    pub reason: Option<String>,
}

/// Decodes the payload of a text frame, yielding the empty string where it is
/// not valid UTF-8.
pub fn decode_text(payload: Vec<u8>) -> (r: String)
    ensures
        r@ == text_of(payload@),
{
    match from_utf8(payload) {
        Some(t) => t,
        None => String::new(),
    }
}

/// The close code of a close-frame payload.
pub fn close_code(payload: &[u8]) -> (r: Option<u16>)
    ensures
        r == close_code_of(payload@),
{
    let n = payload.len();
    if n == 0 {
        None
    } else if n == 1 {
        Some(PROTOCOL_ERROR_CODE)
    } else {
        let hi = payload[0];
        let lo = payload[1];
        Some(hi as u16 * 256 + lo as u16)
    }
}

/// Builds the close reason of a close-frame payload from `tail`, the decoding of
/// the bytes after its code.
pub fn close_reason_with(payload: &[u8], tail: Option<String>) -> (r: CloseReason)
    ensures
        r.code == close_code_of(payload@),
        payload@.len() > 2 ==> r.reason == tail,
        payload@.len() <= 2 ==> r.reason is None,
{
    let code = close_code(payload);
    if payload.len() > 2 {
        CloseReason { code, reason: tail }
    } else {
        CloseReason { code, reason: None }
    }
}

/// Derives the code and reason that a remote close frame carries.
///
/// No payload gives neither; one byte is malformed and gives the protocol-error
/// code; two bytes give a big-endian code; more give the code and the rest,
/// decoded as UTF-8 where it is valid.
pub fn close_reason(payload: &[u8]) -> (r: CloseReason)
    ensures
        r.code == close_code_of(payload@),
        opt_text(r.reason) == close_reason_text_of(payload@),
{
    let n = payload.len();
    if n > 2 {
        let mut tail: Vec<u8> = Vec::new();
        let mut i: usize = 2;
        while i < n
            invariant
                2 <= i <= n,
                n == payload@.len(),
                tail@ == payload@.subrange(2, i as int),
            decreases n - i,
        {
            tail.push(payload[i]);
            i = i + 1;
            assert(tail@ =~= payload@.subrange(2, i as int));
        }
        let decoded = from_utf8(tail);
        close_reason_with(payload, decoded)
    } else {
        close_reason_with(payload, None)
    }
}

/// The payload of a close frame: the code, big-endian, then the reason's UTF-8
/// bytes.
pub open spec fn close_payload_of(code: u16, reason: Seq<char>) -> Seq<u8> {
    seq![(code / 256) as u8, (code % 256) as u8] + encode_utf8(reason)
}

/// Builds the payload of a close frame that this side sends.
pub fn close_payload(code: u16, reason: &String) -> (r: Vec<u8>)
    ensures
        r@ == close_payload_of(code, reason@),
{
    let mut r: Vec<u8> = Vec::new();
    r.push((code / 256) as u8);
    r.push((code % 256) as u8);
    let bytes = reason.as_str().as_bytes_vec();
    let ghost head = r@;
    let mut i: usize = 0;
    while i < bytes.len()
        invariant
            i <= bytes@.len(),
            head == seq![(code / 256) as u8, (code % 256) as u8],
            r@ == head + bytes@.take(i as int),
        decreases bytes@.len() - i,
    {
        r.push(bytes[i]);
        i = i + 1;
        assert(r@ =~= head + bytes@.take(i as int));
    }
    assert(bytes@.take(i as int) =~= bytes@);
    r
}

/// A close frame that this side sends is read back with the code it was sent
/// with.
pub proof fn lemma_close_payload_code(code: u16, reason: Seq<char>)
    ensures
        close_code_of(close_payload_of(code, reason)) == Some(code),
{
    let p = close_payload_of(code, reason);
    assert(p[0] == (code / 256) as u8 && p[1] == (code % 256) as u8);
    assert((((code / 256) as u8) as int * 256 + ((code % 256) as u8) as int) as u16 == code) by (nonlinear_arith);
}

} // verus!
