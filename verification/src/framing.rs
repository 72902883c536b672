use vstd::prelude::*;

use crate::errors::Error;
use crate::wire::{be_u32, lemma_u32_be_round_trip, u32_be};

verus! {

/// A length-prefixed frame: four bytes holding the body length in big-endian
/// order, then the body itself.
pub open spec fn frame_spec(body: Seq<u8>) -> Seq<u8>
    recommends
        body.len() <= u32::MAX,
{
    u32_be(body.len() as u32) + body
}

/// Wraps an encoded message body in the transport frame, so that a streaming
/// reader can read four bytes, interpret them as a big-endian length, and
/// then read exactly that many further bytes.
pub fn frame_message(body: &Vec<u8>) -> (out: Vec<u8>)
    requires
        body@.len() <= u32::MAX,
    ensures
        out@ == frame_spec(body@),
        out@.len() == body@.len() + 4,
        be_u32(out@.subrange(0, 4)) == body@.len(),
{
    let len = body.len() as u32;
    let mut out: Vec<u8> = Vec::new();
    out.push(((len >> 24) & 0xff) as u8);
    out.push(((len >> 16) & 0xff) as u8);
    out.push(((len >> 8) & 0xff) as u8);
    out.push((len & 0xff) as u8);
    proof {
        assert(out@ =~= u32_be(len));
    }
    let mut i: usize = 0;
    while i < body.len()
        invariant
            i <= body.len(),
            body@.len() <= u32::MAX,
            len == body@.len() as u32,
            out@ == u32_be(len) + body@.subrange(0, i as int),
        decreases body.len() - i,
    {
        out.push(body[i]);
        proof {
            assert(out@ =~= u32_be(len) + body@.subrange(0, i + 1));
        }
        i = i + 1;
    }
    proof {
        assert(out@ =~= frame_spec(body@));
        lemma_u32_be_round_trip(len);
        assert(out@.subrange(0, 4) =~= u32_be(len));
    }
    out
}

/// Frames an already-encoded message body, rejecting a body whose length the
/// four-byte big-endian prefix cannot describe; no partial output is returned
/// in that case.
pub fn frame_encoded_body(body: &Vec<u8>) -> (r: Result<Vec<u8>, Error>)
    ensures
        body@.len() <= u32::MAX ==> r is Ok && r->Ok_0@ == frame_spec(body@) && be_u32(
            r->Ok_0@.subrange(0, 4),
        ) == body@.len(),
        body@.len() > u32::MAX ==> r == Err::<Vec<u8>, Error>(Error::EncodingFailure),
{
    if body.len() > u32::MAX as usize {
        return Err(Error::EncodingFailure);
    }
    Ok(frame_message(body))
}

/// Relies on picky_asn1_der::to_vec: DER-encodes any serde-serializable
/// value, or refuses it.
#[verifier::external_body]
fn der_encode<T: ?Sized + serde::Serialize>(v: &T) -> Option<Vec<u8>> {
    picky_asn1_der::to_vec(v).ok()
}

/// Serializes a protocol message for transport: the DER encoding of the
/// message behind a four-byte big-endian length prefix that counts the body
/// only. The first four bytes of any successful output, read big-endian,
/// equal the length of the rest; a message the encoder rejects (or whose
/// encoding cannot be described by the four-byte prefix) is an
/// EncodingFailure, and no partial output is returned.
pub fn serialize_message<T: ?Sized + serde::Serialize>(v: &T) -> (r: Result<Vec<u8>, Error>)
    ensures
        r is Ok ==> r->Ok_0@.len() >= 4 && be_u32(r->Ok_0@.subrange(0, 4)) == r->Ok_0@.len() - 4,
        r is Err ==> r == Err::<Vec<u8>, Error>(Error::EncodingFailure),
{
    let body = match der_encode(v) {
        Some(b) => b,
        None => {
            return Err(Error::EncodingFailure);
        },
    };
    frame_encoded_body(&body)
}

} // verus!
