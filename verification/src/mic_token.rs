use vstd::prelude::*;
use vstd::slice::{slice_subrange, slice_to_vec};

use crate::errors::Error;
use crate::wire::{be_u64, lemma_u64_be_round_trip, u64_be};

verus! {

/// Flags byte of a MIC token sent by the initiator.
pub const MIC_TOKEN_INITIATOR_FLAGS: u8 = 0x04;

/// Mathematical model of a MIC token.
#[verifier::ext_equal]
pub ghost struct MicTokenModel {
    pub flags: u8,
    pub seq_num: u64,
    pub checksum: Seq<u8>,
}

/// One GSS-API per-message integrity token: a flags byte, a sequence number,
/// and the keyed checksum claimed for the protected message. Constructed
/// fresh per outgoing message, or by decoding an incoming one.
pub struct MicToken {
    pub flags: u8,
    pub seq_num: u64,
    pub checksum: Vec<u8>,
}

impl View for MicToken {
    type V = MicTokenModel;

    open spec fn view(&self) -> MicTokenModel {
        MicTokenModel { flags: self.flags, seq_num: self.seq_num, checksum: self.checksum@ }
    }
}

/// The 16 header bytes of a token: two tag bytes, the flags byte, five
/// filler bytes, then the sequence number in big-endian order.
pub open spec fn mic_header(flags: u8, seq_num: u64) -> Seq<u8> {
    seq![0x04u8, 0x04u8, flags, 0xffu8, 0xffu8, 0xffu8, 0xffu8, 0xffu8] + u64_be(seq_num)
}

/// The wire form of a token: its header followed by its checksum.
pub open spec fn mic_encode(t: MicTokenModel) -> Seq<u8> {
    mic_header(t.flags, t.seq_num) + t.checksum
}

/// How raw bytes decode as a MIC token: there must be at least the 16 header
/// bytes, with the two tag bytes and the five filler bytes exact; whatever
/// follows the header is the claimed checksum.
pub open spec fn mic_decode(raw: Seq<u8>) -> Option<MicTokenModel> {
    if raw.len() >= 16 && raw[0] == 0x04 && raw[1] == 0x04 && raw[3] == 0xff && raw[4] == 0xff
        && raw[5] == 0xff && raw[6] == 0xff && raw[7] == 0xff {
        Some(
            MicTokenModel {
                flags: raw[2],
                seq_num: be_u64(raw.subrange(8, 16)),
                checksum: raw.skip(16),
            },
        )
    } else {
        None
    }
}

impl MicToken {
    /// A fresh token carrying the initiator flags, before a sequence number
    /// and a checksum are set.
    pub fn with_initiator_flags() -> (t: Self)
        ensures
            t@ == (MicTokenModel { flags: MIC_TOKEN_INITIATOR_FLAGS, seq_num: 0, checksum: Seq::<u8>::empty() }),
    {
        let t = MicToken { flags: MIC_TOKEN_INITIATOR_FLAGS, seq_num: 0, checksum: Vec::new() };
        proof {
            assert(t@ =~= MicTokenModel { flags: MIC_TOKEN_INITIATOR_FLAGS, seq_num: 0, checksum: Seq::<u8>::empty() });
        }
        t
    }

    /// The same token with the given sequence number.
    pub fn with_seq_number(self, seq_num: u64) -> (t: Self)
        ensures
            t@ == (MicTokenModel { seq_num, ..self@ }),
    {
        MicToken { flags: self.flags, seq_num, checksum: self.checksum }
    }

    /// Stores the computed checksum into the token.
    pub fn set_checksum(&mut self, checksum: Vec<u8>)
        ensures
            final(self)@ == (MicTokenModel { checksum: checksum@, ..old(self)@ }),
    {
        self.checksum = checksum;
    }

    /// The 16 header bytes of this token: every field except the checksum,
    /// in wire-encoded form.
    pub fn header(&self) -> (h: Vec<u8>)
        ensures
            h@ == mic_header(self.flags, self.seq_num),
    {
        let mut h: Vec<u8> = Vec::new();
        h.push(0x04);
        h.push(0x04);
        h.push(self.flags);
        h.push(0xff);
        h.push(0xff);
        h.push(0xff);
        h.push(0xff);
        h.push(0xff);
        let n = self.seq_num;
        h.push(((n >> 56) & 0xff) as u8);
        h.push(((n >> 48) & 0xff) as u8);
        h.push(((n >> 40) & 0xff) as u8);
        h.push(((n >> 32) & 0xff) as u8);
        h.push(((n >> 24) & 0xff) as u8);
        h.push(((n >> 16) & 0xff) as u8);
        h.push(((n >> 8) & 0xff) as u8);
        h.push((n & 0xff) as u8);
        proof {
            assert(h@ =~= mic_header(self.flags, self.seq_num));
        }
        h
    }

    /// The complete wire form of this token.
    pub fn encode(&self) -> (out: Vec<u8>)
        ensures
            out@ == mic_encode(self@),
    {
        let mut out = self.header();
        let mut i: usize = 0;
        while i < self.checksum.len()
            invariant
                i <= self.checksum.len(),
                out@ == mic_header(self.flags, self.seq_num) + self.checksum@.subrange(0, i as int),
            decreases self.checksum.len() - i,
        {
            out.push(self.checksum[i]);
            proof {
                assert(out@ =~= mic_header(self.flags, self.seq_num) + self.checksum@.subrange(
                    0,
                    i + 1,
                ));
            }
            i = i + 1;
        }
        proof {
            assert(out@ =~= mic_encode(self@));
        }
        out
    }

    /// Decodes raw bytes as a MIC token, failing exactly when they are not a
    /// well-formed token.
    pub fn decode(raw: &[u8]) -> (r: Result<Self, Error>)
        ensures
            match r {
                Ok(t) => mic_decode(raw@) == Some(t@),
                Err(e) => e == Error::TokenDecodeFailure && mic_decode(raw@) is None,
            },
    {
        if raw.len() < 16 {
            return Err(Error::TokenDecodeFailure);
        }
        if raw[0] != 0x04 || raw[1] != 0x04 {
            return Err(Error::TokenDecodeFailure);
        }
        if raw[3] != 0xff || raw[4] != 0xff || raw[5] != 0xff || raw[6] != 0xff || raw[7] != 0xff {
            return Err(Error::TokenDecodeFailure);
        }
        let seq_num = ((raw[8] as u64) << 56) | ((raw[9] as u64) << 48) | ((raw[10] as u64) << 40)
            | ((raw[11] as u64) << 32) | ((raw[12] as u64) << 24) | ((raw[13] as u64) << 16)
            | ((raw[14] as u64) << 8) | (raw[15] as u64);
        let checksum = slice_to_vec(slice_subrange(raw, 16, raw.len()));
        let t = MicToken { flags: raw[2], seq_num, checksum };
        proof {
            assert(raw@.subrange(8, 16)[0] == raw@[8]);
            assert(mic_decode(raw@)->0 =~= t@);
        }
        Ok(t)
    }
}

/// Decoding the wire form of a token gives the token back.
pub proof fn lemma_mic_decode_encode(t: MicTokenModel)
    ensures
        mic_decode(mic_encode(t)) == Some(t),
{
    let e = mic_encode(t);
    assert(e.subrange(8, 16) =~= u64_be(t.seq_num));
    lemma_u64_be_round_trip(t.seq_num);
    assert(e.skip(16) =~= t.checksum);
    assert(mic_decode(e)->0 =~= t);
}

} // verus!
