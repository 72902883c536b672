use vstd::prelude::*;

use crate::checksum::checksum_of;
use crate::errors::Error;
use crate::key_material::EncryptionParams;
use crate::mic::{generate_spec, validate_spec, INITIATOR_SIGN};
use crate::mic_token::{
    lemma_mic_decode_encode, mic_decode, mic_header, MicTokenModel, MIC_TOKEN_INITIATOR_FLAGS,
};
use crate::spn::{first_slash_at, lemma_first_slash_unique, parse_spec};

verus! {

/// Round-trip integrity: a token generated over the mechanism-list bytes
/// with a 32-byte key verifies successfully whenever verification selects
/// that same key, is given the initiator key usage, and runs at Aes256
/// strength.
pub proof fn lemma_generate_then_validate(
    mech: Seq<u8>,
    seq_num: u64,
    key: Seq<u8>,
    params: EncryptionParams,
)
    requires
        key.len() == 32,
        params.spec_selected_key() == Some(key),
        params.spec_uses_aes256(),
    ensures
        validate_spec(generate_spec(mech, seq_num, key), INITIATOR_SIGN as int, params, mech)
            == Ok::<(), Error>(()),
{
    let t = MicTokenModel {
        flags: MIC_TOKEN_INITIATOR_FLAGS,
        seq_num,
        checksum: checksum_of(
            key,
            INITIATOR_SIGN as int,
            mech + mic_header(MIC_TOKEN_INITIATOR_FLAGS, seq_num),
            true,
        ),
    };
    lemma_mic_decode_encode(t);
}

/// Tampering detection: changing any byte of the checksum field (any byte
/// past the 16-byte header) of a token that verified successfully makes
/// verification fail with MessageAltered.
pub proof fn lemma_checksum_change_rejected(
    raw: Seq<u8>,
    tampered: Seq<u8>,
    key_usage: int,
    params: EncryptionParams,
    mech: Seq<u8>,
)
    requires
        validate_spec(raw, key_usage, params, mech) == Ok::<(), Error>(()),
        tampered.len() == raw.len(),
        forall|j: int| 0 <= j < 16 ==> tampered[j] == raw[j],
        exists|i: int| 16 <= i < raw.len() && tampered[i] != raw[i],
    ensures
        validate_spec(tampered, key_usage, params, mech) == Err::<(), Error>(
            Error::MessageAltered,
        ),
{
    let t0 = mic_decode(raw)->0;
    let t1 = mic_decode(tampered)->0;
    assert(tampered.subrange(8, 16) =~= raw.subrange(8, 16));
    let i = choose|i: int| 16 <= i < raw.len() && tampered[i] != raw[i];
    assert(t1.checksum[i - 16] != t0.checksum[i - 16]);
    assert(t1.flags == t0.flags && t1.seq_num == t0.seq_num);
}

/// Deterministic key preference: when a sub-session key is present,
/// verification does not depend on the session key at all — the stale
/// session key can neither help nor hurt.
pub proof fn lemma_sub_session_key_preferred(
    raw: Seq<u8>,
    key_usage: int,
    p1: EncryptionParams,
    p2: EncryptionParams,
    mech: Seq<u8>,
)
    requires
        p1.sub_session_key is Some,
        p2.sub_session_key == p1.sub_session_key,
        p2.aes_strength == p1.aes_strength,
    ensures
        validate_spec(raw, key_usage, p1, mech) == validate_spec(raw, key_usage, p2, mech),
{
    assert(p1.spec_selected_key() == p2.spec_selected_key());
}

/// Missing key material: with neither key set, verifying any token that
/// decodes fails with DecryptFailure — never a decode or generic error.
pub proof fn lemma_no_key_is_decrypt_failure(
    raw: Seq<u8>,
    key_usage: int,
    params: EncryptionParams,
    mech: Seq<u8>,
)
    requires
        params.session_key is None,
        params.sub_session_key is None,
        mic_decode(raw) is Some,
    ensures
        validate_spec(raw, key_usage, params, mech) == Err::<(), Error>(Error::DecryptFailure),
{
}

/// Parse round-trip: joining a service class and an instance with '/' parses
/// back to exactly the two parts, whenever both are non-empty and neither
/// contains '/'.
pub proof fn lemma_parse_round_trip(a: Seq<char>, b: Seq<char>)
    requires
        a.len() > 0,
        b.len() > 0,
        !a.contains('/'),
        !b.contains('/'),
    ensures
        parse_spec(a + seq!['/'] + b) == Ok::<(Seq<char>, Seq<char>), Error>((a, b)),
{
    let s = a + seq!['/'] + b;
    let d = a.len() as int;
    assert(s[d] == '/');
    assert forall|j: int| 0 <= j < d implies s[j] != '/' by {
        if s[j] == '/' {
            assert(a[j] == '/');
            assert(a.contains('/'));
        }
    }
    assert(first_slash_at(s, d));
    lemma_first_slash_unique(s, d);
    assert(s.subrange(0, d) =~= a);
    assert(s.subrange(d + 1, s.len() as int) =~= b);
}

/// Parse rejection: the empty string, a name with no separator, a leading
/// separator, and a trailing first separator are all rejected as an
/// InvalidParameter.
pub proof fn lemma_parse_rejects_malformed(s: Seq<char>)
    ensures
        !s.contains('/') ==> parse_spec(s) == Err::<(Seq<char>, Seq<char>), Error>(
            Error::InvalidParameter,
        ),
        s.len() == 0 ==> parse_spec(s) == Err::<(Seq<char>, Seq<char>), Error>(
            Error::InvalidParameter,
        ),
        s.len() > 0 && s[0] == '/' ==> parse_spec(s) == Err::<(Seq<char>, Seq<char>), Error>(
            Error::InvalidParameter,
        ),
        s.len() > 0 && s[s.len() - 1] == '/' && !s.subrange(0, s.len() - 1).contains('/')
            ==> parse_spec(s) == Err::<(Seq<char>, Seq<char>), Error>(Error::InvalidParameter),
{
    if exists|d: int| first_slash_at(s, d) {
        let d = choose|d: int| first_slash_at(s, d);
        assert(s.contains('/')) by {
            assert(s[d] == '/');
        }
    }
    if s.len() > 0 && s[0] == '/' {
        assert(first_slash_at(s, 0));
        lemma_first_slash_unique(s, 0);
    }
    if s.len() > 0 && s[s.len() - 1] == '/' && !s.subrange(0, s.len() - 1).contains('/') {
        let last = s.len() - 1;
        assert forall|j: int| 0 <= j < last implies s[j] != '/' by {
            if s[j] == '/' {
                assert(s.subrange(0, last)[j] == '/');
                assert(s.subrange(0, last).contains('/'));
            }
        }
        assert(first_slash_at(s, last));
        lemma_first_slash_unique(s, last);
    }
}

} // verus!
