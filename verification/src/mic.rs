use vstd::prelude::*;

use crate::checksum::{checksum_of, keyed_checksum};
use crate::errors::Error;
use crate::key_material::{spec_key_len, AesStrength, EncryptionParams};
use crate::mic_token::{
    mic_decode, mic_encode, mic_header, MicToken, MicTokenModel, MIC_TOKEN_INITIATOR_FLAGS,
};
use crate::wire::{bytes_eq, clone_bytes};

verus! {

/// Key usage number for MIC tokens signed by the initiator.
pub const INITIATOR_SIGN: i32 = 25;

/// Dotted form of the Microsoft Kerberos mechanism object identifier.
pub open spec fn spec_ms_krb5_oid() -> Seq<char> {
    "1.2.840.48018.1.2.2"@
}

/// Dotted form of the Kerberos V5 mechanism object identifier.
pub open spec fn spec_krb5_oid() -> Seq<char> {
    "1.2.840.113554.1.2.2"@
}

/// What picky_asn1_der::to_vec returns for the two-OID mechanism list built
/// from the given dotted OID strings: DER output is a function of the two
/// strings alone.
pub uninterp spec fn mech_pair_der(oid_a: Seq<char>, oid_b: Seq<char>) -> Seq<u8>;

/// The DER bytes of the negotiated mechanism list that every MIC checksum
/// binds to.
pub open spec fn mech_list_der() -> Seq<u8> {
    mech_pair_der(spec_ms_krb5_oid(), spec_krb5_oid())
}

/// Relies on oid::ObjectIdentifier::try_from, which accepts or rejects a
/// dotted OID string by its content alone, and on picky_asn1_der::to_vec,
/// whose DER encoding of the two-OID mechanism list is a function of the two
/// OIDs alone. For the two mechanism OIDs this library uses, the call
/// succeeds: both strings parse (a legal root arc, numeric arcs throughout),
/// and the serializer encodes a sequence of two object identifiers
/// unconditionally.
#[verifier::external_body]
fn der_encode_mech_pair(oid_a: &str, oid_b: &str) -> (r: Option<Vec<u8>>)
    ensures
        r is Some ==> r->0@ == mech_pair_der(oid_a@, oid_b@),
        oid_a@ == spec_ms_krb5_oid() && oid_b@ == spec_krb5_oid() ==> r is Some,
{
    let a = oid::ObjectIdentifier::try_from(oid_a).ok()?;
    let b = oid::ObjectIdentifier::try_from(oid_b).ok()?;
    let list = picky_krb::gss_api::MechTypeList::from(vec![
        picky_krb::gss_api::MechType::from(a),
        picky_krb::gss_api::MechType::from(b),
    ]);
    picky_asn1_der::to_vec(&list).ok()
}

/// The DER-encoded mechanism list (MS KRB5, then KRB5) prepended to every
/// MIC checksum input.
pub fn encoded_mech_list() -> (r: Vec<u8>)
    ensures
        r@ == mech_list_der(),
{
    match der_encode_mech_pair("1.2.840.48018.1.2.2", "1.2.840.113554.1.2.2") {
        Some(m) => m,
        None => vstd::pervasive::unreached(),
    }
}

/// Outcome of checking one decoded token against key material and the
/// mechanism-list bytes: no usable key (or a key of the wrong length for the
/// effective AES variant) is a DecryptFailure; a checksum mismatch is a
/// MessageAltered; otherwise the token is accepted.
pub open spec fn check_spec(
    t: MicTokenModel,
    key_usage: int,
    params: EncryptionParams,
    mech: Seq<u8>,
) -> Result<(), Error> {
    match params.spec_selected_key() {
        None => Err(Error::DecryptFailure),
        Some(key) => {
            let aes256 = params.spec_uses_aes256();
            if key.len() != spec_key_len(aes256) {
                Err(Error::DecryptFailure)
            } else if checksum_of(key, key_usage, mech + mic_header(t.flags, t.seq_num), aes256)
                == t.checksum {
                Ok(())
            } else {
                Err(Error::MessageAltered)
            }
        },
    }
}

/// Outcome of verifying raw token bytes: bytes that do not decode are a
/// TokenDecodeFailure; a decoded token is checked as `check_spec` says.
pub open spec fn validate_spec(
    raw: Seq<u8>,
    key_usage: int,
    params: EncryptionParams,
    mech: Seq<u8>,
) -> Result<(), Error> {
    match mic_decode(raw) {
        None => Err(Error::TokenDecodeFailure),
        Some(t) => check_spec(t, key_usage, params, mech),
    }
}

/// Checks a decoded MIC token against the key material, taking the DER bytes
/// of the mechanism list as an argument. The checksum input is those bytes
/// followed by the token's header bytes.
pub fn check_mic_token(
    token: &MicToken,
    key_usage: i32,
    params: &EncryptionParams,
    mech_der: &Vec<u8>,
) -> (r: Result<(), Error>)
    ensures
        r == check_spec(token@, key_usage as int, *params, mech_der@),
{
    let key = match params.selected_key() {
        Some(k) => k,
        None => {
            return Err(Error::DecryptFailure);
        },
    };
    let strength = params.effective_aes_strength();
    let mut data = clone_bytes(mech_der);
    let mut header = token.header();
    data.append(&mut header);
    match keyed_checksum(key.as_slice(), key_usage, &data, strength) {
        None => Err(Error::DecryptFailure),
        Some(expected) => {
            if bytes_eq(&expected, &token.checksum) {
                Ok(())
            } else {
                Err(Error::MessageAltered)
            }
        },
    }
}

/// Verifies a raw MIC token against the context's key material: decode the
/// token, select the key (sub-session key first), recompute the checksum over
/// the mechanism list and the token header, and compare. Deterministic and
/// side-effect-free: the outcome is a function of the three arguments.
pub fn validate_mic_token(raw_token: &[u8], key_usage: i32, params: &EncryptionParams) -> (r:
    Result<(), Error>)
    ensures
        r == validate_spec(raw_token@, key_usage as int, *params, mech_list_der()),
{
    let token = match MicToken::decode(raw_token) {
        Ok(t) => t,
        Err(e) => {
            return Err(e);
        },
    };
    let mech_der = encoded_mech_list();
    check_mic_token(&token, key_usage, params, &mech_der)
}

/// Wire bytes of the initiator-flagged token that `generate_initiator_raw`
/// produces for the given payload, sequence number and session key: the
/// checksum is computed over the payload followed by the token header, with
/// the initiator key usage, always at Aes256 strength.
pub open spec fn generate_spec(payload: Seq<u8>, seq_num: u64, session_key: Seq<u8>) -> Seq<u8> {
    mic_encode(
        MicTokenModel {
            flags: MIC_TOKEN_INITIATOR_FLAGS,
            seq_num,
            checksum: checksum_of(
                session_key,
                INITIATOR_SIGN as int,
                payload + mic_header(MIC_TOKEN_INITIATOR_FLAGS, seq_num),
                true,
            ),
        },
    )
}

/// Builds an initiator-flagged MIC token over the payload and sequence
/// number, signing with the given session key, always at Aes256 strength
/// regardless of any negotiated verification strength. Fails exactly when the
/// key is not a usable Aes256 key (32 bytes).
pub fn generate_initiator_raw(payload: Vec<u8>, seq_number: u64, session_key: &[u8]) -> (r: Result<
    Vec<u8>,
    Error,
>)
    ensures
        r is Ok <==> session_key@.len() == 32,
        r is Ok ==> r->Ok_0@ == generate_spec(payload@, seq_number, session_key@),
        r is Ok ==> r->Ok_0@.len() == 28,
        r is Err ==> r == Err::<Vec<u8>, Error>(Error::EncodingFailure),
{
    let mut input = payload;
    let mut mic_token = MicToken::with_initiator_flags().with_seq_number(seq_number);
    let mut header = mic_token.header();
    input.append(&mut header);
    let checksum = match keyed_checksum(session_key, INITIATOR_SIGN, &input, AesStrength::Aes256) {
        Some(c) => c,
        None => {
            return Err(Error::EncodingFailure);
        },
    };
    mic_token.set_checksum(checksum);
    let out = mic_token.encode();
    proof {
        assert(out@ =~= generate_spec(payload@, seq_number, session_key@));
    }
    Ok(out)
}

} // verus!
