use vstd::prelude::*;

use crate::key_material::{spec_key_len, AesStrength};

verus! {

/// The keyed checksum that the external crypto primitive computes: a function
/// of the key, the key-usage number, the input bytes, and the AES variant
/// alone.
pub uninterp spec fn checksum_of(key: Seq<u8>, key_usage: int, data: Seq<u8>, aes256: bool) -> Seq<u8>;

/// Relies on picky_krb::crypto::aes::checksum_sha_aes: a deterministic keyed
/// checksum (HMAC-SHA1 over an AES-derived key) of exactly its four
/// arguments. Its source fails precisely when the key length does not match
/// the AES variant (32 bytes for Aes256, 16 for Aes128), and on success
/// resizes the checksum to AES_MAC_SIZE = 12 bytes.
#[verifier::external_body]
pub(crate) fn keyed_checksum(key: &[u8], key_usage: i32, data: &Vec<u8>, strength: AesStrength) -> (r:
    Option<Vec<u8>>)
    ensures
        r is Some <==> key@.len() == spec_key_len(strength == AesStrength::Aes256),
        r is Some ==> r->0@ == checksum_of(
            key@,
            key_usage as int,
            data@,
            strength == AesStrength::Aes256,
        ) && r->0@.len() == 12,
{
    let size = match strength {
        AesStrength::Aes128 => picky_krb::crypto::aes::AesSize::Aes128,
        AesStrength::Aes256 => picky_krb::crypto::aes::AesSize::Aes256,
    };
    picky_krb::crypto::aes::checksum_sha_aes(key, key_usage, data.as_slice(), &size).ok()
}

} // verus!
