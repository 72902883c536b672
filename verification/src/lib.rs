//! Kerberos message-integrity primitives: encoding, generation and
//! verification of GSS-API MIC tokens, session-key selection, service
//! principal name parsing, and length-prefixed message framing.

pub mod checksum;
pub mod errors;
pub mod framing;
pub mod key_material;
pub mod laws;
pub mod mic;
pub mod mic_token;
pub mod spn;
pub mod wire;

pub use errors::Error;
pub use framing::{frame_encoded_body, frame_message, serialize_message};
pub use spn::{parse_target_name, unwrap_hostname};
pub use key_material::{AesStrength, EncryptionParams};
pub use mic::{
    check_mic_token, encoded_mech_list, generate_initiator_raw, validate_mic_token, INITIATOR_SIGN,
};
pub use mic_token::{MicToken, MIC_TOKEN_INITIATOR_FLAGS};
