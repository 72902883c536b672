use vstd::prelude::*;

verus! {

/// The closed set of failures this library reports. Callers can tell the
/// security-relevant outcomes (`MessageAltered`, `DecryptFailure`) apart from
/// plain bad-input outcomes by matching on the variant, never on text.
#[derive(Clone, Copy, Debug, PartialEq, Eq, Structural)]
pub enum Error {
    /// Malformed caller input: a missing hostname or a malformed service
    /// principal name.
    InvalidParameter,
    /// The binary encoder rejected the value, or the checksum primitive
    /// failed while signing an outgoing token.
    EncodingFailure,
    /// The raw bytes of an incoming MIC token are not a well-formed token.
    TokenDecodeFailure,
    /// No usable key material was available for verification.
    DecryptFailure,
    /// The token checksum does not match the recomputed one: an integrity
    /// violation. The caller must treat this as an authentication failure.
    MessageAltered,
}

impl Error {
    /// A short description of the failure, for diagnostics; callers that need
    /// to act on the failure match on the variant instead.
    pub fn description(&self) -> (s: &'static str)
        ensures
            *self == Error::InvalidParameter ==> s@ == "invalid parameter"@,
            *self == Error::EncodingFailure ==> s@ == "encoding failure"@,
            *self == Error::TokenDecodeFailure ==> s@ == "malformed mic token"@,
            *self == Error::DecryptFailure ==> s@ == "unable to obtain decryption key"@,
            *self == Error::MessageAltered ==> s@ == "bad checksum of the mic token"@,
    {
        match self {
            Error::InvalidParameter => "invalid parameter",
            Error::EncodingFailure => "encoding failure",
            Error::TokenDecodeFailure => "malformed mic token",
            Error::DecryptFailure => "unable to obtain decryption key",
            Error::MessageAltered => "bad checksum of the mic token",
        }
    }
}

} // verus!
