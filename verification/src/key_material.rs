use vstd::prelude::*;

verus! {

/// AES variant negotiated for a security context.
#[derive(Clone, Copy, Debug, PartialEq, Eq, Structural)]
pub enum AesStrength {
    Aes128,
    Aes256,
}

/// Length in bytes of a usable key for the given AES variant.
pub open spec fn spec_key_len(aes256: bool) -> int {
    if aes256 {
        32
    } else {
        16
    }
}

/// Key material negotiated for one security context. Treated as an immutable
/// snapshot for the duration of a single verify or generate call.
#[derive(Clone, Debug)]
pub struct EncryptionParams {
    pub session_key: Option<Vec<u8>>,
    pub sub_session_key: Option<Vec<u8>>,
    pub aes_strength: Option<AesStrength>,
}

impl EncryptionParams {
    /// The key a verification must use: the sub-session key, when present,
    /// always supersedes the session key, because it is the most recently
    /// negotiated key for the context.
    pub open spec fn spec_selected_key(&self) -> Option<Seq<u8>> {
        match self.sub_session_key {
            Some(k) => Some(k@),
            None => match self.session_key {
                Some(k) => Some(k@),
                None => None,
            },
        }
    }

    /// Whether checksums for this context are computed with the Aes256
    /// variant: the configured strength, or Aes256 when none was set.
    pub open spec fn spec_uses_aes256(&self) -> bool {
        self.aes_strength != Some(AesStrength::Aes128)
    }

    /// Ordered key resolution: prefer the sub-session key, fall back to the
    /// session key, yield nothing when neither is present.
    pub fn selected_key(&self) -> (r: Option<&Vec<u8>>)
        ensures
            match r {
                Some(k) => self.spec_selected_key() == Some(k@),
                None => self.spec_selected_key() is None,
            },
    {
        if let Some(key) = self.sub_session_key.as_ref() {
            Some(key)
        } else if let Some(key) = self.session_key.as_ref() {
            Some(key)
        } else {
            None
        }
    }

    /// The configured AES strength, defaulting to Aes256 when unset.
    pub fn effective_aes_strength(&self) -> (s: AesStrength)
        ensures
            (s == AesStrength::Aes256) <==> self.spec_uses_aes256(),
    {
        match self.aes_strength {
            Some(s) => s,
            None => AesStrength::Aes256,
        }
    }
}

} // verus!
