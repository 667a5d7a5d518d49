//! What the agent decides when it starts: which identifier it goes by,
//! whether the attestation key that it stored is still its key, and whether
//! its configuration lets it run at all.

use crate::codec::{
    hex_bytes, hex_decode, hex_encode, hex_text, is_hex_text, openssl_sha256, push_bytes, sha256,
    utf8,
};
use crate::text::{chars_of, slice_of, starts_with, str_eq, string_of};
use crate::timed_binding::HashAlgorithm;
use vstd::prelude::*;
use vstd::string::*;

verus! {

/// The signing schemes that an attestation key can be made with.
#[derive(Debug, Clone, Copy, PartialEq, Eq, Structural)]
pub enum SignAlgorithm {
    RsaSsa,
    RsaPss,
    EcDsa,
    EcSchnorr,
}

/// The hash of an endorsement key: the SHA-256 digest of its public part in
/// PEM, in hexadecimal.
pub open spec fn ek_hash_of(ek_public_pem: Seq<char>) -> Seq<char> {
    hex_text(sha256(utf8(ek_public_pem)))
}

/// The hash of an endorsement key, by which the agent knows its key again
/// and which can serve as its identifier. An error is OpenSSL's.
pub fn hash_ek_pubkey(ek_public_pem: &str) -> (r: Result<String, String>)
    ensures
        r matches Ok(h) ==> h@ == ek_hash_of(ek_public_pem@),
{
    ek_hash_from(openssl_sha256(ek_public_pem.as_bytes()))
}

/// The hash of an endorsement key from what computing the digest of its PEM
/// form came to: the digest in hexadecimal, or the error as it is.
pub fn ek_hash_from(digest: Result<Vec<u8>, String>) -> (r: Result<String, String>)
    ensures
        match digest {
            Ok(d) => r matches Ok(h) && h@ == hex_text(d@),
            Err(e) => r == Err::<String, String>(e),
        },
{
    match digest {
        Ok(d) => Ok(hex_encode(d.as_slice())),
        Err(e) => Err(e),
    }
}

/// The identifier that stands for "the hash of the endorsement key".
pub const HASH_EK: &'static str = "hash_ek";

/// The identifier that the agent goes by: the configured one, or the hash
/// of the endorsement key where the configuration asks for that.
pub open spec fn agent_uuid(configured: Seq<char>, ek_hash: Seq<char>) -> Seq<char> {
    if configured == HASH_EK@ {
        ek_hash
    } else {
        configured
    }
}

/// The identifier that the agent goes by.
pub fn resolve_uuid(configured: &str, ek_hash: &str) -> (uuid: String)
    ensures
        uuid@ == agent_uuid(configured@, ek_hash@),
{
    if str_eq(configured, HASH_EK) {
        String::from_str(ek_hash)
    } else {
        String::from_str(configured)
    }
}

/// What the agent keeps of its attestation key between runs.
#[derive(Debug)]
pub struct AgentData {
    pub ak_hash_alg: HashAlgorithm,
    pub ak_sign_alg: SignAlgorithm,
    /// The public part of the key, in the TPM's wire form.
    pub ak_public: Vec<u8>,
    /// The private part of the key, wrapped by the TPM.
    pub ak_private: Vec<u8>,
    /// The hash of the endorsement key under which the key was made.
    pub ek_hash: Vec<u8>,
    /// The persistent handle of the key, where it has one.
    pub ak_persistent_handle: Option<u32>,
}

fn same_bytes(a: &[u8], b: &[u8]) -> (r: bool)
    ensures
        r == (a@ == b@),
{
    if a.len() != b.len() {
        return false;
    }
    let mut i: usize = 0;
    while i < a.len()
        invariant
            i <= a.len(),
            a.len() == b.len(),
            forall|k: int| 0 <= k < i ==> a@[k] == b@[k],
        decreases a.len() - i,
    {
        if a[i] != b[i] {
            return false;
        }
        i += 1;
    }
    assert(a@ =~= b@);
    true
}

impl AgentData {
    /// The data was stored under this configuration: the same hash
    /// algorithm, the same signing scheme, the same endorsement key.
    pub open spec fn valid_for(
        &self,
        hash_alg: HashAlgorithm,
        sign_alg: SignAlgorithm,
        ek_hash: Seq<u8>,
    ) -> bool {
        self.ak_hash_alg == hash_alg && self.ak_sign_alg == sign_alg && self.ek_hash@ == ek_hash
    }

    /// The data to store for a key that was just made; it has no persistent
    /// handle yet.
    pub fn create(
        hash_alg: HashAlgorithm,
        sign_alg: SignAlgorithm,
        ak_public: Vec<u8>,
        ak_private: Vec<u8>,
        ek_hash: &[u8],
    ) -> (d: AgentData)
        ensures
            d.valid_for(hash_alg, sign_alg, ek_hash@),
            d.ak_public == ak_public,
            d.ak_private == ak_private,
            d.ak_persistent_handle is None,
    {
        let mut copied: Vec<u8> = Vec::new();
        push_bytes(&mut copied, ek_hash);
        AgentData {
            ak_hash_alg: hash_alg,
            ak_sign_alg: sign_alg,
            ak_public,
            ak_private,
            ek_hash: copied,
            ak_persistent_handle: None,
        }
    }

    /// Whether the data was stored under this configuration.
    pub fn valid(&self, hash_alg: HashAlgorithm, sign_alg: SignAlgorithm, ek_hash: &[u8]) -> (b:
        bool)
        ensures
            b == self.valid_for(hash_alg, sign_alg, ek_hash@),
    {
        self.ak_hash_alg == hash_alg && self.ak_sign_alg == sign_alg && same_bytes(
            self.ek_hash.as_slice(),
            ek_hash,
        )
    }
}

/// Where the agent gets its attestation key from.
#[derive(Debug, Clone, Copy, PartialEq, Eq, Structural)]
pub enum AkPlan {
    /// The stored key is loaded again: by its persistent handle where it has
    /// one, else from its stored parts.
    Reuse { persistent_handle: Option<u32> },
    /// A new key is made, and stored in place of any old one.
    Create,
}

/// The plan for the attestation key: the stored key where there is one and
/// it was stored under the current configuration, a new key otherwise.
pub open spec fn plan_for(
    stored: Option<AgentData>,
    hash_alg: HashAlgorithm,
    sign_alg: SignAlgorithm,
    ek_hash: Seq<u8>,
) -> AkPlan {
    match stored {
        Some(d) => if d.valid_for(hash_alg, sign_alg, ek_hash) {
            AkPlan::Reuse { persistent_handle: d.ak_persistent_handle }
        } else {
            AkPlan::Create
        },
        None => AkPlan::Create,
    }
}

/// Decides where the agent gets its attestation key from.
pub fn attestation_key_plan(
    stored: &Option<AgentData>,
    hash_alg: HashAlgorithm,
    sign_alg: SignAlgorithm,
    ek_hash: &[u8],
) -> (p: AkPlan)
    ensures
        p == plan_for(*stored, hash_alg, sign_alg, ek_hash@),
{
    match stored {
        Some(d) => if d.valid(hash_alg, sign_alg, ek_hash) {
            AkPlan::Reuse { persistent_handle: d.ak_persistent_handle }
        } else {
            AkPlan::Create
        },
        None => AkPlan::Create,
    }
}

/// Data that was stored under a configuration brings the same key back
/// when the agent starts again under that configuration: the plan is to
/// load the stored key, by the handle that was stored with it. Under any
/// other configuration the plan is to make a new key.
pub proof fn lemma_stored_key_returns(
    d: AgentData,
    hash_alg: HashAlgorithm,
    sign_alg: SignAlgorithm,
    ek_hash: Seq<u8>,
)
    ensures
        d.valid_for(hash_alg, sign_alg, ek_hash) ==> plan_for(Some(d), hash_alg, sign_alg, ek_hash)
            == (AkPlan::Reuse { persistent_handle: d.ak_persistent_handle }),
        !d.valid_for(hash_alg, sign_alg, ek_hash) ==> plan_for(
            Some(d),
            hash_alg,
            sign_alg,
            ek_hash,
        ) == AkPlan::Create,
{
}

pub open spec fn insecure_payload() -> Seq<char> {
    "The agent mTLS is disabled and 'payload_script' is not empty. To allow the agent to run, 'enable_insecure_payload' has to be set to 'True'"@
}

/// Whether payload scripts are run, or why the agent may not start: with
/// mutual TLS off a payload script may only be configured if insecure
/// payloads are allowed. Where the agent may start, payloads are run if
/// mutual TLS is on or insecure payloads are allowed.
pub fn payload_policy(
    enable_agent_mtls: bool,
    enable_insecure_payload: bool,
    payload_script: &str,
) -> (r: Result<bool, String>)
    ensures
        match r {
            Ok(run) => (enable_agent_mtls || enable_insecure_payload || payload_script@.len() == 0)
                && run == (enable_agent_mtls || enable_insecure_payload),
            Err(why) => !enable_agent_mtls && !enable_insecure_payload && payload_script@.len() > 0
                && why@ == insecure_payload(),
        },
{
    if !enable_agent_mtls && !enable_insecure_payload && !payload_script.is_empty() {
        Err(
            String::from_str(
                "The agent mTLS is disabled and 'payload_script' is not empty. To allow the agent to run, 'enable_insecure_payload' has to be set to 'True'",
            ),
        )
    } else {
        Ok(enable_agent_mtls || enable_insecure_payload)
    }
}

/// The password of the TPM's owner as bytes: the bytes that the
/// hexadecimal digits behind `hex:` stand for, or the bytes of the text
/// itself where it does not start so. `None` where what follows `hex:` is
/// not an even number of hexadecimal digits.
pub open spec fn password_bytes(text: Seq<char>) -> Option<Seq<u8>> {
    if "hex:"@.is_prefix_of(text) {
        let digits = text.skip(4);
        if is_hex_text(digits) {
            Some(hex_bytes(digits))
        } else {
            None
        }
    } else {
        Some(utf8(text))
    }
}

/// The password of the TPM's owner as bytes; the error is the decoder's.
pub fn owner_password(text: &str) -> (r: Result<Vec<u8>, String>)
    ensures
        match password_bytes(text@) {
            Some(bytes) => r matches Ok(b) && b@ == bytes,
            None => r is Err,
        },
{
    let chars = chars_of(text);
    let prefix = chars_of("hex:");
    proof {
        reveal_strlit("hex:");
    }
    if starts_with(chars.as_slice(), prefix.as_slice()) {
        let digits = slice_of(chars.as_slice(), 4, chars.len());
        assert(digits@ == text@.skip(4));
        let digits_text = string_of(digits.as_slice());
        hex_decode(digits_text.as_str())
    } else {
        Ok(text.as_bytes_vec())
    }
}

} // verus!
