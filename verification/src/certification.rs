//! Delegated certification: who may ask the agent to certify an application
//! key, what the TPM is asked to sign, and the certificate that goes back.

use crate::codec::{
    base64_bytes, base64_decode, base64_encode, base64_text, json_string, openssl_sha256,
    public_key_pem, push_bytes, reencode_public_key, sha256, utf8, utf8_text,
};
use crate::http::{opt_view, HttpError};
use crate::json::{
    finish, member_views, object_text, render_object, string_member, Layout, Member,
};
use crate::rate_limit::{step, RateLimiter};
use crate::text::{chars_of, find, find_in, push_str, slice_of, starts_with, str_eq, string_of, views};
use vstd::prelude::*;
use vstd::string::*;

verus! {

/// The body of a request to certify an application key.
#[derive(Debug)]
pub struct CertifyAppKeyRequest {
    pub api_version: Option<String>,
    pub command: Option<String>,
    /// The public key, as PEM or as the base64 text of PEM.
    pub app_key_public: String,
    /// Where the saved TPM context of the key lies.
    pub app_key_context_path: String,
    pub challenge_nonce: Option<String>,
}

/// The body of the answer.
#[derive(Debug)]
pub struct CertifyAppKeyResponse {
    pub result: String,
    pub app_key_certificate: Option<String>,
    pub agent_uuid: Option<String>,
    pub error: Option<String>,
}

pub ghost struct CertifyAppKeyResponseView {
    pub result: Seq<char>,
    pub app_key_certificate: Option<Seq<char>>,
    pub agent_uuid: Option<Seq<char>>,
    pub error: Option<Seq<char>>,
}

impl View for CertifyAppKeyResponse {
    type V = CertifyAppKeyResponseView;

    open spec fn view(&self) -> CertifyAppKeyResponseView {
        CertifyAppKeyResponseView {
            result: self.result@,
            app_key_certificate: opt_view(self.app_key_certificate),
            agent_uuid: opt_view(self.agent_uuid),
            error: opt_view(self.error),
        }
    }
}

/// What the agent's configuration says of delegated certification.
#[derive(Debug)]
pub struct CertificationPolicy {
    /// The unified identity feature is on.
    pub enabled: bool,
    /// The peers that may ask; every peer may where the list is empty.
    pub allowed_ips: Vec<String>,
    /// The requests that a peer may make in sixty seconds.
    pub rate_limit: u32,
}

/// The part of a peer's address in front of its first colon.
pub open spec fn host_part(addr: Seq<char>) -> Seq<char> {
    match find(addr, seq![':']) {
        Some(i) => addr.take(i),
        None => addr,
    }
}

/// The IP address of a peer: its address without the port, or `unknown`
/// where the connection names no peer.
pub open spec fn peer_ip_spec(peer_addr: Option<Seq<char>>) -> Seq<char> {
    match peer_addr {
        Some(addr) => host_part(addr),
        None => "unknown"@,
    }
}

/// The IP address of a peer.
pub fn peer_ip(peer_addr: Option<&str>) -> (ip: String)
    ensures
        ip@ == peer_ip_spec(
            match peer_addr {
                Some(a) => Some(a@),
                None => None,
            },
        ),
{
    match peer_addr {
        Some(addr) => {
            let chars = chars_of(addr);
            let mut colon: Vec<char> = Vec::new();
            colon.push(':');
            assert(colon@ =~= seq![':']);
            match find_in(chars.as_slice(), colon.as_slice(), 0) {
                Some(i) => {
                    let head = slice_of(chars.as_slice(), 0, i);
                    assert(head@ == chars@.take(i as int));
                    string_of(head.as_slice())
                },
                None => String::from_str(addr),
            }
        },
        None => String::from_str("unknown"),
    }
}

pub open spec fn feature_disabled() -> Seq<char> {
    "Unified-Identity feature is disabled. Enable unified_identity_enabled in agent config."@
}

pub open spec fn not_allowed(ip: Seq<char>) -> Seq<char> {
    "IP "@ + ip + " not in allowed list"@
}

pub open spec fn rate_limited() -> Seq<char> {
    "Rate limit exceeded. Please try again later."@
}

pub open spec fn missing_field(name: Seq<char>) -> Seq<char> {
    "Missing required field: "@ + name
}

/// The peer may ask: the list of allowed peers is empty or names it.
pub open spec fn peer_allowed(allowed: Seq<Seq<char>>, ip: Seq<char>) -> bool {
    allowed.len() == 0 || allowed.contains(ip)
}

/// Whether the request reaches the rate limiter: the feature is on and the
/// peer may ask.
pub open spec fn reaches_limiter(enabled: bool, allowed: Seq<Seq<char>>, ip: Seq<char>) -> bool {
    enabled && peer_allowed(allowed, ip)
}

/// The first required field that a request lacks: the public key, the
/// context path, the challenge nonce. A field that is empty is lacking.
pub open spec fn lacking_field(
    app_key_public: Seq<char>,
    app_key_context_path: Seq<char>,
    challenge_nonce: Option<Seq<char>>,
) -> Option<Seq<char>> {
    if app_key_public.len() == 0 {
        Some("app_key_public"@)
    } else if app_key_context_path.len() == 0 {
        Some("app_key_context_path"@)
    } else if challenge_nonce is None || challenge_nonce->0.len() == 0 {
        Some("challenge_nonce"@)
    } else {
        None
    }
}

/// With which status and message a request is refused, if it is. The checks
/// come in this order: the feature (403), the list of allowed peers (403),
/// the rate limit (429), the required fields (400). `within_limit` is the
/// rate limiter's word.
pub open spec fn refusal(
    enabled: bool,
    allowed: Seq<Seq<char>>,
    ip: Seq<char>,
    within_limit: bool,
    app_key_public: Seq<char>,
    app_key_context_path: Seq<char>,
    challenge_nonce: Option<Seq<char>>,
) -> Option<(u16, Seq<char>)> {
    if !enabled {
        Some((403u16, feature_disabled()))
    } else if !peer_allowed(allowed, ip) {
        Some((403u16, not_allowed(ip)))
    } else if !within_limit {
        Some((429u16, rate_limited()))
    } else {
        match lacking_field(app_key_public, app_key_context_path, challenge_nonce) {
            Some(name) => Some((400u16, missing_field(name))),
            None => None,
        }
    }
}

fn is_allowed(allowed: &Vec<String>, ip: &str) -> (b: bool)
    ensures
        b == peer_allowed(views(allowed@), ip@),
{
    if allowed.len() == 0 {
        return true;
    }
    let mut j: usize = 0;
    while j < allowed.len()
        invariant
            j <= allowed.len(),
            forall|k: int| 0 <= k < j ==> views(allowed@)[k] != ip@,
        decreases allowed.len() - j,
    {
        if str_eq(allowed[j].as_str(), ip) {
            assert(views(allowed@)[j as int] == ip@);
            return true;
        }
        j += 1;
    }
    false
}

/// Decides whether a request to certify an application key is taken up.
///
/// The request is refused where the feature is off (403), where a list of
/// allowed peers is set and does not name the peer (403), where the peer has
/// used up its requests for the window (429), and where the public key, the
/// context path or the challenge nonce is missing or empty (400). A request
/// is counted by the rate limiter if and only if it got past the first two
/// checks. For a request that is taken up the challenge nonce is returned.
pub fn check_admission(
    policy: &CertificationPolicy,
    limiter: &mut RateLimiter,
    peer_addr: Option<&str>,
    now_ms: u64,
    request: &CertifyAppKeyRequest,
) -> (r: Result<String, HttpError>)
    requires
        old(limiter).wf(),
    ensures
        final(limiter).wf(),
        ({
            let ip = peer_ip_spec(
                match peer_addr {
                    Some(a) => Some(a@),
                    None => None,
                },
            );
            let counts = reaches_limiter(policy.enabled, views(policy.allowed_ips@), ip);
            let stepped = step(old(limiter)@, ip, policy.rate_limit, now_ms);
            &&& final(limiter)@ == if counts {
                stepped.0
            } else {
                old(limiter)@
            }
            &&& match refusal(
                policy.enabled,
                views(policy.allowed_ips@),
                ip,
                stepped.1,
                request.app_key_public@,
                request.app_key_context_path@,
                opt_view(request.challenge_nonce),
            ) {
                Some((code, message)) => r matches Err(e) && e.is(code, message),
                None => r matches Ok(nonce) && Some(nonce@) == opt_view(request.challenge_nonce),
            }
        }),
{
    if !policy.enabled {
        return Err(
            HttpError::new(
                403,
                "Unified-Identity feature is disabled. Enable unified_identity_enabled in agent config.",
            ),
        );
    }
    let ip = peer_ip(peer_addr);
    if !is_allowed(&policy.allowed_ips, ip.as_str()) {
        let mut out: Vec<char> = Vec::new();
        push_str(&mut out, "IP ");
        push_str(&mut out, ip.as_str());
        push_str(&mut out, " not in allowed list");
        return Err(HttpError { code: 403, message: string_of(out.as_slice()) });
    }
    if !limiter.check_rate_limit(ip.as_str(), policy.rate_limit, now_ms) {
        return Err(HttpError::new(429, "Rate limit exceeded. Please try again later."));
    }
    if request.app_key_public.as_str().is_empty() {
        return Err(HttpError::with_detail(400, "Missing required field: ", "app_key_public"));
    }
    if request.app_key_context_path.as_str().is_empty() {
        return Err(
            HttpError::with_detail(400, "Missing required field: ", "app_key_context_path"),
        );
    }
    match &request.challenge_nonce {
        Some(nonce) => {
            if nonce.as_str().is_empty() {
                Err(HttpError::with_detail(400, "Missing required field: ", "challenge_nonce"))
            } else {
                Ok(nonce.clone())
            }
        },
        None => Err(HttpError::with_detail(400, "Missing required field: ", "challenge_nonce")),
    }
}

pub open spec fn context_not_found(path: Seq<char>) -> Seq<char> {
    "App Key context file not found: "@ + path
}

/// The refusal of a request whose context file does not exist: a 400 that
/// names the path.
pub fn context_missing(app_key_context_path: &str) -> (e: HttpError)
    ensures
        e.is(400, context_not_found(app_key_context_path@)),
{
    HttpError::with_detail(400, "App Key context file not found: ", app_key_context_path)
}

/// What stands for the public key of a request, as PEM. A value that starts
/// like a PEM document is one. Any other value that is base64 text stands for
/// the text that its bytes hold, which must be UTF-8; one that is no base64
/// text is taken as it is.
pub open spec fn public_key_text(app_key_public: Seq<char>) -> Option<Seq<char>> {
    if "-----BEGIN"@.is_prefix_of(app_key_public) {
        Some(app_key_public)
    } else {
        match base64_bytes(app_key_public) {
            Some(bytes) => if vstd::utf8::valid_utf8(bytes) {
                Some(vstd::utf8::decode_utf8(bytes))
            } else {
                None
            },
            None => Some(app_key_public),
        }
    }
}

pub open spec fn invalid_public_key() -> Seq<char> {
    "Invalid app_key_public format"@
}

/// The public key of a request as PEM; a 400 where the value is base64 text
/// of bytes that are no UTF-8.
pub fn app_key_public_pem(app_key_public: &str) -> (r: Result<String, HttpError>)
    ensures
        match public_key_text(app_key_public@) {
            Some(pem) => r matches Ok(s) && s@ == pem,
            None => r matches Err(e) && e.is(400, invalid_public_key()),
        },
{
    let chars = chars_of(app_key_public);
    let marker = chars_of("-----BEGIN");
    if starts_with(chars.as_slice(), marker.as_slice()) {
        return Ok(String::from_str(app_key_public));
    }
    decoded_public_key(app_key_public, base64_decode(app_key_public))
}

/// The public key of a request that does not start like a PEM document,
/// from what its value holds as base64 text: the text of the bytes, which
/// must be UTF-8, or the value itself where it is no base64 text.
pub fn decoded_public_key(app_key_public: &str, decoded: Option<Vec<u8>>) -> (r: Result<
    String,
    HttpError,
>)
    ensures
        match decoded {
            Some(bytes) => if vstd::utf8::valid_utf8(bytes@) {
                r matches Ok(s) && s@ == vstd::utf8::decode_utf8(bytes@)
            } else {
                r matches Err(e) && e.is(400, invalid_public_key())
            },
            None => r matches Ok(s) && s@ == app_key_public@,
        },
{
    match decoded {
        Some(bytes) => match utf8_text(bytes) {
            Some(s) => Ok(s),
            None => Err(HttpError::new(400, "Invalid app_key_public format")),
        },
        None => Ok(String::from_str(app_key_public)),
    }
}

/// What the second digest of the qualifying data is taken of: the digest of
/// the key, then the bytes of the challenge nonce.
pub fn digest_input(key_digest: &[u8], challenge_nonce: &str) -> (data: Vec<u8>)
    ensures
        data@ == key_digest@ + utf8(challenge_nonce@),
{
    let mut data: Vec<u8> = Vec::new();
    push_bytes(&mut data, key_digest);
    push_bytes(&mut data, challenge_nonce.as_bytes());
    data
}

/// The qualifying data for the key whose PEM form is `key_pem` and the
/// challenge nonce `nonce`: the digest of the digest of the key followed by
/// the nonce.
pub open spec fn qualifying_data(key_pem: Seq<u8>, nonce: Seq<char>) -> Seq<u8> {
    sha256(sha256(key_pem) + utf8(nonce))
}

pub open spec fn key_not_parsed() -> Seq<char> {
    "Failed to parse PEM public key: "@
}

pub open spec fn digest_failed() -> Seq<char> {
    "Failed to hash public key: "@
}

pub open spec fn key_too_long() -> Seq<char> {
    "The public key is too long"@
}

/// The qualifying data that binds a certificate to an application key and a
/// challenge.
///
/// The key is read from `pem` and written again in OpenSSL's PEM form; the
/// result is the SHA-256 digest of the SHA-256 digest of that form followed
/// by the bytes of the nonce. A document of more than 2^31 - 1 bytes is
/// refused, and on no other input is the error that one. Any other error
/// says in words whether the key could not be read or OpenSSL could not
/// hash.
pub fn create_qualifying_data(pem: &str, challenge_nonce: &str) -> (r: Result<Vec<u8>, String>)
    ensures
        match r {
            Ok(data) => public_key_pem(utf8(pem@)) matches Some(key) && data@ == qualifying_data(
                key,
                challenge_nonce@,
            ),
            Err(why) => why@ == key_too_long() || key_not_parsed().is_prefix_of(why@)
                || digest_failed().is_prefix_of(why@),
        },
        utf8(pem@).len() > 0x7fff_ffff <==> (r matches Err(why) && why@ == key_too_long()),
{
    proof {
        reveal_strlit("The public key is too long");
        reveal_strlit("Failed to parse PEM public key: ");
        reveal_strlit("Failed to hash public key: ");
        assert(key_too_long()[0] != key_not_parsed()[0]);
        assert(key_too_long()[0] != digest_failed()[0]);
        assert forall|why: Seq<char>|
            key_not_parsed().is_prefix_of(why) || digest_failed().is_prefix_of(
                why,
            ) implies why != key_too_long() by {
            if key_not_parsed().is_prefix_of(why) {
                assert(why.subrange(0, key_not_parsed().len() as int)[0] == why[0]);
            } else {
                assert(why.subrange(0, digest_failed().len() as int)[0] == why[0]);
            }
        }
    }
    if pem.as_bytes().len() > 0x7fff_ffff {
        return Err(String::from_str("The public key is too long"));
    }
    let key = match reencode_public_key(pem.as_bytes()) {
        Ok(k) => k,
        Err(e) => {
            return Err(prefixed("Failed to parse PEM public key: ", e.as_str()));
        },
    };
    let key_digest = match openssl_sha256(key.as_slice()) {
        Ok(d) => d,
        Err(e) => {
            return Err(prefixed("Failed to hash public key: ", e.as_str()));
        },
    };
    let data = digest_input(key_digest.as_slice(), challenge_nonce);
    match openssl_sha256(data.as_slice()) {
        Ok(d) => Ok(d),
        Err(e) => Err(prefixed("Failed to hash public key: ", e.as_str())),
    }
}

fn prefixed(prefix: &str, detail: &str) -> (s: String)
    ensures
        s@ == prefix@ + detail@,
{
    let mut out: Vec<char> = Vec::new();
    push_str(&mut out, prefix);
    push_str(&mut out, detail);
    string_of(out.as_slice())
}

/// The JSON text of a certificate: the attestation and the signature as
/// base64 text and the challenge nonce, the keys in the order of the
/// alphabet.
pub open spec fn certificate_json(attest: Seq<u8>, signature: Seq<u8>, nonce: Seq<char>) -> Seq<
    char,
> {
    certificate_of(base64_text(attest), base64_text(signature), nonce)
}

/// The JSON text of a certificate whose attestation and signature are
/// given as base64 text.
pub open spec fn certificate_of(certify_data: Seq<char>, signature: Seq<char>, nonce: Seq<char>) -> Seq<
    char,
> {
    object_text(
        seq![
            ("certify_data"@, json_string(certify_data)),
            ("challenge_nonce"@, json_string(nonce)),
            ("signature"@, json_string(signature)),
        ],
        Layout::Compact,
    )
}

/// The handle under which an application key is kept where it was made
/// persistent.
pub const APP_KEY_HANDLE: u32 = 0x8101000B;

pub open spec fn context_unreadable() -> Seq<char> {
    "tpm2_readpublic failed for context file: "@
}

pub open spec fn key_not_persisted() -> Seq<char> {
    "App Key not found at persistent handle 0x8101000B and context file loading requires key to be persisted"@
}

/// Where an application key is found in the TPM. `persisted` says whether
/// the TPM holds a key under the application key's handle; `context_error`
/// is what reading the key's context file failed with, if it failed. A key
/// that is persisted is used by its handle. One that is not cannot be used:
/// the error says whether its context file could not be read either.
pub fn load_app_key_from_context(persisted: bool, context_error: Option<&str>) -> (r: Result<
    u32,
    String,
>)
    ensures
        persisted ==> r == Ok::<u32, String>(APP_KEY_HANDLE),
        !persisted ==> (r matches Err(why) && why@ == match context_error {
            Some(e) => context_unreadable() + e@,
            None => key_not_persisted(),
        }),
{
    if persisted {
        return Ok(APP_KEY_HANDLE);
    }
    match context_error {
        Some(e) => Err(prefixed("tpm2_readpublic failed for context file: ", e)),
        None => Err(
            String::from_str(
                "App Key not found at persistent handle 0x8101000B and context file loading requires key to be persisted",
            ),
        ),
    }
}

/// The certificate of an application key: the base64 text of its JSON text.
/// `attest` and `signature` are the TPM's attestation structure and
/// signature in their wire form.
pub fn app_key_certificate(attest: &[u8], signature: &[u8], challenge_nonce: &str) -> (c: String)
    ensures
        c@ == base64_text(utf8(certificate_json(attest@, signature@, challenge_nonce@))),
{
    let certify_data = base64_encode(attest);
    let sig = base64_encode(signature);
    let text = certificate_text(certify_data.as_str(), sig.as_str(), challenge_nonce);
    base64_encode(text.as_str().as_bytes())
}

/// The JSON text of a certificate from the base64 texts of the attestation
/// and of the signature.
pub fn certificate_text(certify_data: &str, signature: &str, challenge_nonce: &str) -> (text:
    String)
    ensures
        text@ == certificate_of(certify_data@, signature@, challenge_nonce@),
{
    let mut ms: Vec<Member> = Vec::new();
    ms.push(string_member("certify_data", certify_data));
    ms.push(string_member("challenge_nonce", challenge_nonce));
    ms.push(string_member("signature", signature));
    assert(member_views(ms@) =~= seq![
        ("certify_data"@, json_string(certify_data@)),
        ("challenge_nonce"@, json_string(challenge_nonce@)),
        ("signature"@, json_string(signature@)),
    ]);
    finish(render_object(&ms, &Layout::Compact))
}

/// The answer to a request that was served: the certificate and the agent's
/// identifier, under the result `SUCCESS`.
pub fn certified(certificate: String, agent_uuid: &str) -> (r: CertifyAppKeyResponse)
    ensures
        r@ == (CertifyAppKeyResponseView {
            result: "SUCCESS"@,
            app_key_certificate: Some(certificate@),
            agent_uuid: Some(agent_uuid@),
            error: None,
        }),
{
    CertifyAppKeyResponse {
        result: String::from_str("SUCCESS"),
        app_key_certificate: Some(certificate),
        agent_uuid: Some(String::from_str(agent_uuid)),
        error: None,
    }
}

/// Where serving a request failed.
#[derive(Debug)]
pub enum CertificationFailure {
    /// The key could not be loaded from its context file.
    LoadKey(String),
    /// The qualifying data could not be made.
    QualifyingData(String),
    /// The TPM refused to certify.
    Certify(String),
    /// The attestation structure could not be put into its wire form.
    MarshalAttestation,
    /// The signature could not be put into its wire form.
    MarshalSignature,
}

impl CertificationFailure {
    pub open spec fn message_spec(&self) -> Seq<char> {
        match self {
            CertificationFailure::LoadKey(e) => "Failed to load App Key from context file: "@ + e@,
            CertificationFailure::QualifyingData(e) => "Failed to process App Key public key: "@
                + e@,
            CertificationFailure::Certify(e) => "TPM2_Certify failed: "@ + e@,
            CertificationFailure::MarshalAttestation => "Failed to serialize attestation"@,
            CertificationFailure::MarshalSignature => "Failed to serialize signature"@,
        }
    }

    /// The refusal for a failure while serving: always a 500.
    pub fn to_error(&self) -> (e: HttpError)
        ensures
            e.is(500, self.message_spec()),
    {
        match self {
            CertificationFailure::LoadKey(e) => HttpError::with_detail(
                500,
                "Failed to load App Key from context file: ",
                e.as_str(),
            ),
            CertificationFailure::QualifyingData(e) => HttpError::with_detail(
                500,
                "Failed to process App Key public key: ",
                e.as_str(),
            ),
            CertificationFailure::Certify(e) => HttpError::with_detail(
                500,
                "TPM2_Certify failed: ",
                e.as_str(),
            ),
            CertificationFailure::MarshalAttestation => HttpError::new(
                500,
                "Failed to serialize attestation",
            ),
            CertificationFailure::MarshalSignature => HttpError::new(
                500,
                "Failed to serialize signature",
            ),
        }
    }
}

} // verus!
