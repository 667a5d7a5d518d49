//! What the agent sends to the registrar to register and to activate, and
//! what it makes of the answers.

use crate::codec::{
    base64_bytes, base64_decode, base64_encode, base64_text, hmac_sha384, json_string,
    openssl_hmac_sha384, utf8,
};
use crate::http::opt_view;
use crate::json::{
    append, append_optional, finish, member_views, object_text, optional_member, raw_member,
    render_object, string_member, text_member, Layout, Member,
};
use crate::json_value::{as_value, field, get, json_parsed, parse_json, Json};
use crate::registrar::{ErrorView, RegistrarClientError};
use crate::text::{decimal, push_decimal, push_str, string_of};
use vstd::prelude::*;
use vstd::string::*;

verus! {

/// What the agent tells the registrar of itself.
#[derive(Debug)]
pub struct AgentIdentity {
    /// The public part of the attestation key, in the TPM's wire form.
    pub ak_pub: Vec<u8>,
    /// The public part of the endorsement key, in the TPM's wire form.
    pub ek_pub: Vec<u8>,
    pub ek_cert: Option<String>,
    pub iak_attest: Option<Vec<u8>>,
    pub iak_cert: Option<Vec<u8>>,
    pub iak_sign: Option<Vec<u8>>,
    pub iak_pub: Option<Vec<u8>>,
    pub idevid_cert: Option<Vec<u8>>,
    pub idevid_pub: Option<Vec<u8>>,
    /// Where the agent can be reached.
    pub ip: String,
    pub port: u32,
    pub mtls_cert: Option<String>,
    pub uuid: String,
    /// The API versions that the agent speaks, the newest last.
    pub enabled_api_versions: Vec<String>,
}

/// The view of optional bytes.
pub open spec fn opt_bytes(o: Option<Vec<u8>>) -> Option<Seq<u8>> {
    match o {
        Some(v) => Some(v@),
        None => None,
    }
}

/// Whether a buffer holds nothing.
pub fn is_empty(buf: &[u8]) -> (b: bool)
    ensures
        b == (buf@.len() == 0),
{
    buf.len() == 0
}

/// The member for optional bytes that are left out where absent.
pub open spec fn skipped(key: Seq<char>, value: Option<Seq<u8>>) -> Seq<(Seq<char>, Seq<char>)> {
    match value {
        Some(b) => seq![(key, json_string(base64_text(b)))],
        None => Seq::empty(),
    }
}

/// The member for optional bytes that are `null` where absent.
pub open spec fn nullable(key: Seq<char>, value: Option<Seq<u8>>) -> Seq<(Seq<char>, Seq<char>)> {
    match value {
        Some(b) => seq![(key, json_string(base64_text(b)))],
        None => seq![(key, "null"@)],
    }
}

/// The members of a registration. Bytes are written as base64 text. The
/// endorsement key is left out where it is empty; the two certificates of
/// the device identity are `null` where absent; every other optional field
/// is left out where absent.
pub open spec fn register_members(
    ak_pub: Seq<u8>,
    ek_pub: Seq<u8>,
    ek_cert: Option<Seq<char>>,
    iak_attest: Option<Seq<u8>>,
    iak_cert: Option<Seq<u8>>,
    iak_sign: Option<Seq<u8>>,
    iak_pub: Option<Seq<u8>>,
    idevid_cert: Option<Seq<u8>>,
    idevid_pub: Option<Seq<u8>>,
    ip: Seq<char>,
    mtls_cert: Option<Seq<char>>,
    port: u32,
) -> Seq<(Seq<char>, Seq<char>)> {
    seq![("aik_tpm"@, json_string(base64_text(ak_pub)))] + (if ek_pub.len() == 0 {
        Seq::empty()
    } else {
        seq![("ek_tpm"@, json_string(base64_text(ek_pub)))]
    }) + optional_member("ekcert"@, ek_cert) + skipped("iak_attest"@, iak_attest) + nullable(
        "iak_cert"@,
        iak_cert,
    ) + skipped("iak_sign"@, iak_sign) + skipped("iak_tpm"@, iak_pub) + nullable(
        "idevid_cert"@,
        idevid_cert,
    ) + skipped("idevid_tpm"@, idevid_pub) + seq![("ip"@, json_string(ip))] + optional_member(
        "mtls_cert"@,
        mtls_cert,
    ) + seq![("port"@, decimal(port as nat))]
}

fn bytes_member(key: &str, bytes: &[u8]) -> (m: Member)
    ensures
        m@ == (key@, json_string(base64_text(bytes@))),
{
    let text = base64_encode(bytes);
    string_member(key, text.as_str())
}

fn add_skipped(ms: &mut Vec<Member>, key: &str, value: &Option<Vec<u8>>)
    ensures
        member_views(final(ms)@) == member_views(old(ms)@) + skipped(key@, opt_bytes(*value)),
{
    match value {
        Some(b) => {
            append(ms, bytes_member(key, b.as_slice()));
        },
        None => {},
    }
    assert(member_views(ms@) =~= member_views(old(ms)@) + skipped(key@, opt_bytes(*value)));
}

fn add_nullable(ms: &mut Vec<Member>, key: &str, value: &Option<Vec<u8>>)
    ensures
        member_views(final(ms)@) == member_views(old(ms)@) + nullable(key@, opt_bytes(*value)),
{
    match value {
        Some(b) => {
            append(ms, bytes_member(key, b.as_slice()));
        },
        None => {
            append(ms, text_member(key, "null"));
        },
    }
    assert(member_views(ms@) =~= member_views(old(ms)@) + nullable(key@, opt_bytes(*value)));
}

impl AgentIdentity {
    /// The members of the registration of this agent.
    pub open spec fn members(&self) -> Seq<(Seq<char>, Seq<char>)> {
        register_members(
            self.ak_pub@,
            self.ek_pub@,
            opt_view(self.ek_cert),
            opt_bytes(self.iak_attest),
            opt_bytes(self.iak_cert),
            opt_bytes(self.iak_sign),
            opt_bytes(self.iak_pub),
            opt_bytes(self.idevid_cert),
            opt_bytes(self.idevid_pub),
            self.ip@,
            opt_view(self.mtls_cert),
            self.port,
        )
    }

    /// The body of the request that registers the agent.
    pub fn register_body(&self) -> (body: String)
        ensures
            body@ == object_text(self.members(), Layout::Compact),
    {
        let mut ms: Vec<Member> = Vec::new();
        assert(member_views(ms@) =~= Seq::empty());
        append(&mut ms, bytes_member("aik_tpm", self.ak_pub.as_slice()));
        if !is_empty(self.ek_pub.as_slice()) {
            append(&mut ms, bytes_member("ek_tpm", self.ek_pub.as_slice()));
        }
        append_optional(&mut ms, "ekcert", &self.ek_cert);
        add_skipped(&mut ms, "iak_attest", &self.iak_attest);
        add_nullable(&mut ms, "iak_cert", &self.iak_cert);
        add_skipped(&mut ms, "iak_sign", &self.iak_sign);
        add_skipped(&mut ms, "iak_tpm", &self.iak_pub);
        add_nullable(&mut ms, "idevid_cert", &self.idevid_cert);
        add_skipped(&mut ms, "idevid_tpm", &self.idevid_pub);
        append(&mut ms, string_member("ip", self.ip.as_str()));
        append_optional(&mut ms, "mtls_cert", &self.mtls_cert);
        let mut port: Vec<char> = Vec::new();
        push_decimal(&mut port, self.port as u64);
        append(&mut ms, raw_member("port", port));
        assert(member_views(ms@) =~= self.members());
        finish(render_object(&ms, &Layout::Compact))
    }
}

/// The body of the request that activates the agent.
pub fn activate_body(auth_tag: &str) -> (body: String)
    ensures
        body@ == object_text(seq![("auth_tag"@, json_string(auth_tag@))], Layout::Compact),
{
    let mut ms: Vec<Member> = Vec::new();
    ms.push(string_member("auth_tag", auth_tag));
    assert(member_views(ms@) =~= seq![("auth_tag"@, json_string(auth_tag@))]);
    finish(render_object(&ms, &Layout::Compact))
}

/// The tag that shows that the registrar's challenge was solved: the
/// HMAC-SHA384 of the agent's identifier under the key that the challenge
/// held, as base64 text.
pub open spec fn tag_of(key: Seq<u8>, uuid: Seq<char>) -> Seq<char> {
    base64_text(hmac_sha384(key, utf8(uuid)))
}

pub open spec fn key_too_long() -> Seq<char> {
    "the key of the challenge is too long"@
}

pub open spec fn tag_failed() -> Seq<char> {
    "Failed to compute the authentication tag: "@
}

/// The authentication tag for an activation, from the key that the TPM
/// found in the registrar's challenge. A key of more than 2^31 - 1 bytes is
/// refused, and on no other input is the error that one; any other error
/// is OpenSSL's, behind words that say so.
pub fn auth_tag(key: &[u8], uuid: &str) -> (r: Result<String, String>)
    ensures
        match r {
            Ok(tag) => tag@ == tag_of(key@, uuid@),
            Err(why) => why@ == key_too_long() || tag_failed().is_prefix_of(why@),
        },
        key@.len() > 0x7fff_ffff <==> (r matches Err(why) && why@ == key_too_long()),
{
    if key.len() > 0x7fff_ffff {
        return Err(String::from_str("the key of the challenge is too long"));
    }
    tag_from(openssl_hmac_sha384(key, uuid.as_bytes()))
}

/// The authentication tag from what computing the HMAC came to: the HMAC
/// as base64 text, or the error behind the words that name the failure.
pub fn tag_from(mac: Result<Vec<u8>, String>) -> (r: Result<String, String>)
    ensures
        match mac {
            Ok(m) => r matches Ok(tag) && tag@ == base64_text(m@),
            Err(e) => r matches Err(why) && why@ == tag_failed() + e@,
        },
        r matches Err(why) ==> why@ != key_too_long(),
{
    proof {
        reveal_strlit("the key of the challenge is too long");
        reveal_strlit("Failed to compute the authentication tag: ");
        assert(key_too_long()[0] != tag_failed()[0]);
    }
    match mac {
        Ok(m) => Ok(base64_encode(m.as_slice())),
        Err(e) => {
            let why = prefixed("Failed to compute the authentication tag: ", e.as_str());
            assert(why@[0] == tag_failed()[0]);
            Err(why)
        },
    }
}

fn prefixed(prefix: &str, detail: &str) -> (s: String)
    ensures
        s@ == prefix@ + detail@,
{
    let mut out: Vec<char> = Vec::new();
    push_str(&mut out, prefix);
    push_str(&mut out, detail);
    string_of(out.as_slice())
}

/// A status of the 2xx class.
pub open spec fn is_success(status: u16) -> bool {
    200 <= status < 300
}

/// The document is an envelope: an object with a number `code`, a string
/// `status` and an object `results`.
pub open spec fn is_envelope(doc: Option<Json>) -> bool {
    field(doc, "code"@) is Some && field(doc, "code"@)->0 is Number && field(doc, "status"@)
        is Some && field(doc, "status"@)->0 is Text && field(doc, "results"@) is Some && field(
        doc,
        "results"@,
    )->0 is Object
}

/// The challenge that a registrar's answer carries: the bytes of the base64
/// text in `results.blob`, or no bytes where the blob is `null`. `None`
/// where the answer is no envelope or its blob is neither.
pub open spec fn challenge_in(doc: Option<Json>) -> Option<Seq<u8>> {
    if !is_envelope(doc) {
        None
    } else {
        match field(field(doc, "results"@), "blob"@) {
            Some(Json::Null) => Some(Seq::empty()),
            Some(Json::Text(t)) => base64_bytes(t@),
            _ => None,
        }
    }
}

pub open spec fn unreadable_body() -> Seq<char> {
    "error decoding response body"@
}

/// What a registrar's answer to a registration amounts to: the challenge
/// where the status is of the 2xx class and the body carries one; a
/// registration failure with the status otherwise; a failure of the request
/// where the body cannot be read.
pub open spec fn registered(addr: Seq<char>, status: u16, doc: Option<Json>) -> Result<
    Seq<u8>,
    ErrorView,
> {
    if !is_success(status) {
        Err(ErrorView::Registration { addr, code: status })
    } else {
        match challenge_in(doc) {
            Some(blob) => Ok(blob),
            None => Err(ErrorView::Reqwest(unreadable_body())),
        }
    }
}

fn envelope_ok(doc: Option<&Json>) -> (b: bool)
    ensures
        b == is_envelope(as_value(doc)),
{
    let code_ok = match get(doc, "code") {
        Some(Json::Number(_)) => true,
        _ => false,
    };
    let status_ok = match get(doc, "status") {
        Some(Json::Text(_)) => true,
        _ => false,
    };
    let results_ok = match get(doc, "results") {
        Some(Json::Object(_)) => true,
        _ => false,
    };
    code_ok && status_ok && results_ok
}

/// Judges a registrar's answer to a registration from its body as JSON.
pub fn registration_result(addr: String, status: u16, doc: Option<&Json>) -> (r: Result<
    Vec<u8>,
    RegistrarClientError,
>)
    ensures
        match registered(addr@, status, as_value(doc)) {
            Ok(blob) => r matches Ok(b) && b@ == blob,
            Err(e) => r matches Err(x) && x@ == e,
        },
{
    if !(200 <= status && status < 300) {
        return Err(RegistrarClientError::Registration { addr, code: status });
    }
    if !envelope_ok(doc) {
        return Err(
            RegistrarClientError::Reqwest(String::from_str("error decoding response body")),
        );
    }
    match get(get(doc, "results"), "blob") {
        Some(Json::Null) => Ok(Vec::new()),
        Some(Json::Text(t)) => match base64_decode(t.as_str()) {
            Some(bytes) => Ok(bytes),
            None => Err(
                RegistrarClientError::Reqwest(String::from_str("error decoding response body")),
            ),
        },
        _ => Err(RegistrarClientError::Reqwest(String::from_str("error decoding response body"))),
    }
}

/// Judges a registrar's answer to a registration: the challenge, or the
/// error of the attempt.
pub fn try_register_agent(addr: String, status: u16, body: &str) -> (r: Result<
    Vec<u8>,
    RegistrarClientError,
>)
    ensures
        match registered(addr@, status, json_parsed(body@)) {
            Ok(blob) => r matches Ok(b) && b@ == blob,
            Err(e) => r matches Err(x) && x@ == e,
        },
{
    let doc = parse_json(body);
    registration_result(addr, status, doc.as_ref())
}

/// What a registrar's answer to an activation amounts to: success where the
/// status is of the 2xx class and the body is an envelope; an activation
/// failure with the status otherwise; a failure of the request where the
/// body cannot be read.
pub open spec fn activated(addr: Seq<char>, status: u16, doc: Option<Json>) -> Result<
    (),
    ErrorView,
> {
    if !is_success(status) {
        Err(ErrorView::Activation { addr, code: status })
    } else if is_envelope(doc) {
        Ok(())
    } else {
        Err(ErrorView::Reqwest(unreadable_body()))
    }
}

/// Judges a registrar's answer to an activation from its body as JSON.
pub fn activation_result(addr: String, status: u16, doc: Option<&Json>) -> (r: Result<
    (),
    RegistrarClientError,
>)
    ensures
        match activated(addr@, status, as_value(doc)) {
            Ok(_) => r is Ok,
            Err(e) => r matches Err(x) && x@ == e,
        },
{
    if !(200 <= status && status < 300) {
        return Err(RegistrarClientError::Activation { addr, code: status });
    }
    if envelope_ok(doc) {
        Ok(())
    } else {
        Err(RegistrarClientError::Reqwest(String::from_str("error decoding response body")))
    }
}

/// Judges a registrar's answer to an activation.
pub fn try_activate_agent(addr: String, status: u16, body: &str) -> (r: Result<
    (),
    RegistrarClientError,
>)
    ensures
        match activated(addr@, status, json_parsed(body@)) {
            Ok(_) => r is Ok,
            Err(e) => r matches Err(x) && x@ == e,
        },
{
    let doc = parse_json(body);
    activation_result(addr, status, doc.as_ref())
}

} // verus!
