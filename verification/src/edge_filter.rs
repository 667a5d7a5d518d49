//! The gateway filter: whether a peer is let through on the strength of the
//! sensor identity in its certificate, and what is made of the verification
//! sidecar's answer. Whatever is in doubt is refused.

use crate::codec::json_string;
use crate::edge_claim::{claim_in_header, claim_view, header_claim, Claim, ClaimView, SensorType};
use crate::http::{opt_view, HttpError};
use crate::json::{
    finish, member_views, object_text, render_object, string_member, text_member, Layout, Member,
};
use crate::json_value::{
    as_value, field, get, is_set, is_true, json_parsed, parse_json, value_is_set, value_is_true,
    Json,
};
use crate::text::{push_str, str_eq, string_of};
use vstd::prelude::*;
use vstd::string::*;

verus! {

/// How far the filter trusts a mobile sensor's claim.
#[derive(Debug, Clone, Copy, PartialEq, Eq, Structural)]
pub enum VerificationMode {
    /// The claim is taken at its word.
    Trust,
    /// The claim is verified; an answer of the last fifteen seconds is used
    /// again.
    Runtime,
    /// The claim is verified afresh for every request.
    Strict,
}

/// The mode that a configuration names.
pub open spec fn mode_named(name: Seq<char>) -> Option<VerificationMode> {
    if name == "trust"@ {
        Some(VerificationMode::Trust)
    } else if name == "runtime"@ {
        Some(VerificationMode::Runtime)
    } else if name == "strict"@ {
        Some(VerificationMode::Strict)
    } else {
        None
    }
}

/// Reads a verification mode: `trust`, `runtime` or `strict`.
pub fn parse_mode(name: &str) -> (m: Option<VerificationMode>)
    ensures
        m == mode_named(name@),
{
    if str_eq(name, "trust") {
        Some(VerificationMode::Trust)
    } else if str_eq(name, "runtime") {
        Some(VerificationMode::Runtime)
    } else if str_eq(name, "strict") {
        Some(VerificationMode::Strict)
    } else {
        None
    }
}

/// The filter's configuration.
#[derive(Debug)]
pub struct FilterConfig {
    pub verification_mode: VerificationMode,
    /// Where the verification sidecar listens, without a path.
    pub sidecar_endpoint: String,
}

/// What the filter counts. A counter stays at `u64::MAX` once it has
/// reached it.
#[derive(Debug, Clone, Copy)]
pub struct FilterMetrics {
    pub request_total: u64,
    pub verification_success: u64,
    pub verification_failure: u64,
    pub sidecar_call_total: u64,
}

/// One more, or the largest value.
pub open spec fn bumped(n: u64) -> u64 {
    if n < u64::MAX {
        (n + 1) as u64
    } else {
        n
    }
}

fn bump(n: u64) -> (m: u64)
    ensures
        m == bumped(n),
{
    if n < u64::MAX {
        n + 1
    } else {
        n
    }
}

impl FilterMetrics {
    /// All counters at 0.
    pub fn new() -> (m: FilterMetrics)
        ensures
            m == (FilterMetrics {
                request_total: 0,
                verification_success: 0,
                verification_failure: 0,
                sidecar_call_total: 0,
            }),
    {
        FilterMetrics {
            request_total: 0,
            verification_success: 0,
            verification_failure: 0,
            sidecar_call_total: 0,
        }
    }
}

/// How long the sidecar took to answer, in milliseconds, for the latency
/// histogram: the time from the call to the answer, and 0 where the clock
/// went backwards in between.
pub fn sidecar_latency_ms(called_ms: u64, answered_ms: u64) -> (ms: u64)
    ensures
        ms == if answered_ms >= called_ms {
            answered_ms - called_ms
        } else {
            0
        },
{
    if answered_ms >= called_ms {
        answered_ms - called_ms
    } else {
        0
    }
}

/// For how long a sidecar's answer is used again, in milliseconds.
pub const CACHE_TTL_MS: u64 = 15_000;

/// The last answer of the sidecar.
#[derive(Debug)]
pub struct CacheEntry {
    pub sensor_id: String,
    pub at_ms: u64,
    pub verified: bool,
}

/// The filter's memory of the sidecar's last answer.
#[derive(Debug)]
pub struct VerificationCache {
    pub entry: Option<CacheEntry>,
}

/// What the cache says of a sensor at `now`: the last answer, where it was
/// about this sensor and is less than fifteen seconds old. An answer from
/// the future, which a clock that went backwards makes, counts as new.
pub open spec fn cached_answer(
    entry: Option<CacheEntry>,
    sensor_id: Seq<char>,
    now_ms: u64,
) -> Option<bool> {
    match entry {
        Some(e) => if e.sensor_id@ == sensor_id && (now_ms < e.at_ms || now_ms - e.at_ms
            < CACHE_TTL_MS) {
            Some(e.verified)
        } else {
            None
        },
        None => None,
    }
}

impl VerificationCache {
    /// A cache that holds nothing.
    pub fn new() -> (c: VerificationCache)
        ensures
            c.entry is None,
    {
        VerificationCache { entry: None }
    }

    /// What the cache says of a sensor at `now_ms`.
    pub fn lookup(&self, sensor_id: &str, now_ms: u64) -> (r: Option<bool>)
        ensures
            r == cached_answer(self.entry, sensor_id@, now_ms),
    {
        match &self.entry {
            Some(e) => {
                if str_eq(e.sensor_id.as_str(), sensor_id) && (now_ms < e.at_ms || now_ms
                    - e.at_ms < CACHE_TTL_MS) {
                    Some(e.verified)
                } else {
                    None
                }
            },
            None => None,
        }
    }

    /// Keeps an answer of the sidecar in place of the last one.
    pub fn store(&mut self, sensor_id: &str, now_ms: u64, verified: bool)
        ensures
            final(self).entry matches Some(e) && e.sensor_id@ == sensor_id@ && e.at_ms == now_ms
                && e.verified == verified,
    {
        self.entry = Some(
            CacheEntry { sensor_id: String::from_str(sensor_id), at_ms: now_ms, verified },
        );
    }
}

/// What the filter does with a request.
#[derive(Debug)]
pub enum RequestDecision {
    /// The request is refused.
    Deny(HttpError),
    /// The request goes on to the backend.
    Continue,
    /// The request waits; `body` is sent by POST to `url`, and the answer
    /// decides.
    Verify { url: String, body: String },
}

pub ghost enum DecisionView {
    Deny { code: u16, message: Seq<char> },
    Continue,
    Verify { url: Seq<char>, body: Seq<char> },
}

impl View for RequestDecision {
    type V = DecisionView;

    open spec fn view(&self) -> DecisionView {
        match self {
            RequestDecision::Deny(e) => DecisionView::Deny { code: e.code, message: e.message@ },
            RequestDecision::Continue => DecisionView::Continue,
            RequestDecision::Verify { url, body } => DecisionView::Verify {
                url: url@,
                body: body@,
            },
        }
    }
}

pub open spec fn claim_missing() -> Seq<char> {
    "Geo Claim Missing"@
}

pub open spec fn cached_failure() -> Seq<char> {
    "Sensor verification failed (cached)"@
}

/// A number as JSON, or `null` where there is none.
pub open spec fn number_or_null(n: Option<Seq<char>>) -> Seq<char> {
    match n {
        Some(t) => t,
        None => "null"@,
    }
}

pub open spec fn sensor_type_name(t: SensorType) -> Seq<char> {
    match t {
        SensorType::Mobile => "mobile"@,
        SensorType::Gnss => "gnss"@,
    }
}

pub open spec fn bool_text(b: bool) -> Seq<char> {
    if b {
        "true"@
    } else {
        "false"@
    }
}

/// The body of a request to the sidecar: the claim, and whether the sidecar
/// is to leave its own cache aside.
pub open spec fn verify_body(c: ClaimView, skip_cache: bool) -> Seq<char> {
    object_text(
        seq![
            ("sensor_id"@, json_string(c.sensor_id)),
            ("sensor_type"@, json_string(sensor_type_name(c.sensor_type))),
            ("imei"@, json_string(c.imei)),
            ("imsi"@, json_string(c.imsi)),
            ("msisdn"@, json_string(c.msisdn)),
            ("lat"@, number_or_null(c.location.lat)),
            ("lon"@, number_or_null(c.location.lon)),
            ("accuracy"@, number_or_null(c.location.accuracy)),
            ("skip_cache"@, bool_text(skip_cache)),
        ],
        Layout::Compact,
    )
}

fn number_member(key: &str, n: &Option<String>) -> (m: Member)
    ensures
        m@ == (key@, number_or_null(opt_view(*n))),
{
    match n {
        Some(t) => text_member(key, t.as_str()),
        None => text_member(key, "null"),
    }
}

/// The body of a request to the sidecar.
pub fn verify_request_body(claim: &Claim, skip_cache: bool) -> (body: String)
    ensures
        body@ == verify_body(claim@, skip_cache),
{
    let mut ms: Vec<Member> = Vec::new();
    ms.push(string_member("sensor_id", claim.sensor_id.as_str()));
    ms.push(
        string_member(
            "sensor_type",
            match claim.sensor_type {
                SensorType::Mobile => "mobile",
                SensorType::Gnss => "gnss",
            },
        ),
    );
    ms.push(string_member("imei", claim.imei.as_str()));
    ms.push(string_member("imsi", claim.imsi.as_str()));
    ms.push(string_member("msisdn", claim.msisdn.as_str()));
    ms.push(number_member("lat", &claim.location.lat));
    ms.push(number_member("lon", &claim.location.lon));
    ms.push(number_member("accuracy", &claim.location.accuracy));
    ms.push(
        text_member(
            "skip_cache",
            if skip_cache {
                "true"
            } else {
                "false"
            },
        ),
    );
    assert(member_views(ms@) =~= seq![
        ("sensor_id"@, json_string(claim@.sensor_id)),
        ("sensor_type"@, json_string(sensor_type_name(claim@.sensor_type))),
        ("imei"@, json_string(claim@.imei)),
        ("imsi"@, json_string(claim@.imsi)),
        ("msisdn"@, json_string(claim@.msisdn)),
        ("lat"@, number_or_null(claim@.location.lat)),
        ("lon"@, number_or_null(claim@.location.lon)),
        ("accuracy"@, number_or_null(claim@.location.accuracy)),
        ("skip_cache"@, bool_text(skip_cache)),
    ]);
    finish(render_object(&ms, &Layout::Compact))
}

/// Whether a claim is verified by the sidecar under a mode, and if so,
/// whether the sidecar is to leave its cache aside: never for a GNSS
/// sensor, which the hardware vouches for, nor in trust mode; with the cache
/// in runtime mode, without it in strict mode.
pub open spec fn verification_needed(sensor: SensorType, mode: VerificationMode) -> Option<bool> {
    match (sensor, mode) {
        (SensorType::Gnss, _) => None,
        (SensorType::Mobile, VerificationMode::Trust) => None,
        (SensorType::Mobile, VerificationMode::Runtime) => Some(false),
        (SensorType::Mobile, VerificationMode::Strict) => Some(true),
    }
}

/// What the filter does with a request that carries the claim `claim`.
///
/// A request without a claim is refused with 403. A claim that needs no
/// verification lets the request through. In runtime mode an answer that
/// the cache still holds for the sensor decides at once; otherwise, and
/// always in strict mode, the sidecar is asked at `{endpoint}/verify`.
pub open spec fn decision(
    claim: Option<ClaimView>,
    mode: VerificationMode,
    endpoint: Seq<char>,
    cached: Option<bool>,
) -> DecisionView {
    match claim {
        None => DecisionView::Deny { code: 403, message: claim_missing() },
        Some(c) => match verification_needed(c.sensor_type, mode) {
            None => DecisionView::Continue,
            Some(skip_cache) => if !skip_cache && cached == Some(true) {
                DecisionView::Continue
            } else if !skip_cache && cached == Some(false) {
                DecisionView::Deny { code: 403, message: cached_failure() }
            } else {
                DecisionView::Verify {
                    url: endpoint + "/verify"@,
                    body: verify_body(c, skip_cache),
                }
            },
        },
    }
}

/// The counters after a request was decided: every request with a claim is
/// counted, and so is every call to the sidecar.
pub open spec fn counted_request(m: FilterMetrics, claim_found: bool, d: DecisionView) -> FilterMetrics {
    FilterMetrics {
        request_total: if claim_found {
            bumped(m.request_total)
        } else {
            m.request_total
        },
        sidecar_call_total: if d is Verify {
            bumped(m.sidecar_call_total)
        } else {
            m.sidecar_call_total
        },
        ..m
    }
}

/// Decides a request from the claim that was found in it.
pub fn decide(
    config: &FilterConfig,
    cache: &VerificationCache,
    metrics: &mut FilterMetrics,
    claim: &Option<Claim>,
    now_ms: u64,
) -> (d: RequestDecision)
    ensures
        d@ == decision(
            claim_view(*claim),
            config.verification_mode,
            config.sidecar_endpoint@,
            match claim {
                Some(c) => cached_answer(cache.entry, c.sensor_id@, now_ms),
                None => None,
            },
        ),
        *final(metrics) == counted_request(*old(metrics), claim is Some, d@),
{
    let c = match claim {
        Some(c) => c,
        None => {
            return RequestDecision::Deny(HttpError::new(403, "Geo Claim Missing"));
        },
    };
    metrics.request_total = bump(metrics.request_total);
    let skip_cache = match (c.sensor_type, config.verification_mode) {
        (SensorType::Gnss, _) => {
            return RequestDecision::Continue;
        },
        (SensorType::Mobile, VerificationMode::Trust) => {
            return RequestDecision::Continue;
        },
        (SensorType::Mobile, VerificationMode::Runtime) => false,
        (SensorType::Mobile, VerificationMode::Strict) => true,
    };
    if !skip_cache {
        match cache.lookup(c.sensor_id.as_str(), now_ms) {
            Some(true) => {
                return RequestDecision::Continue;
            },
            Some(false) => {
                return RequestDecision::Deny(
                    HttpError::new(403, "Sensor verification failed (cached)"),
                );
            },
            None => {},
        }
    }
    metrics.sidecar_call_total = bump(metrics.sidecar_call_total);
    let mut url: Vec<char> = Vec::new();
    push_str(&mut url, config.sidecar_endpoint.as_str());
    push_str(&mut url, "/verify");
    RequestDecision::Verify {
        url: string_of(url.as_slice()),
        body: verify_request_body(c, skip_cache),
    }
}

/// Decides a request from its forwarded-client-certificate header, and
/// hands out the claim that was found.
pub fn on_http_request_headers(
    config: &FilterConfig,
    cache: &VerificationCache,
    metrics: &mut FilterMetrics,
    header: Option<&str>,
    now_ms: u64,
) -> (r: (RequestDecision, Option<Claim>))
    ensures
        claim_view(r.1) == match header {
            Some(h) => header_claim(h@),
            None => None,
        },
        r.0@ == decision(
            claim_view(r.1),
            config.verification_mode,
            config.sidecar_endpoint@,
            match r.1 {
                Some(c) => cached_answer(cache.entry, c.sensor_id@, now_ms),
                None => None,
            },
        ),
        *final(metrics) == counted_request(*old(metrics), r.1 is Some, r.0@),
{
    let claim = match header {
        Some(h) => claim_in_header(h),
        None => None,
    };
    let d = decide(config, cache, metrics, &claim, now_ms);
    (d, claim)
}

pub open spec fn sidecar_unreachable() -> Seq<char> {
    "Verification service unavailable"@
}

pub open spec fn sidecar_error() -> Seq<char> {
    "Verification service error"@
}

pub open spec fn sidecar_unreadable() -> Seq<char> {
    "Verification service response invalid"@
}

pub open spec fn verification_failed() -> Seq<char> {
    "Sensor verification failed"@
}

/// An answer came, with a status below 400.
pub open spec fn succeeded(status: Option<u16>) -> bool {
    match status {
        Some(code) => code < 400,
        None => false,
    }
}

/// The body is a JSON object.
pub open spec fn holds_object(body: Option<Json>) -> bool {
    match body {
        Some(Json::Object(_)) => true,
        _ => false,
    }
}

/// With which status and message the sidecar's answer refuses a request;
/// `None` lets it through. `status` is `None` where no answer came. The
/// checks come in this order: no answer (503); a status of 400 or more
/// (403); a body that is no JSON object (503); an `error` that is set
/// (403); a `verification_result` that is not `true` (403).
pub open spec fn verdict(status: Option<u16>, body: Option<Json>) -> Option<(u16, Seq<char>)> {
    match status {
        None => Some((503u16, sidecar_unreachable())),
        Some(code) => if code >= 400 {
            Some((403u16, sidecar_error()))
        } else if !holds_object(body) {
            Some((503u16, sidecar_unreadable()))
        } else if is_set(field(body, "error"@)) {
            Some((403u16, sidecar_error()))
        } else if !is_true(field(body, "verification_result"@)) {
            Some((403u16, verification_failed()))
        } else {
            None
        },
    }
}

/// The filter fails closed. An answer with a status of 400 or more, 5xx
/// among them, refuses the request, and so does any answer whose
/// `verification_result` is not `true`, and no answer at all. A request is
/// let through by an answer with a status below 400 whose body is an object
/// with `verification_result: true` and without an `error`, and by nothing
/// else.
pub proof fn lemma_fail_closed(status: Option<u16>, body: Option<Json>)
    ensures
        status matches Some(code) && code >= 400 ==> verdict(status, body) is Some,
        !is_true(field(body, "verification_result"@)) ==> verdict(status, body) is Some,
        status is None ==> verdict(status, body) is Some,
        verdict(status, body) is None <==> (succeeded(status) && holds_object(body) && !is_set(
            field(body, "error"@),
        ) && is_true(field(body, "verification_result"@))),
        verdict(status, body) matches Some((code, _)) ==> code == 403 || code == 503,
{
    match body {
        Some(Json::Object(_)) => {},
        _ => {
            assert(field(body, "verification_result"@) is None);
        },
    }
}

/// Judges the sidecar's answer, read as JSON: `Ok` lets the request
/// through, an error refuses it.
pub fn judge(status: Option<u16>, body: Option<&Json>) -> (r: Result<(), HttpError>)
    ensures
        match verdict(status, as_value(body)) {
            Some((code, message)) => r matches Err(e) && e.is(code, message),
            None => r is Ok,
        },
{
    let code = match status {
        Some(c) => c,
        None => {
            return Err(HttpError::new(503, "Verification service unavailable"));
        },
    };
    if code >= 400 {
        return Err(HttpError::new(403, "Verification service error"));
    }
    let is_object = match body {
        Some(j) => j.is_object(),
        None => false,
    };
    if !is_object {
        return Err(HttpError::new(503, "Verification service response invalid"));
    }
    if value_is_set(get(body, "error")) {
        return Err(HttpError::new(403, "Verification service error"));
    }
    if !value_is_true(get(body, "verification_result")) {
        return Err(HttpError::new(403, "Sensor verification failed"));
    }
    Ok(())
}

/// What the sidecar answered.
#[derive(Debug)]
pub enum SidecarReply {
    /// No answer came: the call could not be made, or it timed out.
    Unreachable,
    /// An answer with this status and body.
    Answer { status: u16, body: String },
}

impl SidecarReply {
    pub open spec fn status(&self) -> Option<u16> {
        match self {
            SidecarReply::Unreachable => None,
            SidecarReply::Answer { status, body } => Some(*status),
        }
    }

    pub open spec fn body(&self) -> Option<Json> {
        match self {
            SidecarReply::Unreachable => None,
            SidecarReply::Answer { status, body } => json_parsed(body@),
        }
    }
}

/// Whether an answer is kept in the cache: one that came with a status
/// below 400 as an object without an `error`. What is kept is whether its
/// `verification_result` is `true`.
pub open spec fn kept(status: Option<u16>, body: Option<Json>) -> Option<bool> {
    if succeeded(status) && holds_object(body) && !is_set(field(body, "error"@)) {
        Some(is_true(field(body, "verification_result"@)))
    } else {
        None
    }
}

/// Takes the sidecar's answer to the verification of `sensor_id`.
///
/// The request is let through if and only if `verdict` finds no fault with
/// the answer. An answer that says whether the sensor was verified is kept
/// in the cache. A success is counted as one, anything else as a failure.
pub fn on_http_call_response(
    cache: &mut VerificationCache,
    metrics: &mut FilterMetrics,
    sensor_id: &str,
    reply: &SidecarReply,
    now_ms: u64,
) -> (r: Result<(), HttpError>)
    ensures
        match verdict(reply.status(), reply.body()) {
            Some((code, message)) => r matches Err(e) && e.is(code, message),
            None => r is Ok,
        },
        match kept(reply.status(), reply.body()) {
            Some(verified) => final(cache).entry matches Some(e) && e.sensor_id@ == sensor_id@
                && e.at_ms == now_ms && e.verified == verified,
            None => final(cache).entry == old(cache).entry,
        },
        *final(metrics) == (FilterMetrics {
            verification_success: if r is Ok {
                bumped(old(metrics).verification_success)
            } else {
                old(metrics).verification_success
            },
            verification_failure: if r is Ok {
                old(metrics).verification_failure
            } else {
                bumped(old(metrics).verification_failure)
            },
            ..*old(metrics)
        }),
{
    let (status, parsed): (Option<u16>, Option<Json>) = match reply {
        SidecarReply::Unreachable => (None, None),
        SidecarReply::Answer { status, body } => (Some(*status), parse_json(body.as_str())),
    };
    let r = judge(status, parsed.as_ref());
    let keep: Option<bool> = match (status, parsed.as_ref()) {
        (Some(code), Some(j)) => if code < 400 && j.is_object() && !value_is_set(
            get(Some(j), "error"),
        ) {
            Some(value_is_true(get(Some(j), "verification_result")))
        } else {
            None
        },
        _ => None,
    };
    match keep {
        Some(verified) => {
            cache.store(sensor_id, now_ms, verified);
        },
        None => {},
    }
    if r.is_ok() {
        metrics.verification_success = bump(metrics.verification_success);
    } else {
        metrics.verification_failure = bump(metrics.verification_failure);
    }
    r
}

} // verus!
