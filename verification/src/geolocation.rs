//! The bound geolocation channel: the claim that the agent makes of its
//! sensor, and the digest that binds the claim and a fresh nonce into a PCR.

use crate::codec::{json_string, openssl_sha256, push_bytes, sha256, utf8};
use crate::http::{opt_view, HttpError};
use crate::json::{
    append, append_optional, finish, member_views, object_text, optional_member, raw_member,
    render_object, string_member, text_member, Layout, Member,
};
use crate::sensor::{RawSensorData, RawSensorView};
use crate::text::{chars_of, decimal, push_decimal, push_str, str_eq, string_of};
use vstd::prelude::*;
use vstd::string::*;

verus! {

/// The PCR that attests the geolocation claim.
pub const GEOLOCATION_PCR: u32 = 15;

/// The PCR that earlier agents extended with the geolocation.
pub const GEOLOCATION_PCR_INDEX: u32 = 17;

/// The parameters of a request for the attested geolocation.
#[derive(Debug)]
pub struct GeolocationRequest {
    pub nonce: String,
}

/// A mobile sensor in a claim.
#[derive(Debug)]
pub struct MobileSensor {
    pub sensor_id: String,
    pub sensor_imei: String,
    pub sensor_imsi: String,
}

/// A GNSS sensor in a claim. The coordinates and the accuracy are decimal
/// text, as they stand in JSON.
#[derive(Debug)]
pub struct GNSSSensor {
    pub sensor_id: String,
    pub sensor_serial_number: Option<String>,
    pub latitude: String,
    pub longitude: String,
    pub accuracy: String,
    pub sensor_signature: Option<String>,
}

/// The claim that the agent makes of its geolocation sensor.
#[derive(Debug)]
pub struct GeolocationResponse {
    /// `mobile` or `gnss`.
    pub sensor_type: String,
    pub mobile: Option<MobileSensor>,
    pub gnss: Option<GNSSSensor>,
    pub tpm_attested: bool,
    pub tpm_pcr_index: u32,
    /// The nonce of the request that the claim answers.
    pub nonce: String,
}

pub ghost struct MobileView {
    pub sensor_id: Seq<char>,
    pub sensor_imei: Seq<char>,
    pub sensor_imsi: Seq<char>,
}

pub ghost struct GnssView {
    pub sensor_id: Seq<char>,
    pub sensor_serial_number: Option<Seq<char>>,
    pub latitude: Seq<char>,
    pub longitude: Seq<char>,
    pub accuracy: Seq<char>,
    pub sensor_signature: Option<Seq<char>>,
}

pub ghost struct ResponseView {
    pub sensor_type: Seq<char>,
    pub mobile: Option<MobileView>,
    pub gnss: Option<GnssView>,
    pub tpm_attested: bool,
    pub tpm_pcr_index: u32,
    pub nonce: Seq<char>,
}

impl View for MobileSensor {
    type V = MobileView;

    open spec fn view(&self) -> MobileView {
        MobileView {
            sensor_id: self.sensor_id@,
            sensor_imei: self.sensor_imei@,
            sensor_imsi: self.sensor_imsi@,
        }
    }
}

impl View for GNSSSensor {
    type V = GnssView;

    open spec fn view(&self) -> GnssView {
        GnssView {
            sensor_id: self.sensor_id@,
            sensor_serial_number: opt_view(self.sensor_serial_number),
            latitude: self.latitude@,
            longitude: self.longitude@,
            accuracy: self.accuracy@,
            sensor_signature: opt_view(self.sensor_signature),
        }
    }
}

impl View for GeolocationResponse {
    type V = ResponseView;

    open spec fn view(&self) -> ResponseView {
        ResponseView {
            sensor_type: self.sensor_type@,
            mobile: match self.mobile {
                Some(m) => Some(m@),
                None => None,
            },
            gnss: match self.gnss {
                Some(g) => Some(g@),
                None => None,
            },
            tpm_attested: self.tpm_attested,
            tpm_pcr_index: self.tpm_pcr_index,
            nonce: self.nonce@,
        }
    }
}

/// A text, or `unknown` where there is none.
pub open spec fn or_unknown(s: Option<Seq<char>>) -> Seq<char> {
    match s {
        Some(t) => t,
        None => "unknown"@,
    }
}

/// A number in decimal text, or `0.0` where there is none.
pub open spec fn or_zero(s: Option<Seq<char>>) -> Seq<char> {
    match s {
        Some(t) => t,
        None => "0.0"@,
    }
}

/// The claim for a sensor, without a nonce yet. A mobile sensor gives a
/// mobile claim, with `unknown` for an IMEI or IMSI that is not known. A
/// GNSS sensor gives a GNSS claim, with zeros for what is not known of its
/// position. A sensor of any other kind gives a mobile claim with both
/// numbers unknown. Every claim is attested through PCR 15.
pub open spec fn nested(raw: RawSensorView) -> ResponseView {
    if raw.sensor_type == "gnss"@ {
        ResponseView {
            sensor_type: "gnss"@,
            mobile: None,
            gnss: Some(
                GnssView {
                    sensor_id: raw.sensor_id,
                    sensor_serial_number: None,
                    latitude: or_zero(raw.lat),
                    longitude: or_zero(raw.lon),
                    accuracy: or_zero(raw.accuracy),
                    sensor_signature: None,
                },
            ),
            tpm_attested: true,
            tpm_pcr_index: GEOLOCATION_PCR,
            nonce: Seq::empty(),
        }
    } else {
        ResponseView {
            sensor_type: "mobile"@,
            mobile: Some(
                MobileView {
                    sensor_id: raw.sensor_id,
                    sensor_imei: if raw.sensor_type == "mobile"@ {
                        or_unknown(raw.imei)
                    } else {
                        "unknown"@
                    },
                    sensor_imsi: if raw.sensor_type == "mobile"@ {
                        or_unknown(raw.imsi)
                    } else {
                        "unknown"@
                    },
                },
            ),
            gnss: None,
            tpm_attested: true,
            tpm_pcr_index: GEOLOCATION_PCR,
            nonce: Seq::empty(),
        }
    }
}

fn text_or(value: Option<String>, otherwise: &str) -> (s: String)
    ensures
        s@ == match value {
            Some(t) => t@,
            None => otherwise@,
        },
{
    match value {
        Some(t) => t,
        None => String::from_str(otherwise),
    }
}

/// The claim for a sensor, without a nonce yet.
pub fn build_nested_geolocation(raw: RawSensorData) -> (r: GeolocationResponse)
    ensures
        r@ == nested(raw@),
{
    proof {
        reveal_strlit("gnss");
        reveal_strlit("mobile");
        assert("gnss"@[0] != "mobile"@[0]);
    }
    if str_eq(raw.sensor_type.as_str(), "gnss") {
        GeolocationResponse {
            sensor_type: String::from_str("gnss"),
            mobile: None,
            gnss: Some(
                GNSSSensor {
                    sensor_id: raw.sensor_id,
                    sensor_serial_number: None,
                    latitude: text_or(raw.lat, "0.0"),
                    longitude: text_or(raw.lon, "0.0"),
                    accuracy: text_or(raw.accuracy, "0.0"),
                    sensor_signature: None,
                },
            ),
            tpm_attested: true,
            tpm_pcr_index: GEOLOCATION_PCR,
            nonce: String::new(),
        }
    } else {
        let known = str_eq(raw.sensor_type.as_str(), "mobile");
        let imei = if known {
            text_or(raw.imei, "unknown")
        } else {
            String::from_str("unknown")
        };
        let imsi = if known {
            text_or(raw.imsi, "unknown")
        } else {
            String::from_str("unknown")
        };
        GeolocationResponse {
            sensor_type: String::from_str("mobile"),
            mobile: Some(
                MobileSensor { sensor_id: raw.sensor_id, sensor_imei: imei, sensor_imsi: imsi },
            ),
            gnss: None,
            tpm_attested: true,
            tpm_pcr_index: GEOLOCATION_PCR,
            nonce: String::new(),
        }
    }
}

/// The members of a mobile sensor.
pub open spec fn mobile_members(m: MobileView) -> Seq<(Seq<char>, Seq<char>)> {
    seq![
        ("sensor_id"@, json_string(m.sensor_id)),
        ("sensor_imei"@, json_string(m.sensor_imei)),
        ("sensor_imsi"@, json_string(m.sensor_imsi)),
    ]
}

/// The JSON text of a mobile sensor.
pub open spec fn mobile_json(m: MobileView, layout: Layout) -> Seq<char> {
    object_text(mobile_members(m), layout)
}

/// The members of a GNSS sensor in the order of its fields.
pub open spec fn gnss_members(g: GnssView) -> Seq<(Seq<char>, Seq<char>)> {
    seq![("sensor_id"@, json_string(g.sensor_id))] + optional_member(
        "sensor_serial_number"@,
        g.sensor_serial_number,
    ) + seq![("latitude"@, g.latitude), ("longitude"@, g.longitude), ("accuracy"@, g.accuracy)]
        + optional_member("sensor_signature"@, g.sensor_signature)
}

/// The members of a GNSS sensor in the order of their keys.
pub open spec fn gnss_members_sorted(g: GnssView) -> Seq<(Seq<char>, Seq<char>)> {
    seq![
        ("accuracy"@, g.accuracy),
        ("latitude"@, g.latitude),
        ("longitude"@, g.longitude),
        ("sensor_id"@, json_string(g.sensor_id)),
    ] + optional_member("sensor_serial_number"@, g.sensor_serial_number) + optional_member(
        "sensor_signature"@,
        g.sensor_signature,
    )
}

pub open spec fn bool_json(b: bool) -> Seq<char> {
    if b {
        "true"@
    } else {
        "false"@
    }
}

/// The members of a claim as it is sent: in the order of its fields, a
/// sensor that is absent left out.
pub open spec fn response_members(r: ResponseView) -> Seq<(Seq<char>, Seq<char>)> {
    seq![("sensor_type"@, json_string(r.sensor_type))] + (match r.mobile {
        Some(m) => seq![("mobile"@, mobile_json(m, Layout::Compact))],
        None => Seq::empty(),
    }) + (match r.gnss {
        Some(g) => seq![("gnss"@, object_text(gnss_members(g), Layout::Compact))],
        None => Seq::empty(),
    }) + seq![
        ("tpm_attested"@, bool_json(r.tpm_attested)),
        ("tpm_pcr_index"@, decimal(r.tpm_pcr_index as nat)),
        ("nonce"@, json_string(r.nonce)),
    ]
}

/// The JSON text of a claim as it is sent.
pub open spec fn response_json(r: ResponseView) -> Seq<char> {
    object_text(response_members(r), Layout::Compact)
}

/// The JSON text of a claim as it is hashed: without the nonce, the keys of
/// every object in the order of the alphabet, and `null` for a sensor that
/// is absent.
pub open spec fn hashed_json(r: ResponseView) -> Seq<char> {
    object_text(hashed_members(r), Layout::Compact)
}

/// The members of a claim as it is hashed.
pub open spec fn hashed_members(r: ResponseView) -> Seq<(Seq<char>, Seq<char>)> {
    seq![
        (
            "gnss"@,
            match r.gnss {
                Some(g) => object_text(gnss_members_sorted(g), Layout::Compact),
                None => "null"@,
            },
        ),
        (
            "mobile"@,
            match r.mobile {
                Some(m) => mobile_json(m, Layout::Compact),
                None => "null"@,
            },
        ),
        ("sensor_type"@, json_string(r.sensor_type)),
        ("tpm_attested"@, bool_json(r.tpm_attested)),
        ("tpm_pcr_index"@, decimal(r.tpm_pcr_index as nat)),
    ]
}

fn bool_member(key: &str, b: bool) -> (m: Member)
    ensures
        m@ == (key@, bool_json(b)),
{
    if b {
        text_member(key, "true")
    } else {
        text_member(key, "false")
    }
}

fn number_member(key: &str, n: u32) -> (m: Member)
    ensures
        m@ == (key@, decimal(n as nat)),
{
    let mut v: Vec<char> = Vec::new();
    push_decimal(&mut v, n as u64);
    raw_member(key, v)
}

impl MobileSensor {
    fn render(&self) -> (out: Vec<char>)
        ensures
            out@ == mobile_json(self@, Layout::Compact),
    {
        let mut ms: Vec<Member> = Vec::new();
        ms.push(string_member("sensor_id", self.sensor_id.as_str()));
        ms.push(string_member("sensor_imei", self.sensor_imei.as_str()));
        ms.push(string_member("sensor_imsi", self.sensor_imsi.as_str()));
        assert(member_views(ms@) =~= mobile_members(self@));
        render_object(&ms, &Layout::Compact)
    }
}

impl GNSSSensor {
    fn render(&self) -> (out: Vec<char>)
        ensures
            out@ == object_text(gnss_members(self@), Layout::Compact),
    {
        let mut ms: Vec<Member> = Vec::new();
        assert(member_views(ms@) =~= Seq::empty());
        append(&mut ms, string_member("sensor_id", self.sensor_id.as_str()));
        append_optional(&mut ms, "sensor_serial_number", &self.sensor_serial_number);
        append(&mut ms, text_member("latitude", self.latitude.as_str()));
        append(&mut ms, text_member("longitude", self.longitude.as_str()));
        append(&mut ms, text_member("accuracy", self.accuracy.as_str()));
        append_optional(&mut ms, "sensor_signature", &self.sensor_signature);
        assert(member_views(ms@) =~= gnss_members(self@));
        render_object(&ms, &Layout::Compact)
    }

    fn render_sorted(&self) -> (out: Vec<char>)
        ensures
            out@ == object_text(gnss_members_sorted(self@), Layout::Compact),
    {
        let mut ms: Vec<Member> = Vec::new();
        assert(member_views(ms@) =~= Seq::empty());
        append(&mut ms, text_member("accuracy", self.accuracy.as_str()));
        append(&mut ms, text_member("latitude", self.latitude.as_str()));
        append(&mut ms, text_member("longitude", self.longitude.as_str()));
        append(&mut ms, string_member("sensor_id", self.sensor_id.as_str()));
        append_optional(&mut ms, "sensor_serial_number", &self.sensor_serial_number);
        append_optional(&mut ms, "sensor_signature", &self.sensor_signature);
        assert(member_views(ms@) =~= gnss_members_sorted(self@));
        render_object(&ms, &Layout::Compact)
    }
}

fn null_text() -> (v: Vec<char>)
    ensures
        v@ == "null"@,
{
    chars_of("null")
}

impl GeolocationResponse {
    /// The claim as JSON, as it is sent.
    pub fn to_json(&self) -> (s: String)
        ensures
            s@ == response_json(self@),
    {
        let mut ms: Vec<Member> = Vec::new();
        assert(member_views(ms@) =~= Seq::empty());
        append(&mut ms, string_member("sensor_type", self.sensor_type.as_str()));
        match &self.mobile {
            Some(m) => {
                append(&mut ms, raw_member("mobile", m.render()));
            },
            None => {},
        }
        match &self.gnss {
            Some(g) => {
                append(&mut ms, raw_member("gnss", g.render()));
            },
            None => {},
        }
        append(&mut ms, bool_member("tpm_attested", self.tpm_attested));
        append(&mut ms, number_member("tpm_pcr_index", self.tpm_pcr_index));
        append(&mut ms, string_member("nonce", self.nonce.as_str()));
        assert(member_views(ms@) =~= response_members(self@));
        finish(render_object(&ms, &Layout::Compact))
    }

    /// The claim as JSON, as it is hashed.
    pub fn to_hashed_json(&self) -> (s: String)
        ensures
            s@ == hashed_json(self@),
    {
        let mut ms: Vec<Member> = Vec::new();
        assert(member_views(ms@) =~= Seq::empty());
        let gnss = match &self.gnss {
            Some(g) => g.render_sorted(),
            None => null_text(),
        };
        append(&mut ms, raw_member("gnss", gnss));
        let mobile = match &self.mobile {
            Some(m) => m.render(),
            None => null_text(),
        };
        append(&mut ms, raw_member("mobile", mobile));
        append(&mut ms, string_member("sensor_type", self.sensor_type.as_str()));
        append(&mut ms, bool_member("tpm_attested", self.tpm_attested));
        append(&mut ms, number_member("tpm_pcr_index", self.tpm_pcr_index));
        assert(member_views(ms@) =~= hashed_members(self@));
        finish(render_object(&ms, &Layout::Compact))
    }
}

/// What PCR 15 is extended with for a claim and a nonce: the SHA-256
/// digest of the claim's JSON text, as it is hashed, followed by the nonce.
pub open spec fn pcr_digest(r: ResponseView, nonce: Seq<char>) -> Seq<u8> {
    sha256(utf8(hashed_json(r) + nonce))
}

/// The digest that binds a claim and a nonce into PCR 15. The claim's own
/// nonce has no part in it. An error is OpenSSL's.
pub fn extend_pcr_15_with_geolocation_and_nonce(geolocation: &GeolocationResponse, nonce: &str) -> (r:
    Result<Vec<u8>, String>)
    ensures
        r matches Ok(d) ==> d@ == pcr_digest(geolocation@, nonce@),
{
    let data = pcr_15_input(geolocation, nonce);
    openssl_sha256(data.as_slice())
}

/// What is hashed to bind a claim and a nonce into PCR 15: the bytes of the
/// claim's JSON text, as it is hashed, followed by the bytes of the nonce.
pub fn pcr_15_input(geolocation: &GeolocationResponse, nonce: &str) -> (data: Vec<u8>)
    ensures
        data@ == utf8(hashed_json(geolocation@) + nonce@),
{
    let json = geolocation.to_hashed_json();
    let mut text: Vec<char> = Vec::new();
    push_str(&mut text, json.as_str());
    push_str(&mut text, nonce);
    let joined = string_of(text.as_slice());
    joined.as_str().as_bytes_vec()
}

/// What is hashed to extend a PCR: the value that the PCR holds, followed
/// by the digest that it is extended with.
pub fn extension_input(previous: &[u8], digest: &[u8]) -> (data: Vec<u8>)
    ensures
        data@ == previous@ + digest@,
{
    let mut data: Vec<u8> = Vec::new();
    push_bytes(&mut data, previous);
    push_bytes(&mut data, digest);
    data
}

/// What a PCR of the SHA-256 bank holds after it was extended with
/// `digest`: the digest of its old value followed by `digest`.
pub open spec fn extended(old: Seq<u8>, digest: Seq<u8>) -> Seq<u8> {
    sha256(old + digest)
}

/// The value that PCR 15 holds once it was extended for a claim and a
/// nonce, from the value that it held before. A quote taken after the
/// extension shows this value, and whoever holds the claim and the nonce can
/// compute it; a claim with another nonce does not lead to it. An error is
/// OpenSSL's.
pub fn expected_pcr_15(previous: &[u8], geolocation: &GeolocationResponse, nonce: &str) -> (r:
    Result<Vec<u8>, String>)
    ensures
        r matches Ok(v) ==> v@ == extended(previous@, pcr_digest(geolocation@, nonce@)),
{
    let digest = match extend_pcr_15_with_geolocation_and_nonce(geolocation, nonce) {
        Ok(d) => d,
        Err(e) => {
            return Err(e);
        },
    };
    let data = extension_input(previous, digest.as_slice());
    openssl_sha256(data.as_slice())
}

pub open spec fn feature_off() -> Seq<char> {
    "Unified Identity feature disabled"@
}

pub open spec fn no_sensor() -> Seq<char> {
    "No geolocation sensor detected"@
}

pub open spec fn extend_failed() -> Seq<char> {
    "Failed to extend PCR 15: "@
}

/// The claim for a sensor and the nonce of a request.
pub open spec fn claim_for(raw: RawSensorView, nonce: Seq<char>) -> ResponseView {
    ResponseView { nonce, ..nested(raw) }
}

/// What goes to the TPM and what goes back to the caller for a request that
/// was found valid.
#[derive(Debug)]
pub struct AttestedGeolocation {
    pub claim: GeolocationResponse,
    /// The digest to extend PCR 15 with.
    pub digest: Vec<u8>,
}

/// Answers a request for the attested geolocation.
///
/// With the feature off the answer is 403; with it on and no sensor, 404.
/// Otherwise the answer is the claim for the sensor with the request's
/// nonce, and with it the digest that PCR 15 is to be extended with before
/// the claim is sent; a digest that could not be computed is a 500.
pub fn attested_geolocation(
    unified_identity_enabled: bool,
    sensor: Option<RawSensorData>,
    query: &GeolocationRequest,
) -> (r: Result<AttestedGeolocation, HttpError>)
    ensures
        !unified_identity_enabled ==> (r matches Err(e) && e.is(403, feature_off())),
        unified_identity_enabled && sensor is None ==> (r matches Err(e) && e.is(404, no_sensor())),
        unified_identity_enabled && sensor is Some ==> match r {
            Ok(a) => a.claim@ == claim_for(sensor->0@, query.nonce@) && a.digest@ == pcr_digest(
                a.claim@,
                query.nonce@,
            ),
            Err(e) => e.code == 500 && extend_failed().is_prefix_of(e.message@),
        },
{
    if !unified_identity_enabled {
        return Err(HttpError::new(403, "Unified Identity feature disabled"));
    }
    let raw = match sensor {
        Some(s) => s,
        None => {
            return Err(HttpError::new(404, "No geolocation sensor detected"));
        },
    };
    let mut claim = build_nested_geolocation(raw);
    claim.nonce = query.nonce.clone();
    match extend_pcr_15_with_geolocation_and_nonce(&claim, query.nonce.as_str()) {
        Ok(digest) => Ok(AttestedGeolocation { claim, digest }),
        Err(why) => Err(HttpError::with_detail(500, "Failed to extend PCR 15: ", why.as_str())),
    }
}

/// The refusal for a TPM that could not extend PCR 15: a 500 that ends in
/// the TPM's words.
pub fn pcr_extend_failed(why: &str) -> (e: HttpError)
    ensures
        e.is(500, extend_failed() + why@),
{
    HttpError::with_detail(500, "Failed to extend PCR 15: ", why)
}

} // verus!
