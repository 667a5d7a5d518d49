//! The claim of a peer at the gateway: from the header that carries the
//! client's certificates to the sensor identity that one of them binds.

use crate::codec::{base64_bytes, base64_decode, utf8_text};
use crate::http::opt_view;
use crate::json_value::{
    as_number, as_text, as_value, field, get, json_parsed, member_of, number_of, parse_json,
    text_of, Json,
};
use crate::text::{
    chars_of, find, find_from, find_in, lines, push_chars, rows, slice_of, split_lines,
    starts_with, str_eq, string_of, trim, trimmed,
};
use vstd::prelude::*;
use vstd::string::*;

verus! {

/// The object identifier of the extension that binds a sensor identity.
pub const UNIFIED_IDENTITY_OID: &'static str = "1.3.6.1.4.1.99999.2";

/// The object identifier that older certificates carry the binding under.
pub const LEGACY_OID: &'static str = "1.3.6.1.4.1.99999.1";

/// What opens a certificate in PEM.
pub const CERTIFICATE_MARKER: &'static str = "-----BEGIN CERTIFICATE-----";

/// An extension of a certificate: its object identifier in dotted form and
/// its content.
#[derive(Debug)]
pub struct CertExtension {
    pub oid: String,
    pub value: Vec<u8>,
}

impl View for CertExtension {
    type V = (Seq<char>, Seq<u8>);

    open spec fn view(&self) -> (Seq<char>, Seq<u8>) {
        (self.oid@, self.value@)
    }
}

/// The views of the extensions of a vector.
pub open spec fn extension_views(list: Seq<CertExtension>) -> Seq<(Seq<char>, Seq<u8>)> {
    list.map_values(|e: CertExtension| e@)
}

/// The extensions of the X.509 certificate whose DER form is `der`, in the
/// order in which the certificate holds them, where `der` starts with such a
/// certificate.
pub uninterp spec fn x509_extensions(der: Seq<u8>) -> Option<Seq<(Seq<char>, Seq<u8>)>>;

/// `x509_parser::parse_x509_certificate`, and of the certificate it reads
/// the extensions: of each its `oid`, written out by its `Display`, and its
/// `value`.
#[verifier::external_body]
pub(crate) fn certificate_extensions(der: &[u8]) -> (r: Option<Vec<CertExtension>>)
    ensures
        match r {
            Some(list) => x509_extensions(der@) == Some(extension_views(list@)),
            None => x509_extensions(der@) is None,
        },
{
    match x509_parser::parse_x509_certificate(der) {
        Ok((_, cert)) => Some(
            cert.extensions().iter().map(
                |e| CertExtension { oid: format!("{}", e.oid), value: e.value.to_vec() },
            ).collect(),
        ),
        Err(_) => None,
    }
}

/// What kind of sensor a claim names.
#[derive(Debug, Clone, Copy, PartialEq, Eq, Structural)]
pub enum SensorType {
    Mobile,
    Gnss,
}

/// A position as a claim holds it; each number is kept as its JSON text.
#[derive(Debug)]
pub struct Location {
    pub lat: Option<String>,
    pub lon: Option<String>,
    pub accuracy: Option<String>,
}

pub ghost struct LocationView {
    pub lat: Option<Seq<char>>,
    pub lon: Option<Seq<char>>,
    pub accuracy: Option<Seq<char>>,
}

impl View for Location {
    type V = LocationView;

    open spec fn view(&self) -> LocationView {
        LocationView {
            lat: opt_view(self.lat),
            lon: opt_view(self.lon),
            accuracy: opt_view(self.accuracy),
        }
    }
}

/// The sensor identity that a certificate binds. A text that the
/// certificate does not give is empty.
#[derive(Debug)]
pub struct Claim {
    pub sensor_type: SensorType,
    pub sensor_id: String,
    pub imei: String,
    pub imsi: String,
    pub msisdn: String,
    pub serial_number: String,
    pub location: Location,
}

pub ghost struct ClaimView {
    pub sensor_type: SensorType,
    pub sensor_id: Seq<char>,
    pub imei: Seq<char>,
    pub imsi: Seq<char>,
    pub msisdn: Seq<char>,
    pub serial_number: Seq<char>,
    pub location: LocationView,
}

impl View for Claim {
    type V = ClaimView;

    open spec fn view(&self) -> ClaimView {
        ClaimView {
            sensor_type: self.sensor_type,
            sensor_id: self.sensor_id@,
            imei: self.imei@,
            imsi: self.imsi@,
            msisdn: self.msisdn@,
            serial_number: self.serial_number@,
            location: self.location@,
        }
    }
}

/// The view of an optional claim.
pub open spec fn claim_view(c: Option<Claim>) -> Option<ClaimView> {
    match c {
        Some(x) => Some(x@),
        None => None,
    }
}

/// What follows the first occurrence of `marker` in the header.
pub open spec fn after_marker(header: Seq<char>, marker: Seq<char>) -> Option<Seq<char>> {
    match find(header, marker) {
        Some(i) => Some(header.skip(i + marker.len())),
        None => None,
    }
}

/// `s` without the quotation marks at its end.
pub open spec fn without_closing_quotes(s: Seq<char>) -> Seq<char>
    decreases s.len(),
{
    if s.len() > 0 && s.last() == '"' {
        without_closing_quotes(s.drop_last())
    } else {
        s
    }
}

/// The value of a header field from what follows its name: up to the first
/// semicolon, without one quotation mark in front and those at the end.
pub open spec fn field_value(part: Seq<char>) -> Seq<char> {
    let open = if part.len() > 0 && part[0] == '"' {
        part.drop_first()
    } else {
        part
    };
    let stop = match find(open, seq![';']) {
        Some(i) => i,
        None => open.len() as int,
    };
    without_closing_quotes(open.take(stop))
}

/// The certificates that the header carries, still encoded: the field
/// `Chain`, which holds the whole chain, or else the field `Cert`, which
/// holds the leaf alone.
pub open spec fn forwarded_field(header: Seq<char>) -> Option<Seq<char>> {
    match after_marker(header, "Chain="@) {
        Some(part) => Some(field_value(part)),
        None => match after_marker(header, "Cert="@) {
            Some(part) => Some(field_value(part)),
            None => None,
        },
    }
}

/// The character that `%ab` stands for, for the nine codes that the proxy
/// writes: space, line feed, carriage return, `/`, `+`, `=`, `"`, `;`, `:`.
pub open spec fn percent_code(a: char, b: char) -> Option<char> {
    if a == '2' && b == '0' {
        Some(' ')
    } else if a == '0' && b == 'A' {
        Some('\n')
    } else if a == '0' && b == 'D' {
        Some('\r')
    } else if a == '2' && b == 'F' {
        Some('/')
    } else if a == '2' && b == 'B' {
        Some('+')
    } else if a == '3' && b == 'D' {
        Some('=')
    } else if a == '2' && b == '2' {
        Some('"')
    } else if a == '3' && b == 'B' {
        Some(';')
    } else if a == '3' && b == 'A' {
        Some(':')
    } else {
        None
    }
}

/// The code that stands at position `i` of `s`, if one does.
pub open spec fn code_at(s: Seq<char>, i: int) -> Option<char> {
    if 0 <= i && i + 2 < s.len() && s[i] == '%' {
        percent_code(s[i + 1], s[i + 2])
    } else {
        None
    }
}

/// `s` from position `i` on with each code replaced by its character.
pub open spec fn url_decoded_from(s: Seq<char>, i: int) -> Seq<char>
    decreases s.len() - i,
{
    if i < 0 || i >= s.len() {
        Seq::empty()
    } else {
        match code_at(s, i) {
            Some(c) => seq![c] + url_decoded_from(s, i + 3),
            None => seq![s[i]] + url_decoded_from(s, i + 1),
        }
    }
}

/// `s` with each code replaced by its character.
pub open spec fn url_decoded(s: Seq<char>) -> Seq<char> {
    url_decoded_from(s, 0)
}

/// The certificates that the header carries, as PEM text.
pub open spec fn forwarded_certificates_spec(header: Seq<char>) -> Option<Seq<char>> {
    match forwarded_field(header) {
        Some(v) => Some(url_decoded(v)),
        None => None,
    }
}

fn code_of(a: char, b: char) -> (r: Option<char>)
    ensures
        r == percent_code(a, b),
{
    if a == '2' && b == '0' {
        Some(' ')
    } else if a == '0' && b == 'A' {
        Some('\n')
    } else if a == '0' && b == 'D' {
        Some('\r')
    } else if a == '2' && b == 'F' {
        Some('/')
    } else if a == '2' && b == 'B' {
        Some('+')
    } else if a == '3' && b == 'D' {
        Some('=')
    } else if a == '2' && b == '2' {
        Some('"')
    } else if a == '3' && b == 'B' {
        Some(';')
    } else if a == '3' && b == 'A' {
        Some(':')
    } else {
        None
    }
}

/// Replaces each of the nine codes by its character.
pub fn url_decode(s: &[char]) -> (out: Vec<char>)
    ensures
        out@ == url_decoded(s@),
{
    let mut out: Vec<char> = Vec::new();
    let mut i: usize = 0;
    while i < s.len()
        invariant
            i <= s.len(),
            url_decoded(s@) == out@ + url_decoded_from(s@, i as int),
        decreases s.len() - i,
    {
        let code = if s[i] == '%' && s.len() - i > 2 {
            code_of(s[i + 1], s[i + 2])
        } else {
            None
        };
        let ghost before = out@;
        match code {
            Some(c) => {
                out.push(c);
                assert(before + (seq![c] + url_decoded_from(s@, i + 3)) =~= out@
                    + url_decoded_from(s@, i + 3));
                i += 3;
            },
            None => {
                out.push(s[i]);
                assert(before + (seq![s@[i as int]] + url_decoded_from(s@, i + 1)) =~= out@
                    + url_decoded_from(s@, i + 1));
                i += 1;
            },
        }
    }
    assert(url_decoded_from(s@, s.len() as int) =~= Seq::empty());
    out
}

fn value_of_field(part: &[char]) -> (v: Vec<char>)
    ensures
        v@ == field_value(part@),
{
    let from: usize = if part.len() > 0 && part[0] == '"' {
        1
    } else {
        0
    };
    let open = slice_of(part, from, part.len());
    proof {
        if from == 1 {
            assert(open@ == part@.drop_first());
        } else {
            assert(open@ == part@);
        }
    }
    let mut semicolon: Vec<char> = Vec::new();
    semicolon.push(';');
    assert(semicolon@ =~= seq![';']);
    let stop: usize = match find_in(open.as_slice(), semicolon.as_slice(), 0) {
        Some(i) => i,
        None => open.len(),
    };
    let mut end: usize = stop;
    assert(open@.take(stop as int).take(end as int) == open@.take(stop as int));
    while end > 0 && open[end - 1] == '"'
        invariant
            end <= stop <= open.len(),
            without_closing_quotes(open@.take(stop as int)) == without_closing_quotes(
                open@.take(end as int),
            ),
        decreases end,
    {
        assert(open@.take(end as int).drop_last() == open@.take(end - 1));
        end -= 1;
    }
    let v = slice_of(open.as_slice(), 0, end);
    assert(v@ == open@.take(end as int));
    v
}

fn part_after(header: &[char], marker: &str) -> (r: Option<Vec<char>>)
    ensures
        match r {
            Some(p) => after_marker(header@, marker@) == Some(p@),
            None => after_marker(header@, marker@) is None,
        },
{
    let m = chars_of(marker);
    match find_in(header, m.as_slice(), 0) {
        Some(i) => {
            let p = slice_of(header, i + m.len(), header.len());
            assert(p@ == header@.skip(i + m.len()));
            Some(p)
        },
        None => None,
    }
}

/// The certificates that a forwarded-client-certificate header carries, as
/// PEM text: the value of its `Chain` field, or of its `Cert` field where
/// it has no `Chain`, with the proxy's codes decoded. `None` where the
/// header has neither field.
pub fn forwarded_certificates(header: &str) -> (r: Option<String>)
    ensures
        opt_view(r) == forwarded_certificates_spec(header@),
{
    let h = chars_of(header);
    let part = match part_after(h.as_slice(), "Chain=") {
        Some(p) => p,
        None => match part_after(h.as_slice(), "Cert=") {
            Some(p) => p,
            None => {
                return None;
            },
        },
    };
    let value = value_of_field(part.as_slice());
    let decoded = url_decode(value.as_slice());
    Some(string_of(decoded.as_slice()))
}

/// The pieces of `s` from `from` on that lie between the occurrences of
/// `marker`.
pub open spec fn pieces_from(s: Seq<char>, marker: Seq<char>, from: int) -> Seq<Seq<char>>
    decreases s.len() - from,
{
    if marker.len() == 0 || from < 0 || from > s.len() {
        Seq::empty()
    } else {
        match find_from(s, marker, from) {
            Some(i) => if from <= i && i + marker.len() <= s.len() {
                seq![s.subrange(from, i)] + pieces_from(s, marker, i + marker.len())
            } else {
                Seq::empty()
            },
            None => seq![s.subrange(from, s.len() as int)],
        }
    }
}

/// A piece holds nothing but white space.
pub open spec fn is_blank(piece: Seq<char>) -> bool {
    trim(piece).len() == 0
}

/// The certificates among the pieces: each piece that is not blank, with
/// the marker in front of it again.
pub open spec fn blocks_of(pieces: Seq<Seq<char>>) -> Seq<Seq<char>>
    decreases pieces.len(),
{
    if pieces.len() == 0 {
        Seq::empty()
    } else {
        let rest = blocks_of(pieces.drop_last());
        if is_blank(pieces.last()) {
            rest
        } else {
            rest.push(CERTIFICATE_MARKER@ + pieces.last())
        }
    }
}

/// The certificates of a PEM text, each from its opening marker up to the
/// next.
pub open spec fn certificate_blocks(pem: Seq<char>) -> Seq<Seq<char>> {
    blocks_of(pieces_from(pem, CERTIFICATE_MARKER@, 0))
}

fn split_pieces(s: &[char], marker: &[char]) -> (out: Vec<Vec<char>>)
    requires
        marker.len() > 0,
    ensures
        rows(out@) == pieces_from(s@, marker@, 0),
{
    let mut out: Vec<Vec<char>> = Vec::new();
    let mut from: usize = 0;
    assert(rows(out@) =~= Seq::empty());
    loop
        invariant
            from <= s.len(),
            marker.len() > 0,
            pieces_from(s@, marker@, 0) == rows(out@) + pieces_from(s@, marker@, from as int),
        decreases s.len() - from,
    {
        let ghost before = rows(out@);
        match find_in(s, marker, from) {
            Some(i) => {
                let piece = slice_of(s, from, i);
                out.push(piece);
                assert(rows(out@) =~= before + seq![s@.subrange(from as int, i as int)]);
                from = i + marker.len();
            },
            None => {
                let piece = slice_of(s, from, s.len());
                out.push(piece);
                assert(rows(out@) =~= before + seq![s@.subrange(from as int, s.len() as int)]);
                return out;
            },
        }
    }
}

/// The certificates of a PEM text.
pub fn split_certificates(pem: &str) -> (out: Vec<Vec<char>>)
    ensures
        rows(out@) == certificate_blocks(pem@),
{
    let text = chars_of(pem);
    let marker = chars_of(CERTIFICATE_MARKER);
    proof {
        reveal_strlit("-----BEGIN CERTIFICATE-----");
    }
    let pieces = split_pieces(text.as_slice(), marker.as_slice());
    let mut out: Vec<Vec<char>> = Vec::new();
    let mut i: usize = 0;
    assert(rows(out@) =~= Seq::empty());
    assert(rows(pieces@).take(0) =~= Seq::empty());
    while i < pieces.len()
        invariant
            i <= pieces.len(),
            marker@ == CERTIFICATE_MARKER@,
            rows(out@) == blocks_of(rows(pieces@).take(i as int)),
        decreases pieces.len() - i,
    {
        let ghost before = rows(out@);
        proof {
            assert(rows(pieces@).take(i + 1).drop_last() == rows(pieces@).take(i as int));
            assert(rows(pieces@).take(i + 1).last() == pieces@[i as int]@);
        }
        let t = trimmed(pieces[i].as_slice());
        if t.len() > 0 {
            let mut block: Vec<char> = Vec::new();
            push_chars(&mut block, marker.as_slice());
            push_chars(&mut block, pieces[i].as_slice());
            out.push(block);
            assert(rows(out@) =~= before.push(CERTIFICATE_MARKER@ + pieces@[i as int]@));
        }
        i += 1;
    }
    assert(rows(pieces@).take(pieces.len() as int) == rows(pieces@));
    out
}

/// The lines that do not start with five hyphens, one after the other.
pub open spec fn body_of(ls: Seq<Seq<char>>) -> Seq<char>
    decreases ls.len(),
{
    if ls.len() == 0 {
        Seq::empty()
    } else {
        let rest = body_of(ls.drop_last());
        if "-----"@.is_prefix_of(ls.last()) {
            rest
        } else {
            rest + ls.last()
        }
    }
}

/// The base64 text of a certificate in PEM: its lines without the two that
/// frame it.
pub open spec fn pem_body(block: Seq<char>) -> Seq<char> {
    body_of(lines(block))
}

/// The base64 text of a certificate in PEM.
pub fn certificate_body(block: &[char]) -> (body: Vec<char>)
    ensures
        body@ == pem_body(block@),
{
    let ls = split_lines(block);
    let frame = chars_of("-----");
    let mut body: Vec<char> = Vec::new();
    let mut i: usize = 0;
    assert(rows(ls@).take(0) =~= Seq::empty());
    while i < ls.len()
        invariant
            i <= ls.len(),
            frame@ == "-----"@,
            body@ == body_of(rows(ls@).take(i as int)),
        decreases ls.len() - i,
    {
        proof {
            assert(rows(ls@).take(i + 1).drop_last() == rows(ls@).take(i as int));
            assert(rows(ls@).take(i + 1).last() == ls@[i as int]@);
        }
        if !starts_with(ls[i].as_slice(), frame.as_slice()) {
            push_chars(&mut body, ls[i].as_slice());
        }
        i += 1;
    }
    assert(rows(ls@).take(ls.len() as int) == rows(ls@));
    body
}

/// The text of a JSON string, or the empty text.
pub open spec fn text_or_empty(j: Option<Json>) -> Seq<char> {
    match text_of(j) {
        Some(s) => s,
        None => Seq::empty(),
    }
}

/// The position in the object `j`: its members `lat`, `lon` and
/// `accuracy`, each where it is a number.
pub open spec fn location_of(j: Option<Json>) -> LocationView {
    LocationView {
        lat: number_of(field(j, "lat"@)),
        lon: number_of(field(j, "lon"@)),
        accuracy: number_of(field(j, "accuracy"@)),
    }
}

/// The claim of a mobile sensor from the object `mobile`, which names the
/// sensor.
pub open spec fn mobile_claim(m: Option<Json>) -> ClaimView {
    ClaimView {
        sensor_type: SensorType::Mobile,
        sensor_id: text_or_empty(field(m, "sensor_id"@)),
        imei: text_or_empty(field(m, "sensor_imei"@)),
        imsi: text_or_empty(field(m, "sim_imsi"@)),
        msisdn: text_or_empty(field(m, "sim_msisdn"@)),
        serial_number: Seq::empty(),
        location: location_of(field(m, "location_verification"@)),
    }
}

/// The claim of a GNSS sensor from the object `gnss`, which names the
/// sensor.
pub open spec fn gnss_claim(g: Option<Json>) -> ClaimView {
    ClaimView {
        sensor_type: SensorType::Gnss,
        sensor_id: text_or_empty(field(g, "sensor_id"@)),
        imei: Seq::empty(),
        imsi: Seq::empty(),
        msisdn: Seq::empty(),
        serial_number: text_or_empty(field(g, "sensor_serial_number"@)),
        location: location_of(field(g, "retrieved_location"@)),
    }
}

/// The claim of the older, flat form, in which the sensor's fields stand in
/// the geolocation object itself: a GNSS sensor where `type` says `gnss`, a
/// mobile sensor otherwise.
pub open spec fn flat_claim(geo: Option<Json>) -> ClaimView {
    ClaimView {
        sensor_type: if text_of(field(geo, "type"@)) == Some("gnss"@) {
            SensorType::Gnss
        } else {
            SensorType::Mobile
        },
        sensor_id: text_or_empty(field(geo, "sensor_id"@)),
        imei: text_or_empty(field(geo, "sensor_imei"@)),
        imsi: text_or_empty(field(geo, "sensor_imsi"@)),
        msisdn: Seq::empty(),
        serial_number: Seq::empty(),
        location: LocationView { lat: None, lon: None, accuracy: None },
    }
}

/// The claim that a JSON document holds under `grc.geolocation`: that of
/// its `mobile` object, else that of its `gnss` object, else that of the
/// flat form; each counts only where it names the sensor by a string
/// `sensor_id`.
pub open spec fn claim_of(doc: Json) -> Option<ClaimView> {
    let geo = member_of(doc, "grc.geolocation"@);
    let mobile = field(geo, "mobile"@);
    let gnss = field(geo, "gnss"@);
    if text_of(field(mobile, "sensor_id"@)) is Some {
        Some(mobile_claim(mobile))
    } else if text_of(field(gnss, "sensor_id"@)) is Some {
        Some(gnss_claim(gnss))
    } else if text_of(field(geo, "sensor_id"@)) is Some {
        Some(flat_claim(geo))
    } else {
        None
    }
}

fn text_field(j: Option<&Json>, key: &str) -> (s: String)
    ensures
        s@ == text_or_empty(field(as_value(j), key@)),
{
    match as_text(get(j, key)) {
        Some(s) => s,
        None => String::new(),
    }
}

fn location_from(j: Option<&Json>) -> (l: Location)
    ensures
        l@ == location_of(as_value(j)),
{
    Location {
        lat: as_number(get(j, "lat")),
        lon: as_number(get(j, "lon")),
        accuracy: as_number(get(j, "accuracy")),
    }
}

/// The claim that a JSON document holds.
pub fn claim_from(doc: &Json) -> (r: Option<Claim>)
    ensures
        claim_view(r) == claim_of(*doc),
{
    let geo = doc.member("grc.geolocation");
    let mobile = get(geo, "mobile");
    let gnss = get(geo, "gnss");
    if as_text(get(mobile, "sensor_id")).is_some() {
        Some(
            Claim {
                sensor_type: SensorType::Mobile,
                sensor_id: text_field(mobile, "sensor_id"),
                imei: text_field(mobile, "sensor_imei"),
                imsi: text_field(mobile, "sim_imsi"),
                msisdn: text_field(mobile, "sim_msisdn"),
                serial_number: String::new(),
                location: location_from(get(mobile, "location_verification")),
            },
        )
    } else if as_text(get(gnss, "sensor_id")).is_some() {
        Some(
            Claim {
                sensor_type: SensorType::Gnss,
                sensor_id: text_field(gnss, "sensor_id"),
                imei: String::new(),
                imsi: String::new(),
                msisdn: String::new(),
                serial_number: text_field(gnss, "sensor_serial_number"),
                location: location_from(get(gnss, "retrieved_location")),
            },
        )
    } else if as_text(get(geo, "sensor_id")).is_some() {
        let kind = match as_text(get(geo, "type")) {
            Some(t) => if str_eq(t.as_str(), "gnss") {
                SensorType::Gnss
            } else {
                SensorType::Mobile
            },
            None => SensorType::Mobile,
        };
        Some(
            Claim {
                sensor_type: kind,
                sensor_id: text_field(geo, "sensor_id"),
                imei: text_field(geo, "sensor_imei"),
                imsi: text_field(geo, "sensor_imsi"),
                msisdn: String::new(),
                serial_number: String::new(),
                location: Location { lat: None, lon: None, accuracy: None },
            },
        )
    } else {
        None
    }
}

/// An extension carries the identity binding: its object identifier is one
/// of the two that do.
pub open spec fn is_identity_oid(oid: Seq<char>) -> bool {
    oid == UNIFIED_IDENTITY_OID@ || oid == LEGACY_OID@
}

/// The claim that an extension holds: that of its content, read as UTF-8
/// and then as JSON, where it carries the identity binding.
pub open spec fn extension_claim(ext: (Seq<char>, Seq<u8>)) -> Option<ClaimView> {
    if is_identity_oid(ext.0) && vstd::utf8::valid_utf8(ext.1) {
        match json_parsed(vstd::utf8::decode_utf8(ext.1)) {
            Some(doc) => claim_of(doc),
            None => None,
        }
    } else {
        None
    }
}

/// The claim of the first extension that holds one.
pub open spec fn first_extension_claim(exts: Seq<(Seq<char>, Seq<u8>)>) -> Option<ClaimView>
    decreases exts.len(),
{
    if exts.len() == 0 {
        None
    } else {
        match extension_claim(exts[0]) {
            Some(c) => Some(c),
            None => first_extension_claim(exts.drop_first()),
        }
    }
}

/// The claim of a certificate in PEM: that of its extensions, where its
/// body is base64 text of an X.509 certificate.
pub open spec fn certificate_claim(block: Seq<char>) -> Option<ClaimView> {
    match base64_bytes(pem_body(block)) {
        Some(der) => match x509_extensions(der) {
            Some(exts) => first_extension_claim(exts),
            None => None,
        },
        None => None,
    }
}

/// The claim of the first certificate that holds one.
pub open spec fn first_certificate_claim(blocks: Seq<Seq<char>>) -> Option<ClaimView>
    decreases blocks.len(),
{
    if blocks.len() == 0 {
        None
    } else {
        match certificate_claim(blocks[0]) {
            Some(c) => Some(c),
            None => first_certificate_claim(blocks.drop_first()),
        }
    }
}

/// The claim that a forwarded-client-certificate header carries: that of
/// the first of its certificates that binds a sensor identity.
pub open spec fn header_claim(header: Seq<char>) -> Option<ClaimView> {
    match forwarded_certificates_spec(header) {
        Some(pem) => first_certificate_claim(certificate_blocks(pem)),
        None => None,
    }
}

fn claim_in_extension(ext: &CertExtension) -> (r: Option<Claim>)
    ensures
        claim_view(r) == extension_claim(ext@),
{
    let legacy = str_eq(ext.oid.as_str(), LEGACY_OID);
    if !str_eq(ext.oid.as_str(), UNIFIED_IDENTITY_OID) && !legacy {
        return None;
    }
    let text = match utf8_text(ext.value.clone()) {
        Some(t) => t,
        None => {
            return None;
        },
    };
    match parse_json(text.as_str()) {
        Some(doc) => claim_from(&doc),
        None => None,
    }
}

/// The claim of the extensions of a certificate: that of the first
/// extension that holds one.
pub fn extract_sensor_id_from_extensions(exts: &Vec<CertExtension>) -> (r: Option<Claim>)
    ensures
        claim_view(r) == first_extension_claim(extension_views(exts@)),
{
    let mut i: usize = 0;
    assert(extension_views(exts@).skip(0) == extension_views(exts@));
    while i < exts.len()
        invariant
            i <= exts.len(),
            first_extension_claim(extension_views(exts@)) == first_extension_claim(
                extension_views(exts@).skip(i as int),
            ),
        decreases exts.len() - i,
    {
        proof {
            assert(extension_views(exts@).skip(i as int).drop_first() == extension_views(
                exts@,
            ).skip(i + 1));
            assert(extension_views(exts@).skip(i as int)[0] == exts@[i as int]@);
        }
        match claim_in_extension(&exts[i]) {
            Some(c) => {
                return Some(c);
            },
            None => {},
        }
        i += 1;
    }
    None
}

fn claim_in_certificate(block: &[char]) -> (r: Option<Claim>)
    ensures
        claim_view(r) == certificate_claim(block@),
{
    let body = certificate_body(block);
    let body_text = string_of(body.as_slice());
    let der = match base64_decode(body_text.as_str()) {
        Some(d) => d,
        None => {
            return None;
        },
    };
    match certificate_extensions(der.as_slice()) {
        Some(exts) => extract_sensor_id_from_extensions(&exts),
        None => None,
    }
}

/// The claim of a chain of certificates in PEM: that of the first
/// certificate that binds a sensor identity, the leaf first.
pub fn extract_sensor_id_from_cert(cert_pem: &str) -> (r: Option<Claim>)
    ensures
        claim_view(r) == first_certificate_claim(certificate_blocks(cert_pem@)),
{
    let blocks = split_certificates(cert_pem);
    let mut i: usize = 0;
    assert(rows(blocks@).skip(0) == rows(blocks@));
    while i < blocks.len()
        invariant
            i <= blocks.len(),
            rows(blocks@) == certificate_blocks(cert_pem@),
            first_certificate_claim(rows(blocks@)) == first_certificate_claim(
                rows(blocks@).skip(i as int),
            ),
        decreases blocks.len() - i,
    {
        proof {
            assert(rows(blocks@).skip(i as int).drop_first() == rows(blocks@).skip(i + 1));
            assert(rows(blocks@).skip(i as int)[0] == blocks@[i as int]@);
        }
        match claim_in_certificate(blocks[i].as_slice()) {
            Some(c) => {
                return Some(c);
            },
            None => {},
        }
        i += 1;
    }
    None
}

/// The claim that a forwarded-client-certificate header carries.
pub fn claim_in_header(header: &str) -> (r: Option<Claim>)
    ensures
        claim_view(r) == header_claim(header@),
{
    match forwarded_certificates(header) {
        Some(pem) => extract_sensor_id_from_cert(pem.as_str()),
        None => None,
    }
}

} // verus!
