//! The quote service: what the identity and integrity requests must hold,
//! what goes to the TPM, and the quote that is sent back.

use crate::codec::{
    base64_encode, base64_text, hex_bytes, hex_decode, is_hex_text, json_string, openssl_sha256,
    sha256, utf8,
};
use crate::http::{opt_view, HttpError};
use crate::json::{
    append, append_optional, finish, member_views, object_text, optional_member, raw_member,
    render_object, string_member, Layout, Member,
};
use crate::number::{parse_decimal_u64, parse_hex_u32, unsigned_up_to};
use crate::text::{
    all_alphanumeric, chars_of, decimal, is_all_alphanumeric, push_decimal, push_str, str_eq,
    string_of,
};
use vstd::prelude::*;
use vstd::string::*;

verus! {

/// The parameters of an identity quote request.
#[derive(Debug)]
pub struct Ident {
    pub nonce: String,
}

/// The parameters of an integrity quote request.
#[derive(Debug)]
pub struct Integ {
    pub nonce: String,
    pub mask: String,
    pub partial: String,
    pub ima_ml_entry: Option<String>,
}

/// The summary of the geolocation sensor that an identity quote carries. It
/// is not attested: the attested claim goes through a PCR.
#[derive(Debug)]
pub struct Geolocation {
    /// `mobile` or `gnss`; the JSON key is `type`.
    pub sensor_type: Option<String>,
    pub sensor_id: Option<String>,
    pub value: Option<String>,
    pub sensor_imei: Option<String>,
    pub sensor_imsi: Option<String>,
}

pub ghost struct GeolocationView {
    pub sensor_type: Option<Seq<char>>,
    pub sensor_id: Option<Seq<char>>,
    pub value: Option<Seq<char>>,
    pub sensor_imei: Option<Seq<char>>,
    pub sensor_imsi: Option<Seq<char>>,
}

impl View for Geolocation {
    type V = GeolocationView;

    open spec fn view(&self) -> GeolocationView {
        GeolocationView {
            sensor_type: opt_view(self.sensor_type),
            sensor_id: opt_view(self.sensor_id),
            value: opt_view(self.value),
            sensor_imei: opt_view(self.sensor_imei),
            sensor_imsi: opt_view(self.sensor_imsi),
        }
    }
}

/// A quote as the agent sends it. `quote` is the blob that the TPM layer
/// hands out: the letter `r`, then the TPM's quote, the signature and the
/// PCR values, each encoded.
#[derive(Debug)]
pub struct KeylimeQuote {
    pub quote: String,
    pub hash_alg: String,
    pub enc_alg: String,
    pub sign_alg: String,
    pub pubkey: Option<String>,
    pub ima_measurement_list: Option<String>,
    pub mb_measurement_list: Option<String>,
    pub ima_measurement_list_entry: Option<u64>,
    pub geolocation: Option<Geolocation>,
}

pub ghost struct KeylimeQuoteView {
    pub quote: Seq<char>,
    pub hash_alg: Seq<char>,
    pub enc_alg: Seq<char>,
    pub sign_alg: Seq<char>,
    pub pubkey: Option<Seq<char>>,
    pub ima_measurement_list: Option<Seq<char>>,
    pub mb_measurement_list: Option<Seq<char>>,
    pub ima_measurement_list_entry: Option<u64>,
    pub geolocation: Option<GeolocationView>,
}

impl View for KeylimeQuote {
    type V = KeylimeQuoteView;

    open spec fn view(&self) -> KeylimeQuoteView {
        KeylimeQuoteView {
            quote: self.quote@,
            hash_alg: self.hash_alg@,
            enc_alg: self.enc_alg@,
            sign_alg: self.sign_alg@,
            pubkey: opt_view(self.pubkey),
            ima_measurement_list: opt_view(self.ima_measurement_list),
            mb_measurement_list: opt_view(self.mb_measurement_list),
            ima_measurement_list_entry: self.ima_measurement_list_entry,
            geolocation: match self.geolocation {
                Some(g) => Some(g@),
                None => None,
            },
        }
    }
}

/// The members of a sensor summary, in the order in which they are written.
pub open spec fn geolocation_members(g: GeolocationView) -> Seq<(Seq<char>, Seq<char>)> {
    optional_member("type"@, g.sensor_type) + optional_member("sensor_id"@, g.sensor_id)
        + optional_member("value"@, g.value) + optional_member("sensor_imei"@, g.sensor_imei)
        + optional_member("sensor_imsi"@, g.sensor_imsi)
}

/// The JSON text of a sensor summary.
pub open spec fn geolocation_json(g: GeolocationView, layout: Layout) -> Seq<char> {
    object_text(geolocation_members(g), layout)
}

/// The members of a quote, in the order in which they are written. The four
/// fields that every quote has come first; an absent field has no member.
pub open spec fn quote_members(q: KeylimeQuoteView, layout: Layout) -> Seq<(Seq<char>, Seq<char>)> {
    seq![
        ("quote"@, json_string(q.quote)),
        ("hash_alg"@, json_string(q.hash_alg)),
        ("enc_alg"@, json_string(q.enc_alg)),
        ("sign_alg"@, json_string(q.sign_alg)),
    ] + optional_member("pubkey"@, q.pubkey) + optional_member(
        "ima_measurement_list"@,
        q.ima_measurement_list,
    ) + optional_member("mb_measurement_list"@, q.mb_measurement_list) + (match q.ima_measurement_list_entry {
        Some(n) => seq![("ima_measurement_list_entry"@, decimal(n as nat))],
        None => Seq::empty(),
    }) + (match q.geolocation {
        Some(g) => seq![("geolocation"@, geolocation_json(g, layout.nested_spec()))],
        None => Seq::empty(),
    })
}

/// The JSON text of a quote.
pub open spec fn quote_json(q: KeylimeQuoteView, layout: Layout) -> Seq<char> {
    object_text(quote_members(q, layout), layout)
}

impl Geolocation {
    fn render(&self, layout: &Layout) -> (out: Vec<char>)
        requires
            layout matches Layout::Pretty(d) ==> d < usize::MAX,
        ensures
            out@ == geolocation_json(self@, *layout),
    {
        let mut ms: Vec<Member> = Vec::new();
        assert(member_views(ms@) =~= Seq::empty());
        append_optional(&mut ms, "type", &self.sensor_type);
        append_optional(&mut ms, "sensor_id", &self.sensor_id);
        append_optional(&mut ms, "value", &self.value);
        append_optional(&mut ms, "sensor_imei", &self.sensor_imei);
        append_optional(&mut ms, "sensor_imsi", &self.sensor_imsi);
        assert(member_views(ms@) =~= geolocation_members(self@));
        render_object(&ms, layout)
    }

    /// The summary as JSON on one line.
    pub fn to_json(&self) -> (s: String)
        ensures
            s@ == geolocation_json(self@, Layout::Compact),
    {
        finish(self.render(&Layout::Compact))
    }
}

impl KeylimeQuote {
    fn render(&self, layout: &Layout) -> (out: Vec<char>)
        requires
            layout matches Layout::Pretty(d) ==> d < usize::MAX - 1,
        ensures
            out@ == quote_json(self@, *layout),
    {
        let mut ms: Vec<Member> = Vec::new();
        assert(member_views(ms@) =~= Seq::empty());
        append(&mut ms, string_member("quote", self.quote.as_str()));
        append(&mut ms, string_member("hash_alg", self.hash_alg.as_str()));
        append(&mut ms, string_member("enc_alg", self.enc_alg.as_str()));
        append(&mut ms, string_member("sign_alg", self.sign_alg.as_str()));
        append_optional(&mut ms, "pubkey", &self.pubkey);
        append_optional(&mut ms, "ima_measurement_list", &self.ima_measurement_list);
        append_optional(&mut ms, "mb_measurement_list", &self.mb_measurement_list);
        match self.ima_measurement_list_entry {
            Some(n) => {
                let mut v: Vec<char> = Vec::new();
                push_decimal(&mut v, n);
                append(&mut ms, raw_member("ima_measurement_list_entry", v));
            },
            None => {},
        }
        match &self.geolocation {
            Some(g) => {
                let inner = layout.nested();
                let v = g.render(&inner);
                append(&mut ms, raw_member("geolocation", v));
            },
            None => {},
        }
        assert(member_views(ms@) =~= quote_members(self@, *layout));
        render_object(&ms, layout)
    }

    /// The quote as JSON on one line.
    pub fn to_json(&self) -> (s: String)
        ensures
            s@ == quote_json(self@, Layout::Compact),
    {
        finish(self.render(&Layout::Compact))
    }

    /// The quote as JSON, one member to a line, indented by two spaces.
    pub fn to_json_pretty(&self) -> (s: String)
        ensures
            s@ == quote_json(self@, Layout::Pretty(0)),
    {
        finish(self.render(&Layout::Pretty(0)))
    }
}

/// Bit `slot` of `mask` is set: the mask selects that PCR.
pub open spec fn mask_selects(mask: u32, slot: u32) -> bool {
    slot < 32 && (mask >> slot) & 1 == 1
}

/// Whether `mask` selects the PCR `slot`.
pub fn check_mask(mask: u32, slot: u32) -> (b: bool)
    ensures
        b == mask_selects(mask, slot),
{
    slot < 32 && (mask >> slot) & 1 == 1
}

/// The PCRs that `mask` selects, in rising order: each PCR whose bit is set,
/// and no other.
pub fn selected_pcrs(mask: u32) -> (pcrs: Vec<u32>)
    ensures
        forall|slot: u32| mask_selects(mask, slot) <==> pcrs@.contains(slot),
        forall|i: int, j: int| 0 <= i < j < pcrs.len() ==> pcrs[i] < pcrs[j],
{
    let mut pcrs: Vec<u32> = Vec::new();
    let mut slot: u32 = 0;
    while slot < 32
        invariant
            slot <= 32,
            forall|s: u32| (s < slot && mask_selects(mask, s)) <==> pcrs@.contains(s),
            forall|i: int, j: int| 0 <= i < j < pcrs.len() ==> pcrs[i] < pcrs[j],
            forall|i: int| 0 <= i < pcrs.len() ==> pcrs[i] < slot,
        decreases 32 - slot,
    {
        let ghost before = pcrs@;
        if check_mask(mask, slot) {
            pcrs.push(slot);
            assert forall|s: u32| (s < slot + 1 && mask_selects(mask, s)) <==> pcrs@.contains(
                s,
            ) by {
                if pcrs@.contains(s) {
                    let k = choose|k: int| 0 <= k < pcrs@.len() && pcrs@[k] == s;
                    if k < before.len() {
                        assert(before[k] == s);
                        assert(before.contains(s));
                    }
                }
                if s < slot && mask_selects(mask, s) {
                    assert(before.contains(s));
                    let k = choose|k: int| 0 <= k < before.len() && before[k] == s;
                    assert(pcrs@[k] == s);
                }
                if s == slot {
                    assert(pcrs@[before.len() as int] == s);
                }
            }
        } else {
            assert forall|s: u32| (s < slot + 1 && mask_selects(mask, s)) <==> pcrs@.contains(
                s,
            ) by {}
        }
        slot += 1;
    }
    pcrs
}

/// The PCR that binds the payload key: the digest of the key is extended
/// into it before a quote is taken.
pub const KEY_BINDING_PCR: u32 = 16;

/// The PCRs that a quote for `mask` covers, in rising order: each PCR that
/// the mask selects, the PCR that binds the payload key, and no other.
pub fn quoted_pcrs(mask: u32) -> (pcrs: Vec<u32>)
    ensures
        forall|slot: u32|
            (mask_selects(mask, slot) || slot == KEY_BINDING_PCR) <==> pcrs@.contains(slot),
        forall|i: int, j: int| 0 <= i < j < pcrs.len() ==> pcrs[i] < pcrs[j],
{
    let with_key: u32 = mask | 0x1_0000;
    assert forall|slot: u32|
        mask_selects(with_key, slot) == (mask_selects(mask, slot) || slot == KEY_BINDING_PCR) by {
        if slot < 32 {
            assert(((mask | 0x1_0000) >> slot) & 1 == 1 <==> ((mask >> slot) & 1 == 1 || slot
                == 16)) by (bit_vector)
                requires
                    slot < 32,
            ;
        }
    }
    selected_pcrs(with_key)
}

/// The text of a quote: the letter `r`, then the quoted message, its
/// signature and the values of the quoted PCRs, each as base64 text and set
/// apart by colons.
pub open spec fn quote_text(message: Seq<u8>, signature: Seq<u8>, values: Seq<u8>) -> Seq<char> {
    seq!['r'] + base64_text(message) + seq![':'] + base64_text(signature) + seq![':']
        + base64_text(values)
}

/// The text of a quote, from what the TPM gave: the message that it signed,
/// its signature, and the values of the PCRs that it quoted.
pub fn quote_blob(message: &[u8], signature: &[u8], values: &[u8]) -> (s: String)
    ensures
        s@ == quote_text(message@, signature@, values@),
{
    let mut out: Vec<char> = Vec::new();
    out.push('r');
    push_str(&mut out, base64_encode(message).as_str());
    out.push(':');
    push_str(&mut out, base64_encode(signature).as_str());
    out.push(':');
    push_str(&mut out, base64_encode(values).as_str());
    assert(out@ =~= quote_text(message@, signature@, values@));
    string_of(out.as_slice())
}

/// `s` without every `0x` at its start.
pub open spec fn strip_hex_prefixes(s: Seq<char>) -> Seq<char>
    decreases s.len(),
{
    if s.len() >= 2 && s[0] == '0' && s[1] == 'x' {
        strip_hex_prefixes(s.subrange(2, s.len() as int))
    } else {
        s
    }
}

/// The PCR mask that the text `mask` stands for: hexadecimal digits of
/// either case after any `0x`, with a value that fits 32 bits.
pub open spec fn mask_value(mask: Seq<char>) -> Option<int> {
    unsigned_up_to(strip_hex_prefixes(mask), 16, u32::MAX as int)
}

/// Reads a PCR mask.
pub fn parse_mask(mask: &str) -> (r: Option<u32>)
    ensures
        match mask_value(mask@) {
            Some(v) => 0 <= v && r == Some(v as u32),
            None => r is None,
        },
{
    let chars = chars_of(mask);
    let mut from: usize = 0;
    assert(chars@.subrange(0, chars.len() as int) == chars@);
    while chars.len() - from >= 2 && chars[from] == '0' && chars[from + 1] == 'x'
        invariant
            from <= chars.len(),
            strip_hex_prefixes(chars@) == strip_hex_prefixes(
                chars@.subrange(from as int, chars.len() as int),
            ),
        decreases chars.len() - from,
    {
        assert(chars@.subrange(from as int, chars.len() as int).subrange(
            2,
            chars.len() - from,
        ) == chars@.subrange(from + 2, chars.len() as int));
        from += 2;
    }
    let rest = crate::text::slice_of(chars.as_slice(), from, chars.len());
    parse_hex_u32(rest.as_slice())
}

/// The index of the first entry of the measurement list that a request asks
/// for: the number in `ima_ml_entry`, or 0 where there is none or it is no
/// decimal number of 64 bits.
pub open spec fn entry_index(ima_ml_entry: Option<Seq<char>>) -> u64 {
    match ima_ml_entry {
        Some(t) => match unsigned_up_to(t, 10, u64::MAX as int) {
            Some(v) => v as u64,
            None => 0,
        },
        None => 0,
    }
}

pub fn parse_entry_index(ima_ml_entry: &Option<String>) -> (n: u64)
    ensures
        n == entry_index(opt_view(*ima_ml_entry)),
{
    match ima_ml_entry {
        Some(t) => {
            let chars = chars_of(t.as_str());
            match parse_decimal_u64(chars.as_slice()) {
                Some(v) => v,
                None => 0,
            }
        },
        None => 0,
    }
}

pub open spec fn identity_not_alphanumeric(nonce: Seq<char>) -> Seq<char> {
    "Parameters should be strictly alphanumeric: "@ + nonce
}

pub open spec fn identity_too_long(nonce: Seq<char>, max: nat) -> Seq<char> {
    "Nonce hex string is too long (max "@ + decimal(2 * max) + " hex chars for "@ + decimal(max)
        + " bytes): "@ + nonce
}

pub open spec fn identity_not_hex() -> Seq<char> {
    "Invalid hex nonce format: "@
}

/// Checks the nonce of an identity quote request and decodes it.
///
/// The nonce must be alphanumeric, at most two characters for each byte
/// that the TPM takes, and an even number of hexadecimal digits. The bytes
/// returned are the ones that the digits stand for, and it is these that go
/// to the TPM. Every refusal is a 400; the one for a nonce that is not
/// hexadecimal ends in the decoder's own words.
pub fn identity_nonce(nonce: &str, max_nonce_size: usize) -> (r: Result<Vec<u8>, HttpError>)
    ensures
        identity_outcome(all_alphanumeric(nonce@), nonce@, max_nonce_size as nat, r),
{
    identity_nonce_for(nonce, is_all_alphanumeric(nonce), max_nonce_size)
}

/// What checking the nonce of an identity quote request comes to, given
/// whether the nonce is alphanumeric. The faults are looked for in this
/// order: not alphanumeric, too long, not hexadecimal.
pub open spec fn identity_outcome(
    alphanumeric: bool,
    nonce: Seq<char>,
    max: nat,
    r: Result<Vec<u8>, HttpError>,
) -> bool {
    if !alphanumeric {
        r matches Err(e) && e.is(400, identity_not_alphanumeric(nonce))
    } else if utf8(nonce).len() > 2 * max {
        r matches Err(e) && e.is(400, identity_too_long(nonce, max))
    } else if !is_hex_text(nonce) {
        r matches Err(e) && e.code == 400 && identity_not_hex().is_prefix_of(e.message@)
    } else {
        r matches Ok(b) && b@ == hex_bytes(nonce) && b.len() <= max
    }
}

/// Checks the nonce of an identity quote request and decodes it, given
/// whether it is alphanumeric.
pub fn identity_nonce_for(nonce: &str, alphanumeric: bool, max_nonce_size: usize) -> (r: Result<
    Vec<u8>,
    HttpError,
>)
    ensures
        identity_outcome(alphanumeric, nonce@, max_nonce_size as nat, r),
{
    if !alphanumeric {
        return Err(
            HttpError::with_detail(400, "Parameters should be strictly alphanumeric: ", nonce),
        );
    }
    let nonce_len: usize = nonce.as_bytes().len();
    if max_nonce_size <= usize::MAX / 2 && nonce_len > max_nonce_size * 2 {
        let mut out: Vec<char> = Vec::new();
        push_str(&mut out, "Nonce hex string is too long (max ");
        push_decimal(&mut out, (max_nonce_size * 2) as u64);
        push_str(&mut out, " hex chars for ");
        push_decimal(&mut out, max_nonce_size as u64);
        push_str(&mut out, " bytes): ");
        push_str(&mut out, nonce);
        return Err(HttpError { code: 400, message: string_of(out.as_slice()) });
    }
    match hex_decode(nonce) {
        Ok(bytes) => {
            proof {
                lemma_hex_text_is_ascii(nonce@);
            }
            Ok(bytes)
        },
        Err(why) => Err(HttpError::with_detail(400, "Invalid hex nonce format: ", why.as_str())),
    }
}

/// A hexadecimal text has one byte to the character.
pub proof fn lemma_hex_text_is_ascii(s: Seq<char>)
    requires
        is_hex_text(s),
    ensures
        utf8(s).len() == s.len(),
{
    assert(vstd::utf8::is_ascii_chars(s)) by {
        assert forall|i: int| 0 <= i < s.len() implies 0 <= #[trigger] (s[i] as nat) < 128 by {
            assert(crate::text::is_hex_digit(s[i]));
        }
    }
    vstd::utf8::is_ascii_chars_encode_utf8(s);
}

/// What an integrity quote request asks for, once it has been found valid.
#[derive(Debug)]
pub struct IntegrityPlan {
    /// The nonce for the TPM: the bytes of the parameter as it was sent.
    pub nonce: Vec<u8>,
    pub mask: u32,
    /// The payload public key goes into the answer.
    pub include_pubkey: bool,
    /// The first entry of the measurement list to send.
    pub nth_entry: u64,
    /// The mask selects PCR 0, so the measured-boot log goes into the answer.
    pub measured_boot: bool,
}

pub open spec fn integrity_nonce_not_alphanumeric() -> Seq<char> {
    "nonce should be strictly alphanumeric"@
}

pub open spec fn integrity_mask_not_alphanumeric(mask: Seq<char>) -> Seq<char> {
    "mask should be strictly alphanumeric: "@ + mask
}

pub open spec fn integrity_mask_not_hex(mask: Seq<char>) -> Seq<char> {
    "mask should be a hex encoded 32-bit integer: "@ + mask
}

pub open spec fn integrity_nonce_too_long(len: nat, max: nat) -> Seq<char> {
    "Nonce is too long (max size: "@ + decimal(max) + "): "@ + decimal(len)
}

pub open spec fn integrity_bad_partial() -> Seq<char> {
    "uri must contain key 'partial' and value '0' or '1'"@
}

/// Why an integrity quote request is refused, if it is: the message of the
/// first of its faults, in the order nonce, mask, length of the nonce,
/// `partial`.
pub open spec fn integrity_refusal(
    nonce: Seq<char>,
    mask: Seq<char>,
    partial: Seq<char>,
    max: nat,
) -> Option<Seq<char>> {
    refusal_given(all_alphanumeric(nonce), all_alphanumeric(mask), nonce, mask, partial, max)
}

/// Why an integrity quote request is refused, given whether its nonce and
/// its mask are alphanumeric.
pub open spec fn refusal_given(
    nonce_alphanumeric: bool,
    mask_alphanumeric: bool,
    nonce: Seq<char>,
    mask: Seq<char>,
    partial: Seq<char>,
    max: nat,
) -> Option<Seq<char>> {
    if !nonce_alphanumeric {
        Some(integrity_nonce_not_alphanumeric())
    } else if !mask_alphanumeric {
        Some(integrity_mask_not_alphanumeric(mask))
    } else if mask_value(mask) is None {
        Some(integrity_mask_not_hex(mask))
    } else if utf8(nonce).len() > max {
        Some(integrity_nonce_too_long(utf8(nonce).len(), max))
    } else if partial != "0"@ && partial != "1"@ {
        Some(integrity_bad_partial())
    } else {
        None
    }
}

/// Checks an integrity quote request and says what it asks for.
///
/// A request with a fault is refused with a 400 and the message of its
/// first fault. Of a valid request the plan holds the nonce as bytes, the
/// mask as a number, whether `partial` was `0`, the entry index, and whether
/// the mask selects PCR 0.
pub fn integrity_plan(param: &Integ, max_nonce_size: usize) -> (r: Result<
    IntegrityPlan,
    HttpError,
>)
    ensures
        match integrity_refusal(
            param.nonce@,
            param.mask@,
            param.partial@,
            max_nonce_size as nat,
        ) {
            Some(message) => r matches Err(e) && e.is(400, message),
            None => r matches Ok(plan) && plan.asks_what(*param),
        },
{
    integrity_plan_for(
        param,
        is_all_alphanumeric(param.nonce.as_str()),
        is_all_alphanumeric(param.mask.as_str()),
        max_nonce_size,
    )
}

impl IntegrityPlan {
    /// The plan holds what the request asks for: the nonce as bytes, the
    /// mask as a number, whether `partial` was `0`, the entry index, and
    /// whether the mask selects PCR 0.
    pub open spec fn asks_what(&self, param: Integ) -> bool {
        &&& self.nonce@ == utf8(param.nonce@)
        &&& Some(self.mask as int) == mask_value(param.mask@)
        &&& self.include_pubkey == (param.partial@ == "0"@)
        &&& self.nth_entry == entry_index(opt_view(param.ima_ml_entry))
        &&& self.measured_boot == mask_selects(self.mask, 0)
    }
}

/// Checks an integrity quote request and says what it asks for, given
/// whether its nonce and its mask are alphanumeric.
pub fn integrity_plan_for(
    param: &Integ,
    nonce_alphanumeric: bool,
    mask_alphanumeric: bool,
    max_nonce_size: usize,
) -> (r: Result<IntegrityPlan, HttpError>)
    ensures
        match refusal_given(
            nonce_alphanumeric,
            mask_alphanumeric,
            param.nonce@,
            param.mask@,
            param.partial@,
            max_nonce_size as nat,
        ) {
            Some(message) => r matches Err(e) && e.is(400, message),
            None => r matches Ok(plan) && plan.asks_what(*param),
        },
{
    if !nonce_alphanumeric {
        return Err(HttpError::new(400, "nonce should be strictly alphanumeric"));
    }
    if !mask_alphanumeric {
        return Err(
            HttpError::with_detail(
                400,
                "mask should be strictly alphanumeric: ",
                param.mask.as_str(),
            ),
        );
    }
    let mask = match parse_mask(param.mask.as_str()) {
        Some(m) => m,
        None => {
            return Err(
                HttpError::with_detail(
                    400,
                    "mask should be a hex encoded 32-bit integer: ",
                    param.mask.as_str(),
                ),
            );
        },
    };
    let nonce_len: usize = param.nonce.as_str().as_bytes().len();
    if nonce_len > max_nonce_size {
        let mut out: Vec<char> = Vec::new();
        push_str(&mut out, "Nonce is too long (max size: ");
        push_decimal(&mut out, max_nonce_size as u64);
        push_str(&mut out, "): ");
        push_decimal(&mut out, nonce_len as u64);
        return Err(HttpError { code: 400, message: string_of(out.as_slice()) });
    }
    let include_pubkey = if str_eq(param.partial.as_str(), "0") {
        true
    } else if str_eq(param.partial.as_str(), "1") {
        false
    } else {
        return Err(HttpError::new(400, "uri must contain key 'partial' and value '0' or '1'"));
    };
    let nth_entry = parse_entry_index(&param.ima_ml_entry);
    proof {
        reveal_strlit("0");
        reveal_strlit("1");
        assert("0"@[0] != "1"@[0]);
    }
    Ok(
        IntegrityPlan {
            nonce: param.nonce.as_str().as_bytes_vec(),
            mask,
            include_pubkey,
            nth_entry,
            measured_boot: check_mask(mask, 0),
        },
    )
}

/// The extra data that binds a quote to the payload key: the SHA-256 digest
/// of the key's public part in PEM. An error is OpenSSL's.
pub fn payload_key_digest(payload_key_pem: &str) -> (r: Result<Vec<u8>, String>)
    ensures
        r matches Ok(d) ==> d@ == sha256(utf8(payload_key_pem@)),
{
    openssl_sha256(payload_key_pem.as_bytes())
}

/// The number of line feeds in a text.
pub open spec fn line_feeds(s: Seq<char>) -> nat
    decreases s.len(),
{
    if s.len() == 0 {
        0
    } else {
        line_feeds(s.drop_last()) + if s.last() == '\n' {
            1nat
        } else {
            0nat
        }
    }
}

/// The number of entries in a measurement list: one for each line, whether
/// its last line ends in a line feed or not.
pub open spec fn entry_count(log: Seq<char>) -> nat {
    line_feeds(log) + if log.len() > 0 && log.last() != '\n' {
        1nat
    } else {
        0nat
    }
}

/// The position behind the `n`-th line feed at or after `from`, or the
/// end of the text where it has fewer.
pub open spec fn behind_feeds(s: Seq<char>, n: nat, from: int) -> int
    decreases s.len() - from,
{
    if n == 0 || from < 0 {
        from
    } else if from >= s.len() {
        s.len() as int
    } else if s[from] == '\n' {
        behind_feeds(s, (n - 1) as nat, from + 1)
    } else {
        behind_feeds(s, n, from + 1)
    }
}

/// The first entry of the slice of a list for a request that asks for the
/// entries from `nth` on: `nth`, or the number of entries where the list
/// has fewer.
pub open spec fn slice_start(log: Seq<char>, nth: u64) -> nat {
    if nth < entry_count(log) {
        nth as nat
    } else {
        entry_count(log)
    }
}

/// The slice of a measurement list from entry `nth_entry` on: the text of
/// these entries, the index of the entry that follows them, which is the
/// number of entries of the list, and how many entries the slice holds.
pub fn ima_slice(log: &str, nth_entry: u64) -> (r: (String, u64, u64))
    ensures
        r.0@ == log@.skip(behind_feeds(log@, slice_start(log@, nth_entry), 0)),
        r.1 == entry_count(log@),
        r.2 == entry_count(log@) - slice_start(log@, nth_entry),
{
    let chars = chars_of(log);
    let mut feeds: usize = 0;
    let mut i: usize = 0;
    assert(chars@.take(0) =~= Seq::empty());
    while i < chars.len()
        invariant
            i <= chars.len(),
            feeds <= i,
            feeds == line_feeds(chars@.take(i as int)),
        decreases chars.len() - i,
    {
        proof {
            assert(chars@.take(i + 1).drop_last() == chars@.take(i as int));
            assert(chars@.take(i + 1).last() == chars@[i as int]);
        }
        if chars[i] == '\n' {
            feeds += 1;
        }
        i += 1;
    }
    assert(chars@.take(chars.len() as int) == chars@);
    let open_line = chars.len() > 0 && chars[chars.len() - 1] != '\n';
    assert(open_line ==> feeds < chars.len()) by {
        if open_line {
            let n = chars.len() as int;
            assert(chars@.take(n).drop_last() == chars@.take(n - 1));
            lemma_line_feeds_bound(chars@.take(n - 1));
        }
    }
    let total: usize = if open_line {
        feeds + 1
    } else {
        feeds
    };
    let start: usize = if nth_entry < total as u64 {
        nth_entry as usize
    } else {
        total
    };
    let mut left: usize = start;
    let mut at: usize = 0;
    while left > 0 && at < chars.len()
        invariant
            at <= chars.len(),
            behind_feeds(chars@, start as nat, 0) == behind_feeds(chars@, left as nat, at as int),
        decreases chars.len() - at,
    {
        if chars[at] == '\n' {
            left -= 1;
        }
        at += 1;
    }
    let text = crate::text::slice_of(chars.as_slice(), at, chars.len());
    assert(text@ == chars@.skip(at as int));
    (string_of(text.as_slice()), total as u64, (total - start) as u64)
}

/// A text has no more line feeds than characters.
pub proof fn lemma_line_feeds_bound(s: Seq<char>)
    ensures
        line_feeds(s) <= s.len(),
    decreases s.len(),
{
    if s.len() > 0 {
        lemma_line_feeds_bound(s.drop_last());
    }
}

/// The algorithms that the agent's attestation key was made with, by name.
#[derive(Debug)]
pub struct Algorithms {
    pub hash_alg: String,
    pub enc_alg: String,
    pub sign_alg: String,
}

pub open spec fn quote_unavailable() -> Seq<char> {
    "Unable to retrieve quote"@
}

pub open spec fn pubkey_unavailable() -> Seq<char> {
    "Unable to retrieve public key"@
}

/// The sensor summary of an identity quote: the detected sensor where the
/// unified identity feature is on, none where it is off.
pub open spec fn identity_geolocation(enabled: bool, sensor: Option<GeolocationView>) -> Option<
    GeolocationView,
> {
    if enabled {
        sensor
    } else {
        None
    }
}

/// The answer to an identity quote request.
///
/// `tpm_quote` is the quote over the nonce with an empty mask, and
/// `pubkey_pem` the payload public key as PEM; either is `None` where it
/// could not be had, and the answer is then a 500. The quote carries the
/// key always, the sensor summary if and only if the unified identity
/// feature is on and a sensor was found, and no measurement list.
pub fn identity_quote(
    tpm_quote: Option<String>,
    pubkey_pem: Option<String>,
    algorithms: Algorithms,
    unified_identity_enabled: bool,
    sensor: Option<Geolocation>,
) -> (r: Result<KeylimeQuote, HttpError>)
    ensures
        tpm_quote is None || pubkey_pem is None ==> (r matches Err(e) && e.is(
            500,
            quote_unavailable(),
        )),
        tpm_quote is Some && pubkey_pem is Some ==> (r matches Ok(quote)
            && quote@ == KeylimeQuoteView {
            quote: tpm_quote->0@,
            hash_alg: algorithms.hash_alg@,
            enc_alg: algorithms.enc_alg@,
            sign_alg: algorithms.sign_alg@,
            pubkey: Some(pubkey_pem->0@),
            ima_measurement_list: None,
            mb_measurement_list: None,
            ima_measurement_list_entry: None,
            geolocation: identity_geolocation(
                unified_identity_enabled,
                match sensor {
                    Some(g) => Some(g@),
                    None => None,
                },
            ),
        }),
{
    let quote = match tpm_quote {
        Some(q) => q,
        None => {
            return Err(HttpError::new(500, "Unable to retrieve quote"));
        },
    };
    let pubkey = match pubkey_pem {
        Some(k) => k,
        None => {
            return Err(HttpError::new(500, "Unable to retrieve quote"));
        },
    };
    let geolocation = if unified_identity_enabled {
        sensor
    } else {
        None
    };
    Ok(
        KeylimeQuote {
            quote,
            hash_alg: algorithms.hash_alg,
            enc_alg: algorithms.enc_alg,
            sign_alg: algorithms.sign_alg,
            pubkey: Some(pubkey),
            ima_measurement_list: None,
            mb_measurement_list: None,
            ima_measurement_list_entry: None,
            geolocation,
        },
    )
}

/// What became of reading the measured-boot event log.
#[derive(Debug)]
pub enum MeasuredBootLog {
    /// The agent has no such log.
    Missing,
    /// The log could not be rewound.
    RewindFailed,
    /// The log could not be read.
    ReadFailed,
    /// The whole log, from its start.
    Content(Vec<u8>),
}

/// What became of reading the IMA measurement list.
#[derive(Debug)]
pub enum ImaSlice {
    /// The agent has no such list.
    Missing,
    /// The list could not be read.
    ReadFailed,
    /// The entries from the index asked for: their text, and the index of
    /// the entry that follows them.
    Entries { text: String, next_entry: u64 },
}

/// What was gathered for an integrity quote. The measurement list is read
/// before the TPM is asked, so that the PCRs quoted cover every entry sent.
#[derive(Debug)]
pub struct IntegrityEvidence {
    /// The payload public key as PEM; `None` where it could not be had.
    pub pubkey_pem: Option<String>,
    pub measured_boot: MeasuredBootLog,
    pub ima: ImaSlice,
    /// The TPM's quote; `None` where the TPM failed.
    pub tpm_quote: Option<String>,
}

/// The status and message with which an integrity quote fails, if it does:
/// the key is wanted and could not be had, the measured-boot log is wanted
/// and could not be rewound, the measurement list could not be read, or the
/// TPM gave no quote.
pub open spec fn integrity_failure(
    include_pubkey: bool,
    measured_boot: bool,
    pubkey_missing: bool,
    rewind_failed: bool,
    ima_failed: bool,
    quote_missing: bool,
) -> Option<Seq<char>> {
    if include_pubkey && pubkey_missing {
        Some(pubkey_unavailable())
    } else if (measured_boot && rewind_failed) || ima_failed || quote_missing {
        Some(quote_unavailable())
    } else {
        None
    }
}

/// The measured-boot member of an integrity quote: the base64 text of the
/// log where the mask selects PCR 0 and the log was read, else none.
pub open spec fn measured_boot_text(wanted: bool, log: MeasuredBootLog) -> Option<Seq<char>> {
    match log {
        MeasuredBootLog::Content(bytes) => if wanted {
            Some(base64_text(bytes@))
        } else {
            None
        },
        _ => None,
    }
}

/// The answer to an integrity quote request that was found valid.
///
/// A failure to get the key, to rewind the measured-boot log, to read the
/// measurement list or to quote is a 500. Otherwise the quote carries the
/// key where `partial` was `0`, the measured-boot log where the mask selects
/// PCR 0 and the log could be read, and the slice of the measurement list
/// with the index of the next entry where the agent has such a list.
pub fn integrity_quote(plan: &IntegrityPlan, evidence: IntegrityEvidence, algorithms: Algorithms) -> (r:
    Result<KeylimeQuote, HttpError>)
    ensures
        match integrity_failure(
            plan.include_pubkey,
            plan.measured_boot,
            evidence.pubkey_pem is None,
            evidence.measured_boot is RewindFailed,
            evidence.ima is ReadFailed,
            evidence.tpm_quote is None,
        ) {
            Some(message) => r matches Err(e) && e.is(500, message),
            None => r matches Ok(quote) && quote@ == (KeylimeQuoteView {
                quote: evidence.tpm_quote->0@,
                hash_alg: algorithms.hash_alg@,
                enc_alg: algorithms.enc_alg@,
                sign_alg: algorithms.sign_alg@,
                pubkey: if plan.include_pubkey {
                    opt_view(evidence.pubkey_pem)
                } else {
                    None
                },
                ima_measurement_list: match evidence.ima {
                    ImaSlice::Entries { text, next_entry } => Some(text@),
                    _ => None,
                },
                mb_measurement_list: measured_boot_text(plan.measured_boot, evidence.measured_boot),
                ima_measurement_list_entry: match evidence.ima {
                    ImaSlice::Entries { text, next_entry } => Some(next_entry),
                    _ => None,
                },
                geolocation: None,
            }),
        },
{
    let pubkey = if plan.include_pubkey {
        match evidence.pubkey_pem {
            Some(k) => Some(k),
            None => {
                return Err(HttpError::new(500, "Unable to retrieve public key"));
            },
        }
    } else {
        None
    };
    let mb_measurement_list = match evidence.measured_boot {
        MeasuredBootLog::Content(bytes) => if plan.measured_boot {
            Some(base64_encode(bytes.as_slice()))
        } else {
            None
        },
        MeasuredBootLog::RewindFailed => {
            if plan.measured_boot {
                return Err(HttpError::new(500, "Unable to retrieve quote"));
            }
            None
        },
        _ => None,
    };
    let (ima_measurement_list, ima_measurement_list_entry) = match evidence.ima {
        ImaSlice::Entries { text, next_entry } => (Some(text), Some(next_entry)),
        ImaSlice::ReadFailed => {
            return Err(HttpError::new(500, "Unable to retrieve quote"));
        },
        ImaSlice::Missing => (None, None),
    };
    let quote = match evidence.tpm_quote {
        Some(q) => q,
        None => {
            return Err(HttpError::new(500, "Unable to retrieve quote"));
        },
    };
    Ok(
        KeylimeQuote {
            quote,
            hash_alg: algorithms.hash_alg,
            enc_alg: algorithms.enc_alg,
            sign_alg: algorithms.sign_alg,
            pubkey,
            ima_measurement_list,
            mb_measurement_list,
            ima_measurement_list_entry,
            geolocation: None,
        },
    )
}

} // verus!
