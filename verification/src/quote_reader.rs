//! Reading a quote back from its JSON text.

use crate::http::opt_view;
use crate::json_value::{as_value, field, get, json_parsed, member_of, parse_json, Json};
use crate::number::{parse_decimal_u64, unsigned_up_to};
use crate::quote::{Geolocation, GeolocationView, KeylimeQuote, KeylimeQuoteView};
use crate::text::chars_of;
use vstd::prelude::*;
use vstd::string::*;

verus! {

/// What a member that may be absent holds: nothing where it is absent or
/// `null`, its text where it is a string. `None` where it is anything else.
pub open spec fn optional_text(j: Option<Json>) -> Option<Option<Seq<char>>> {
    match j {
        None => Some(None),
        Some(Json::Null) => Some(None),
        Some(Json::Text(s)) => Some(Some(s@)),
        Some(_) => None,
    }
}

/// What a member that may be absent holds as an unsigned number of 64
/// bits.
pub open spec fn optional_number(j: Option<Json>) -> Option<Option<u64>> {
    match j {
        None => Some(None),
        Some(Json::Null) => Some(None),
        Some(Json::Number(n)) => match unsigned_up_to(n@, 10, u64::MAX as int) {
            Some(v) => Some(Some(v as u64)),
            None => None,
        },
        Some(_) => None,
    }
}

/// The sensor summary that a JSON object holds: each of its members where
/// it is a string.
pub open spec fn summary_of(doc: Json) -> Option<GeolocationView> {
    let kind = optional_text(member_of(doc, "type"@));
    let id = optional_text(member_of(doc, "sensor_id"@));
    let value = optional_text(member_of(doc, "value"@));
    let imei = optional_text(member_of(doc, "sensor_imei"@));
    let imsi = optional_text(member_of(doc, "sensor_imsi"@));
    if doc is Object && kind is Some && id is Some && value is Some && imei is Some && imsi
        is Some {
        Some(
            GeolocationView {
                sensor_type: kind->0,
                sensor_id: id->0,
                value: value->0,
                sensor_imei: imei->0,
                sensor_imsi: imsi->0,
            },
        )
    } else {
        None
    }
}

/// What the member `geolocation` of a quote holds.
pub open spec fn optional_summary(j: Option<Json>) -> Option<Option<GeolocationView>> {
    match j {
        None => Some(None),
        Some(Json::Null) => Some(None),
        Some(doc) => match summary_of(doc) {
            Some(g) => Some(Some(g)),
            None => None,
        },
    }
}

/// The text of a member that must be there as a string.
pub open spec fn required_text(j: Option<Json>) -> Option<Seq<char>> {
    match j {
        Some(Json::Text(s)) => Some(s@),
        _ => None,
    }
}

/// The quote that a JSON object holds: its four required members must be
/// strings; each of the others may be absent or `null`, and must be of its
/// kind where it is there. Members that a quote does not have are passed
/// over.
pub open spec fn quote_of(doc: Json) -> Option<KeylimeQuoteView> {
    let quote = required_text(member_of(doc, "quote"@));
    let hash_alg = required_text(member_of(doc, "hash_alg"@));
    let enc_alg = required_text(member_of(doc, "enc_alg"@));
    let sign_alg = required_text(member_of(doc, "sign_alg"@));
    let pubkey = optional_text(member_of(doc, "pubkey"@));
    let ima = optional_text(member_of(doc, "ima_measurement_list"@));
    let mb = optional_text(member_of(doc, "mb_measurement_list"@));
    let entry = optional_number(member_of(doc, "ima_measurement_list_entry"@));
    let geolocation = optional_summary(member_of(doc, "geolocation"@));
    if quote is Some && hash_alg is Some && enc_alg is Some && sign_alg is Some && pubkey is Some
        && ima is Some && mb is Some && entry is Some && geolocation is Some {
        Some(
            KeylimeQuoteView {
                quote: quote->0,
                hash_alg: hash_alg->0,
                enc_alg: enc_alg->0,
                sign_alg: sign_alg->0,
                pubkey: pubkey->0,
                ima_measurement_list: ima->0,
                mb_measurement_list: mb->0,
                ima_measurement_list_entry: entry->0,
                geolocation: geolocation->0,
            },
        )
    } else {
        None
    }
}

fn read_optional_text(j: Option<&Json>) -> (r: Option<Option<String>>)
    ensures
        match optional_text(as_value(j)) {
            Some(t) => r matches Some(s) && opt_view(s) == t,
            None => r is None,
        },
{
    match j {
        None => Some(None),
        Some(Json::Null) => Some(None),
        Some(Json::Text(s)) => Some(Some(s.clone())),
        Some(_) => None,
    }
}

fn read_required_text(j: Option<&Json>) -> (r: Option<String>)
    ensures
        opt_view(r) == required_text(as_value(j)),
{
    match j {
        Some(Json::Text(s)) => Some(s.clone()),
        _ => None,
    }
}

fn read_optional_number(j: Option<&Json>) -> (r: Option<Option<u64>>)
    ensures
        r == optional_number(as_value(j)),
{
    match j {
        None => Some(None),
        Some(Json::Null) => Some(None),
        Some(Json::Number(n)) => {
            let digits = chars_of(n.as_str());
            match parse_decimal_u64(digits.as_slice()) {
                Some(v) => Some(Some(v)),
                None => None,
            }
        },
        Some(_) => None,
    }
}

/// The view of an optional sensor summary.
pub open spec fn summary_view(g: Option<Geolocation>) -> Option<GeolocationView> {
    match g {
        Some(x) => Some(x@),
        None => None,
    }
}

/// The view of an optional quote.
pub open spec fn quote_view(q: Option<KeylimeQuote>) -> Option<KeylimeQuoteView> {
    match q {
        Some(x) => Some(x@),
        None => None,
    }
}

impl Geolocation {
    /// The sensor summary that a JSON value holds.
    pub fn from_value(doc: &Json) -> (r: Option<Geolocation>)
        ensures
            summary_view(r) == summary_of(*doc),
    {
        if !doc.is_object() {
            return None;
        }
        let kind = read_optional_text(doc.member("type"));
        let id = read_optional_text(doc.member("sensor_id"));
        let value = read_optional_text(doc.member("value"));
        let imei = read_optional_text(doc.member("sensor_imei"));
        let imsi = read_optional_text(doc.member("sensor_imsi"));
        match (kind, id, value, imei, imsi) {
            (Some(sensor_type), Some(sensor_id), Some(value), Some(sensor_imei), Some(sensor_imsi)) => Some(
                Geolocation { sensor_type, sensor_id, value, sensor_imei, sensor_imsi },
            ),
            _ => None,
        }
    }
}

impl KeylimeQuote {
    /// The quote that a JSON value holds.
    pub fn from_value(doc: &Json) -> (r: Option<KeylimeQuote>)
        ensures
            quote_view(r) == quote_of(*doc),
    {
        let quote = read_required_text(doc.member("quote"));
        let hash_alg = read_required_text(doc.member("hash_alg"));
        let enc_alg = read_required_text(doc.member("enc_alg"));
        let sign_alg = read_required_text(doc.member("sign_alg"));
        let pubkey = read_optional_text(doc.member("pubkey"));
        let ima = read_optional_text(doc.member("ima_measurement_list"));
        let mb = read_optional_text(doc.member("mb_measurement_list"));
        let entry = read_optional_number(doc.member("ima_measurement_list_entry"));
        let geolocation: Option<Option<Geolocation>> = match doc.member("geolocation") {
            None => Some(None),
            Some(Json::Null) => Some(None),
            Some(g) => match Geolocation::from_value(g) {
                Some(s) => Some(Some(s)),
                None => None,
            },
        };
        match (quote, hash_alg, enc_alg, sign_alg, pubkey, ima, mb, entry, geolocation) {
            (
                Some(quote),
                Some(hash_alg),
                Some(enc_alg),
                Some(sign_alg),
                Some(pubkey),
                Some(ima_measurement_list),
                Some(mb_measurement_list),
                Some(ima_measurement_list_entry),
                Some(geolocation),
            ) => Some(
                KeylimeQuote {
                    quote,
                    hash_alg,
                    enc_alg,
                    sign_alg,
                    pubkey,
                    ima_measurement_list,
                    mb_measurement_list,
                    ima_measurement_list_entry,
                    geolocation,
                },
            ),
            _ => None,
        }
    }

    /// Reads a quote from JSON text: the quote of the value that the text
    /// holds, where it holds one.
    pub fn from_json(text: &str) -> (r: Option<KeylimeQuote>)
        ensures
            quote_view(r) == match json_parsed(text@) {
                Some(doc) => quote_of(doc),
                None => None,
            },
    {
        match parse_json(text) {
            Some(doc) => KeylimeQuote::from_value(&doc),
            None => None,
        }
    }
}

} // verus!
