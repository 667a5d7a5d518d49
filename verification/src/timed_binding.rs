//! The geolocation of the host as one line of text, and its binding with a
//! nonce and a time into PCR 17.

use crate::codec::{push_bytes, sha2_256, sha2_digest, utf8};
use crate::geolocation::GEOLOCATION_PCR_INDEX;
use crate::text::{
    chars_of, contains, includes, lines, lowercase, push_chars, push_str, rows, split_lines,
    str_eq, string_of, to_lowercase, trim, trimmed,
};
use vstd::prelude::*;
use vstd::string::*;

verus! {

/// The hash algorithms that an attestation key can be made with.
#[derive(Debug, Clone, Copy, PartialEq, Eq, Structural)]
pub enum HashAlgorithm {
    Sha1,
    Sha256,
    Sha384,
    Sha512,
    Sm3_256,
}

/// The PCR bank that a digest is extended into under a hash algorithm: the
/// algorithm's own where it is SHA-256, SHA-384 or SHA-512, and SHA-256
/// otherwise.
pub open spec fn bank_of(alg: HashAlgorithm) -> HashAlgorithm {
    match alg {
        HashAlgorithm::Sha256 => HashAlgorithm::Sha256,
        HashAlgorithm::Sha384 => HashAlgorithm::Sha384,
        HashAlgorithm::Sha512 => HashAlgorithm::Sha512,
        _ => HashAlgorithm::Sha256,
    }
}

/// The PCR bank for a hash algorithm.
pub fn pcr_bank(alg: HashAlgorithm) -> (bank: HashAlgorithm)
    ensures
        bank == bank_of(alg),
{
    match alg {
        HashAlgorithm::Sha256 => HashAlgorithm::Sha256,
        HashAlgorithm::Sha384 => HashAlgorithm::Sha384,
        HashAlgorithm::Sha512 => HashAlgorithm::Sha512,
        _ => HashAlgorithm::Sha256,
    }
}

/// The value of the feature's environment variable turns the feature on:
/// it is `true`, `1` or `yes`, whatever the case of its letters.
pub open spec fn is_truthy(value: Option<Seq<char>>) -> bool {
    match value {
        Some(v) => says_yes(lowercase(v)),
        None => false,
    }
}

/// A value in small letters is `true`, `1` or `yes`.
pub open spec fn says_yes(lower: Seq<char>) -> bool {
    lower == "true"@ || lower == "1"@ || lower == "yes"@
}

/// Whether a value that was put into small letters turns a feature on.
pub fn lowered_says_yes(lower: &str) -> (b: bool)
    ensures
        b == says_yes(lower@),
{
    str_eq(lower, "true") || str_eq(lower, "1") || str_eq(lower, "yes")
}

/// Whether the unified identity feature is on, from the value of
/// `UNIFIED_IDENTITY_ENABLED`; `None` where the variable is not set.
pub fn is_unified_identity_enabled(value: Option<&str>) -> (b: bool)
    ensures
        b == is_truthy(
            match value {
                Some(v) => Some(v@),
                None => None,
            },
        ),
{
    match value {
        Some(v) => {
            let lower = to_lowercase(v);
            lowered_says_yes(lower.as_str())
        },
        None => false,
    }
}

/// The code of a character with an ASCII capital replaced by its small
/// letter.
pub open spec fn ascii_lower(c: char) -> u32 {
    if 'A' <= c <= 'Z' {
        (c as u32 + 32) as u32
    } else {
        c as u32
    }
}

/// Two texts are the same but for the case of their ASCII letters.
pub open spec fn same_ignoring_case(a: Seq<char>, b: Seq<char>) -> bool {
    a.len() == b.len() && forall|i: int| 0 <= i < a.len() ==> ascii_lower(#[trigger] a[i])
        == ascii_lower(b[i])
}

fn lower_code(c: char) -> (u: u32)
    ensures
        u == ascii_lower(c),
{
    if 'A' <= c && c <= 'Z' {
        c as u32 + 32
    } else {
        c as u32
    }
}

fn eq_ignoring_case(a: &[char], b: &[char]) -> (r: bool)
    ensures
        r == same_ignoring_case(a@, b@),
{
    if a.len() != b.len() {
        return false;
    }
    let mut i: usize = 0;
    while i < a.len()
        invariant
            i <= a.len(),
            a.len() == b.len(),
            forall|k: int| 0 <= k < i ==> ascii_lower(#[trigger] a@[k]) == ascii_lower(b@[k]),
        decreases a.len() - i,
    {
        if lower_code(a[i]) != lower_code(b[i]) {
            return false;
        }
        i += 1;
    }
    true
}

/// The location that the environment names for a host with a sensor: the
/// value of the variable without the white space around it, or `none` where
/// the variable is not set, is blank, or says `none` in any case.
pub open spec fn named_location(env: Option<Seq<char>>) -> Seq<char> {
    match env {
        Some(v) => if trim(v).len() > 0 && !same_ignoring_case(trim(v), "none"@) {
            trim(v)
        } else {
            "none"@
        },
        None => "none"@,
    }
}

/// The location that the environment names for a host without a sensor:
/// the value of the variable without the white space around it, or `none`
/// where the variable is not set or is blank.
pub open spec fn default_location(env: Option<Seq<char>>) -> Seq<char> {
    match env {
        Some(v) => if trim(v).len() > 0 {
            trim(v)
        } else {
            "none"@
        },
        None => "none"@,
    }
}

/// The identifier of the GNSS receiver that a line of the USB listing
/// names.
pub open spec fn gnss_id_in(line: Seq<char>) -> Option<Seq<char>> {
    if contains(line, "1546:01a7"@) {
        Some("1546:01a7"@)
    } else if contains(line, "1546:01a8"@) {
        Some("1546:01a8"@)
    } else if contains(line, "0403:6015"@) {
        Some("0403:6015"@)
    } else {
        None
    }
}

/// The identifier of the first GNSS receiver that the lines name.
pub open spec fn first_gnss_id(ls: Seq<Seq<char>>) -> Option<Seq<char>>
    decreases ls.len(),
{
    if ls.len() == 0 {
        None
    } else {
        match gnss_id_in(ls[0]) {
            Some(id) => Some(id),
            None => first_gnss_id(ls.drop_first()),
        }
    }
}

/// The geolocation of a host in one line. A host whose USB listing names
/// the known mobile sensor gives `mobile:{id}:{location}`; one whose
/// listing names a known GNSS receiver gives `GNSS:{id}:{location}`; the
/// location is the one that the environment names. Any other host gives the
/// environment's location alone.
pub open spec fn current_geolocation(listing: Seq<char>, env: Option<Seq<char>>) -> Seq<char> {
    if contains(listing, "12d1:1433"@) {
        "mobile:12d1:1433:"@ + named_location(env)
    } else if contains(listing, "1546:01a7"@) || contains(listing, "1546:01a8"@) || contains(
        listing,
        "0403:6015"@,
    ) {
        match first_gnss_id(lines(listing)) {
            Some(id) => "GNSS:"@ + id + ":"@ + named_location(env),
            None => named_location(env),
        }
    } else {
        default_location(env)
    }
}

fn location_named(env: Option<&str>, with_sensor: bool) -> (v: Vec<char>)
    ensures
        v@ == if with_sensor {
            named_location(
                match env {
                    Some(e) => Some(e@),
                    None => None,
                },
            )
        } else {
            default_location(
                match env {
                    Some(e) => Some(e@),
                    None => None,
                },
            )
        },
{
    match env {
        Some(e) => {
            let chars = chars_of(e);
            let t = trimmed(chars.as_slice());
            let none = chars_of("none");
            if t.len() > 0 && !(with_sensor && eq_ignoring_case(t.as_slice(), none.as_slice())) {
                t
            } else {
                none
            }
        },
        None => chars_of("none"),
    }
}

fn gnss_id_of(line: &[char]) -> (r: Option<Vec<char>>)
    ensures
        match r {
            Some(id) => gnss_id_in(line@) == Some(id@),
            None => gnss_id_in(line@) is None,
        },
{
    if includes(line, "1546:01a7") {
        Some(chars_of("1546:01a7"))
    } else if includes(line, "1546:01a8") {
        Some(chars_of("1546:01a8"))
    } else if includes(line, "0403:6015") {
        Some(chars_of("0403:6015"))
    } else {
        None
    }
}

/// The geolocation of a host in one line, from its USB listing and the
/// value of `KEYLIME_AGENT_GEOLOCATION`.
pub fn get_current_geolocation(usb_listing: &str, configured: Option<&str>) -> (r: String)
    ensures
        r@ == current_geolocation(
            usb_listing@,
            match configured {
                Some(e) => Some(e@),
                None => None,
            },
        ),
{
    let listing = chars_of(usb_listing);
    let mut out: Vec<char> = Vec::new();
    if includes(listing.as_slice(), "12d1:1433") {
        push_str(&mut out, "mobile:12d1:1433:");
        let location = location_named(configured, true);
        push_chars(&mut out, location.as_slice());
    } else if includes(listing.as_slice(), "1546:01a7") || includes(listing.as_slice(), "1546:01a8")
        || includes(listing.as_slice(), "0403:6015") {
        let ls = split_lines(listing.as_slice());
        let mut found: Option<Vec<char>> = None;
        let mut i: usize = 0;
        assert(rows(ls@).skip(0) == rows(ls@));
        while i < ls.len() && found.is_none()
            invariant
                i <= ls.len(),
                rows(ls@) == lines(usb_listing@),
                match found {
                    Some(id) => first_gnss_id(rows(ls@)) == Some(id@),
                    None => first_gnss_id(rows(ls@)) == first_gnss_id(rows(ls@).skip(i as int)),
                },
            decreases ls.len() - i,
        {
            proof {
                assert(rows(ls@).skip(i as int).drop_first() == rows(ls@).skip(i + 1));
                assert(rows(ls@).skip(i as int)[0] == ls@[i as int]@);
            }
            found = gnss_id_of(ls[i].as_slice());
            i += 1;
        }
        let location = location_named(configured, true);
        match found {
            Some(id) => {
                push_str(&mut out, "GNSS:");
                push_chars(&mut out, id.as_slice());
                push_str(&mut out, ":");
                push_chars(&mut out, location.as_slice());
            },
            None => {
                push_chars(&mut out, location.as_slice());
            },
        }
    } else {
        let location = location_named(configured, false);
        push_chars(&mut out, location.as_slice());
    }
    string_of(out.as_slice())
}

/// The eight bytes of `n`, the most significant first.
pub open spec fn be_bytes(n: u64) -> Seq<u8> {
    seq![
        ((n >> 56) & 0xff) as u8,
        ((n >> 48) & 0xff) as u8,
        ((n >> 40) & 0xff) as u8,
        ((n >> 32) & 0xff) as u8,
        ((n >> 24) & 0xff) as u8,
        ((n >> 16) & 0xff) as u8,
        ((n >> 8) & 0xff) as u8,
        (n & 0xff) as u8,
    ]
}

fn byte_at(n: u64, shift: u64) -> (b: u8)
    requires
        shift < 64,
    ensures
        b == ((n >> shift) & 0xff) as u8,
{
    let v: u64 = (n >> shift) & 0xff;
    assert(v <= 0xff) by (bit_vector)
        requires
            v == (n >> shift) & 0xff,
    ;
    v as u8
}

fn push_be_bytes(out: &mut Vec<u8>, n: u64)
    ensures
        final(out)@ == old(out)@ + be_bytes(n),
{
    let ghost before = out@;
    out.push(byte_at(n, 56));
    out.push(byte_at(n, 48));
    out.push(byte_at(n, 40));
    out.push(byte_at(n, 32));
    out.push(byte_at(n, 24));
    out.push(byte_at(n, 16));
    out.push(byte_at(n, 8));
    out.push(byte_at(n, 0));
    assert(n >> 0 == n) by (bit_vector);
    assert(out@ =~= before + be_bytes(n));
}

/// What is hashed to bind a geolocation, a nonce and a time: three labels
/// with the geolocation, the nonce and the eight bytes of the time behind
/// them.
pub open spec fn binding_input(geolocation: Seq<char>, nonce: Seq<u8>, timestamp: u64) -> Seq<u8> {
    utf8("Unified-Identity-Geolocation:"@) + utf8(geolocation) + utf8(":nonce:"@) + nonce + utf8(
        ":timestamp:"@,
    ) + be_bytes(timestamp)
}

/// The digest that binds a geolocation to a nonce and a time, in seconds
/// since the epoch: the SHA-256 digest of the binding input.
pub fn hash_geolocation_data(geolocation: &str, nonce: &[u8], timestamp: u64) -> (digest: Vec<u8>)
    ensures
        digest@ == sha2_256(binding_input(geolocation@, nonce@, timestamp)),
{
    let mut data: Vec<u8> = Vec::new();
    push_bytes(&mut data, "Unified-Identity-Geolocation:".as_bytes());
    push_bytes(&mut data, geolocation.as_bytes());
    push_bytes(&mut data, ":nonce:".as_bytes());
    push_bytes(&mut data, nonce);
    push_bytes(&mut data, ":timestamp:".as_bytes());
    push_be_bytes(&mut data, timestamp);
    assert(data@ =~= binding_input(geolocation@, nonce@, timestamp));
    sha2_digest(data.as_slice())
}

/// What the TPM is asked to do to bind the host's geolocation: PCR 17 is
/// reset and then extended with `digest` in the bank `bank`.
#[derive(Debug)]
pub struct PcrExtension {
    pub pcr_index: u32,
    pub bank: HashAlgorithm,
    pub digest: Vec<u8>,
    /// The geolocation that the digest binds; it goes into the answer.
    pub geolocation: String,
}

/// Prepares the binding of the host's geolocation into PCR 17.
///
/// The geolocation is read from the USB listing and the environment, and
/// hashed with the nonce and the time. The bank is that of the hash
/// algorithm, or SHA-256 where the algorithm has no bank of its own here.
pub fn extend_geolocation_into_pcr(
    usb_listing: &str,
    configured: Option<&str>,
    nonce: &[u8],
    timestamp: u64,
    hash_alg: HashAlgorithm,
) -> (r: PcrExtension)
    ensures
        r.pcr_index == GEOLOCATION_PCR_INDEX,
        r.bank == bank_of(hash_alg),
        r.geolocation@ == current_geolocation(
            usb_listing@,
            match configured {
                Some(e) => Some(e@),
                None => None,
            },
        ),
        r.digest@ == sha2_256(binding_input(r.geolocation@, nonce@, timestamp)),
{
    let geolocation = get_current_geolocation(usb_listing, configured);
    let digest = hash_geolocation_data(geolocation.as_str(), nonce, timestamp);
    PcrExtension { pcr_index: GEOLOCATION_PCR_INDEX, bank: pcr_bank(hash_alg), digest, geolocation }
}

} // verus!
