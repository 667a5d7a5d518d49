//! Encodings and digests: hexadecimal, base64, SHA-256, and the JSON text
//! that the agent writes.

use crate::text::{digit_char, hex_digit_value, is_hex_digit};
use base64::Engine;
use sha2::Digest;
use vstd::prelude::*;
use vstd::string::*;

verus! {

/// An even number of hexadecimal digits.
pub open spec fn is_hex_text(s: Seq<char>) -> bool {
    s.len() % 2 == 0 && forall|i: int| 0 <= i < s.len() ==> is_hex_digit(#[trigger] s[i])
}

/// The bytes that a hexadecimal text stands for, two digits to a byte, the
/// first of them the high half.
pub open spec fn hex_bytes(s: Seq<char>) -> Seq<u8> {
    Seq::new(
        s.len() / 2,
        |i: int| (16 * hex_digit_value(s[2 * i]) + hex_digit_value(s[2 * i + 1])) as u8,
    )
}

/// The SHA-256 digest of `data`, as OpenSSL computes it.
pub uninterp spec fn sha256(data: Seq<u8>) -> Seq<u8>;

/// The SHA-256 digest of `data`, as the `sha2` crate computes it.
pub uninterp spec fn sha2_256(data: Seq<u8>) -> Seq<u8>;

/// The base64 text of `data` in the standard alphabet, with padding.
pub uninterp spec fn base64_text(data: Seq<u8>) -> Seq<char>;

/// The bytes that the base64 text `text` stands for under the standard
/// alphabet with padding, where it is such a text.
pub uninterp spec fn base64_bytes(text: Seq<char>) -> Option<Seq<u8>>;

/// The public key of the PEM document `pem`, written again as a PEM
/// `PUBLIC KEY` document, where `pem` holds a public key.
pub uninterp spec fn public_key_pem(pem: Seq<u8>) -> Option<Seq<u8>>;

/// The HMAC of `data` under `key` with SHA-384, as OpenSSL computes it.
pub uninterp spec fn hmac_sha384(key: Seq<u8>, data: Seq<u8>) -> Seq<u8>;

/// The hexadecimal text of bytes: two digits to a byte, the high half
/// first, the letters small.
pub open spec fn hex_text(data: Seq<u8>) -> Seq<char>
    decreases data.len(),
{
    if data.len() == 0 {
        Seq::empty()
    } else {
        hex_text(data.drop_last()) + seq![
            hex_lower(data.last() as int / 16),
            hex_lower(data.last() as int % 16),
        ]
    }
}

/// `hex::encode`: two small hexadecimal digits for each byte.
#[verifier::external_body]
pub(crate) fn hex_encode(data: &[u8]) -> (r: String)
    ensures
        r@ == hex_text(data@),
{
    hex::encode(data)
}

/// `PKey::hmac`, `Signer::new` with `MessageDigest::sha384()`,
/// `Signer::update` and `Signer::sign_to_vec` of the openssl crate, one after
/// the other: a tag that comes back is the HMAC-SHA384 of `data` under
/// `key`. OpenSSL takes no key longer than a C `int` counts, and may report
/// a failure of its own.
#[verifier::external_body]
pub(crate) fn openssl_hmac_sha384(key: &[u8], data: &[u8]) -> (r: Result<Vec<u8>, String>)
    requires
        key@.len() <= 0x7fff_ffff,
    ensures
        r matches Ok(mac) ==> mac@ == hmac_sha384(key@, data@),
{
    let key = openssl::pkey::PKey::hmac(key).map_err(|e| e.to_string())?;
    let mut signer = openssl::sign::Signer::new(openssl::hash::MessageDigest::sha384(), &key)
        .map_err(|e| e.to_string())?;
    signer.update(data).map_err(|e| e.to_string())?;
    signer.sign_to_vec().map_err(|e| e.to_string())
}

/// `hex::decode`: succeeds on an even number of hexadecimal digits, of
/// either case, and on nothing else; each pair of digits gives one byte. The
/// error carries the crate's own wording.
#[verifier::external_body]
pub(crate) fn hex_decode(s: &str) -> (r: Result<Vec<u8>, String>)
    ensures
        r is Ok <==> is_hex_text(s@),
        r matches Ok(b) ==> b@ == hex_bytes(s@),
{
    hex::decode(s).map_err(|e| e.to_string())
}

/// `openssl::hash::hash` with `MessageDigest::sha256()`. OpenSSL may report
/// a failure of its own; a digest that it returns is the SHA-256 of `data`.
#[verifier::external_body]
pub(crate) fn openssl_sha256(data: &[u8]) -> (r: Result<Vec<u8>, String>)
    ensures
        r matches Ok(d) ==> d@ == sha256(data@),
{
    openssl::hash::hash(openssl::hash::MessageDigest::sha256(), data)
        .map(|d| d.to_vec())
        .map_err(|e| e.to_string())
}

/// `Sha256::digest` of the `sha2` crate.
#[verifier::external_body]
pub(crate) fn sha2_digest(data: &[u8]) -> (d: Vec<u8>)
    ensures
        d@ == sha2_256(data@),
{
    sha2::Sha256::digest(data).to_vec()
}

/// `encode` of the base64 crate's `STANDARD` engine.
#[verifier::external_body]
pub(crate) fn base64_encode(data: &[u8]) -> (r: String)
    ensures
        r@ == base64_text(data@),
{
    base64::engine::general_purpose::STANDARD.encode(data)
}

/// `decode` of the base64 crate's `STANDARD` engine: the bytes where the
/// text is valid, nothing where it is not.
#[verifier::external_body]
pub(crate) fn base64_decode(text: &str) -> (r: Option<Vec<u8>>)
    ensures
        match r {
            Some(b) => base64_bytes(text@) == Some(b@),
            None => base64_bytes(text@) is None,
        },
{
    base64::engine::general_purpose::STANDARD.decode(text).ok()
}

/// `PKey::public_key_from_pem` followed by `public_key_to_pem` of the
/// openssl crate. A document that it returns is the key of `pem` in
/// OpenSSL's own PEM form; on failure the error is OpenSSL's. OpenSSL takes
/// no document longer than a C `int` counts.
#[verifier::external_body]
pub(crate) fn reencode_public_key(pem: &[u8]) -> (r: Result<Vec<u8>, String>)
    requires
        pem@.len() <= 0x7fff_ffff,
    ensures
        r matches Ok(out) ==> public_key_pem(pem@) == Some(out@),
{
    let key = openssl::pkey::PKey::public_key_from_pem(pem).map_err(|e| e.to_string())?;
    key.public_key_to_pem().map_err(|e| e.to_string())
}

/// `String::from_utf8` of std: the text where the bytes are valid UTF-8.
#[verifier::external_body]
pub(crate) fn utf8_text(bytes: Vec<u8>) -> (r: Option<String>)
    ensures
        match r {
            Some(s) => vstd::utf8::valid_utf8(bytes@) && s@ == vstd::utf8::decode_utf8(bytes@),
            None => !vstd::utf8::valid_utf8(bytes@),
        },
{
    String::from_utf8(bytes).ok()
}

/// The lower-case hexadecimal digit for a value below sixteen.
pub open spec fn hex_lower(v: int) -> char {
    if v < 10 {
        digit_char(v as nat)
    } else if v == 10 {
        'a'
    } else if v == 11 {
        'b'
    } else if v == 12 {
        'c'
    } else if v == 13 {
        'd'
    } else if v == 14 {
        'e'
    } else {
        'f'
    }
}

/// How one character stands inside a JSON string: the quotation mark and
/// the reverse solidus behind a reverse solidus, the control characters
/// below U+0020 by their short names or as `\u00XX`, all others as they are.
pub open spec fn json_escape_char(c: char) -> Seq<char> {
    let u = c as u32;
    if c == '"' {
        seq!['\\', '"']
    } else if c == '\\' {
        seq!['\\', '\\']
    } else if u == 0x08 {
        seq!['\\', 'b']
    } else if u == 0x0c {
        seq!['\\', 'f']
    } else if u == 0x0a {
        seq!['\\', 'n']
    } else if u == 0x0d {
        seq!['\\', 'r']
    } else if u == 0x09 {
        seq!['\\', 't']
    } else if u < 0x20 {
        seq!['\\', 'u', '0', '0', hex_lower(u as int / 16), hex_lower(u as int % 16)]
    } else {
        seq![c]
    }
}

/// The characters of `s` as they stand inside a JSON string.
pub open spec fn json_escape(s: Seq<char>) -> Seq<char>
    decreases s.len(),
{
    if s.len() == 0 {
        Seq::empty()
    } else {
        json_escape(s.drop_last()) + json_escape_char(s.last())
    }
}

/// The JSON string that holds `s`.
pub open spec fn json_string(s: Seq<char>) -> Seq<char> {
    seq!['"'] + json_escape(s) + seq!['"']
}

fn hex_lower_of(v: u32) -> (c: char)
    requires
        v < 16,
    ensures
        c == hex_lower(v as int),
{
    if v == 0 {
        '0'
    } else if v == 1 {
        '1'
    } else if v == 2 {
        '2'
    } else if v == 3 {
        '3'
    } else if v == 4 {
        '4'
    } else if v == 5 {
        '5'
    } else if v == 6 {
        '6'
    } else if v == 7 {
        '7'
    } else if v == 8 {
        '8'
    } else if v == 9 {
        '9'
    } else if v == 10 {
        'a'
    } else if v == 11 {
        'b'
    } else if v == 12 {
        'c'
    } else if v == 13 {
        'd'
    } else if v == 14 {
        'e'
    } else {
        'f'
    }
}

fn push_json_char(out: &mut Vec<char>, c: char)
    ensures
        final(out)@ == old(out)@ + json_escape_char(c),
{
    let ghost before = out@;
    let u: u32 = c as u32;
    if c == '"' {
        out.push('\\');
        out.push('"');
    } else if c == '\\' {
        out.push('\\');
        out.push('\\');
    } else if u == 0x08 {
        out.push('\\');
        out.push('b');
    } else if u == 0x0c {
        out.push('\\');
        out.push('f');
    } else if u == 0x0a {
        out.push('\\');
        out.push('n');
    } else if u == 0x0d {
        out.push('\\');
        out.push('r');
    } else if u == 0x09 {
        out.push('\\');
        out.push('t');
    } else if u < 0x20 {
        out.push('\\');
        out.push('u');
        out.push('0');
        out.push('0');
        out.push(hex_lower_of(u / 16));
        out.push(hex_lower_of(u % 16));
    } else {
        out.push(c);
    }
    assert(out@ == before + json_escape_char(c));
}

/// Appends the JSON string that holds `s`.
pub fn push_json_string(out: &mut Vec<char>, s: &str)
    ensures
        final(out)@ == old(out)@ + json_string(s@),
{
    let ghost before = out@;
    out.push('"');
    for c in it: s.chars()
        invariant
            it.seq() == s@,
            out@ == before + seq!['"'] + json_escape(s@.take(it.index() as int)),
    {
        let ghost i = it.index() as int;
        proof {
            assert(s@.take(i + 1).drop_last() == s@.take(i));
            assert(s@.take(i + 1).last() == c);
        }
        push_json_char(out, c);
    }
    assert(s@.take(s@.len() as int) == s@);
    out.push('"');
    assert(out@ == before + json_string(s@));
}

/// Appends `bytes` to `out`.
pub fn push_bytes(out: &mut Vec<u8>, bytes: &[u8])
    ensures
        final(out)@ == old(out)@ + bytes@,
{
    let ghost before = out@;
    let mut i: usize = 0;
    while i < bytes.len()
        invariant
            i <= bytes.len(),
            out@ == before + bytes@.take(i as int),
        decreases bytes.len() - i,
    {
        out.push(bytes[i]);
        i += 1;
    }
    assert(bytes@.take(bytes.len() as int) == bytes@);
}

/// The UTF-8 bytes of a text.
pub open spec fn utf8(s: Seq<char>) -> Seq<u8> {
    vstd::utf8::encode_utf8(s)
}

} // verus!
