//! What a handler answers when it does not answer with a payload, and the
//! answers of the catch-all routes.

use crate::codec::json_string;
use crate::json::{
    finish, member_views, object_text, raw_member, render_object, string_member, text_member,
    Layout, Member,
};
use crate::text::{decimal, push_decimal, push_str, string_of};
use vstd::prelude::*;
use vstd::string::*;

verus! {

/// A refusal: the HTTP status code and the message of the error envelope.
#[derive(Debug)]
pub struct HttpError {
    pub code: u16,
    pub message: String,
}

impl HttpError {
    /// The refusal has this code and this message.
    pub open spec fn is(&self, code: u16, message: Seq<char>) -> bool {
        self.code == code && self.message@ == message
    }

    /// A refusal with the given code and message.
    pub fn new(code: u16, message: &str) -> (e: HttpError)
        ensures
            e.is(code, message@),
    {
        HttpError { code, message: String::from_str(message) }
    }

    /// A refusal whose message is `prefix` followed by `detail`.
    pub fn with_detail(code: u16, prefix: &str, detail: &str) -> (e: HttpError)
        ensures
            e.is(code, prefix@ + detail@),
    {
        let mut out: Vec<char> = Vec::new();
        push_str(&mut out, prefix);
        push_str(&mut out, detail);
        HttpError { code, message: string_of(out.as_slice()) }
    }
}

/// The envelope of an answer with a payload: the code 200, the status
/// `OK`, and the payload, which is JSON text, as the results.
pub open spec fn success_envelope(results: Seq<char>) -> Seq<char> {
    object_text(
        seq![("code"@, decimal(200)), ("status"@, json_string("OK"@)), ("results"@, results)],
        Layout::Compact,
    )
}

/// The envelope of a refusal: its code, its message as the status, and
/// empty results.
pub open spec fn error_envelope(code: u16, message: Seq<char>) -> Seq<char> {
    object_text(
        seq![
            ("code"@, decimal(code as nat)),
            ("status"@, json_string(message)),
            ("results"@, seq!['{', '}']),
        ],
        Layout::Compact,
    )
}

/// The body of an answer with a payload.
pub fn success_body(results_json: &str) -> (body: String)
    ensures
        body@ == success_envelope(results_json@),
{
    let mut code: Vec<char> = Vec::new();
    push_decimal(&mut code, 200);
    let mut ms: Vec<Member> = Vec::new();
    ms.push(raw_member("code", code));
    ms.push(string_member("status", "OK"));
    ms.push(text_member("results", results_json));
    assert(member_views(ms@) =~= seq![
        ("code"@, decimal(200)),
        ("status"@, json_string("OK"@)),
        ("results"@, results_json@),
    ]);
    finish(render_object(&ms, &Layout::Compact))
}

impl HttpError {
    /// The body of the answer that carries this refusal.
    pub fn body(&self) -> (body: String)
        ensures
            body@ == error_envelope(self.code, self.message@),
    {
        let mut code: Vec<char> = Vec::new();
        push_decimal(&mut code, self.code as u64);
        let mut ms: Vec<Member> = Vec::new();
        ms.push(raw_member("code", code));
        ms.push(string_member("status", self.message.as_str()));
        ms.push(text_member("results", "{}"));
        proof {
            reveal_strlit("{}");
            assert("{}"@ =~= seq!['{', '}']);
        }
        assert(member_views(ms@) =~= seq![
            ("code"@, decimal(self.code as nat)),
            ("status"@, json_string(self.message@)),
            ("results"@, seq!['{', '}']),
        ]);
        finish(render_object(&ms, &Layout::Compact))
    }
}

/// The view of an optional string.
pub open spec fn opt_view(o: Option<String>) -> Option<Seq<char>> {
    match o {
        Some(s) => Some(s@),
        None => None,
    }
}

/// The answer of a scope's catch-all route.
#[derive(Debug)]
pub struct DefaultAnswer {
    pub error: HttpError,
    /// The value of the `Allow` header, where the answer carries one.
    pub allow: Option<String>,
}

/// What the catch-all route of a scope answers whose routes all take the
/// method `allowed`: a request with that method went to a path that the
/// scope does not serve, which is a bad request; any other method is not
/// allowed, and the answer names the one that is.
pub open spec fn default_answer_spec(
    method: Seq<char>,
    allowed: Seq<char>,
    unknown_uri: Seq<char>,
    bad_method: Seq<char>,
) -> (u16, Seq<char>, Option<Seq<char>>) {
    if method == allowed {
        (400u16, unknown_uri, None)
    } else {
        (405u16, bad_method, Some(allowed))
    }
}

fn default_answer(method: &str, allowed: &str, unknown_uri: &str, bad_method: &str) -> (a:
    DefaultAnswer)
    ensures
        (a.error.code, a.error.message@, opt_view(a.allow)) == default_answer_spec(
            method@,
            allowed@,
            unknown_uri@,
            bad_method@,
        ),
{
    if crate::text::str_eq(method, allowed) {
        DefaultAnswer { error: HttpError::new(400, unknown_uri), allow: None }
    } else {
        DefaultAnswer {
            error: HttpError::new(405, bad_method),
            allow: Some(String::from_str(allowed)),
        }
    }
}

pub open spec fn quotes_unknown_uri() -> Seq<char> {
    "URI not supported, only /identity and /integrity are supported for GET in /quotes/ interface"@
}

pub open spec fn quotes_bad_method() -> Seq<char> {
    "Method is not supported in /quotes/ interface"@
}

/// The catch-all route of the `/quotes` scope: 400 for a `GET`, 405 with
/// `Allow: GET` for any other method.
pub fn quotes_default(method: &str) -> (a: DefaultAnswer)
    ensures
        (a.error.code, a.error.message@, opt_view(a.allow)) == default_answer_spec(
            method@,
            "GET"@,
            quotes_unknown_uri(),
            quotes_bad_method(),
        ),
{
    default_answer(
        method,
        "GET",
        "URI not supported, only /identity and /integrity are supported for GET in /quotes/ interface",
        "Method is not supported in /quotes/ interface",
    )
}

pub open spec fn certification_unknown_uri() -> Seq<char> {
    "URI not supported, only /certify_app_key is supported for POST in /delegated_certification interface"@
}

pub open spec fn certification_bad_method() -> Seq<char> {
    "Method is not supported in /delegated_certification interface"@
}

/// The catch-all route of the `/delegated_certification` scope: 400 for a
/// `POST`, 405 with `Allow: POST` for any other method.
pub fn delegated_certification_default(method: &str) -> (a: DefaultAnswer)
    ensures
        (a.error.code, a.error.message@, opt_view(a.allow)) == default_answer_spec(
            method@,
            "POST"@,
            certification_unknown_uri(),
            certification_bad_method(),
        ),
{
    default_answer(
        method,
        "POST",
        "URI not supported, only /certify_app_key is supported for POST in /delegated_certification interface",
        "Method is not supported in /delegated_certification interface",
    )
}

} // verus!
