//! The registrar client: where the registrar is, which API versions it and
//! the agent speak, and in which order the agent tries them.
//!
//! The client decides and never sends. A caller asks it for the next
//! attempt, sends the request, and hands the outcome back; the client then
//! says whether that ends the exchange.

use crate::http::opt_view;
use crate::ip::{bracketed, parse_registrar_address};
use crate::text::{
    chars_of, decimal, join, join_strings, lemma_views_push, push_decimal, push_str, same_chars,
    str_eq, string_of, trim, trimmed, views,
};
use vstd::prelude::*;
use vstd::string::*;

verus! {

/// The API version of a registrar that has no `/version` endpoint.
pub const UNKNOWN_API_VERSION: &'static str = "unknown";

/// How requests to the registrar are repeated.
#[derive(Debug, Clone, Copy)]
pub struct RetryConfig {
    pub max_retries: u32,
    pub initial_delay_ms: u64,
    pub max_delay_ms: Option<u64>,
}

/// Two to the power `i`.
pub open spec fn pow2(i: nat) -> nat
    decreases i,
{
    if i == 0 {
        1
    } else {
        2 * pow2((i - 1) as nat)
    }
}

/// The delay before retry number `i`, counted from 0: the initial delay
/// doubled `i` times, and no more than the largest delay where one is set.
pub open spec fn retry_delay(initial: nat, max: Option<u64>, i: nat) -> nat {
    let raw = initial * pow2(i);
    match max {
        Some(m) => if raw < m {
            raw
        } else {
            m as nat
        },
        None => raw,
    }
}

pub proof fn lemma_pow2_positive(i: nat)
    ensures
        pow2(i) >= 1,
    decreases i,
{
    if i > 0 {
        lemma_pow2_positive((i - 1) as nat);
    }
}

impl RetryConfig {
    /// The delay in milliseconds before retry number `i`; `u64::MAX` where
    /// the delay does not fit.
    pub fn delay_ms(&self, i: u32) -> (d: u64)
        ensures
            d == if retry_delay(self.initial_delay_ms as nat, self.max_delay_ms, i as nat)
                <= u64::MAX {
                retry_delay(self.initial_delay_ms as nat, self.max_delay_ms, i as nat)
            } else {
                u64::MAX as nat
            },
    {
        let cap: u128 = 0x1_0000_0000_0000_0000;
        let mut raw: u128 = self.initial_delay_ms as u128;
        let mut k: u32 = 0;
        assert(self.initial_delay_ms * pow2(0) == self.initial_delay_ms) by (nonlinear_arith)
            requires
                pow2(0) == 1,
        ;
        while k < i
            invariant
                k <= i,
                cap == 0x1_0000_0000_0000_0000,
                raw <= cap,
                raw == if self.initial_delay_ms * pow2(k as nat) < cap {
                    self.initial_delay_ms * pow2(k as nat)
                } else {
                    cap as int
                },
            decreases i - k,
        {
            proof {
                lemma_pow2_positive(k as nat);
                assert(self.initial_delay_ms * pow2((k + 1) as nat) == 2 * (self.initial_delay_ms
                    * pow2(k as nat))) by (nonlinear_arith)
                    requires
                        pow2((k + 1) as nat) == 2 * pow2(k as nat),
                ;
            }
            raw = raw * 2;
            if raw > cap {
                raw = cap;
            }
            k += 1;
        }
        let bounded: u128 = match self.max_delay_ms {
            Some(m) => if raw < m as u128 {
                raw
            } else {
                m as u128
            },
            None => raw,
        };
        if bounded >= cap {
            u64::MAX
        } else {
            bounded as u64
        }
    }

    /// Whether a request is sent once more after `attempts` retries: while
    /// retries are left, after a transport failure (`status` is `None`) and
    /// after any status but 200.
    pub fn should_retry(&self, attempts: u32, status: Option<u16>) -> (b: bool)
        ensures
            b == (attempts < self.max_retries && status != Some(200u16)),
    {
        attempts < self.max_retries && match status {
            Some(code) => code != 200,
            None => true,
        }
    }
}

/// Why a client could not be built.
#[derive(Debug)]
pub enum RegistrarClientBuilderError {
    /// Registrar IP or hostname not set
    RegistrarIPNotSet,
    /// The registrar does not support the `/version` endpoint
    RegistrarNoVersion,
    /// Registrar port not set
    RegistrarPortNotSet,
    /// The request failed; the text is the HTTP client's
    Reqwest(String),
    /// The retrying layer failed; the text is its own
    Middleware(String),
}

impl RegistrarClientBuilderError {
    pub open spec fn message_spec(&self) -> Seq<char> {
        match self {
            RegistrarClientBuilderError::RegistrarIPNotSet => "Registrar IP or hostname not set"@,
            RegistrarClientBuilderError::RegistrarNoVersion => "Registrar does not support the /version endpoint"@,
            RegistrarClientBuilderError::RegistrarPortNotSet => "Registrar port not set"@,
            RegistrarClientBuilderError::Reqwest(e) => "Reqwest error: "@ + e@,
            RegistrarClientBuilderError::Middleware(e) => "Middleware error: "@ + e@,
        }
    }

    /// The error in words.
    pub fn message(&self) -> (s: String)
        ensures
            s@ == self.message_spec(),
    {
        let mut out: Vec<char> = Vec::new();
        match self {
            RegistrarClientBuilderError::RegistrarIPNotSet => {
                push_str(&mut out, "Registrar IP or hostname not set");
            },
            RegistrarClientBuilderError::RegistrarNoVersion => {
                push_str(&mut out, "Registrar does not support the /version endpoint");
            },
            RegistrarClientBuilderError::RegistrarPortNotSet => {
                push_str(&mut out, "Registrar port not set");
            },
            RegistrarClientBuilderError::Reqwest(e) => {
                push_str(&mut out, "Reqwest error: ");
                push_str(&mut out, e.as_str());
            },
            RegistrarClientBuilderError::Middleware(e) => {
                push_str(&mut out, "Middleware error: ");
                push_str(&mut out, e.as_str());
            },
        }
        string_of(out.as_slice())
    }
}

/// Why a registration or an activation failed.
#[derive(Debug)]
pub enum RegistrarClientError {
    /// Activation failure
    Activation { addr: String, code: u16 },
    /// All tried API versions were rejected
    AllAPIVersionsRejected(String),
    /// Incompatible configured API versions
    IncompatibleAPI { agent_enabled: String, registrar_supported: String },
    /// The information provided by the registrar is inconsistent
    Inconsistent(String),
    /// Error has no code
    NoCode(String),
    /// Registration failure
    Registration { addr: String, code: u16 },
    /// The request failed; the text is the HTTP client's
    Reqwest(String),
    /// The body could not be written or read as JSON; the text is the
    /// parser's
    Serde(String),
    /// The retrying layer failed; the text is its own
    Middleware(String),
}

pub ghost enum ErrorView {
    Activation { addr: Seq<char>, code: u16 },
    AllAPIVersionsRejected(Seq<char>),
    IncompatibleAPI { agent_enabled: Seq<char>, registrar_supported: Seq<char> },
    Inconsistent(Seq<char>),
    NoCode(Seq<char>),
    Registration { addr: Seq<char>, code: u16 },
    Reqwest(Seq<char>),
    Serde(Seq<char>),
    Middleware(Seq<char>),
}

impl View for RegistrarClientError {
    type V = ErrorView;

    open spec fn view(&self) -> ErrorView {
        match self {
            RegistrarClientError::Activation { addr, code } => ErrorView::Activation {
                addr: addr@,
                code: *code,
            },
            RegistrarClientError::AllAPIVersionsRejected(s) => ErrorView::AllAPIVersionsRejected(
                s@,
            ),
            RegistrarClientError::IncompatibleAPI {
                agent_enabled,
                registrar_supported,
            } => ErrorView::IncompatibleAPI {
                agent_enabled: agent_enabled@,
                registrar_supported: registrar_supported@,
            },
            RegistrarClientError::Inconsistent(s) => ErrorView::Inconsistent(s@),
            RegistrarClientError::NoCode(s) => ErrorView::NoCode(s@),
            RegistrarClientError::Registration { addr, code } => ErrorView::Registration {
                addr: addr@,
                code: *code,
            },
            RegistrarClientError::Reqwest(s) => ErrorView::Reqwest(s@),
            RegistrarClientError::Serde(s) => ErrorView::Serde(s@),
            RegistrarClientError::Middleware(s) => ErrorView::Middleware(s@),
        }
    }
}

impl ErrorView {
    pub open spec fn message(self) -> Seq<char> {
        match self {
            ErrorView::Activation { addr, code } => "Failed to activate agent: received "@
                + decimal(code as nat) + " from "@ + addr,
            ErrorView::AllAPIVersionsRejected(tried) => "None of the tried API versions were enabled: tried '"@
                + tried + "'"@,
            ErrorView::IncompatibleAPI {
                agent_enabled,
                registrar_supported,
            } => "Registrar and agent API versions are incompatible: agent enabled APIs '"@
                + agent_enabled + "', registrar supported APIs '"@ + registrar_supported + "'"@,
            ErrorView::Inconsistent(current) => "Inconsistent information from registrar: current API version = '"@
                + current + "', but no list of supported API versions was provided"@,
            ErrorView::NoCode(what) => "cannot get error code for type "@ + what,
            ErrorView::Registration { addr, code } => "Failed to register agent: received "@
                + decimal(code as nat) + " from "@ + addr,
            ErrorView::Reqwest(e) => "Reqwest error: "@ + e,
            ErrorView::Serde(e) => "Serde error: "@ + e,
            ErrorView::Middleware(e) => "Middleware error: "@ + e,
        }
    }
}

impl RegistrarClientError {
    /// The error in words.
    pub fn message(&self) -> (s: String)
        ensures
            s@ == self@.message(),
    {
        let mut out: Vec<char> = Vec::new();
        match self {
            RegistrarClientError::Activation { addr, code } => {
                push_str(&mut out, "Failed to activate agent: received ");
                push_decimal(&mut out, *code as u64);
                push_str(&mut out, " from ");
                push_str(&mut out, addr.as_str());
            },
            RegistrarClientError::AllAPIVersionsRejected(tried) => {
                push_str(&mut out, "None of the tried API versions were enabled: tried '");
                push_str(&mut out, tried.as_str());
                push_str(&mut out, "'");
            },
            RegistrarClientError::IncompatibleAPI { agent_enabled, registrar_supported } => {
                push_str(
                    &mut out,
                    "Registrar and agent API versions are incompatible: agent enabled APIs '",
                );
                push_str(&mut out, agent_enabled.as_str());
                push_str(&mut out, "', registrar supported APIs '");
                push_str(&mut out, registrar_supported.as_str());
                push_str(&mut out, "'");
            },
            RegistrarClientError::Inconsistent(current) => {
                push_str(
                    &mut out,
                    "Inconsistent information from registrar: current API version = '",
                );
                push_str(&mut out, current.as_str());
                push_str(&mut out, "', but no list of supported API versions was provided");
            },
            RegistrarClientError::NoCode(what) => {
                push_str(&mut out, "cannot get error code for type ");
                push_str(&mut out, what.as_str());
            },
            RegistrarClientError::Registration { addr, code } => {
                push_str(&mut out, "Failed to register agent: received ");
                push_decimal(&mut out, *code as u64);
                push_str(&mut out, " from ");
                push_str(&mut out, addr.as_str());
            },
            RegistrarClientError::Reqwest(e) => {
                push_str(&mut out, "Reqwest error: ");
                push_str(&mut out, e.as_str());
            },
            RegistrarClientError::Serde(e) => {
                push_str(&mut out, "Serde error: ");
                push_str(&mut out, e.as_str());
            },
            RegistrarClientError::Middleware(e) => {
                push_str(&mut out, "Middleware error: ");
                push_str(&mut out, e.as_str());
            },
        }
        string_of(out.as_slice())
    }
}

/// The envelope of a registrar's answer.
#[derive(Debug)]
pub struct Response<T> {
    pub code: u16,
    pub status: String,
    pub results: T,
}

/// What the registrar said when it was asked for its version.
#[derive(Debug)]
pub enum VersionProbe {
    /// It answered with a success status and these versions.
    Answered { current_version: String, supported_versions: Vec<String> },
    /// It answered with another status: it has no `/version` endpoint.
    NoVersion,
    /// It could not be reached: the request was not completed, whatever was
    /// tried again.
    Unreachable,
    /// It answered with a success status, and the answer could not be read.
    Unreadable(RegistrarClientBuilderError),
}


/// Collects where the registrar is and how to retry, and builds the client.
#[derive(Debug)]
pub struct RegistrarClientBuilder {
    registrar_current_api_version: Option<String>,
    registrar_supported_api_versions: Option<Vec<String>>,
    registrar_address: Option<String>,
    registrar_port: Option<u32>,
    retry_config: Option<RetryConfig>,
}

pub ghost struct BuilderView {
    pub registrar_current_api_version: Option<Seq<char>>,
    pub registrar_supported_api_versions: Option<Seq<Seq<char>>>,
    pub registrar_address: Option<Seq<char>>,
    pub registrar_port: Option<u32>,
    pub retry_config: Option<RetryConfig>,
}

/// The views of an optional list of strings.
pub open spec fn opt_views(o: Option<Vec<String>>) -> Option<Seq<Seq<char>>> {
    match o {
        Some(v) => Some(views(v@)),
        None => None,
    }
}

impl View for RegistrarClientBuilder {
    type V = BuilderView;

    closed spec fn view(&self) -> BuilderView {
        BuilderView {
            registrar_current_api_version: opt_view(self.registrar_current_api_version),
            registrar_supported_api_versions: opt_views(self.registrar_supported_api_versions),
            registrar_address: opt_view(self.registrar_address),
            registrar_port: self.registrar_port,
            retry_config: self.retry_config,
        }
    }
}

/// The registrar as a built client knows it.
#[derive(Debug)]
pub struct RegistrarClient {
    api_version: String,
    current_api_version: Option<String>,
    supported_api_versions: Option<Vec<String>>,
    registrar_ip: String,
    registrar_port: u32,
    retry_config: Option<RetryConfig>,
}

pub ghost struct ClientView {
    /// The version that the next exchange tries first: the registrar's
    /// current version at the start, later the one that last worked.
    pub api_version: Seq<char>,
    /// The registrar's current version; `None` where it has no `/version`
    /// endpoint.
    pub current_api_version: Option<Seq<char>>,
    pub supported_api_versions: Option<Seq<Seq<char>>>,
    pub registrar_ip: Seq<char>,
    pub registrar_port: u32,
    pub retry_config: Option<RetryConfig>,
}

impl View for RegistrarClient {
    type V = ClientView;

    closed spec fn view(&self) -> ClientView {
        ClientView {
            api_version: self.api_version@,
            current_api_version: opt_view(self.current_api_version),
            supported_api_versions: opt_views(self.supported_api_versions),
            registrar_ip: self.registrar_ip@,
            registrar_port: self.registrar_port,
            retry_config: self.retry_config,
        }
    }
}

/// `http://{host}:{port}`.
pub open spec fn base_url(host: Seq<char>, port: u32) -> Seq<char> {
    "http://"@ + host + ":"@ + decimal(port as nat)
}

/// The address of the registrar's version endpoint.
pub open spec fn version_url(host: Seq<char>, port: u32) -> Seq<char> {
    base_url(host, port) + "/version"@
}

/// The address of an agent's record under an API version.
pub open spec fn agent_url(host: Seq<char>, port: u32, api_version: Seq<char>, uuid: Seq<char>) -> Seq<
    char,
> {
    base_url(host, port) + "/v"@ + api_version + "/agents/"@ + uuid
}

fn push_base_url(out: &mut Vec<char>, host: &str, port: u32)
    ensures
        final(out)@ == old(out)@ + base_url(host@, port),
{
    let ghost before = out@;
    push_str(out, "http://");
    push_str(out, host);
    push_str(out, ":");
    push_decimal(out, port as u64);
    assert(out@ == before + base_url(host@, port));
}

fn clone_strings(list: &Vec<String>) -> (r: Vec<String>)
    ensures
        views(r@) == views(list@),
{
    let mut r: Vec<String> = Vec::new();
    let mut i: usize = 0;
    while i < list.len()
        invariant
            i <= list.len(),
            r.len() == i,
            views(r@) == views(list@).take(i as int),
        decreases list.len() - i,
    {
        let ghost before = r@;
        r.push(list[i].clone());
        proof {
            lemma_views_push(before, r@[i as int]);
            assert(r@ == before.push(r@[i as int]));
            assert(views(r@) =~= views(list@).take(i + 1));
        }
        i += 1;
    }
    assert(views(list@).take(list.len() as int) == views(list@));
    r
}

impl RegistrarClientBuilder {
    /// A builder with nothing set.
    pub fn new() -> (b: RegistrarClientBuilder)
        ensures
            b@ == (BuilderView {
                registrar_current_api_version: None,
                registrar_supported_api_versions: None,
                registrar_address: None,
                registrar_port: None,
                retry_config: None,
            }),
    {
        RegistrarClientBuilder {
            registrar_current_api_version: None,
            registrar_supported_api_versions: None,
            registrar_address: None,
            registrar_port: None,
            retry_config: None,
        }
    }

    /// Sets the registrar's IP address or host name. An IPv6 address is kept
    /// in square brackets, as it stands in a URL.
    pub fn registrar_address(self, address: String) -> (b: RegistrarClientBuilder)
        ensures
            b@ == (BuilderView { registrar_address: Some(bracketed(address@)), ..self@ }),
    {
        let a = parse_registrar_address(address);
        RegistrarClientBuilder {
            registrar_current_api_version: self.registrar_current_api_version,
            registrar_supported_api_versions: self.registrar_supported_api_versions,
            registrar_address: Some(a),
            registrar_port: self.registrar_port,
            retry_config: self.retry_config,
        }
    }

    /// Sets the registrar's port.
    pub fn registrar_port(self, port: u32) -> (b: RegistrarClientBuilder)
        ensures
            b@ == (BuilderView { registrar_port: Some(port), ..self@ }),
    {
        RegistrarClientBuilder {
            registrar_current_api_version: self.registrar_current_api_version,
            registrar_supported_api_versions: self.registrar_supported_api_versions,
            registrar_address: self.registrar_address,
            registrar_port: Some(port),
            retry_config: self.retry_config,
        }
    }

    /// Sets how requests are repeated; `None` for no repetition.
    pub fn retry_config(self, rt: Option<RetryConfig>) -> (b: RegistrarClientBuilder)
        ensures
            b@ == (BuilderView { retry_config: rt, ..self@ }),
    {
        RegistrarClientBuilder {
            registrar_current_api_version: self.registrar_current_api_version,
            registrar_supported_api_versions: self.registrar_supported_api_versions,
            registrar_address: self.registrar_address,
            registrar_port: self.registrar_port,
            retry_config: rt,
        }
    }

    /// The address at which the registrar is asked for its version, which
    /// needs the registrar's address and port.
    pub fn get_registrar_api_version(&self) -> (r: Result<String, RegistrarClientBuilderError>)
        ensures
            match (self@.registrar_address, self@.registrar_port) {
                (None, _) => r matches Err(RegistrarClientBuilderError::RegistrarIPNotSet),
                (Some(_), None) => r matches Err(RegistrarClientBuilderError::RegistrarPortNotSet),
                (Some(host), Some(port)) => r matches Ok(url) && url@ == version_url(host, port),
            },
    {
        let host = match &self.registrar_address {
            Some(h) => h,
            None => {
                return Err(RegistrarClientBuilderError::RegistrarIPNotSet);
            },
        };
        let port = match self.registrar_port {
            Some(p) => p,
            None => {
                return Err(RegistrarClientBuilderError::RegistrarPortNotSet);
            },
        };
        let mut out: Vec<char> = Vec::new();
        push_base_url(&mut out, host.as_str(), port);
        push_str(&mut out, "/version");
        Ok(string_of(out.as_slice()))
    }

    /// Builds the client from what the registrar said of its version.
    ///
    /// Without an address or a port there is no client. A registrar that
    /// answered gives the client its current and supported versions, and the
    /// builder keeps them. One that has no `/version` endpoint, or that could
    /// not be reached, gives a client whose version is `unknown`. An answer
    /// that could not be read is the builder's error.
    pub fn build(&mut self, probe: VersionProbe) -> (r: Result<
        RegistrarClient,
        RegistrarClientBuilderError,
    >)
        ensures
            final(self)@.registrar_address == old(self)@.registrar_address,
            final(self)@.registrar_port == old(self)@.registrar_port,
            final(self)@.retry_config == old(self)@.retry_config,
            match (old(self)@.registrar_address, old(self)@.registrar_port) {
                (None, _) => r matches Err(RegistrarClientBuilderError::RegistrarIPNotSet)
                    && final(self)@ == old(self)@,
                (Some(_), None) => r matches Err(RegistrarClientBuilderError::RegistrarPortNotSet)
                    && final(self)@ == old(self)@,
                (Some(host), Some(port)) => match probe {
                    VersionProbe::Unreadable(e) => r == Err::<
                        RegistrarClient,
                        RegistrarClientBuilderError,
                    >(e) && final(self)@ == old(self)@,
                    VersionProbe::NoVersion | VersionProbe::Unreachable => r matches Ok(c)
                        && final(self)@ == old(self)@ && c@ == (ClientView {
                        api_version: UNKNOWN_API_VERSION@,
                        current_api_version: None,
                        supported_api_versions: old(self)@.registrar_supported_api_versions,
                        registrar_ip: host,
                        registrar_port: port,
                        retry_config: old(self)@.retry_config,
                    }),
                    VersionProbe::Answered {
                        current_version,
                        supported_versions,
                    } => r matches Ok(c) && final(self)@ == (BuilderView {
                        registrar_current_api_version: Some(current_version@),
                        registrar_supported_api_versions: Some(views(supported_versions@)),
                        ..old(self)@
                    }) && c@ == (ClientView {
                        api_version: current_version@,
                        current_api_version: Some(current_version@),
                        supported_api_versions: Some(views(supported_versions@)),
                        registrar_ip: host,
                        registrar_port: port,
                        retry_config: old(self)@.retry_config,
                    }),
                },
            },
    {
        let registrar_ip = match &self.registrar_address {
            Some(h) => h.clone(),
            None => {
                return Err(RegistrarClientBuilderError::RegistrarIPNotSet);
            },
        };
        let registrar_port = match self.registrar_port {
            Some(p) => p,
            None => {
                return Err(RegistrarClientBuilderError::RegistrarPortNotSet);
            },
        };
        match probe {
            VersionProbe::Unreadable(e) => Err(e),
            VersionProbe::NoVersion | VersionProbe::Unreachable => {
                let supported = match &self.registrar_supported_api_versions {
                    Some(list) => Some(clone_strings(list)),
                    None => None,
                };
                Ok(
                    RegistrarClient {
                        api_version: String::from_str(UNKNOWN_API_VERSION),
                        current_api_version: None,
                        supported_api_versions: supported,
                        registrar_ip,
                        registrar_port,
                        retry_config: self.retry_config,
                    },
                )
            },
            VersionProbe::Answered { current_version, supported_versions } => {
                let supported = clone_strings(&supported_versions);
                self.registrar_current_api_version = Some(current_version.clone());
                self.registrar_supported_api_versions = Some(supported_versions);
                Ok(
                    RegistrarClient {
                        api_version: current_version.clone(),
                        current_api_version: Some(current_version),
                        supported_api_versions: Some(supported),
                        registrar_ip,
                        registrar_port,
                        retry_config: self.retry_config,
                    },
                )
            },
        }
    }
}

/// Some version of `supported` is `v`, white space at the ends aside.
pub open spec fn supports(supported: Seq<Seq<char>>, v: Seq<char>) -> bool {
    exists|j: int| 0 <= j < supported.len() && trim(#[trigger] supported[j]) == trim(v)
}

fn is_supported(supported: &Vec<String>, v: &str) -> (b: bool)
    ensures
        b == supports(views(supported@), v@),
{
    let vc = chars_of(v);
    let want = trimmed(vc.as_slice());
    let mut j: usize = 0;
    while j < supported.len()
        invariant
            j <= supported.len(),
            want@ == trim(v@),
            forall|k: int| 0 <= k < j ==> trim(#[trigger] views(supported@)[k]) != trim(v@),
        decreases supported.len() - j,
    {
        let sc = chars_of(supported[j].as_str());
        let have = trimmed(sc.as_slice());
        if same_chars(have.as_slice(), want.as_slice()) {
            assert(trim(views(supported@)[j as int]) == trim(v@));
            return true;
        }
        j += 1;
    }
    false
}

fn is_enabled(enabled: &Vec<String>, v: &str) -> (b: bool)
    ensures
        b == views(enabled@).contains(v@),
{
    let mut j: usize = 0;
    while j < enabled.len()
        invariant
            j <= enabled.len(),
            forall|k: int| 0 <= k < j ==> views(enabled@)[k] != v@,
        decreases enabled.len() - j,
    {
        if str_eq(enabled[j].as_str(), v) {
            assert(views(enabled@)[j as int] == v@);
            return true;
        }
        j += 1;
    }
    false
}

/// What the client does next in an exchange.
#[derive(Debug)]
pub enum Attempt {
    /// Send the request under this version. `step` names the attempt when
    /// its outcome is handed back.
    Try { version: String, step: usize },
    /// Nothing is left to try: the exchange has failed with this error.
    GiveUp(RegistrarClientError),
}

pub ghost enum AttemptView {
    Try { version: Seq<char>, step: nat },
    GiveUp(ErrorView),
}

impl View for Attempt {
    type V = AttemptView;

    open spec fn view(&self) -> AttemptView {
        match self {
            Attempt::Try { version, step } => AttemptView::Try {
                version: version@,
                step: *step as nat,
            },
            Attempt::GiveUp(e) => AttemptView::GiveUp(e@),
        }
    }
}

/// The error of an exchange in which every version that could be tried has
/// been: with a registrar of unknown version, that all versions were
/// rejected; with one that named no supported versions, that it is
/// inconsistent; else that the two sides share no version.
pub open spec fn exhausted(c: ClientView, enabled: Seq<Seq<char>>) -> ErrorView {
    match c.current_api_version {
        None => ErrorView::AllAPIVersionsRejected(join(enabled, ", "@)),
        Some(current) => match c.supported_api_versions {
            None => ErrorView::Inconsistent(current),
            Some(supported) => ErrorView::IncompatibleAPI {
                agent_enabled: join(enabled, ", "@),
                registrar_supported: join(supported, ", "@),
            },
        },
    }
}

/// Whether the version at place `k` of the scan is tried. The scan goes
/// through the enabled versions from the last, which is the newest, to the
/// first; place 1 is the last. With a registrar of unknown version every
/// enabled version is tried, else those that the registrar supports.
pub open spec fn scanned(c: ClientView, enabled: Seq<Seq<char>>, k: nat) -> bool {
    1 <= k <= enabled.len() && match c.current_api_version {
        None => true,
        Some(_) => match c.supported_api_versions {
            Some(supported) => supports(supported, enabled[enabled.len() - k]),
            None => false,
        },
    }
}

/// The next attempt from step `step` on. Step 0 is the version that the
/// client holds as active, tried if the agent has it enabled; the steps
/// from 1 on are the places of the scan.
pub open spec fn next_attempt(c: ClientView, enabled: Seq<Seq<char>>, step: nat) -> AttemptView
    decreases enabled.len() + 1 - step,
{
    if step == 0 {
        if enabled.contains(c.api_version) {
            AttemptView::Try { version: c.api_version, step: 0 }
        } else {
            next_attempt(c, enabled, 1)
        }
    } else if step > enabled.len() {
        AttemptView::GiveUp(exhausted(c, enabled))
    } else if c.current_api_version is Some && c.supported_api_versions is None {
        AttemptView::GiveUp(exhausted(c, enabled))
    } else if scanned(c, enabled, step) {
        AttemptView::Try { version: enabled[enabled.len() - step], step }
    } else {
        next_attempt(c, enabled, step + 1)
    }
}

/// What follows an attempt.
#[derive(Debug)]
pub enum Settled<T> {
    /// The exchange is over, with this result.
    Finished(Result<T, RegistrarClientError>),
    /// The exchange goes on at this step.
    Continue(usize),
}

/// Whether a failed attempt at `step` ends the exchange. The first attempt
/// with the active version never does, nor does one with a registrar of
/// unknown version. Under a registrar of known version a rejected version
/// lets the scan go on, and any other failure ends the exchange, so that a
/// transport or TPM error is not taken for a mere mismatch.
pub open spec fn failure_ends(c: ClientView, step: nat, e: ErrorView) -> bool {
    step > 0 && c.current_api_version is Some && !(e is IncompatibleAPI)
}

/// The version that the client holds as active after a success at `step`
/// with `version`: unchanged at step 0; in the scan, the version tried,
/// without the white space at its ends where the registrar's version is
/// known.
pub open spec fn active_after(c: ClientView, step: nat, version: Seq<char>) -> Seq<char> {
    if step == 0 {
        c.api_version
    } else if c.current_api_version is Some {
        trim(version)
    } else {
        version
    }
}

impl RegistrarClient {
    /// The version that the next exchange tries first.
    pub fn api_version(&self) -> (v: &str)
        ensures
            v@ == self@.api_version,
    {
        self.api_version.as_str()
    }

    /// The address of an agent's record under an API version:
    /// `http://{registrar}:{port}/v{version}/agents/{uuid}`.
    pub fn agent_url(&self, api_version: &str, uuid: &str) -> (url: String)
        ensures
            url@ == agent_url(self@.registrar_ip, self@.registrar_port, api_version@, uuid@),
    {
        let mut out: Vec<char> = Vec::new();
        push_base_url(&mut out, self.registrar_ip.as_str(), self.registrar_port);
        push_str(&mut out, "/v");
        push_str(&mut out, api_version);
        push_str(&mut out, "/agents/");
        push_str(&mut out, uuid);
        string_of(out.as_slice())
    }

    /// The error for a registrar and an agent that share no version.
    pub fn incompatible(&self, agent_enabled: String, registrar_supported: String) -> (e:
        RegistrarClientError)
        ensures
            e@ == (ErrorView::IncompatibleAPI {
                agent_enabled: agent_enabled@,
                registrar_supported: registrar_supported@,
            }),
    {
        RegistrarClientError::IncompatibleAPI { agent_enabled, registrar_supported }
    }

    fn exhausted_error(&self, enabled: &Vec<String>) -> (e: RegistrarClientError)
        ensures
            e@ == exhausted(self@, views(enabled@)),
    {
        match &self.current_api_version {
            None => RegistrarClientError::AllAPIVersionsRejected(join_strings(enabled, ", ")),
            Some(current) => match &self.supported_api_versions {
                None => RegistrarClientError::Inconsistent(current.clone()),
                Some(supported) => self.incompatible(
                    join_strings(enabled, ", "),
                    join_strings(supported, ", "),
                ),
            },
        }
    }

    /// The next attempt of an exchange that stands at `step`; an exchange
    /// starts at step 0.
    pub fn next_attempt(&self, enabled: &Vec<String>, step: usize) -> (a: Attempt)
        ensures
            a@ == next_attempt(self@, views(enabled@), step as nat),
            a matches Attempt::Try { step: at, .. } ==> step <= at <= enabled.len(),
    {
        let mut k: usize = step;
        if k == 0 {
            if is_enabled(enabled, self.api_version.as_str()) {
                return Attempt::Try { version: self.api_version.clone(), step: 0 };
            }
            k = 1;
        }
        assert(next_attempt(self@, views(enabled@), step as nat) == next_attempt(
            self@,
            views(enabled@),
            k as nat,
        ));
        let known = self.current_api_version.is_some();
        let n = enabled.len();
        if k > n || (known && self.supported_api_versions.is_none()) {
            return Attempt::GiveUp(self.exhausted_error(enabled));
        }
        // `left` places of the scan are still to be looked at; the next one
        // is place `n - left + 1`, which holds `enabled[left - 1]`.
        let mut left: usize = n - k + 1;
        while left > 0
            invariant
                n == enabled.len(),
                left <= n,
                step <= n - left + 1,
                1 <= n - left + 1,
                known == (self@.current_api_version is Some),
                !(self@.current_api_version is Some && self@.supported_api_versions is None),
                next_attempt(self@, views(enabled@), step as nat) == next_attempt(
                    self@,
                    views(enabled@),
                    (n - left + 1) as nat,
                ),
            decreases left,
        {
            let v = &enabled[left - 1];
            let take = match &self.supported_api_versions {
                Some(supported) => !known || is_supported(supported, v.as_str()),
                None => true,
            };
            if take {
                return Attempt::Try { version: v.clone(), step: n - left + 1 };
            }
            left -= 1;
        }
        Attempt::GiveUp(self.exhausted_error(enabled))
    }

    /// Takes the outcome of the attempt at `step` with `version`.
    ///
    /// A success ends the exchange, and a version found by the scan becomes
    /// the active one. A failure ends it where `failure_ends` says so, with
    /// the error of the attempt; else the exchange goes on at the next step.
    pub fn settle<T>(
        &mut self,
        step: usize,
        version: &str,
        outcome: Result<T, RegistrarClientError>,
    ) -> (s: Settled<T>)
        requires
            step < usize::MAX,
        ensures
            final(self)@ == (ClientView {
                api_version: if outcome is Ok {
                    active_after(old(self)@, step as nat, version@)
                } else {
                    old(self)@.api_version
                },
                ..old(self)@
            }),
            match outcome {
                Ok(t) => s == Settled::Finished(Ok::<T, RegistrarClientError>(t)),
                Err(e) => if failure_ends(old(self)@, step as nat, e@) {
                    s == Settled::Finished(Err::<T, RegistrarClientError>(e))
                } else {
                    s == Settled::<T>::Continue((step + 1) as usize)
                },
            },
    {
        match outcome {
            Ok(t) => {
                if step > 0 {
                    if self.current_api_version.is_some() {
                        let vc = chars_of(version);
                        let t = trimmed(vc.as_slice());
                        self.api_version = string_of(t.as_slice());
                    } else {
                        self.api_version = String::from_str(version);
                    }
                }
                Settled::Finished(Ok(t))
            },
            Err(e) => {
                let version_rejected = match &e {
                    RegistrarClientError::IncompatibleAPI { .. } => true,
                    _ => false,
                };
                if step > 0 && self.current_api_version.is_some() && !version_rejected {
                    Settled::Finished(Err(e))
                } else {
                    Settled::Continue(step + 1)
                }
            },
        }
    }
}

/// The enabled and the supported versions have one in common, white space
/// at the ends aside.
pub open spec fn share_a_version(enabled: Seq<Seq<char>>, supported: Seq<Seq<char>>) -> bool {
    exists|i: int| 0 <= i < enabled.len() && supports(supported, #[trigger] enabled[i])
}

/// An attempt from step `step` on is made at that step or a later one: at
/// step 0 with the active version, at a later step with the version at that
/// place of the scan.
pub proof fn lemma_attempt_bounds(c: ClientView, enabled: Seq<Seq<char>>, step: nat)
    ensures
        next_attempt(c, enabled, step) matches AttemptView::Try { version, step: at } ==> step
            <= at <= enabled.len() && (at == 0 ==> version == c.api_version) && (at > 0
            ==> version == enabled[enabled.len() - at] && scanned(c, enabled, at)),
    decreases enabled.len() + 1 - step,
{
    if step == 0 {
        if !enabled.contains(c.api_version) {
            lemma_attempt_bounds(c, enabled, 1);
        }
    } else if step > enabled.len() {
    } else if c.current_api_version is Some && c.supported_api_versions is None {
    } else if scanned(c, enabled, step) {
    } else {
        lemma_attempt_bounds(c, enabled, step + 1);
    }
}

/// The scan does not pass over a place whose version it tries: from any
/// step up to such a place, the next attempt is made at that place or
/// before it.
pub proof fn lemma_scan_reaches(c: ClientView, enabled: Seq<Seq<char>>, step: nat, k: nat)
    requires
        1 <= step <= k <= enabled.len(),
        scanned(c, enabled, k),
        !(c.current_api_version is Some && c.supported_api_versions is None),
    ensures
        next_attempt(c, enabled, step) matches AttemptView::Try { step: at, .. } && at <= k,
    decreases k - step,
{
    if scanned(c, enabled, step) {
    } else {
        lemma_scan_reaches(c, enabled, step + 1, k);
    }
}

} // verus!
