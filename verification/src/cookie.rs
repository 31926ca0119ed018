//! Cookie values and policies, the data side of `WKHTTPCookieStore` in
//! Apple WebKit.

use vstd::prelude::*;
use vstd::string::*;

verus! {

/// Which cookies the engine accepts.
#[derive(Debug, Clone, Copy, PartialEq, Eq, Structural)]
pub enum CookieAcceptPolicy {
    /// Accept every cookie.
    Always,
    /// Reject third-party cookies.
    NoThirdParty,
    /// Reject all cookies.
    Never,
}

/// The accept policies the engine reports.
#[derive(Debug, Clone, Copy, PartialEq, Eq, Structural)]
pub enum EngineCookiePolicy {
    Always,
    Never,
    NoThirdParty,
    /// A policy this library does not know.
    Other,
}

pub open spec fn spec_accept_policy(p: EngineCookiePolicy) -> CookieAcceptPolicy {
    match p {
        EngineCookiePolicy::Never => CookieAcceptPolicy::Never,
        EngineCookiePolicy::NoThirdParty => CookieAcceptPolicy::NoThirdParty,
        EngineCookiePolicy::Always => CookieAcceptPolicy::Always,
        EngineCookiePolicy::Other => CookieAcceptPolicy::Always,
    }
}

/// The engine policy a policy is written as.
pub open spec fn spec_engine_policy(p: CookieAcceptPolicy) -> EngineCookiePolicy {
    match p {
        CookieAcceptPolicy::Always => EngineCookiePolicy::Always,
        CookieAcceptPolicy::NoThirdParty => EngineCookiePolicy::NoThirdParty,
        CookieAcceptPolicy::Never => EngineCookiePolicy::Never,
    }
}

impl CookieAcceptPolicy {
    /// The engine policy that applies this policy.
    pub fn to_engine(self) -> (e: EngineCookiePolicy)
        ensures
            e == spec_engine_policy(self),
    {
        match self {
            CookieAcceptPolicy::Always => EngineCookiePolicy::Always,
            CookieAcceptPolicy::NoThirdParty => EngineCookiePolicy::NoThirdParty,
            CookieAcceptPolicy::Never => EngineCookiePolicy::Never,
        }
    }

    /// The policy the engine reported; an unknown engine policy reads as
    /// `Always`.
    pub fn from_engine(policy: EngineCookiePolicy) -> (r: Self)
        ensures
            r == spec_accept_policy(policy),
    {
        match policy {
            EngineCookiePolicy::Never => CookieAcceptPolicy::Never,
            EngineCookiePolicy::NoThirdParty => CookieAcceptPolicy::NoThirdParty,
            _ => CookieAcceptPolicy::Always,
        }
    }
}

/// A policy written to the engine reads back as the same policy, and no
/// policy is written as a policy the library does not know.
pub proof fn lemma_engine_policy_round_trip(p: CookieAcceptPolicy)
    ensures
        spec_accept_policy(spec_engine_policy(p)) == p,
        spec_engine_policy(p) != EngineCookiePolicy::Other,
{
}

/// Persistent cookie storage format.
#[derive(Debug, Clone, Copy, PartialEq, Eq, Structural)]
pub enum CookieStorage {
    /// Human-readable text file.
    Text,
    /// SQLite database.
    Sqlite,
}

/// A single HTTP cookie.
#[derive(Debug, Clone)]
pub struct Cookie {
    /// Cookie name.
    pub name: String,
    /// Cookie value.
    pub value: String,
    /// Domain the cookie belongs to.
    pub domain: String,
    /// Path the cookie belongs to.
    pub path: String,
    /// Whether the cookie is only sent over secure connections.
    pub secure: bool,
    /// Whether the cookie is hidden from JavaScript (`HttpOnly`).
    pub http_only: bool,
}

/// The value of a [`Cookie`].
pub struct CookieView {
    pub name: Seq<char>,
    pub value: Seq<char>,
    pub domain: Seq<char>,
    pub path: Seq<char>,
    pub secure: bool,
    pub http_only: bool,
}

impl View for Cookie {
    type V = CookieView;

    open spec fn view(&self) -> CookieView {
        CookieView {
            name: self.name@,
            value: self.value@,
            domain: self.domain@,
            path: self.path@,
            secure: self.secure,
            http_only: self.http_only,
        }
    }
}

/// The text of an optional string, empty when absent.
pub open spec fn text_or_empty(o: Option<String>) -> Seq<char> {
    match o {
        Some(s) => s@,
        None => Seq::empty(),
    }
}

fn string_or_empty(o: Option<String>) -> (r: String)
    ensures
        r@ == text_or_empty(o),
{
    match o {
        Some(s) => s,
        None => String::new(),
    }
}

impl Cookie {
    /// Create a session cookie (no expiry) for a domain, with path `/`,
    /// neither secure-only nor `HttpOnly`.
    pub fn new(name: &str, value: &str, domain: &str) -> (r: Self)
        ensures
            r@ == (CookieView {
                name: name@,
                value: value@,
                domain: domain@,
                path: "/"@,
                secure: false,
                http_only: false,
            }),
    {
        let path = String::from_str("/");
        Cookie {
            name: name.to_owned(),
            value: value.to_owned(),
            domain: domain.to_owned(),
            path,
            secure: false,
            http_only: false,
        }
    }

    /// Set the cookie path (default `/`).
    pub fn path(self, path: &str) -> (r: Self)
        ensures
            r@ == (CookieView { path: path@, ..self@ }),
    {
        let mut c = self;
        c.path = path.to_owned();
        c
    }

    /// Mark the cookie as secure-only.
    pub fn secure(self, secure: bool) -> (r: Self)
        ensures
            r@ == (CookieView { secure, ..self@ }),
    {
        let mut c = self;
        c.secure = secure;
        c
    }

    /// Mark the cookie as `HttpOnly`.
    pub fn http_only(self, http_only: bool) -> (r: Self)
        ensures
            r@ == (CookieView { http_only, ..self@ }),
    {
        let mut c = self;
        c.http_only = http_only;
        c
    }

    /// A cookie from the fields the engine reports; a missing text field
    /// becomes empty.
    pub fn from_engine_fields(
        name: Option<String>,
        value: Option<String>,
        domain: Option<String>,
        path: Option<String>,
        secure: bool,
        http_only: bool,
    ) -> (r: Self)
        ensures
            r@ == (CookieView {
                name: text_or_empty(name),
                value: text_or_empty(value),
                domain: text_or_empty(domain),
                path: text_or_empty(path),
                secure,
                http_only,
            }),
    {
        Cookie {
            name: string_or_empty(name),
            value: string_or_empty(value),
            domain: string_or_empty(domain),
            path: string_or_empty(path),
            secure,
            http_only,
        }
    }
}

} // verus!
