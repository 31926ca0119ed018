//! Error type shared by the whole framework.

use vstd::prelude::*;
use vstd::string::*;

verus! {

/// Errors returned by the TontooWebKit framework.
#[derive(Debug, Clone)]
pub enum WebKitError {
    /// The URL is not a valid http(s), file, data or about URL.
    InvalidUrl(String),
    /// The web process failed to load the requested page.
    NavigationFailed(String),
    /// JavaScript evaluation failed.
    Javascript(String),
    /// A WebKitGTK engine-level error.
    Engine(String),
    /// The web view has no usable settings object.
    NoSettings,
}

/// The human-readable text of an error.
pub open spec fn error_text(e: WebKitError) -> Seq<char> {
    match e {
        WebKitError::InvalidUrl(u) => "invalid URL: "@ + u@,
        WebKitError::NavigationFailed(m) => "navigation failed: "@ + m@,
        WebKitError::Javascript(m) => "javascript error: "@ + m@,
        WebKitError::Engine(m) => "webkit engine error: "@ + m@,
        WebKitError::NoSettings => "web view has no settings"@,
    }
}

fn prefixed(prefix: &str, detail: &String) -> (r: String)
    ensures
        r@ == prefix@ + detail@,
{
    let mut s = String::from_str(prefix);
    s.append(detail.as_str());
    s
}

impl WebKitError {
    /// The human-readable text of the error, as its `Display` would show
    /// it: a fixed prefix per variant followed by the detail.
    pub fn message(&self) -> (r: String)
        ensures
            r@ == error_text(*self),
    {
        match self {
            WebKitError::InvalidUrl(u) => prefixed("invalid URL: ", u),
            WebKitError::NavigationFailed(m) => prefixed("navigation failed: ", m),
            WebKitError::Javascript(m) => prefixed("javascript error: ", m),
            WebKitError::Engine(m) => prefixed("webkit engine error: ", m),
            WebKitError::NoSettings => String::from_str("web view has no settings"),
        }
    }
}

} // verus!
