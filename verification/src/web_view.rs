//! Decisions a web view makes around the engine: which URLs it may load,
//! how engine policy decisions are classified, and how the inspector is
//! toggled.

use vstd::prelude::*;

use crate::error::WebKitError;
use crate::navigation::PolicyAction;

verus! {

/// The code of a character after ASCII lower-casing (`A`..`Z` become
/// `a`..`z`; every other character is left as it is).
pub open spec fn ascii_lower_code(c: char) -> u32 {
    if 65 <= (c as u32) <= 90 {
        ((c as u32) + 32) as u32
    } else {
        c as u32
    }
}

/// Whether `s`, ASCII lower-cased, starts with `prefix`.
pub open spec fn starts_with_ascii_ci(s: Seq<char>, prefix: Seq<char>) -> bool {
    &&& prefix.len() <= s.len()
    &&& forall|i: int| 0 <= i < prefix.len() ==> ascii_lower_code(#[trigger] s[i]) == prefix[i] as u32
}

pub open spec fn http_prefix() -> Seq<char> {
    seq!['h', 't', 't', 'p', ':', '/', '/']
}

pub open spec fn https_prefix() -> Seq<char> {
    seq!['h', 't', 't', 'p', 's', ':', '/', '/']
}

pub open spec fn file_prefix() -> Seq<char> {
    seq!['f', 'i', 'l', 'e', ':', '/', '/']
}

pub open spec fn data_prefix() -> Seq<char> {
    seq!['d', 'a', 't', 'a', ':']
}

pub open spec fn about_prefix() -> Seq<char> {
    seq!['a', 'b', 'o', 'u', 't', ':']
}

/// The scheme allowlist: a URL may be loaded exactly when, ignoring ASCII
/// case, it starts with `http://`, `https://`, `file://`, `data:` or
/// `about:`. Everything else, notably `javascript:` and unknown custom
/// schemes, is rejected.
pub open spec fn url_allowed(url: Seq<char>) -> bool {
    ||| starts_with_ascii_ci(url, http_prefix())
    ||| starts_with_ascii_ci(url, https_prefix())
    ||| starts_with_ascii_ci(url, file_prefix())
    ||| starts_with_ascii_ci(url, data_prefix())
    ||| starts_with_ascii_ci(url, about_prefix())
}

fn char_matches_ci(c: char, p: char) -> (r: bool)
    ensures
        r == (ascii_lower_code(c) == p as u32),
{
    let code = c as u32;
    let lower = if 65 <= code && code <= 90 {
        code + 32
    } else {
        code
    };
    lower == p as u32
}

fn starts_with_ci(url: &str, url_len: usize, prefix: &[char]) -> (r: bool)
    requires
        url_len == url@.len(),
    ensures
        r == starts_with_ascii_ci(url@, prefix@),
{
    if prefix.len() > url_len {
        return false;
    }
    let mut i: usize = 0;
    while i < prefix.len()
        invariant
            url_len == url@.len(),
            prefix.len() <= url_len,
            i <= prefix.len(),
            forall|j: int| 0 <= j < i ==> ascii_lower_code(#[trigger] url@[j]) == prefix@[j] as u32,
        decreases prefix.len() - i,
    {
        let c = url.get_char(i);
        if !char_matches_ci(c, prefix[i]) {
            return false;
        }
        i = i + 1;
    }
    true
}

/// Check a URL against the scheme allowlist. Returns
/// `Err(WebKitError::InvalidUrl(url))` for every URL the allowlist does not
/// accept.
pub fn validate_url(url: &str) -> (r: Result<(), WebKitError>)
    ensures
        r is Ok <==> url_allowed(url@),
        r matches Err(e) ==> (e matches WebKitError::InvalidUrl(u) && u@ == url@),
{
    let len = url.unicode_len();
    let http = ['h', 't', 't', 'p', ':', '/', '/'];
    let https = ['h', 't', 't', 'p', 's', ':', '/', '/'];
    let file = ['f', 'i', 'l', 'e', ':', '/', '/'];
    let data = ['d', 'a', 't', 'a', ':'];
    let about = ['a', 'b', 'o', 'u', 't', ':'];
    assert(http@ =~= http_prefix());
    assert(https@ =~= https_prefix());
    assert(file@ =~= file_prefix());
    assert(data@ =~= data_prefix());
    assert(about@ =~= about_prefix());
    if starts_with_ci(url, len, &http) || starts_with_ci(url, len, &https) || starts_with_ci(
        url,
        len,
        &file,
    ) || starts_with_ci(url, len, &data) || starts_with_ci(url, len, &about) {
        Ok(())
    } else {
        Err(WebKitError::InvalidUrl(url.to_owned()))
    }
}

/// Every URL that starts with `http://`, in any mix of upper and lower case,
/// is allowed, whatever follows the prefix.
pub proof fn lemma_http_urls_allowed(url: Seq<char>)
    requires
        url.len() >= 7
            && (url[0] == 'h' || url[0] == 'H')
            && (url[1] == 't' || url[1] == 'T')
            && (url[2] == 't' || url[2] == 'T')
            && (url[3] == 'p' || url[3] == 'P')
            && url[4] == ':'
            && url[5] == '/'
            && url[6] == '/',
    ensures
        url_allowed(url),
{
    assert(starts_with_ascii_ci(url, http_prefix()));
}

/// Every URL that starts with `https://`, in any mix of upper and lower case,
/// is allowed, whatever follows the prefix.
pub proof fn lemma_https_urls_allowed(url: Seq<char>)
    requires
        url.len() >= 8
            && (url[0] == 'h' || url[0] == 'H')
            && (url[1] == 't' || url[1] == 'T')
            && (url[2] == 't' || url[2] == 'T')
            && (url[3] == 'p' || url[3] == 'P')
            && (url[4] == 's' || url[4] == 'S')
            && url[5] == ':'
            && url[6] == '/'
            && url[7] == '/',
    ensures
        url_allowed(url),
{
    assert(starts_with_ascii_ci(url, https_prefix()));
}

/// Every URL that starts with `file://`, in any mix of upper and lower case,
/// is allowed, whatever follows the prefix.
pub proof fn lemma_file_urls_allowed(url: Seq<char>)
    requires
        url.len() >= 7
            && (url[0] == 'f' || url[0] == 'F')
            && (url[1] == 'i' || url[1] == 'I')
            && (url[2] == 'l' || url[2] == 'L')
            && (url[3] == 'e' || url[3] == 'E')
            && url[4] == ':'
            && url[5] == '/'
            && url[6] == '/',
    ensures
        url_allowed(url),
{
    assert(starts_with_ascii_ci(url, file_prefix()));
}

/// Every URL that starts with `data:`, in any mix of upper and lower case,
/// is allowed, whatever follows the prefix.
pub proof fn lemma_data_urls_allowed(url: Seq<char>)
    requires
        url.len() >= 5
            && (url[0] == 'd' || url[0] == 'D')
            && (url[1] == 'a' || url[1] == 'A')
            && (url[2] == 't' || url[2] == 'T')
            && (url[3] == 'a' || url[3] == 'A')
            && url[4] == ':',
    ensures
        url_allowed(url),
{
    assert(starts_with_ascii_ci(url, data_prefix()));
}

/// Every URL that starts with `about:`, in any mix of upper and lower case,
/// is allowed, whatever follows the prefix.
pub proof fn lemma_about_urls_allowed(url: Seq<char>)
    requires
        url.len() >= 6
            && (url[0] == 'a' || url[0] == 'A')
            && (url[1] == 'b' || url[1] == 'B')
            && (url[2] == 'o' || url[2] == 'O')
            && (url[3] == 'u' || url[3] == 'U')
            && (url[4] == 't' || url[4] == 'T')
            && url[5] == ':',
    ensures
        url_allowed(url),
{
    assert(starts_with_ascii_ci(url, about_prefix()));
}

/// A URL whose first character is none of `h`, `H`, `f`, `F`, `d`, `D`,
/// `a`, `A` cannot begin any allowed scheme and is rejected; so is the
/// empty URL. Every `javascript:` URL is among them.
pub proof fn lemma_other_schemes_rejected(url: Seq<char>)
    requires
        url.len() == 0 || !(url[0] as u32 == 'h' as u32 || url[0] as u32 == 'H' as u32
            || url[0] as u32 == 'f' as u32 || url[0] as u32 == 'F' as u32
            || url[0] as u32 == 'd' as u32 || url[0] as u32 == 'D' as u32
            || url[0] as u32 == 'a' as u32 || url[0] as u32 == 'A' as u32),
    ensures
        !url_allowed(url),
{
    if url.len() > 0 {
        assert(!starts_with_ascii_ci(url, http_prefix())) by {
            assert(http_prefix()[0] == 'h');
        }
        assert(!starts_with_ascii_ci(url, https_prefix())) by {
            assert(https_prefix()[0] == 'h');
        }
        assert(!starts_with_ascii_ci(url, file_prefix())) by {
            assert(file_prefix()[0] == 'f');
        }
        assert(!starts_with_ascii_ci(url, data_prefix())) by {
            assert(data_prefix()[0] == 'd');
        }
        assert(!starts_with_ascii_ci(url, about_prefix())) by {
            assert(about_prefix()[0] == 'a');
        }
    }
}

/// Only the five schemes are allowed: an allowed URL starts, in upper or
/// lower case letters, with `http://`, `https://`, `file://`, `data:` or
/// `about:`. So `ftp://`, `javascript:`, `http:` without slashes and
/// custom schemes are all rejected.
pub proof fn lemma_allowed_urls_have_an_allowed_scheme(url: Seq<char>)
    requires
        url_allowed(url),
    ensures
        ({
            ||| (url.len() >= 7
                && (url[0] as u32 == 'h' as u32 || url[0] as u32 == 'H' as u32)
                && (url[1] as u32 == 't' as u32 || url[1] as u32 == 'T' as u32)
                && (url[2] as u32 == 't' as u32 || url[2] as u32 == 'T' as u32)
                && (url[3] as u32 == 'p' as u32 || url[3] as u32 == 'P' as u32)
                && url[4] as u32 == ':' as u32
                && url[5] as u32 == '/' as u32
                && url[6] as u32 == '/' as u32)
            ||| (url.len() >= 8
                && (url[0] as u32 == 'h' as u32 || url[0] as u32 == 'H' as u32)
                && (url[1] as u32 == 't' as u32 || url[1] as u32 == 'T' as u32)
                && (url[2] as u32 == 't' as u32 || url[2] as u32 == 'T' as u32)
                && (url[3] as u32 == 'p' as u32 || url[3] as u32 == 'P' as u32)
                && (url[4] as u32 == 's' as u32 || url[4] as u32 == 'S' as u32)
                && url[5] as u32 == ':' as u32
                && url[6] as u32 == '/' as u32
                && url[7] as u32 == '/' as u32)
            ||| (url.len() >= 7
                && (url[0] as u32 == 'f' as u32 || url[0] as u32 == 'F' as u32)
                && (url[1] as u32 == 'i' as u32 || url[1] as u32 == 'I' as u32)
                && (url[2] as u32 == 'l' as u32 || url[2] as u32 == 'L' as u32)
                && (url[3] as u32 == 'e' as u32 || url[3] as u32 == 'E' as u32)
                && url[4] as u32 == ':' as u32
                && url[5] as u32 == '/' as u32
                && url[6] as u32 == '/' as u32)
            ||| (url.len() >= 5
                && (url[0] as u32 == 'd' as u32 || url[0] as u32 == 'D' as u32)
                && (url[1] as u32 == 'a' as u32 || url[1] as u32 == 'A' as u32)
                && (url[2] as u32 == 't' as u32 || url[2] as u32 == 'T' as u32)
                && (url[3] as u32 == 'a' as u32 || url[3] as u32 == 'A' as u32)
                && url[4] as u32 == ':' as u32)
            ||| (url.len() >= 6
                && (url[0] as u32 == 'a' as u32 || url[0] as u32 == 'A' as u32)
                && (url[1] as u32 == 'b' as u32 || url[1] as u32 == 'B' as u32)
                && (url[2] as u32 == 'o' as u32 || url[2] as u32 == 'O' as u32)
                && (url[3] as u32 == 'u' as u32 || url[3] as u32 == 'U' as u32)
                && (url[4] as u32 == 't' as u32 || url[4] as u32 == 'T' as u32)
                && url[5] as u32 == ':' as u32)
        }),
{
    if starts_with_ascii_ci(url, http_prefix()) {
        assert(ascii_lower_code(url[0]) == http_prefix()[0] as u32);
        assert(ascii_lower_code(url[1]) == http_prefix()[1] as u32);
        assert(ascii_lower_code(url[2]) == http_prefix()[2] as u32);
        assert(ascii_lower_code(url[3]) == http_prefix()[3] as u32);
        assert(ascii_lower_code(url[4]) == http_prefix()[4] as u32);
        assert(ascii_lower_code(url[5]) == http_prefix()[5] as u32);
        assert(ascii_lower_code(url[6]) == http_prefix()[6] as u32);
    }
    if starts_with_ascii_ci(url, https_prefix()) {
        assert(ascii_lower_code(url[0]) == https_prefix()[0] as u32);
        assert(ascii_lower_code(url[1]) == https_prefix()[1] as u32);
        assert(ascii_lower_code(url[2]) == https_prefix()[2] as u32);
        assert(ascii_lower_code(url[3]) == https_prefix()[3] as u32);
        assert(ascii_lower_code(url[4]) == https_prefix()[4] as u32);
        assert(ascii_lower_code(url[5]) == https_prefix()[5] as u32);
        assert(ascii_lower_code(url[6]) == https_prefix()[6] as u32);
        assert(ascii_lower_code(url[7]) == https_prefix()[7] as u32);
    }
    if starts_with_ascii_ci(url, file_prefix()) {
        assert(ascii_lower_code(url[0]) == file_prefix()[0] as u32);
        assert(ascii_lower_code(url[1]) == file_prefix()[1] as u32);
        assert(ascii_lower_code(url[2]) == file_prefix()[2] as u32);
        assert(ascii_lower_code(url[3]) == file_prefix()[3] as u32);
        assert(ascii_lower_code(url[4]) == file_prefix()[4] as u32);
        assert(ascii_lower_code(url[5]) == file_prefix()[5] as u32);
        assert(ascii_lower_code(url[6]) == file_prefix()[6] as u32);
    }
    if starts_with_ascii_ci(url, data_prefix()) {
        assert(ascii_lower_code(url[0]) == data_prefix()[0] as u32);
        assert(ascii_lower_code(url[1]) == data_prefix()[1] as u32);
        assert(ascii_lower_code(url[2]) == data_prefix()[2] as u32);
        assert(ascii_lower_code(url[3]) == data_prefix()[3] as u32);
        assert(ascii_lower_code(url[4]) == data_prefix()[4] as u32);
    }
    if starts_with_ascii_ci(url, about_prefix()) {
        assert(ascii_lower_code(url[0]) == about_prefix()[0] as u32);
        assert(ascii_lower_code(url[1]) == about_prefix()[1] as u32);
        assert(ascii_lower_code(url[2]) == about_prefix()[2] as u32);
        assert(ascii_lower_code(url[3]) == about_prefix()[3] as u32);
        assert(ascii_lower_code(url[4]) == about_prefix()[4] as u32);
        assert(ascii_lower_code(url[5]) == about_prefix()[5] as u32);
    }
}

/// The check a configuration's start URL must pass before a web view
/// created from it loads the URL: creating the view fails exactly when a
/// start URL is set and the scheme allowlist rejects it.
pub fn check_start_url(start_url: &Option<String>) -> (r: Result<(), WebKitError>)
    ensures
        r is Ok <==> (match start_url {
            None => true,
            Some(u) => url_allowed(u@),
        }),
        r matches Err(e) ==> (start_url matches Some(u) && e matches WebKitError::InvalidUrl(v)
            && v@ == u@),
{
    match start_url {
        None => Ok(()),
        Some(u) => validate_url(u.as_str()),
    }
}

/// The kinds of policy decision the engine asks for.
#[derive(Debug, Clone, Copy, PartialEq, Eq, Structural)]
pub enum EnginePolicyDecisionType {
    NavigationAction,
    NewWindowAction,
    Response,
    /// A decision type this library does not know.
    Other,
}

pub open spec fn spec_policy_action(t: EnginePolicyDecisionType) -> PolicyAction {
    match t {
        EnginePolicyDecisionType::NavigationAction => PolicyAction::Navigation,
        EnginePolicyDecisionType::NewWindowAction => PolicyAction::NewWindow,
        EnginePolicyDecisionType::Response => PolicyAction::Response,
        EnginePolicyDecisionType::Other => PolicyAction::Response,
    }
}

/// The policy action reported to the navigation delegate for an engine
/// decision. Unknown decision types are treated as responses.
pub fn policy_action_for(decision_type: EnginePolicyDecisionType) -> (r: PolicyAction)
    ensures
        r == spec_policy_action(decision_type),
{
    match decision_type {
        EnginePolicyDecisionType::NavigationAction => PolicyAction::Navigation,
        EnginePolicyDecisionType::NewWindowAction => PolicyAction::NewWindow,
        EnginePolicyDecisionType::Response => PolicyAction::Response,
        EnginePolicyDecisionType::Other => PolicyAction::Response,
    }
}

/// What to do with the inspector.
#[derive(Debug, Clone, Copy, PartialEq, Eq, Structural)]
pub enum InspectorCommand {
    Show,
    Close,
}

/// Toggling the inspector: close it when it is open, show it otherwise.
/// The boolean is whether the inspector is open afterwards.
pub fn toggle_inspector(is_open: bool) -> (r: (InspectorCommand, bool))
    ensures
        r.0 == (if is_open {
            InspectorCommand::Close
        } else {
            InspectorCommand::Show
        }),
        r.1 == !is_open,
{
    if is_open {
        (InspectorCommand::Close, false)
    } else {
        (InspectorCommand::Show, true)
    }
}

/// Whether the inspector counts as open: it must exist and be attached.
pub fn inspector_open(attached: Option<bool>) -> (r: bool)
    ensures
        r == (attached == Some(true)),
{
    match attached {
        Some(a) => a,
        None => false,
    }
}

} // verus!
