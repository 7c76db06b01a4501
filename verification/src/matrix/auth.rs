//! The homeserver address the sign-in flows connect to.
//!
//! Parsing and re-serialising URLs is the job of the `url` crate; the rules
//! of which address is used (https by default, plain http only for the local
//! machine) are decided here.
use crate::constellations::permalinks::is_absolute_url;
use crate::matrix::spaces::opt_view;
use crate::text::{chars_of, contains_seq, copy_range, starts_with, str_contains, str_starts_with, string_from_chars};
use vstd::prelude::*;
use vstd::string::StringExecFns;

verus! {

/// The scheme of `s` read as a URL (`url::Url::scheme` after
/// `url::Url::parse`).
pub uninterp spec fn url_scheme(s: Seq<char>) -> Seq<char>;

/// The host of `s` read as a URL, as text (`url::Url::host_str` after
/// `url::Url::parse`).
pub uninterp spec fn url_host(s: Seq<char>) -> Option<Seq<char>>;

/// The path of `s` read as a URL (`url::Url::path` after `url::Url::parse`).
pub uninterp spec fn url_path(s: Seq<char>) -> Seq<char>;

/// The URL `s` with its scheme set to `scheme`, its user name to `username`
/// and its password to `password` (each where the URL allows that change),
/// serialised again.
pub uninterp spec fn url_rewritten(
    s: Seq<char>,
    scheme: Seq<char>,
    username: Seq<char>,
    password: Option<Seq<char>>,
) -> Seq<char>;

/// Parses `s` with `url::Url::parse` and returns its scheme
/// (`url::Url::scheme`); `None` when `s` does not parse.  Trusted: the
/// scheme is the named [`url_scheme`] of `s`, and the parse succeeds exactly
/// when [`is_absolute_url`] says so.
#[verifier::external_body]
fn parsed_scheme(s: &str) -> (scheme: Option<String>)
    ensures
        scheme is Some <==> is_absolute_url(s@),
        scheme is Some ==> scheme.unwrap()@ == url_scheme(s@),
{
    match url::Url::parse(s) {
        Ok(u) => Some(u.scheme().to_string()),
        Err(_) => None,
    }
}

/// Parses `s` with `url::Url::parse` and returns its host as text
/// (`url::Url::host_str`).  Trusted: the result is the named [`url_host`] of
/// `s`.
#[verifier::external_body]
fn parsed_host(s: &str) -> (host: Option<String>)
    requires
        is_absolute_url(s@),
    ensures
        opt_view(host) == url_host(s@),
{
    match url::Url::parse(s) {
        Ok(u) => match u.host_str() {
            Some(h) => Some(h.to_string()),
            None => None,
        },
        Err(_) => None,
    }
}

/// Parses `s` with `url::Url::parse` and returns its path
/// (`url::Url::path`).  Trusted: the result is the named [`url_path`] of `s`.
#[verifier::external_body]
fn parsed_path(s: &str) -> (path: String)
    requires
        is_absolute_url(s@),
    ensures
        path@ == url_path(s@),
{
    match url::Url::parse(s) {
        Ok(u) => u.path().to_string(),
        Err(_) => String::new(),
    }
}

/// Parses `s` with `url::Url::parse`, sets its scheme, user name and
/// password with `url::Url::set_scheme`, `set_username` and `set_password`
/// (a change the URL does not allow leaves that part as it was) and
/// serialises it.  Trusted: the result is the named [`url_rewritten`] of the
/// arguments.
#[verifier::external_body]
fn rewrite_url(s: &str, scheme: &str, username: &str, password: Option<&str>) -> (t: String)
    requires
        is_absolute_url(s@),
    ensures
        t@ == url_rewritten(s@, scheme@, username@, opt_str_view(password)),
{
    match url::Url::parse(s) {
        Ok(mut u) => {
            let _ = u.set_scheme(scheme);
            let _ = u.set_username(username);
            let _ = u.set_password(password);
            u.to_string()
        },
        Err(_) => String::new(),
    }
}

/// The abstract value of an optional string slice.
pub open spec fn opt_str_view(o: Option<&str>) -> Option<Seq<char>> {
    match o {
        Some(s) => Some(s@),
        None => None,
    }
}

/// The https form of an `http` address: the scheme switched to `https`, and
/// no user name or password.
pub open spec fn url_as_https(s: Seq<char>) -> Seq<char> {
    url_rewritten(s, "https"@, ""@, None)
}

/// The address given, with `https://` in front when it names no scheme.
pub open spec fn with_scheme(homeserver: Seq<char>) -> Seq<char> {
    if contains_seq(homeserver, "://"@) {
        homeserver
    } else {
        "https://"@ + homeserver
    }
}

/// The hosts of the local machine, which may be reached over plain http.
pub open spec fn is_loopback_host(host: Seq<char>) -> bool {
    host == "localhost"@ || host == "127.0.0.1"@ || host == "[::1]"@
}

/// What the URL parser read in an address: its scheme, host and path.
pub struct UrlParts {
    pub scheme: String,
    pub host: Option<String>,
    pub path: String,
}

/// The abstract value of [`UrlParts`].
pub struct UrlPartsView {
    pub scheme: Seq<char>,
    pub host: Option<Seq<char>>,
    pub path: Seq<char>,
}

impl View for UrlParts {
    type V = UrlPartsView;

    open spec fn view(&self) -> UrlPartsView {
        UrlPartsView { scheme: self.scheme@, host: opt_view(self.host), path: self.path@ }
    }
}

/// The abstract value of optional URL parts.
pub open spec fn parts_view(parts: Option<UrlParts>) -> Option<UrlPartsView> {
    match parts {
        Some(p) => Some(p@),
        None => None,
    }
}

/// The address a sign-in connects to for what the user typed, given what
/// the URL parser read in it (`parts`, `None` when it is no URL even with a
/// scheme) and, for a plain `http` address, its https form: `https://` is
/// assumed when no scheme is given; a plain `http` address is kept only for
/// the local machine and otherwise switched to https, without a trailing
/// slash the user did not type on a bare host; text that is no URL gets
/// `https://` in place of any `http://`.
pub open spec fn homeserver_choice(homeserver: Seq<char>, parts: Option<UrlPartsView>, https: Seq<char>) -> Seq<char> {
    match parts {
        None => "https://"@ + if starts_with(homeserver, "http://"@) {
            homeserver.skip(7)
        } else {
            homeserver
        },
        Some(p) => if p.scheme != "http"@ {
            with_scheme(homeserver)
        } else if p.host is Some && is_loopback_host(p.host.unwrap()) {
            with_scheme(homeserver)
        } else if https.len() > 0 && https.last() == '/' && !(homeserver.len() > 0 && homeserver.last() == '/')
            && p.path == "/"@ {
            https.drop_last()
        } else {
            https
        },
    }
}

/// What the URL parser reads in `s`, by the names of its results.
pub open spec fn parsed_parts(s: Seq<char>) -> Option<UrlPartsView> {
    if is_absolute_url(s) {
        Some(UrlPartsView { scheme: url_scheme(s), host: url_host(s), path: url_path(s) })
    } else {
        None
    }
}

/// The address a sign-in connects to for what the user typed: the choice
/// above, with the address (`https://` put in front when it names no scheme)
/// read by the URL parser.
pub open spec fn sanitized_homeserver(homeserver: Seq<char>) -> Seq<char> {
    homeserver_choice(homeserver, parsed_parts(with_scheme(homeserver)), url_as_https(with_scheme(homeserver)))
}

/// Whether `s` holds exactly `t`.
fn same_text(s: &String, t: &str) -> (same: bool)
    ensures
        same == (s@ == t@),
{
    let w = t.to_owned();
    *s == w
}

/// `homeserver` with `https://` in front when it names no scheme.
fn with_scheme_of(homeserver: &str) -> (s: String)
    ensures
        s@ == with_scheme(homeserver@),
{
    if str_contains(homeserver, "://") {
        homeserver.to_owned()
    } else {
        String::from_str("https://").concat(homeserver)
    }
}

/// The homeserver address to connect to, given what the URL parser read in
/// the address and, for a plain `http` address, its https form.
pub fn choose_homeserver_url(homeserver: &str, parts: Option<UrlParts>, https: &str) -> (url: String)
    ensures
        url@ == homeserver_choice(homeserver@, parts_view(parts), https@),
{
    match parts {
        None => {
            let chars = chars_of(homeserver);
            let rest = if str_starts_with(&chars, "http://") {
                proof {
                    reveal_strlit("http://");
                }
                let tail = copy_range(&chars, 7, chars.len());
                assert(tail@ =~= homeserver@.skip(7));
                string_from_chars(&tail)
            } else {
                homeserver.to_owned()
            };
            String::from_str("https://").concat(rest.as_str())
        },
        Some(p) => {
            if !same_text(&p.scheme, "http") {
                return with_scheme_of(homeserver);
            }
            if let Some(h) = &p.host {
                if same_text(h, "localhost") || same_text(h, "127.0.0.1") || same_text(h, "[::1]") {
                    return with_scheme_of(homeserver);
                }
            }
            let t = chars_of(https);
            let typed = chars_of(homeserver);
            let typed_slash = typed.len() > 0 && typed[typed.len() - 1] == '/';
            if t.len() > 0 && t[t.len() - 1] == '/' && !typed_slash && same_text(&p.path, "/") {
                let kept = copy_range(&t, 0, t.len() - 1);
                assert(kept@ =~= https@.drop_last());
                string_from_chars(&kept)
            } else {
                https.to_owned()
            }
        },
    }
}

/// The homeserver address to connect to for what the user typed in the
/// sign-in form.
pub fn sanitize_homeserver_url(homeserver: &str) -> (url: String)
    ensures
        url@ == sanitized_homeserver(homeserver@),
{
    let url_str = with_scheme_of(homeserver);
    match parsed_scheme(url_str.as_str()) {
        None => choose_homeserver_url(homeserver, None, ""),
        Some(scheme) => {
            let host = parsed_host(url_str.as_str());
            let path = parsed_path(url_str.as_str());
            let is_http = same_text(&scheme, "http");
            let parts = UrlParts { scheme, host, path };
            if is_http {
                let https = rewrite_url(url_str.as_str(), "https", "", None);
                choose_homeserver_url(homeserver, Some(parts), https.as_str())
            } else {
                choose_homeserver_url(homeserver, Some(parts), "")
            }
        },
    }
}

/// How starting an OIDC sign-in failed.
pub enum OidcStartError {
    /// The server's OAuth 2.0 metadata could not be had; `not_supported`
    /// when the server offers no OAuth 2.0 at all.
    Discovery { not_supported: bool, text: String },
    /// The client could not register itself with the server.
    ClientRegistration { text: String },
    /// Anything else.
    Other { text: String },
}

/// The failure means the server does not offer OIDC sign-in: discovery found
/// no OAuth 2.0 support, or registration says it is not supported.
pub open spec fn oidc_unsupported(e: OidcStartError) -> bool {
    match e {
        OidcStartError::Discovery { not_supported, .. } => not_supported,
        OidcStartError::ClientRegistration { text } => contains_seq(text@, "not supported"@),
        OidcStartError::Other { .. } => false,
    }
}

/// The text of the failure.
pub open spec fn oidc_error_text(e: OidcStartError) -> Seq<char> {
    match e {
        OidcStartError::Discovery { text, .. } => text@,
        OidcStartError::ClientRegistration { text } => text@,
        OidcStartError::Other { text } => text@,
    }
}

/// The error an OIDC sign-in that could not start reports: the marker that
/// lets the sign-in form say OIDC is not offered, when that is why; the
/// failure's own text otherwise.
pub fn classify_oidc_start_error(e: OidcStartError) -> (message: String)
    ensures
        oidc_unsupported(e) ==> message@ == crate::constellations::oidc_not_supported_marker(),
        !oidc_unsupported(e) ==> message@ == oidc_error_text(e),
{
    let not_supported = match &e {
        OidcStartError::Discovery { not_supported, .. } => *not_supported,
        OidcStartError::ClientRegistration { text } => str_contains(text.as_str(), "not supported"),
        OidcStartError::Other { .. } => false,
    };
    if not_supported {
        String::from_str("__constellations_oidc_not_supported__")
    } else {
        match e {
            OidcStartError::Discovery { text, .. } => text,
            OidcStartError::ClientRegistration { text } => text,
            OidcStartError::Other { text } => text,
        }
    }
}

} // verus!
