//! URLs as the clients use them: held as the serialization that the `url` crate
//! gives of a parsed URL, and derived by the crate's setters.

use vstd::prelude::*;

verus! {

#[verifier::external_type_specification]
#[verifier::external_body]
pub struct ExUrlParseError(url::ParseError);

/// What `url::Url::parse` makes of `input`: the serialization of the URL, or the error.
pub uninterp spec fn url_parse(input: Seq<char>) -> Result<Seq<char>, UrlError>;

/// The errors of `url::Url::parse`, one variant for each of `url::ParseError`'s;
/// `Other` holds the text of a variant that a later version of the crate may add.
#[derive(Clone, Debug, PartialEq, Eq)]
pub enum UrlError {
    EmptyHost,
    IdnaError,
    InvalidPort,
    InvalidIpv4Address,
    InvalidIpv6Address,
    InvalidDomainCharacter,
    RelativeUrlWithoutBase,
    RelativeUrlWithCannotBeABaseBase,
    SetHostOnCannotBeABaseUrl,
    Overflow,
    Other(String),
}

/// The message with which the `url` crate shows each error (its `Display`).
pub open spec fn url_error_text(e: UrlError) -> Seq<char> {
    match e {
        UrlError::EmptyHost => "empty host"@,
        UrlError::IdnaError => "invalid international domain name"@,
        UrlError::InvalidPort => "invalid port number"@,
        UrlError::InvalidIpv4Address => "invalid IPv4 address"@,
        UrlError::InvalidIpv6Address => "invalid IPv6 address"@,
        UrlError::InvalidDomainCharacter => "invalid domain character"@,
        UrlError::RelativeUrlWithoutBase => "relative URL without a base"@,
        UrlError::RelativeUrlWithCannotBeABaseBase => "relative URL with a cannot-be-a-base base"@,
        UrlError::SetHostOnCannotBeABaseUrl => "a cannot-be-a-base URL doesn\u{2019}t have a host to set"@,
        UrlError::Overflow => "URLs more than 4 GB are not supported"@,
        UrlError::Other(m) => m@,
    }
}

impl UrlError {
    /// The message with which the `url` crate shows the error.
    pub fn text(&self) -> (r: String)
        ensures
            r@ == url_error_text(*self),
    {
        match self {
            UrlError::EmptyHost => "empty host".to_owned(),
            UrlError::IdnaError => "invalid international domain name".to_owned(),
            UrlError::InvalidPort => "invalid port number".to_owned(),
            UrlError::InvalidIpv4Address => "invalid IPv4 address".to_owned(),
            UrlError::InvalidIpv6Address => "invalid IPv6 address".to_owned(),
            UrlError::InvalidDomainCharacter => "invalid domain character".to_owned(),
            UrlError::RelativeUrlWithoutBase => "relative URL without a base".to_owned(),
            UrlError::RelativeUrlWithCannotBeABaseBase =>
                "relative URL with a cannot-be-a-base base".to_owned(),
            UrlError::SetHostOnCannotBeABaseUrl =>
                "a cannot-be-a-base URL doesn\u{2019}t have a host to set".to_owned(),
            UrlError::Overflow => "URLs more than 4 GB are not supported".to_owned(),
            UrlError::Other(m) => m.clone(),
        }
    }
}

/// Tells `url::ParseError`'s variants apart, one arm each; a variant that this version
/// of the crate does not have is kept as its text.
#[verifier::external_body]
fn url_error_of(e: url::ParseError) -> UrlError {
    match e {
        url::ParseError::EmptyHost => UrlError::EmptyHost,
        url::ParseError::IdnaError => UrlError::IdnaError,
        url::ParseError::InvalidPort => UrlError::InvalidPort,
        url::ParseError::InvalidIpv4Address => UrlError::InvalidIpv4Address,
        url::ParseError::InvalidIpv6Address => UrlError::InvalidIpv6Address,
        url::ParseError::InvalidDomainCharacter => UrlError::InvalidDomainCharacter,
        url::ParseError::RelativeUrlWithoutBase => UrlError::RelativeUrlWithoutBase,
        url::ParseError::RelativeUrlWithCannotBeABaseBase => UrlError::RelativeUrlWithCannotBeABaseBase,
        url::ParseError::SetHostOnCannotBeABaseUrl => UrlError::SetHostOnCannotBeABaseUrl,
        url::ParseError::Overflow => UrlError::Overflow,
        other => UrlError::Other(other.to_string()),
    }
}

/// The serialization of the URL serialized as `url` after `Url::set_scheme(scheme)`,
/// if both the parse and the setter succeed.
pub uninterp spec fn url_with_scheme(url: Seq<char>, scheme: Seq<char>) -> Option<Seq<char>>;

/// The serialization of the URL serialized as `url` after `Url::set_path(path)`,
/// if the parse succeeds.
pub uninterp spec fn url_with_path(url: Seq<char>, path: Seq<char>) -> Option<Seq<char>>;

pub open spec fn has_prefix(s: Seq<char>, p: Seq<char>) -> bool {
    p.len() <= s.len() && s.take(p.len() as int) == p
}

/// The scheme of a URL serialization: what precedes its first ':'.
pub open spec fn scheme_of(s: Seq<char>) -> Seq<char>
    decreases s.len(),
{
    if s.len() == 0 || s[0] == ':' {
        Seq::empty()
    } else {
        seq![s[0]] + scheme_of(s.drop_first())
    }
}

/// The schemes between which `Url::set_scheme` may move a URL with a host.
pub open spec fn is_web_scheme(scheme: Seq<char>) -> bool {
    ||| scheme == "http"@
    ||| scheme == "https"@
    ||| scheme == "ws"@
    ||| scheme == "wss"@
    ||| scheme == "ftp"@
}

/// A text that is the serialization of a URL.
pub open spec fn is_url_text(s: Seq<char>) -> bool {
    url_parse(s) == Ok::<Seq<char>, UrlError>(s)
}

/// The serialization of a URL whose scheme is one of the web schemes.
pub open spec fn is_web_url(s: Seq<char>) -> bool {
    is_url_text(s) && is_web_scheme(scheme_of(s))
}

/// The serialization of a `file` URL with a (non-empty) host: `file://` and then the
/// host, which a path's '/' would otherwise follow at once.
pub open spec fn is_file_url_with_host(s: Seq<char>) -> bool {
    &&& has_prefix(s, "file://"@)
    &&& s.len() > "file://"@.len()
    &&& s["file://"@.len() as int] != '/'
}

/// The serialization of a URL whose scheme `Url::set_scheme` can move to a web scheme:
/// one with a web scheme, or a `file` URL with a host.
pub open spec fn is_derivable_url(s: Seq<char>) -> bool {
    is_url_text(s) && (is_web_scheme(scheme_of(s)) || is_file_url_with_host(s))
}

/// The URL serialized as `base` with its scheme and then its path replaced.
pub open spec fn derived_url(base: Seq<char>, scheme: Seq<char>, path: Seq<char>) -> Seq<char> {
    url_with_path(url_with_scheme(base, scheme).unwrap(), path).unwrap()
}

/// Calls `url::Url::parse` and hands the URL back as its serialization (`String::from`),
/// the error as `UrlError`. Claims: the result is `url_parse` of the input; the
/// serialization of a URL parses back to itself (the crate's `Url::check_invariants`
/// asserts this of every URL it makes); a text that begins with a web scheme in lower case
/// and `://` gives a URL with that scheme (the parser keeps the scheme it read, in lower
/// case, before the first ':').
#[verifier::external_body]
pub fn parse_url(input: &str) -> (r: Result<String, UrlError>)
    ensures
        match r {
            Ok(s) => url_parse(input@) == Ok::<Seq<char>, UrlError>(s@),
            Err(e) => url_parse(input@) == Err::<Seq<char>, UrlError>(e),
        },
        r matches Ok(s) ==> is_url_text(s@),
        r matches Ok(s) ==> forall|w: Seq<char>|
            is_web_scheme(w) && #[trigger] has_prefix(input@, w + "://"@) ==> scheme_of(s@) == w,
{
    match url::Url::parse(input) {
        Ok(u) => Ok(String::from(u)),
        Err(e) => Err(url_error_of(e)),
    }
}

/// Calls `url::Url::set_scheme` on the URL serialized as `url` (parsed back with
/// `Url::parse`) and hands back the new serialization. Claims, besides the name: by the
/// setter's documentation and source it fails only on a scheme outside
/// `[a-zA-Z][a-zA-Z0-9+.-]+`, on a move between a special scheme (the web schemes and
/// `file`) and any other, on a move to `file`, or on a URL without a host moving to a
/// special scheme; so a URL with a web scheme, or a `file` URL with a host, moves to any
/// web scheme, and then has that scheme.
#[verifier::external_body]
fn url_set_scheme(url: &str, scheme: &str) -> (r: Option<String>)
    ensures
        match r {
            Some(s) => url_with_scheme(url@, scheme@) == Some(s@),
            None => url_with_scheme(url@, scheme@) is None,
        },
        r is None ==> !(is_derivable_url(url@) && is_web_scheme(scheme@)),
        r matches Some(s) ==> (is_derivable_url(url@) && is_web_scheme(scheme@) ==> is_url_text(
            s@,
        ) && scheme_of(s@) == scheme@),
{
    let mut parsed = url::Url::parse(url).ok()?;
    parsed.set_scheme(scheme).ok()?;
    Some(parsed.into())
}

/// Calls `url::Url::set_path` on the URL serialized as `url` (parsed back with
/// `Url::parse`) and hands back the new serialization. Claims, besides the name: the
/// setter cannot fail; on a URL with a web scheme (which always has a host) it rewrites
/// only the path after the host, so the result is again a URL with the same scheme. Of
/// other URLs nothing more is claimed: without a host the setter can write a path that
/// does not parse back.
#[verifier::external_body]
fn url_set_path(url: &str, path: &str) -> (r: Option<String>)
    ensures
        match r {
            Some(s) => url_with_path(url@, path@) == Some(s@),
            None => url_with_path(url@, path@) is None,
        },
        r is None ==> !is_url_text(url@),
        r matches Some(s) ==> (is_web_url(url@) ==> is_url_text(s@) && scheme_of(s@) == scheme_of(
            url@,
        )),
{
    let mut parsed = url::Url::parse(url).ok()?;
    parsed.set_path(path);
    Some(parsed.into())
}

/// The URL serialized as `base` with the scheme `scheme` and the path `path`.
pub fn derive_url(base: &str, scheme: &str, path: &str) -> (r: String)
    requires
        is_derivable_url(base@),
        is_web_scheme(scheme@),
    ensures
        r@ == derived_url(base@, scheme@, path@),
        is_web_url(r@),
        scheme_of(r@) == scheme@,
{
    let with_scheme = url_set_scheme(base, scheme).unwrap();
    url_set_path(with_scheme.as_str(), path).unwrap()
}

} // verus!
