//! Addresses of the REST resources, resolved with the `url` crate.

use url::ParseError;
use url::Url;
use vstd::prelude::*;

verus! {

/// `url::Url`, a parsed URL. Nothing is read from it here but through
/// [`url_text`].
#[verifier::external_type_specification]
#[verifier::external_body]
pub struct ExUrl(url::Url);

/// `url::ParseError`, the reason why a text is no URL. It is handed on as it
/// comes.
#[verifier::external_type_specification]
#[verifier::external_body]
pub struct ExParseError(url::ParseError);

/// The serialization that a parsed URL holds.
pub uninterp spec fn url_text(url: Url) -> Seq<char>;

/// What `url::Url::parse` makes of `input`: the serialization of the absolute
/// URL that it reads, or the error that it reports.
pub uninterp spec fn url_parse(input: Seq<char>) -> Result<Seq<char>, ParseError>;

/// What `url::Url::join` makes of `reference` against the URL whose
/// serialization is `base`: the serialization of the URL that it resolves to,
/// or the error that it reports.
pub uninterp spec fn url_join(base: Seq<char>, reference: Seq<char>) -> Result<
    Seq<char>,
    ParseError,
>;

/// A URL by its serialization, where there is one.
pub open spec fn text_of(resolved: Result<Url, ParseError>) -> Result<Seq<char>, ParseError> {
    match resolved {
        Ok(url) => Ok(url_text(url)),
        Err(error) => Err(error),
    }
}

/// `url::Url::parse`: the outcome, URL or error, depends on the input text
/// alone.
#[verifier::external_body]
pub(crate) fn parse(input: &str) -> (parsed: Result<Url, ParseError>)
    ensures
        text_of(parsed) == url_parse(input@),
{
    Url::parse(input)
}

/// `url::Url::join`: the outcome, URL or error, depends on the base URL and
/// the reference alone.
#[verifier::external_body]
pub(crate) fn join(base: &Url, reference: &str) -> (joined: Result<Url, ParseError>)
    ensures
        text_of(joined) == url_join(url_text(*base), reference@),
{
    base.join(reference)
}

/// `Clone` for `url::Url`, which the crate derives: the copy has the same
/// serialization.
pub assume_specification[ <Url as Clone>::clone ](url: &Url) -> (copy: Url)
    ensures
        url_text(copy) == url_text(*url),
;

/// Path of the REST interface below a switch's base URL.
pub open spec fn rest_path() -> Seq<char> {
    "rest/v1/"@
}

/// A base URL's text as the address of a directory: with a slash at its end,
/// added where the text has none there. Resolving a path against it then
/// keeps the whole path of the base, where resolving against a base without
/// the slash would replace its last segment.
pub open spec fn as_directory(base: Seq<char>) -> Seq<char> {
    if base.len() > 0 && base.last() == '/' {
        base
    } else {
        base.push('/')
    }
}

/// The base URL of a switch, given as text: the text parsed as the address
/// of a directory.
pub open spec fn base_address(base: Seq<char>) -> Result<Seq<char>, ParseError> {
    url_parse(as_directory(base))
}

/// The REST root for a base URL given as text: `rest/v1/` resolved against
/// the base address, so that it lies below the whole path of the base.
pub open spec fn rest_root(base: Seq<char>) -> Result<Seq<char>, ParseError> {
    match base_address(base) {
        Ok(origin) => url_join(origin, rest_path()),
        Err(error) => Err(error),
    }
}

/// Address of the login resource for a base URL given as text.
pub open spec fn login_target(base: Seq<char>) -> Result<Seq<char>, ParseError> {
    match rest_root(base) {
        Ok(root) => url_join(root, "login-sessions"@),
        Err(error) => Err(error),
    }
}

/// Address of the collection of all ports below a REST root.
pub open spec fn ports_target(root: Seq<char>) -> Result<Seq<char>, ParseError> {
    url_join(root, "poe/ports"@)
}

/// Path of one port's resource below the REST root.
pub open spec fn port_path(port_id: Seq<char>) -> Seq<char> {
    "ports/"@ + port_id + "/poe"@
}

/// Address of one port's resource below a REST root.
pub open spec fn port_target(root: Seq<char>, port_id: Seq<char>) -> Result<
    Seq<char>,
    ParseError,
> {
    url_join(root, port_path(port_id))
}

/// A base URL's text with a slash at its end, added where it has none there.
pub fn directory(base: &str) -> (text: String)
    ensures
        text@ == as_directory(base@),
{
    let length = base.unicode_len();
    if length > 0 && base.get_char(length - 1) == '/' {
        base.to_owned()
    } else {
        let mut text = base.to_owned();
        text.append("/");
        proof {
            reveal_strlit("/");
            assert(text@ =~= base@.push('/'));
        }
        text
    }
}

/// Parses a base URL as the address of a directory and resolves the REST
/// root against it. Yields both, or the error of the step that failed.
pub fn resolve_root(base: &str) -> (resolved: Result<(Url, Url), ParseError>)
    ensures
        match resolved {
            Ok((origin, root)) => base_address(base@) == Ok::<Seq<char>, ParseError>(
                url_text(origin),
            ) && rest_root(base@) == Ok::<Seq<char>, ParseError>(url_text(root)),
            Err(error) => rest_root(base@) == Err::<Seq<char>, ParseError>(error),
        },
{
    let text = directory(base);
    match parse(text.as_str()) {
        Ok(origin) => match join(&origin, "rest/v1/") {
            Ok(root) => Ok((origin, root)),
            Err(error) => Err(error),
        },
        Err(error) => Err(error),
    }
}

/// Resolves the login resource against a REST root.
pub fn resolve_login(root: &Url) -> (resolved: Result<Url, ParseError>)
    ensures
        text_of(resolved) == url_join(url_text(*root), "login-sessions"@),
{
    join(root, "login-sessions")
}

/// Resolves the collection of all ports against a REST root.
pub fn resolve_ports(root: &Url) -> (resolved: Result<Url, ParseError>)
    ensures
        text_of(resolved) == ports_target(url_text(*root)),
{
    join(root, "poe/ports")
}

/// Resolves one port's resource against a REST root.
pub fn resolve_port(root: &Url, port_id: &str) -> (resolved: Result<Url, ParseError>)
    ensures
        text_of(resolved) == port_target(url_text(*root), port_id@),
{
    let mut path = "ports/".to_owned();
    path.append(port_id);
    path.append("/poe");
    join(root, path.as_str())
}

} // verus!
