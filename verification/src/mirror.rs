//! Deriving the mirror address from a source address.
//!
//! The address is parsed and rewritten by the `url` crate. Each of its
//! operations is reached through one function that takes and returns text;
//! what an operation yields is a function of that text and has a name here.

use vstd::prelude::*;
use vstd::string::StringExecFns;
use vstd::utf8::encode_utf8;

verus! {

/// Host of the mirror.
pub const MIRROR_HOST: &'static str = "localhost";

/// Scheme of the mirror.
pub const MIRROR_SCHEME: &'static str = "http";

/// Port of the mirror.
pub const MIRROR_PORT: u16 = 8000;

/// Namespace under which the mirror keeps repositories from elsewhere.
pub const MIRROR_NAMESPACE: &'static str = "/third-part";

/// Longest text, in bytes, that is handed to the `url` crate. It keeps its
/// offsets in 32 bits; below this length they cannot overflow, even after
/// every byte was percent-encoded.
pub const MAX_URL_BYTES: usize = 0x1000_0000;

/// Path of the URL that `url` parses to, `None` where it is not an
/// absolute URL.
pub uninterp spec fn url_path(url: Seq<char>) -> Option<Seq<char>>;

/// The URL `url` after its host was set to `host`, `None` where `url` is not
/// an absolute URL or cannot take that host.
pub uninterp spec fn url_with_host(url: Seq<char>, host: Seq<char>) -> Option<Seq<char>>;

/// The URL `url` after its scheme was set to `scheme`, `None` where `url` is
/// not an absolute URL or cannot take that scheme.
pub uninterp spec fn url_with_scheme(url: Seq<char>, scheme: Seq<char>) -> Option<Seq<char>>;

/// The URL `url` after its port was set to `port`, `None` where `url` is not
/// an absolute URL or cannot have a port.
pub uninterp spec fn url_with_port(url: Seq<char>, port: u16) -> Option<Seq<char>>;

/// The URL `url` after its path was set to `path`, `None` where `url` is not
/// an absolute URL.
pub uninterp spec fn url_with_path(url: Seq<char>, path: Seq<char>) -> Option<Seq<char>>;

/// Whether a text is short enough for the `url` crate.
pub open spec fn fits(text: Seq<char>) -> bool {
    encode_utf8(text).len() <= MAX_URL_BYTES
}

/// Why no mirror address could be derived.
#[derive(Clone, Copy, Debug, PartialEq, Eq, Structural)]
pub enum MirrorError {
    /// A text was longer than `MAX_URL_BYTES`.
    TooLong,
    /// The source is not an absolute URL.
    NotAUrl,
    /// The URL did not take the new host, scheme, port or path.
    Refused,
}

/// Where a repository is pushed to.
#[derive(Debug, PartialEq, Eq)]
pub struct MirrorTarget {
    /// The full address of the mirror remote.
    pub url: String,
    /// The path under the mirror's host, namespace included.
    pub path: String,
}

/// Mathematical value of a [`MirrorTarget`].
pub struct MirrorTargetView {
    pub url: Seq<char>,
    pub path: Seq<char>,
}

impl View for MirrorTarget {
    type V = MirrorTargetView;

    open spec fn view(&self) -> MirrorTargetView {
        MirrorTargetView { url: self.url@, path: self.path@ }
    }
}

/// The path on the mirror of a repository whose source path is `path`.
pub open spec fn mirror_path(path: Seq<char>) -> Seq<char> {
    MIRROR_NAMESPACE@ + path
}

/// The URL `source` with host, scheme, port and path replaced, in that
/// order, or the first reason why that cannot be done.
pub open spec fn rewritten(
    source: Seq<char>,
    host: Seq<char>,
    scheme: Seq<char>,
    port: u16,
    path: Seq<char>,
) -> Result<Seq<char>, MirrorError> {
    if !fits(source) || !fits(host) || !fits(scheme) || !fits(path) {
        Err(MirrorError::TooLong)
    } else {
        match url_with_host(source, host) {
            None => Err(MirrorError::Refused),
            Some(a) => if !fits(a) {
                Err(MirrorError::TooLong)
            } else {
                match url_with_scheme(a, scheme) {
                    None => Err(MirrorError::Refused),
                    Some(b) => if !fits(b) {
                        Err(MirrorError::TooLong)
                    } else {
                        match url_with_port(b, port) {
                            None => Err(MirrorError::Refused),
                            Some(c) => if !fits(c) {
                                Err(MirrorError::TooLong)
                            } else {
                                match url_with_path(c, path) {
                                    None => Err(MirrorError::Refused),
                                    Some(d) => Ok(d),
                                }
                            },
                        }
                    },
                }
            },
        }
    }
}

/// The mirror target of the source address `source`: its path under the
/// namespace, and its URL with the mirror's host, scheme and port and with
/// that path.
pub open spec fn mirror_of(source: Seq<char>) -> Result<MirrorTargetView, MirrorError> {
    if !fits(source) {
        Err(MirrorError::TooLong)
    } else {
        match url_path(source) {
            None => Err(MirrorError::NotAUrl),
            Some(p) => match rewritten(
                source,
                MIRROR_HOST@,
                MIRROR_SCHEME@,
                MIRROR_PORT,
                mirror_path(p),
            ) {
                Ok(url) => Ok(MirrorTargetView { url, path: mirror_path(p) }),
                Err(e) => Err(e),
            },
        }
    }
}

/// Calls `Url::parse` and `Url::path`: the path of the parsed URL, named
/// `url_path`. Parsing fails with an error, never a panic.
#[verifier::external_body]
pub(crate) fn path_of(url: &str) -> (path: Option<String>)
    requires
        fits(url@),
    ensures
        path.deep_view() == url_path(url@),
{
    url::Url::parse(url).ok().map(|u| u.path().to_owned())
}

/// Calls `Url::set_host` on the parsed URL and gives its serialization,
/// named `url_with_host`. Within the length limit the setter returns or
/// fails with an error.
#[verifier::external_body]
fn with_host(url: &str, host: &str) -> (out: Option<String>)
    requires
        fits(url@),
        fits(host@),
    ensures
        out.deep_view() == url_with_host(url@, host@),
{
    let mut parsed = url::Url::parse(url).ok()?;
    parsed.set_host(Some(host)).ok()?;
    Some(parsed.into())
}

/// Calls `Url::set_scheme` on the parsed URL and gives its serialization,
/// named `url_with_scheme`.
#[verifier::external_body]
fn with_scheme(url: &str, scheme: &str) -> (out: Option<String>)
    requires
        fits(url@),
        fits(scheme@),
    ensures
        out.deep_view() == url_with_scheme(url@, scheme@),
{
    let mut parsed = url::Url::parse(url).ok()?;
    parsed.set_scheme(scheme).ok()?;
    Some(parsed.into())
}

/// Calls `Url::set_port` with `Some(port)` on the parsed URL and gives its
/// serialization, named `url_with_port`.
#[verifier::external_body]
fn with_port(url: &str, port: u16) -> (out: Option<String>)
    requires
        fits(url@),
    ensures
        out.deep_view() == url_with_port(url@, port),
{
    let mut parsed = url::Url::parse(url).ok()?;
    parsed.set_port(Some(port)).ok()?;
    Some(parsed.into())
}

/// Calls `Url::set_path` on the parsed URL and gives its serialization,
/// named `url_with_path`.
#[verifier::external_body]
fn with_path(url: &str, path: &str) -> (out: Option<String>)
    requires
        fits(url@),
        fits(path@),
    ensures
        out.deep_view() == url_with_path(url@, path@),
{
    let mut parsed = url::Url::parse(url).ok()?;
    parsed.set_path(path);
    Some(parsed.into())
}

/// Whether `text` may be handed to the `url` crate.
pub fn is_within_limit(text: &str) -> (ok: bool)
    ensures
        ok == fits(text@),
{
    text.as_bytes().len() <= MAX_URL_BYTES
}

/// Puts the mirror's namespace in front of a source path.
pub fn prefixed_path(path: &str) -> (out: String)
    ensures
        out@ == mirror_path(path@),
{
    String::from_str(MIRROR_NAMESPACE).concat(path)
}

/// Replaces host, scheme, port and path of `source`, in that order.
pub fn rewrite_url(source: &str, host: &str, scheme: &str, port: u16, path: &str) -> (out: Result<
    String,
    MirrorError,
>)
    ensures
        match out {
            Ok(url) => rewritten(source@, host@, scheme@, port, path@) == Ok::<
                Seq<char>,
                MirrorError,
            >(url@),
            Err(e) => rewritten(source@, host@, scheme@, port, path@) == Err::<
                Seq<char>,
                MirrorError,
            >(e),
        },
{
    if !is_within_limit(source) || !is_within_limit(host) || !is_within_limit(scheme)
        || !is_within_limit(path) {
        return Err(MirrorError::TooLong);
    }
    let a = match with_host(source, host) {
        Some(a) => a,
        None => return Err(MirrorError::Refused),
    };
    if !is_within_limit(a.as_str()) {
        return Err(MirrorError::TooLong);
    }
    let b = match with_scheme(a.as_str(), scheme) {
        Some(b) => b,
        None => return Err(MirrorError::Refused),
    };
    if !is_within_limit(b.as_str()) {
        return Err(MirrorError::TooLong);
    }
    let c = match with_port(b.as_str(), port) {
        Some(c) => c,
        None => return Err(MirrorError::Refused),
    };
    if !is_within_limit(c.as_str()) {
        return Err(MirrorError::TooLong);
    }
    match with_path(c.as_str(), path) {
        Some(d) => Ok(d),
        None => Err(MirrorError::Refused),
    }
}

/// Derives the mirror target of a source address: the path of the source
/// under the mirror's namespace, and the source URL with the mirror's host,
/// scheme and port and with that path.
pub fn derive_mirror(source: &str) -> (out: Result<MirrorTarget, MirrorError>)
    ensures
        match out {
            Ok(target) => mirror_of(source@) == Ok::<MirrorTargetView, MirrorError>(target@),
            Err(e) => mirror_of(source@) == Err::<MirrorTargetView, MirrorError>(e),
        },
{
    if !is_within_limit(source) {
        return Err(MirrorError::TooLong);
    }
    let path = match path_of(source) {
        Some(p) => prefixed_path(p.as_str()),
        None => return Err(MirrorError::NotAUrl),
    };
    match rewrite_url(source, MIRROR_HOST, MIRROR_SCHEME, MIRROR_PORT, path.as_str()) {
        Ok(url) => Ok(MirrorTarget { url, path }),
        Err(e) => Err(e),
    }
}

} // verus!
