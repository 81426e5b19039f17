//! What the share engine makes of a request body: the URL of a link, the text
//! of a paste, and the size limit that applies to each kind of body.
use vstd::prelude::*;

use crate::config::Config;
use crate::error::{ApiError, ErrorKind};
use crate::headers::holds_text;
use crate::models::ShareKind;
use crate::text::contains_text;

verus! {

/// What `url::Url::parse` makes of a text: `None` when the text is not an
/// absolute URL, else the URL's scheme and its serialization.
pub uninterp spec fn url_parse_of(s: Seq<char>) -> Option<(Seq<char>, Seq<char>)>;

/// A parsed URL, reduced to what links need.
pub struct ParsedUrl {
    /// The scheme, lower-cased, without the `:`.
    pub scheme: String,
    /// The canonical text of the URL.
    pub serialization: String,
}

/// Relies on `url::Url::parse`, and on `Url::scheme` and `Url::as_str` to read
/// its result: the outcome depends on the text alone.
#[verifier::external_body]
fn parse_url(s: &str) -> (r: Option<ParsedUrl>)
    ensures
        match (r, url_parse_of(s@)) {
            (None, None) => true,
            (Some(u), Some(p)) => u.scheme@ == p.0 && u.serialization@ == p.1,
            _ => false,
        },
{
    match url::Url::parse(s) {
        Ok(u) => Some(ParsedUrl { scheme: u.scheme().to_string(), serialization: u.as_str().to_string() }),
        Err(_) => None,
    }
}

/// Whether links with scheme `scheme` are allowed: any scheme is when the
/// list is empty; else the list must hold it, compared case-sensitively.
pub open spec fn scheme_allowed(allowed: Seq<String>, scheme: Seq<char>) -> bool {
    allowed.len() == 0 || holds_text(allowed, scheme)
}

/// Settles the URL of a link from the parse of its body: it must be a URL
/// with an allowed scheme, and the link keeps its canonical text.
pub fn check_link(parsed: Option<ParsedUrl>, allowed_schemes: &Vec<String>) -> (r: Result<String, ApiError>)
    ensures
        match parsed {
            None => r matches Err(e) && e.kind == ErrorKind::ValidationFailure && e.message@ == "Invalid URL."@,
            Some(u) => if scheme_allowed(allowed_schemes@, u.scheme@) {
                r matches Ok(l) && l@ == u.serialization@
            } else {
                r matches Err(e) && e.kind == ErrorKind::ValidationFailure && e.message@
                    == "Invalid URL scheme."@
            },
        },
{
    match parsed {
        None => Err(ApiError::new(ErrorKind::ValidationFailure, "Invalid URL.")),
        Some(url) => {
            if allowed_schemes.len() > 0 && !contains_text(allowed_schemes, url.scheme.as_str()) {
                Err(ApiError::new(ErrorKind::ValidationFailure, "Invalid URL scheme."))
            } else {
                Ok(url.serialization)
            }
        },
    }
}

/// The URL of a link whose body is `raw`: it must parse as a URL with an
/// allowed scheme.
pub fn classify_link(raw: &str, allowed_schemes: &Vec<String>) -> (r: Result<String, ApiError>)
    ensures
        match url_parse_of(raw@) {
            None => r matches Err(e) && e.kind == ErrorKind::ValidationFailure,
            Some((scheme, serialization)) => if scheme_allowed(allowed_schemes@, scheme) {
                r matches Ok(l) && l@ == serialization
            } else {
                r matches Err(e) && e.kind == ErrorKind::ValidationFailure
            },
        },
{
    check_link(parse_url(raw), allowed_schemes)
}

/// What `unicode_reader::CodePoints` decodes from `bytes`: `None` when it
/// reports an error, else the code points in order.
pub uninterp spec fn code_points_of(bytes: Seq<u8>) -> Option<Seq<char>>;

/// Relies on `unicode_reader::CodePoints`, reading `bytes` through a
/// `std::io::Cursor`: the outcome depends on the bytes alone.
#[verifier::external_body]
fn decode_code_points(bytes: Vec<u8>) -> (r: Option<String>)
    ensures
        match (r, code_points_of(bytes@)) {
            (None, None) => true,
            (Some(s), Some(c)) => s@ == c,
            _ => false,
        },
{
    unicode_reader::CodePoints::from(std::io::Cursor::new(bytes)).collect::<Result<String, std::io::Error>>().ok()
}

/// Settles the text of a paste from the decoding of its body, which must have
/// succeeded.
pub fn check_paste_text(decoded: Option<String>) -> (r: Result<String, ApiError>)
    ensures
        match decoded {
            None => r matches Err(e) && e.kind == ErrorKind::ValidationFailure && e.message@
                == "Could not decode body."@,
            Some(s) => r == Ok::<String, ApiError>(s),
        },
{
    match decoded {
        Some(text) => Ok(text),
        None => Err(ApiError::new(ErrorKind::ValidationFailure, "Could not decode body.")),
    }
}

/// The text of a paste whose body is `bytes`: it must decode as UTF-8.
pub fn decode_paste(bytes: Vec<u8>) -> (r: Result<String, ApiError>)
    ensures
        match code_points_of(bytes@) {
            None => r matches Err(e) && e.kind == ErrorKind::ValidationFailure,
            Some(c) => r matches Ok(t) && t@ == c,
        },
{
    check_paste_text(decode_code_points(bytes))
}

/// The largest body, in bytes, that a share of kind `kind` may have.
pub fn body_limit(conf: &Config, kind: ShareKind) -> (r: u64)
    ensures
        r == (if kind == ShareKind::Link {
            conf.restrictions.max_link_length as u64
        } else {
            conf.restrictions.max_upload_size
        }),
{
    match kind {
        ShareKind::Link => conf.restrictions.max_link_length as u64,
        _ => conf.restrictions.max_upload_size,
    }
}

} // verus!
