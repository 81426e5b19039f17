//! The request headers that the share engine reads, and what it derives from
//! them: the kind of share, its expiry and its kind-specific metadata.
use vstd::prelude::*;

use crate::auth::{resolves, Auth};
use crate::config::Config;
use crate::error::{ApiError, ErrorKind};
use crate::models::ShareKind;
use crate::text::{contains_text, parse_u64, parse_u64_of, same_text};

verus! {

/// The headers of a share request, parsed.
pub struct HeaderParams {
    /// The `Authorization` header.
    pub token: Option<String>,
    /// The `Share-Type` header.
    pub kind: Option<ShareKind>,
    /// The `Share-Highlighting` header.
    pub language: Option<String>,
    /// The `Mime-Type` header.
    pub mime_type: Option<String>,
    /// The `Expire-After` header, in seconds.
    pub expire_after: Option<u64>,
    /// The `Content-Length` header, when it is a number.
    pub content_length: Option<u64>,
}

/// `x`, or `u64::MAX` where `x` is larger.
pub open spec fn capped(x: int) -> u64 {
    if x > u64::MAX {
        u64::MAX
    } else {
        x as u64
    }
}

/// The expiry of a share created or updated at instant `now` (milliseconds
/// since the Unix epoch), given the requested lifetime in seconds and the
/// configured longest lifetime in milliseconds: none if neither is given,
/// else `now` plus the shorter of the two.
pub open spec fn expiry_of(requested: Option<u64>, max: Option<u64>, now: u64) -> Option<u64> {
    match (requested, max) {
        (None, None) => None,
        (None, Some(m)) => Some(capped(now + m)),
        (Some(s), None) => Some(capped(now + s * 1000)),
        (Some(s), Some(m)) => Some(
            capped(
                now + if s * 1000 > m {
                    m as int
                } else {
                    s * 1000
                },
            ),
        ),
    }
}

/// The share kind that a `Share-Type` value names.
pub open spec fn kind_named(s: Seq<char>) -> Option<ShareKind> {
    if s == "link"@ {
        Some(ShareKind::Link)
    } else if s == "paste"@ {
        Some(ShareKind::Paste)
    } else if s == "file"@ {
        Some(ShareKind::File)
    } else {
        None
    }
}

/// Whether `items` holds the text `s`.
pub open spec fn holds_text(items: Seq<String>, s: Seq<char>) -> bool {
    exists|i: int| 0 <= i < items.len() && (#[trigger] items[i])@ == s
}

/// Whether uploads of MIME type `m` are allowed: a non-empty whitelist must
/// hold it, else the blacklist must not.
pub open spec fn mime_allowed(allowed: Seq<String>, disallowed: Seq<String>, m: Seq<char>) -> bool {
    if allowed.len() > 0 {
        holds_text(allowed, m)
    } else {
        !holds_text(disallowed, m)
    }
}

/// A non-empty whitelist decides alone: a MIME type it lacks is refused even
/// where the blacklist would let it pass.
pub proof fn lemma_whitelist_overrides_blacklist(allowed: Seq<String>, disallowed: Seq<String>, m: Seq<char>)
    requires
        allowed.len() > 0,
        !holds_text(allowed, m),
    ensures
        !mime_allowed(allowed, disallowed, m),
{
}

impl HeaderParams {
    /// Parses a `Share-Type` value: `link`, `paste` or `file`.
    pub fn parse_kind(raw: Option<&str>) -> (r: Result<Option<ShareKind>, ApiError>)
        ensures
            match raw {
                None => r == Ok::<Option<ShareKind>, ApiError>(None),
                Some(s) => match (r, kind_named(s@)) {
                    (Ok(Some(k)), Some(n)) => k == n,
                    (Err(e), None) => e.kind == ErrorKind::ValidationFailure,
                    _ => false,
                },
            },
    {
        match raw {
            Some(s) => {
                if same_text(s, "link") {
                    Ok(Some(ShareKind::Link))
                } else if same_text(s, "paste") {
                    Ok(Some(ShareKind::Paste))
                } else if same_text(s, "file") {
                    Ok(Some(ShareKind::File))
                } else {
                    Err(ApiError::new(ErrorKind::ValidationFailure, "Share-Type must be link, paste or file."))
                }
            },
            None => Ok(None),
        }
    }

    /// Parses an `Expire-After` value: a whole number of seconds.
    pub fn parse_expire_after(raw: Option<&str>) -> (r: Result<Option<u64>, ApiError>)
        ensures
            match raw {
                None => r == Ok::<Option<u64>, ApiError>(None),
                Some(s) => match (r, parse_u64_of(s@)) {
                    (Ok(Some(v)), Some(n)) => v == n,
                    (Err(e), None) => e.kind == ErrorKind::ValidationFailure && e.message@
                        == "Expire-After must be an integer."@,
                    _ => false,
                },
            },
    {
        match raw {
            Some(s) => match parse_u64(s) {
                Some(seconds) => Ok(Some(seconds)),
                None => Err(ApiError::new(ErrorKind::ValidationFailure, "Expire-After must be an integer.")),
            },
            None => Ok(None),
        }
    }

    /// Parses a `Content-Length` value; one that is not a number counts as absent.
    pub fn parse_content_length(raw: Option<&str>) -> (r: Option<u64>)
        ensures
            match raw {
                None => r is None,
                Some(s) => r == parse_u64_of(s@),
            },
    {
        match raw {
            Some(s) => parse_u64(s),
            None => None,
        }
    }

    /// Parses the headers of a request, given the raw values of
    /// `Share-Highlighting`, `Mime-Type`, `Authorization`, `Share-Type`,
    /// `Expire-After` and `Content-Length`.
    pub fn from_headers(
        language: Option<&str>,
        mime_type: Option<&str>,
        authorization: Option<&str>,
        share_type: Option<&str>,
        expire_after: Option<&str>,
        content_length: Option<&str>,
    ) -> (r: Result<HeaderParams, ApiError>)
        ensures
            match r {
                Ok(h) => {
                    &&& (share_type matches Some(s) ==> kind_named(s@) is Some && h.kind == kind_named(s@))
                    &&& (share_type is None ==> h.kind is None)
                    &&& (expire_after matches Some(s) ==> parse_u64_of(s@) is Some && h.expire_after
                        == parse_u64_of(s@))
                    &&& (expire_after is None ==> h.expire_after is None)
                    &&& (content_length matches Some(s) ==> h.content_length == parse_u64_of(s@))
                    &&& (content_length is None ==> h.content_length is None)
                    &&& (language matches Some(s) ==> h.language matches Some(l) && l@ == s@)
                    &&& (language is None ==> h.language is None)
                    &&& (mime_type matches Some(s) ==> h.mime_type matches Some(m) && m@ == s@)
                    &&& (mime_type is None ==> h.mime_type is None)
                    &&& (authorization matches Some(s) ==> h.token matches Some(t) && t@ == s@)
                    &&& (authorization is None ==> h.token is None)
                },
                Err(e) => e.kind == ErrorKind::ValidationFailure && ((share_type matches Some(s)
                    && kind_named(s@) is None) || (expire_after matches Some(s) && parse_u64_of(s@) is None)),
            },
    {
        let kind = HeaderParams::parse_kind(share_type)?;
        let expire_after = HeaderParams::parse_expire_after(expire_after)?;
        let content_length = HeaderParams::parse_content_length(content_length);
        let language = match language {
            Some(s) => Some(s.to_string()),
            None => None,
        };
        let mime_type = match mime_type {
            Some(s) => Some(s.to_string()),
            None => None,
        };
        let token = match authorization {
            Some(s) => Some(s.to_string()),
            None => None,
        };
        Ok(HeaderParams { token, kind, language, mime_type, expire_after, content_length })
    }

    /// The credential of the request.
    pub fn get_auth<'a>(&self, conf: &'a Config) -> (r: Result<Auth<'a>, ApiError>)
        ensures
            resolves(
                match &self.token {
                    Some(h) => Some(h@),
                    None => None,
                },
                conf.passwords@,
                r,
            ),
    {
        Auth::from_header(&self.token, conf)
    }

    /// The expiry of a share created or updated by this request at instant
    /// `now`, in milliseconds since the Unix epoch.
    pub fn get_expires(&self, conf: &Config, now: u64) -> (r: Option<u64>)
        ensures
            r == expiry_of(self.expire_after, conf.restrictions.max_expiry_time, now),
    {
        let requested: Option<u64> = match self.expire_after {
            Some(seconds) => match seconds.checked_mul(1000) {
                Some(ms) => Some(ms),
                None => Some(u64::MAX),
            },
            None => None,
        };
        match (requested, conf.restrictions.max_expiry_time) {
            (Some(expiry), Some(max_expiry)) => {
                if expiry > max_expiry {
                    Some(now.saturating_add(max_expiry))
                } else {
                    Some(now.saturating_add(expiry))
                }
            },
            (Some(expiry), None) => Some(now.saturating_add(expiry)),
            (None, Some(max_expiry)) => Some(now.saturating_add(max_expiry)),
            (None, None) => None,
        }
    }

    /// The highlighting language of a paste: the requested one, which must be
    /// configured, or the default language.
    pub fn get_langauage(&self, conf: &Config) -> (r: Result<String, ApiError>)
        ensures
            match &self.language {
                Some(l) => if holds_text(conf.highlighting_languages@, l@) {
                    r matches Ok(x) && x@ == l@
                } else {
                    r matches Err(e) && e.kind == ErrorKind::ValidationFailure
                },
                None => r matches Ok(x) && x@ == conf.default_highlighting_language@,
            },
    {
        match &self.language {
            Some(lang) => {
                if contains_text(&conf.highlighting_languages, lang.as_str()) {
                    Ok(lang.clone())
                } else {
                    Err(ApiError::new(ErrorKind::ValidationFailure, "Given Share-Highlighting is not supported."))
                }
            },
            None => Ok(conf.default_highlighting_language.clone()),
        }
    }

    /// Whether uploads of MIME type `mime_type` are allowed.
    pub fn mime_type_allowed(&self, conf: &Config, mime_type: &str) -> (r: bool)
        ensures
            r == mime_allowed(
                conf.restrictions.allowed_mime_types@,
                conf.restrictions.disallowed_mime_types@,
                mime_type@,
            ),
    {
        if conf.restrictions.allowed_mime_types.len() > 0 {
            contains_text(&conf.restrictions.allowed_mime_types, mime_type)
        } else {
            !contains_text(&conf.restrictions.disallowed_mime_types, mime_type)
        }
    }

    /// The MIME type of a file: the requested one, or the default type; it
    /// must be allowed.
    pub fn get_mime_type(&self, conf: &Config) -> (r: Result<String, ApiError>)
        ensures
            ({
                let m = match &self.mime_type {
                    Some(m) => m@,
                    None => conf.default_mime_type@,
                };
                if mime_allowed(
                    conf.restrictions.allowed_mime_types@,
                    conf.restrictions.disallowed_mime_types@,
                    m,
                ) {
                    r matches Ok(x) && x@ == m
                } else {
                    r matches Err(e) && e.kind == ErrorKind::ValidationFailure
                }
            }),
    {
        let mime_type = match &self.mime_type {
            Some(m) => m.clone(),
            None => conf.default_mime_type.clone(),
        };
        if self.mime_type_allowed(conf, mime_type.as_str()) {
            Ok(mime_type)
        } else {
            Err(ApiError::new(ErrorKind::ValidationFailure, "Given Mime-Type is not allowed."))
        }
    }

    /// The kind of share the request names, which it must.
    pub fn get_kind(&self) -> (r: Result<ShareKind, ApiError>)
        ensures
            match self.kind {
                Some(k) => r == Ok::<ShareKind, ApiError>(k),
                None => r matches Err(e) && e.kind == ErrorKind::ValidationFailure,
            },
    {
        match self.kind {
            Some(kind) => Ok(kind),
            None => Err(ApiError::new(ErrorKind::ValidationFailure, "Share-Type is required.")),
        }
    }

    /// Refuses a request whose `Content-Length` exceeds `limit`. The body is
    /// cut at `limit` in any case; this gives the early, clear answer.
    pub fn limit_content_length(&self, limit: u64) -> (r: Result<(), ApiError>)
        ensures
            match self.content_length {
                Some(n) => if n > limit {
                    r matches Err(e) && e.kind == ErrorKind::ValidationFailure && e.message@
                        == "Body is too large."@
                } else {
                    r is Ok
                },
                None => r is Ok,
            },
    {
        match self.content_length {
            Some(content_length) => {
                if content_length > limit {
                    Err(ApiError::new(ErrorKind::ValidationFailure, "Body is too large."))
                } else {
                    Ok(())
                }
            },
            None => Ok(()),
        }
    }

    /// Whether the request carries a body.
    pub fn has_body(&self) -> (r: bool)
        ensures
            r == (self.content_length matches Some(n) && n > 0),
    {
        match self.content_length {
            Some(n) => n > 0,
            None => false,
        }
    }

    /// Accepts the request if its `Authorization` header is `actual`.
    pub fn check_token(&self, actual: &str) -> (r: Result<(), ApiError>)
        ensures
            match &self.token {
                Some(given) => if given@ == actual@ {
                    r is Ok
                } else {
                    r matches Err(e) && e.kind == ErrorKind::AuthenticationFailure && e.message@
                        == "Incorrect share token."@
                },
                None => r matches Err(e) && e.kind == ErrorKind::AuthenticationFailure && e.message@
                    == "Authorization header is required."@,
            },
    {
        match &self.token {
            Some(given) => {
                if same_text(actual, given.as_str()) {
                    Ok(())
                } else {
                    Err(ApiError::new(ErrorKind::AuthenticationFailure, "Incorrect share token."))
                }
            },
            None => Err(ApiError::new(ErrorKind::AuthenticationFailure, "Authorization header is required.")),
        }
    }

    /// Accepts the request if no passwords are configured, or if its
    /// `Authorization` header is one of them.
    pub fn check_password(&self, conf: &Config) -> (r: Result<(), ApiError>)
        ensures
            conf.passwords@.dom() == Set::<Seq<char>>::empty() ==> r is Ok,
            conf.passwords@.dom() != Set::<Seq<char>>::empty() ==> match &self.token {
                Some(p) => if conf.passwords@.contains_key(p@) {
                    r is Ok
                } else {
                    r matches Err(e) && e.kind == ErrorKind::AuthenticationFailure && e.message@
                        == "Incorrect password."@
                },
                None => r matches Err(e) && e.kind == ErrorKind::AuthenticationFailure && e.message@
                    == "Authorization header is required."@,
            },
    {
        if conf.passwords.is_empty() {
            return Ok(());
        }
        match &self.token {
            Some(password) => {
                if conf.passwords.contains_key(password.as_str()) {
                    Ok(())
                } else {
                    Err(ApiError::new(ErrorKind::AuthenticationFailure, "Incorrect password."))
                }
            },
            None => Err(ApiError::new(ErrorKind::AuthenticationFailure, "Authorization header is required.")),
        }
    }
}

} // verus!
