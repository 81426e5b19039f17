//! Share records and their kinds.
use vstd::prelude::*;

use crate::auth::Auth;
use crate::config::{Config, Permission};
use crate::error::{ApiError, ErrorKind};
use crate::headers::{expiry_of, holds_text, mime_allowed, HeaderParams};

verus! {

/// What a share holds: a short link, a text paste or an uploaded file.
#[derive(Clone, Copy, Debug, PartialEq, Eq, Structural)]
pub enum ShareKind {
    Link,
    Paste,
    File,
}

/// The number under which each kind is stored.
pub open spec fn kind_code(k: ShareKind) -> i16 {
    match k {
        ShareKind::Link => 1,
        ShareKind::Paste => 2,
        ShareKind::File => 3,
    }
}

impl ShareKind {
    /// The number under which this kind is stored.
    pub fn code(&self) -> (r: i16)
        ensures
            r == kind_code(*self),
    {
        match self {
            ShareKind::Link => 1,
            ShareKind::Paste => 2,
            ShareKind::File => 3,
        }
    }

    /// The kind stored under `raw`, if any.
    pub fn try_from_code(raw: i16) -> (r: Result<ShareKind, String>)
        ensures
            match r {
                Ok(k) => kind_code(k) == raw,
                Err(e) => (raw < 1 || raw > 3) && e@ == "Invalid share kind."@,
            },
    {
        if raw == 1 {
            Ok(ShareKind::Link)
        } else if raw == 2 {
            Ok(ShareKind::Paste)
        } else if raw == 3 {
            Ok(ShareKind::File)
        } else {
            Err("Invalid share kind.".to_string())
        }
    }
}

/// A named, optionally expiring unit of shared content.
#[derive(Clone, Debug)]
pub struct Share {
    pub name: String,
    /// The instant the share stops being visible, in milliseconds since the
    /// Unix epoch; `None` for a share that never expires.
    pub expiry: Option<u64>,
    /// The secret that lets its holder update or delete the share.
    pub token: Option<String>,
    pub kind: ShareKind,
    /// The URL of a link.
    pub link: Option<String>,
    /// The highlighting language of a paste.
    pub language: Option<String>,
    /// The MIME type of a file.
    pub mime_type: Option<String>,
}

/// Whether a share with expiry `expiry` is gone at instant `now`.
pub open spec fn expired_at(expiry: Option<u64>, now: u64) -> bool {
    match expiry {
        Some(e) => e <= now,
        None => false,
    }
}

/// What looking a share up yields.
pub enum Lookup {
    /// The share exists and has not expired.
    Live(Share),
    /// The share exists but has expired: it must be deleted, and the caller
    /// told it was not found.
    Expired(Share),
    /// No share has that name.
    Missing,
}

impl Share {
    /// A share with no kind-specific content yet.
    pub fn new(name: String, expiry: Option<u64>, token: Option<String>, kind: ShareKind) -> (r: Share)
        ensures
            r.name == name,
            r.expiry == expiry,
            r.token == token,
            r.kind == kind,
            r.link is None,
            r.language is None,
            r.mime_type is None,
    {
        Share { name, expiry, token, kind, link: None, language: None, mime_type: None }
    }

    /// Whether exactly the content field of the share's kind is set.
    pub open spec fn content_matches_kind(&self) -> bool {
        &&& (self.link is Some <==> self.kind == ShareKind::Link)
        &&& (self.language is Some <==> self.kind == ShareKind::Paste)
        &&& (self.mime_type is Some <==> self.kind == ShareKind::File)
    }

    /// Whether the share has expired at instant `now`.
    pub fn is_expired(&self, now: u64) -> (r: bool)
        ensures
            r == expired_at(self.expiry, now),
    {
        match self.expiry {
            Some(e) => e <= now,
            None => false,
        }
    }

    /// Whether the share keeps a body in the blob store.
    pub fn has_body(&self) -> (r: bool)
        ensures
            r == (self.kind != ShareKind::Link),
    {
        self.kind != ShareKind::Link
    }

    /// Decides what a read of the stored `record` shows at instant `now`: an
    /// expired share is never shown.
    pub fn lookup(record: Option<Share>, now: u64) -> (r: Lookup)
        ensures
            match record {
                None => r is Missing,
                Some(s) => if expired_at(s.expiry, now) {
                    r matches Lookup::Expired(x) && x == s
                } else {
                    r matches Lookup::Live(x) && x == s
                },
            },
    {
        match record {
            None => Lookup::Missing,
            Some(s) => {
                if s.is_expired(now) {
                    Lookup::Expired(s)
                } else {
                    Lookup::Live(s)
                }
            },
        }
    }
}

/// The permission that creating a share of kind `k` needs, besides `CreateAny`.
pub open spec fn create_permission(k: ShareKind) -> Permission {
    match k {
        ShareKind::Link => Permission::CreateLink,
        ShareKind::Paste => Permission::CreatePaste,
        ShareKind::File => Permission::CreateFile,
    }
}

/// The MIME type that a request settles on: the one it names, or the default.
pub open spec fn requested_mime(headers: HeaderParams, conf: Config) -> Seq<char> {
    match headers.mime_type {
        Some(m) => m@,
        None => conf.default_mime_type@,
    }
}

/// Whether the request's highlighting language, if it names one, is configured.
pub open spec fn language_ok(headers: HeaderParams, conf: Config) -> bool {
    headers.language matches Some(l) ==> holds_text(conf.highlighting_languages@, l@)
}

/// The highlighting language that a request settles on.
pub open spec fn requested_language(headers: HeaderParams, conf: Config) -> Seq<char> {
    match headers.language {
        Some(l) => l@,
        None => conf.default_highlighting_language@,
    }
}

impl Share {
    /// Builds the record of a new share of kind `kind` named `name`, created
    /// at instant `now`: the credential must allow creating this kind; a link
    /// keeps its checked URL `link` (see `classify_link`), a paste gets its
    /// language and a file its MIME type.
    pub fn from_request(
        conf: &Config,
        auth: &Auth,
        headers: &HeaderParams,
        kind: ShareKind,
        name: String,
        token: Option<String>,
        now: u64,
        link: Option<String>,
    ) -> (r: Result<Share, ApiError>)
        ensures
            match r {
                Ok(s) => {
                    &&& auth.may_create(create_permission(kind))
                    &&& (kind != ShareKind::Link || link is Some) ==> s.content_matches_kind()
                    &&& s.name == name
                    &&& s.kind == kind
                    &&& s.token == token
                    &&& s.expiry == expiry_of(headers.expire_after, conf.restrictions.max_expiry_time, now)
                    &&& s.link == (if kind == ShareKind::Link {
                        link
                    } else {
                        None
                    })
                    &&& (kind == ShareKind::Paste) == (s.language is Some)
                    &&& (kind == ShareKind::File) == (s.mime_type is Some)
                    &&& kind == ShareKind::Paste ==> language_ok(*headers, *conf) && s.language->0@
                        == requested_language(*headers, *conf)
                    &&& kind == ShareKind::File ==> mime_allowed(
                        conf.restrictions.allowed_mime_types@,
                        conf.restrictions.disallowed_mime_types@,
                        requested_mime(*headers, *conf),
                    ) && s.mime_type->0@ == requested_mime(*headers, *conf)
                },
                Err(e) => {
                    ||| !auth.may_create(create_permission(kind)) && (e.kind == ErrorKind::AuthorizationFailure
                        || e.kind == ErrorKind::AuthenticationFailure)
                    ||| kind == ShareKind::Paste && !language_ok(*headers, *conf) && e.kind
                        == ErrorKind::ValidationFailure
                    ||| kind == ShareKind::File && !mime_allowed(
                        conf.restrictions.allowed_mime_types@,
                        conf.restrictions.disallowed_mime_types@,
                        requested_mime(*headers, *conf),
                    ) && e.kind == ErrorKind::ValidationFailure
                },
            },
    {
        let mut share = Share::new(name, headers.get_expires(conf, now), token, kind);
        match kind {
            ShareKind::Link => {
                auth.create_link()?;
                share.link = link;
            },
            ShareKind::Paste => {
                auth.create_paste()?;
                share.language = Some(headers.get_langauage(conf)?);
            },
            ShareKind::File => {
                auth.create_file()?;
                share.mime_type = Some(headers.get_mime_type(conf)?);
            },
        }
        Ok(share)
    }

    /// Applies an update request made at instant `now`. The expiry is always
    /// computed afresh; a new `link` replaces a link's URL; a paste takes a
    /// requested language and a file a requested MIME type. Name, kind and
    /// token never change.
    pub fn apply_update(&mut self, conf: &Config, headers: &HeaderParams, now: u64, link: Option<String>) -> (r:
        Result<(), ApiError>)
        ensures
            final(self).expiry == expiry_of(headers.expire_after, conf.restrictions.max_expiry_time, now),
            final(self).name == old(self).name,
            final(self).kind == old(self).kind,
            final(self).token == old(self).token,
            final(self).link == (if old(self).kind == ShareKind::Link && link is Some {
                link
            } else {
                old(self).link
            }),
            r is Ok <==> (old(self).kind == ShareKind::Paste && headers.language is Some ==> language_ok(
                *headers,
                *conf,
            )) && (old(self).kind == ShareKind::File && headers.mime_type is Some ==> mime_allowed(
                conf.restrictions.allowed_mime_types@,
                conf.restrictions.disallowed_mime_types@,
                requested_mime(*headers, *conf),
            )),
            r matches Err(e) ==> e.kind == ErrorKind::ValidationFailure,
            r is Ok && !(old(self).kind == ShareKind::Paste && headers.language is Some) ==> final(self).language
                == old(self).language,
            r is Ok && old(self).kind == ShareKind::Paste && headers.language is Some ==> (final(self).language matches Some(l)
                && l@ == requested_language(*headers, *conf)),
            r is Ok && !(old(self).kind == ShareKind::File && headers.mime_type is Some) ==> final(self).mime_type
                == old(self).mime_type,
            r is Ok && old(self).kind == ShareKind::File && headers.mime_type is Some ==> (final(self).mime_type matches Some(m)
                && m@ == requested_mime(*headers, *conf)),
    {
        self.expiry = headers.get_expires(conf, now);
        if self.kind == ShareKind::Link {
            if let Some(l) = link {
                self.link = Some(l);
            }
        }
        if headers.language.is_some() && self.kind == ShareKind::Paste {
            self.language = Some(headers.get_langauage(conf)?);
        }
        if headers.mime_type.is_some() && self.kind == ShareKind::File {
            self.mime_type = Some(headers.get_mime_type(conf)?);
        }
        Ok(())
    }
}

} // verus!
