//! Resolving a caller's credential, and checking what it allows.
use vstd::prelude::*;

use crate::config::{has_permission_in, Config, Permission, DEFAULT_PASSWORD};
use crate::error::{ApiError, ErrorKind};
use crate::models::Share;
use crate::text::{lower_of, lowercase, same_text, split_once, split_once_of};

verus! {

/// The credential a request was made with.
#[derive(Debug)]
pub enum Auth<'a> {
    /// A configured password, with the permissions it grants.
    Password(&'a [Permission]),
    /// No credential: the permissions of the default password entry, if any.
    Default(&'a [Permission]),
    /// A share token, which authorises changes to the one share that holds it.
    Token(String),
}

/// The message of a refused action described by `description`.
pub open spec fn denial_message(description: Seq<char>) -> Seq<char> {
    "You do not have permission to "@ + description + "."@
}

/// Whether `r` is how the `Authorization` header `header` resolves against
/// the password table `table`.
pub open spec fn resolves(
    header: Option<Seq<char>>,
    table: Map<Seq<char>, Seq<Permission>>,
    r: Result<Auth, ApiError>,
) -> bool {
    match header {
        None => match r {
            Ok(Auth::Default(p)) => if table.contains_key(DEFAULT_PASSWORD@) {
                p@ == table[DEFAULT_PASSWORD@]
            } else {
                p@.len() == 0
            },
            _ => false,
        },
        Some(h) => match split_once_of(h, ' ') {
            None => r matches Err(e) && e.kind == ErrorKind::ValidationFailure,
            Some((m, c)) => {
                &&& lower_of(m) == "password"@ ==> match r {
                    Ok(Auth::Password(p)) => table.contains_key(c) && p@ == table[c],
                    Err(e) => !table.contains_key(c) && e.kind == ErrorKind::AuthenticationFailure,
                    _ => false,
                }
                &&& lower_of(m) == "token"@ ==> (r matches Ok(Auth::Token(t)) && t@ == c)
                &&& lower_of(m) != "password"@ && lower_of(m) != "token"@ ==> (r matches Err(e)
                    && e.kind == ErrorKind::ValidationFailure)
            },
        },
    }
}

/// A share token grants no permission, so a share made with one is never
/// given a token of its own, whatever rights the token carries elsewhere.
pub proof fn lemma_token_grants_nothing(auth: Auth, p: Permission)
    requires
        auth is Token,
    ensures
        !auth.grants(p),
        !(auth.grants(Permission::UpdateOwn) || auth.grants(Permission::UpdateAny)),
{
}

impl<'a> Auth<'a> {
    /// The permissions this credential grants; `None` for a token.
    pub open spec fn permissions(&self) -> Option<Seq<Permission>> {
        match self {
            Auth::Password(p) => Some(p@),
            Auth::Default(p) => Some(p@),
            Auth::Token(_) => None,
        }
    }

    /// Whether the credential grants `p`.
    pub open spec fn grants(&self, p: Permission) -> bool {
        self.permissions() matches Some(ps) && ps.contains(p)
    }

    /// Whether the credential may create a share whose own permission is `p`.
    pub open spec fn may_create(&self, p: Permission) -> bool {
        self.grants(p) || self.grants(Permission::CreateAny)
    }

    /// Resolves a credential given as a lower-cased method and its content.
    pub fn from_method(conf: &'a Config, method: &str, content: &str) -> (r: Result<Auth<'a>, ApiError>)
        ensures
            method@ == "password"@ ==> match r {
                Ok(Auth::Password(p)) => conf.passwords@.contains_key(content@) && p@
                    == conf.passwords@[content@],
                Err(e) => !conf.passwords@.contains_key(content@) && e.kind
                    == ErrorKind::AuthenticationFailure && e.message@
                    == "Given password was not recognised."@,
                _ => false,
            },
            method@ == "token"@ ==> (r matches Ok(Auth::Token(t)) && t@ == content@),
            method@ != "password"@ && method@ != "token"@ ==> (r matches Err(e) && e.kind
                == ErrorKind::ValidationFailure && e.message@
                == "Authorization header method must be 'Password' or 'Token'."@),
    {
        proof {
            reveal_strlit("password");
            reveal_strlit("token");
            assert("password"@.len() != "token"@.len());
        }
        if same_text(method, "password") {
            match conf.passwords.get(content) {
                Some(p) => Ok(Auth::Password(p)),
                None => Err(
                    ApiError::new(ErrorKind::AuthenticationFailure, "Given password was not recognised."),
                ),
            }
        } else if same_text(method, "token") {
            Ok(Auth::Token(content.to_string()))
        } else {
            Err(
                ApiError::new(
                    ErrorKind::ValidationFailure,
                    "Authorization header method must be 'Password' or 'Token'.",
                ),
            )
        }
    }

    /// Resolves a credential given as a method, in any case, and its content.
    pub fn from_header_parts(conf: &'a Config, method: &str, content: &str) -> (r: Result<Auth<'a>, ApiError>)
        ensures
            lower_of(method@) == "password"@ ==> match r {
                Ok(Auth::Password(p)) => conf.passwords@.contains_key(content@) && p@
                    == conf.passwords@[content@],
                Err(e) => !conf.passwords@.contains_key(content@) && e.kind
                    == ErrorKind::AuthenticationFailure,
                _ => false,
            },
            lower_of(method@) == "token"@ ==> (r matches Ok(Auth::Token(t)) && t@ == content@),
            lower_of(method@) != "password"@ && lower_of(method@) != "token"@ ==> (r matches Err(e)
                && e.kind == ErrorKind::ValidationFailure),
    {
        let lowered = lowercase(method);
        Auth::from_method(conf, lowered.as_str(), content)
    }

    /// Resolves the credential of an `Authorization` header: `None` for a
    /// request without one, else a method and its content separated by a
    /// space.
    pub fn from_header(header: &Option<String>, conf: &'a Config) -> (r: Result<Auth<'a>, ApiError>)
        ensures
            resolves(
                match header {
                    Some(h) => Some(h@),
                    None => None,
                },
                conf.passwords@,
                r,
            ),
    {
        match header {
            Some(h) => match split_once(h.as_str(), ' ') {
                Some((method, content)) => Auth::from_header_parts(conf, method.as_str(), content.as_str()),
                None => Err(
                    ApiError::new(
                        ErrorKind::ValidationFailure,
                        "Authorization header must contain a space separated method and content.",
                    ),
                ),
            },
            None => {
                let p: &'a [Permission] = match conf.passwords.get(DEFAULT_PASSWORD) {
                    Some(p) => p,
                    None => &[],
                };
                Ok(Auth::Default(p))
            },
        }
    }

    /// The permissions of a password or of the default entry; a token has none.
    pub fn get_permissions(&self) -> (r: Result<&'a [Permission], ApiError>)
        ensures
            match (r, self.permissions()) {
                (Ok(p), Some(q)) => p@ == q,
                (Err(e), None) => e.kind == ErrorKind::AuthenticationFailure,
                _ => false,
            },
    {
        match self {
            Auth::Password(p) => Ok(*p),
            Auth::Default(p) => Ok(*p),
            Auth::Token(_) => Err(
                ApiError::new(
                    ErrorKind::AuthenticationFailure,
                    "Token-based authentication should not be used for this endpoint.",
                ),
            ),
        }
    }

    /// Allows the action described by `description` if `value` holds.
    fn assert_true(&self, value: bool, description: &str) -> (r: Result<(), ApiError>)
        ensures
            match r {
                Ok(_) => value,
                Err(e) => !value && e.kind == ErrorKind::AuthorizationFailure && e.message@
                    == denial_message(description@),
            },
    {
        if value {
            Ok(())
        } else {
            let mut message = "You do not have permission to ".to_string();
            message.append(description);
            message.append(".");
            Err(ApiError { kind: ErrorKind::AuthorizationFailure, message })
        }
    }

    /// Allows the action described by `description` if the credential grants `permission`.
    fn has_permission(&self, permission: Permission, description: &str) -> (r: Result<(), ApiError>)
        ensures
            match r {
                Ok(_) => self.grants(permission),
                Err(e) => !self.grants(permission) && (if self.permissions() is None {
                    e.kind == ErrorKind::AuthenticationFailure
                } else {
                    e.kind == ErrorKind::AuthorizationFailure && e.message@ == denial_message(description@)
                }),
            },
    {
        let permissions = self.get_permissions()?;
        self.assert_true(has_permission_in(permissions, permission), description)
    }

    /// Allows creating a share whose own permission is `permission`.
    fn can_create_share(&self, permission: Permission, description: &str) -> (r: Result<(), ApiError>)
        ensures
            match r {
                Ok(_) => self.may_create(permission),
                Err(e) => !self.may_create(permission) && (if self.permissions() is None {
                    e.kind == ErrorKind::AuthenticationFailure
                } else {
                    e.kind == ErrorKind::AuthorizationFailure && e.message@ == denial_message(description@)
                }),
            },
    {
        let permissions = self.get_permissions()?;
        let allowed = has_permission_in(permissions, permission) || has_permission_in(
            permissions,
            Permission::CreateAny,
        );
        self.assert_true(allowed, description)
    }

    /// Allows uploading a file.
    pub fn create_file(&self) -> (r: Result<(), ApiError>)
        ensures
            match r {
                Ok(_) => self.may_create(Permission::CreateFile),
                Err(e) => !self.may_create(Permission::CreateFile) && (if self.permissions() is None {
                    e.kind == ErrorKind::AuthenticationFailure
                } else {
                    e.kind == ErrorKind::AuthorizationFailure && e.message@ == denial_message("upload a file"@)
                }),
            },
    {
        self.can_create_share(Permission::CreateFile, "upload a file")
    }

    /// Allows creating a short link.
    pub fn create_link(&self) -> (r: Result<(), ApiError>)
        ensures
            match r {
                Ok(_) => self.may_create(Permission::CreateLink),
                Err(e) => !self.may_create(Permission::CreateLink) && (if self.permissions() is None {
                    e.kind == ErrorKind::AuthenticationFailure
                } else {
                    e.kind == ErrorKind::AuthorizationFailure && e.message@ == denial_message(
                        "create a short link"@,
                    )
                }),
            },
    {
        self.can_create_share(Permission::CreateLink, "create a short link")
    }

    /// Allows creating a paste.
    pub fn create_paste(&self) -> (r: Result<(), ApiError>)
        ensures
            match r {
                Ok(_) => self.may_create(Permission::CreatePaste),
                Err(e) => !self.may_create(Permission::CreatePaste) && (if self.permissions() is None {
                    e.kind == ErrorKind::AuthenticationFailure
                } else {
                    e.kind == ErrorKind::AuthorizationFailure && e.message@ == denial_message("create a paste"@)
                }),
            },
    {
        self.can_create_share(Permission::CreatePaste, "create a paste")
    }

    /// Allows choosing the name of a new share.
    pub fn custom_name(&self) -> (r: Result<(), ApiError>)
        ensures
            match r {
                Ok(_) => self.grants(Permission::CustomName),
                Err(e) => !self.grants(Permission::CustomName) && (if self.permissions() is None {
                    e.kind == ErrorKind::AuthenticationFailure
                } else {
                    e.kind == ErrorKind::AuthorizationFailure && e.message@ == denial_message(
                        "use a custom name"@,
                    )
                }),
            },
    {
        self.has_permission(Permission::CustomName, "use a custom name")
    }

    /// Whether a share created with this credential is given a token: only
    /// when the credential may update shares.
    pub fn give_token(&self) -> (r: bool)
        ensures
            r == (self.grants(Permission::UpdateOwn) || self.grants(Permission::UpdateAny)),
    {
        let permissions = match self {
            Auth::Token(_) => return false,
            Auth::Password(permissions) => permissions,
            Auth::Default(permissions) => permissions,
        };
        has_permission_in(permissions, Permission::UpdateOwn) || has_permission_in(
            permissions,
            Permission::UpdateAny,
        )
    }

    /// Allows changing or deleting `share`: with its own token, or with a
    /// credential that may update any share.
    pub fn update_share(&self, share: &Share) -> (r: Result<(), ApiError>)
        ensures
            match self {
                Auth::Token(t) => match r {
                    Ok(_) => share.token matches Some(s) && s@ == t@,
                    Err(e) => !(share.token matches Some(s) && s@ == t@) && e.kind
                        == ErrorKind::AuthenticationFailure,
                },
                _ => match r {
                    Ok(_) => self.grants(Permission::UpdateAny),
                    Err(e) => !self.grants(Permission::UpdateAny) && e.kind == ErrorKind::AuthorizationFailure
                        && e.message@ == denial_message("update shares you didn't create"@),
                },
            },
    {
        match self {
            Auth::Token(token) => {
                let matches = match &share.token {
                    Some(s) => same_text(s.as_str(), token.as_str()),
                    None => false,
                };
                if matches {
                    Ok(())
                } else {
                    Err(ApiError::new(ErrorKind::AuthenticationFailure, "Your share token is incorrect."))
                }
            },
            _ => self.has_permission(Permission::UpdateAny, "update shares you didn't create"),
        }
    }
}

} // verus!
