//! What the server lets the current caller do, as reported to clients.
use vstd::prelude::*;

use crate::auth::Auth;
use crate::config::{has_permission_in, Config, Permission};
use crate::error::{ApiError, ErrorKind};

verus! {

/// Restrictions on custom names.
#[derive(Clone, Copy, Debug, PartialEq, Eq, Structural)]
pub struct NameFeatures {
    pub min_length: u8,
    pub max_length: u8,
}

/// The features that the server offers to a caller.
pub struct Abilities {
    /// Whether logging in could give more abilities.
    pub login: bool,
    /// Whether the caller may upload files.
    pub create_file: bool,
    /// Whether the caller may create pastes.
    pub create_paste: bool,
    /// Whether the caller may create links.
    pub create_link: bool,
    /// Whether the caller may update shares it created.
    pub update_own: bool,
    /// Whether the caller may update any share.
    pub update_any: bool,
    /// The bounds on custom names, or `None` if the caller may not choose names.
    pub custom_names: Option<NameFeatures>,
    /// The MIME types allowed for uploads.
    pub mime_types_whitelist: Vec<String>,
    /// The MIME types refused for uploads; ignored when the whitelist is not empty.
    pub mime_types_blacklist: Vec<String>,
    /// The URL schemes allowed for links.
    pub link_schemes: Vec<String>,
    /// The highlighting languages allowed for pastes.
    pub highlighting_languages: Vec<String>,
}

/// A copy of `items`.
fn copy_texts(items: &Vec<String>) -> (r: Vec<String>)
    ensures
        r@ == items@,
{
    let mut r: Vec<String> = Vec::new();
    let mut i: usize = 0;
    while i < items.len()
        invariant
            i <= items@.len(),
            r@ == items@.subrange(0, i as int),
        decreases items@.len() - i,
    {
        r.push(items[i].clone());
        i = i + 1;
        assert(r@ =~= items@.subrange(0, i as int));
    }
    assert(items@.subrange(0, items@.len() as int) =~= items@);
    r
}

impl Abilities {
    /// The abilities of the caller with credential `auth`, which must not be a
    /// share token.
    pub fn load(config: &Config, auth: &Auth) -> (r: Result<Abilities, ApiError>)
        ensures
            match r {
                Err(e) => auth.permissions() is None && e.kind == ErrorKind::AuthenticationFailure,
                Ok(a) => {
                    &&& auth.permissions() is Some
                    &&& a.login == (config.passwords@.dom() != Set::<Seq<char>>::empty())
                    &&& a.create_file == auth.may_create(Permission::CreateFile)
                    &&& a.create_paste == auth.may_create(Permission::CreatePaste)
                    &&& a.create_link == auth.may_create(Permission::CreateLink)
                    &&& a.update_any == auth.grants(Permission::UpdateAny)
                    &&& a.update_own == (auth.grants(Permission::UpdateAny) || auth.grants(
                        Permission::UpdateOwn,
                    ))
                    &&& a.custom_names == (if auth.grants(Permission::CustomName) {
                        Some(
                            NameFeatures {
                                min_length: config.names.min_length,
                                max_length: config.names.max_length,
                            },
                        )
                    } else {
                        None
                    })
                    &&& a.mime_types_whitelist@ == config.restrictions.allowed_mime_types@
                    &&& a.mime_types_blacklist@ == config.restrictions.disallowed_mime_types@
                    &&& a.link_schemes@ == config.restrictions.allowed_link_schemes@
                    &&& a.highlighting_languages@ == config.highlighting_languages@
                },
            },
    {
        let login = !config.passwords.is_empty();
        let permissions = auth.get_permissions()?;
        let create_any = has_permission_in(permissions, Permission::CreateAny);
        let create_file = create_any || has_permission_in(permissions, Permission::CreateFile);
        let create_link = create_any || has_permission_in(permissions, Permission::CreateLink);
        let create_paste = create_any || has_permission_in(permissions, Permission::CreatePaste);
        let update_any = has_permission_in(permissions, Permission::UpdateAny);
        let update_own = update_any || has_permission_in(permissions, Permission::UpdateOwn);
        let custom_names = if has_permission_in(permissions, Permission::CustomName) {
            Some(NameFeatures { min_length: config.names.min_length, max_length: config.names.max_length })
        } else {
            None
        };
        let mime_types_whitelist = copy_texts(&config.restrictions.allowed_mime_types);
        let mime_types_blacklist = copy_texts(&config.restrictions.disallowed_mime_types);
        let link_schemes = copy_texts(&config.restrictions.allowed_link_schemes);
        let highlighting_languages = copy_texts(&config.highlighting_languages);
        Ok(
            Abilities {
                login,
                create_file,
                create_paste,
                create_link,
                update_own,
                update_any,
                custom_names,
                mime_types_whitelist,
                mime_types_blacklist,
                link_schemes,
                highlighting_languages,
            },
        )
    }
}

} // verus!
