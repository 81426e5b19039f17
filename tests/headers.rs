use shareit::config::{
    Config, DatabaseConfig, NamesConfig, NetworkConfig, PasswordTable, Permission, RestrictionsConfig,
};
use shareit::error::ErrorKind;
use shareit::headers::HeaderParams;
use shareit::models::ShareKind;

fn config(max_expiry: Option<u64>, allowed: Vec<&str>, disallowed: Vec<&str>) -> Config {
    Config {
        frontend_path: None,
        upload_dir: "/tmp/shares/".to_string(),
        highlighting_languages: vec!["rust".to_string(), "python".to_string()],
        default_highlighting_language: "auto".to_string(),
        default_mime_type: "application/octet-stream".to_string(),
        expiry_check_interval: 60_000,
        passwords: PasswordTable::new(),
        names: NamesConfig::new(1, 32, 8, 3),
        restrictions: RestrictionsConfig {
            max_upload_size: 2_000_000,
            max_link_length: 255,
            max_expiry_time: max_expiry,
            allowed_mime_types: allowed.into_iter().map(String::from).collect(),
            disallowed_mime_types: disallowed.into_iter().map(String::from).collect(),
            allowed_link_schemes: vec![],
        },
        network: NetworkConfig {
            host: "https://example.com/".to_string(),
            address: "127.0.0.1".to_string(),
            port: 8000,
        },
        database: DatabaseConfig {
            pass: "pw".to_string(),
            host: "localhost".to_string(),
            port: 5432,
            user: "shareit".to_string(),
            name: "shareit".to_string(),
        },
    }
}

fn headers() -> HeaderParams {
    HeaderParams {
        token: None,
        kind: None,
        language: None,
        mime_type: None,
        expire_after: None,
        content_length: None,
    }
}

#[test]
fn share_type_values() {
    assert!(matches!(HeaderParams::parse_kind(Some("link")), Ok(Some(ShareKind::Link))));
    assert!(matches!(HeaderParams::parse_kind(Some("paste")), Ok(Some(ShareKind::Paste))));
    assert!(matches!(HeaderParams::parse_kind(Some("file")), Ok(Some(ShareKind::File))));
    assert!(matches!(HeaderParams::parse_kind(None), Ok(None)));
    let err = HeaderParams::parse_kind(Some("Link")).unwrap_err();
    assert_eq!(err.kind, ErrorKind::ValidationFailure);
    assert_eq!(err.message, "Share-Type must be link, paste or file.");
}

#[test]
fn expire_after_is_whole_seconds() {
    assert_eq!(HeaderParams::parse_expire_after(Some("3600")).unwrap(), Some(3600));
    assert_eq!(HeaderParams::parse_expire_after(Some("+7")).unwrap(), Some(7));
    assert_eq!(HeaderParams::parse_expire_after(None).unwrap(), None);
    for bad in ["", "-1", "1.5", "1h", " 1", "18446744073709551616"] {
        let err = HeaderParams::parse_expire_after(Some(bad)).unwrap_err();
        assert_eq!(err.message, "Expire-After must be an integer.", "value {:?}", bad);
    }
    assert_eq!(HeaderParams::parse_expire_after(Some("18446744073709551615")).unwrap(), Some(u64::MAX));
    let err = HeaderParams::parse_expire_after(Some("ten")).unwrap_err();
    assert_eq!(err.kind, ErrorKind::ValidationFailure);
    assert_eq!(err.message, "Expire-After must be an integer.");
}

#[test]
fn content_length_that_is_not_a_number_is_absent() {
    assert_eq!(HeaderParams::parse_content_length(Some("12")), Some(12));
    assert_eq!(HeaderParams::parse_content_length(Some("twelve")), None);
    assert_eq!(HeaderParams::parse_content_length(None), None);
}

#[test]
fn from_headers_reads_every_field() {
    let h = HeaderParams::from_headers(
        Some("rust"),
        Some("text/plain"),
        Some("Token abc"),
        Some("paste"),
        Some("60"),
        Some("10"),
    )
    .unwrap();
    assert_eq!(h.language.as_deref(), Some("rust"));
    assert_eq!(h.mime_type.as_deref(), Some("text/plain"));
    assert_eq!(h.token.as_deref(), Some("Token abc"));
    assert_eq!(h.kind, Some(ShareKind::Paste));
    assert_eq!(h.expire_after, Some(60));
    assert_eq!(h.content_length, Some(10));
    assert!(HeaderParams::from_headers(None, None, None, Some("video"), None, None).is_err());
    assert!(HeaderParams::from_headers(None, None, None, None, Some("soon"), None).is_err());
}

#[test]
fn expiry_policy_formula() {
    let now = 1_000_000;
    let mut h = headers();
    assert_eq!(h.get_expires(&config(None, vec![], vec![]), now), None);
    assert_eq!(h.get_expires(&config(Some(5_000), vec![], vec![]), now), Some(1_005_000));
    h.expire_after = Some(10);
    assert_eq!(h.get_expires(&config(None, vec![], vec![]), now), Some(1_010_000));
    assert_eq!(h.get_expires(&config(Some(60_000), vec![], vec![]), now), Some(1_010_000));
    assert_eq!(h.get_expires(&config(Some(5_000), vec![], vec![]), now), Some(1_005_000));
    h.expire_after = Some(5);
    assert_eq!(h.get_expires(&config(Some(5_000), vec![], vec![]), now), Some(1_005_000));
}

#[test]
fn expiry_saturates_at_the_end_of_time() {
    let mut h = headers();
    h.expire_after = Some(u64::MAX);
    assert_eq!(h.get_expires(&config(None, vec![], vec![]), 5), Some(u64::MAX));
    assert_eq!(h.get_expires(&config(Some(1_000), vec![], vec![]), 5), Some(1_005));
}

#[test]
fn listed_language_is_kept() {
    let conf = config(None, vec![], vec![]);
    let mut h = headers();
    h.language = Some("python".to_string());
    assert_eq!(h.get_langauage(&conf).unwrap(), "python");
}

#[test]
fn unlisted_language_is_rejected() {
    let conf = config(None, vec![], vec![]);
    let mut h = headers();
    h.language = Some("Python".to_string());
    let err = h.get_langauage(&conf).unwrap_err();
    assert_eq!(err.kind, ErrorKind::ValidationFailure);
    assert_eq!(err.message, "Given Share-Highlighting is not supported.");
}

#[test]
fn missing_language_falls_back_to_default() {
    let conf = config(None, vec![], vec![]);
    assert_eq!(headers().get_langauage(&conf).unwrap(), "auto");
}

#[test]
fn whitelist_decides_alone_when_not_empty() {
    let conf = config(None, vec!["image/png"], vec![]);
    let mut h = headers();
    h.mime_type = Some("text/plain".to_string());
    let err = h.get_mime_type(&conf).unwrap_err();
    assert_eq!(err.kind, ErrorKind::ValidationFailure);
    assert_eq!(err.message, "Given Mime-Type is not allowed.");
    h.mime_type = Some("image/png".to_string());
    assert_eq!(h.get_mime_type(&conf).unwrap(), "image/png");
    let both = config(None, vec!["text/html"], vec!["text/html"]);
    assert!(h.mime_type_allowed(&both, "text/html"));
}

#[test]
fn blacklist_applies_without_whitelist() {
    let conf = config(None, vec![], vec!["text/html"]);
    let mut h = headers();
    h.mime_type = Some("text/html".to_string());
    assert!(h.get_mime_type(&conf).is_err());
    h.mime_type = Some("text/plain".to_string());
    assert_eq!(h.get_mime_type(&conf).unwrap(), "text/plain");
}

#[test]
fn default_mime_type_is_checked_too() {
    let h = headers();
    assert_eq!(h.get_mime_type(&config(None, vec![], vec![])).unwrap(), "application/octet-stream");
    assert!(h.get_mime_type(&config(None, vec![], vec!["application/octet-stream"])).is_err());
}

#[test]
fn share_type_is_required() {
    let mut h = headers();
    let err = h.get_kind().unwrap_err();
    assert_eq!(err.message, "Share-Type is required.");
    h.kind = Some(ShareKind::File);
    assert_eq!(h.get_kind().unwrap(), ShareKind::File);
}

#[test]
fn body_larger_than_limit_is_refused() {
    let mut h = headers();
    assert!(h.limit_content_length(10).is_ok());
    h.content_length = Some(10);
    assert!(h.limit_content_length(10).is_ok());
    h.content_length = Some(11);
    let err = h.limit_content_length(10).unwrap_err();
    assert_eq!(err.message, "Body is too large.");
    assert!(h.has_body());
    h.content_length = Some(0);
    assert!(!h.has_body());
}

#[test]
fn token_check_compares_exactly() {
    let mut h = headers();
    assert_eq!(h.check_token("t").unwrap_err().message, "Authorization header is required.");
    h.token = Some("secret".to_string());
    assert!(h.check_token("secret").is_ok());
    let err = h.check_token("Secret").unwrap_err();
    assert_eq!(err.kind, ErrorKind::AuthenticationFailure);
    assert_eq!(err.message, "Incorrect share token.");
}

#[test]
fn password_check_passes_without_passwords() {
    let conf = config(None, vec![], vec![]);
    assert!(headers().check_password(&conf).is_ok());
    let mut conf = config(None, vec![], vec![]);
    conf.passwords.insert("pw".to_string(), vec![Permission::CreateAny]);
    assert_eq!(headers().check_password(&conf).unwrap_err().message, "Authorization header is required.");
    let mut h = headers();
    h.token = Some("pw".to_string());
    assert!(h.check_password(&conf).is_ok());
    h.token = Some("px".to_string());
    assert_eq!(h.check_password(&conf).unwrap_err().message, "Incorrect password.");
}

#[test]
fn get_auth_uses_authorization_header() {
    let mut conf = config(None, vec![], vec![]);
    conf.passwords.insert("pw".to_string(), vec![Permission::CreateAny]);
    let mut h = headers();
    h.token = Some("Password pw".to_string());
    let auth = h.get_auth(&conf).unwrap();
    assert_eq!(auth.get_permissions().unwrap(), &[Permission::CreateAny]);
}
