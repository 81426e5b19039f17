use std::collections::HashMap;

use shareit::body::{body_limit, classify_link};
use shareit::config::{
    default_passwords, Config, DatabaseConfig, NamesConfig, NetworkConfig, RestrictionsConfig,
};
use shareit::error::{ApiError, ErrorKind};
use shareit::headers::HeaderParams;
use shareit::models::{Lookup, Share, ShareKind};
use shareit::names::{claim_name, get_token, validate_name, NameGenerator, NameStep};

/// The records of an in-memory store, standing in for the database.
struct Store {
    shares: HashMap<String, Share>,
}

fn server_config() -> Config {
    Config {
        frontend_path: None,
        upload_dir: "/tmp/shares/".to_string(),
        highlighting_languages: vec!["rust".to_string(), "python".to_string()],
        default_highlighting_language: "auto".to_string(),
        default_mime_type: "application/octet-stream".to_string(),
        expiry_check_interval: 60_000,
        passwords: default_passwords(),
        names: NamesConfig::new(1, 32, 8, 3),
        restrictions: RestrictionsConfig {
            max_upload_size: 2_000_000,
            max_link_length: 255,
            max_expiry_time: Some(3_600_000),
            allowed_mime_types: vec![],
            disallowed_mime_types: vec!["text/html".to_string()],
            allowed_link_schemes: vec!["http".to_string(), "https".to_string()],
        },
        network: NetworkConfig {
            host: "https://example.com/".to_string(),
            address: "127.0.0.1".to_string(),
            port: 8000,
        },
        database: DatabaseConfig {
            pass: "pw".to_string(),
            host: "localhost".to_string(),
            port: 5432,
            user: "shareit".to_string(),
            name: "shareit".to_string(),
        },
    }
}

/// Creates a share as the server does: credential, kind, name, token,
/// record, then the body; `body` is the text of a link's body.
fn create(
    conf: &Config,
    store: &mut Store,
    headers: &HeaderParams,
    name: Option<&str>,
    body: &str,
    now: u64,
) -> Result<Share, ApiError> {
    let auth = headers.get_auth(conf)?;
    let kind = headers.get_kind()?;
    let name = match name {
        Some(n) => {
            let n = validate_name(n.to_string(), conf, &auth)?;
            let taken = store.shares.contains_key(&n);
            claim_name(n, taken)?
        }
        None => {
            let mut generator = NameGenerator::new();
            loop {
                let candidate = generator.candidate(&conf.names);
                let taken = store.shares.contains_key(&candidate);
                match generator.record(&conf.names, candidate, taken) {
                    NameStep::Found(n) => break n,
                    NameStep::Retry | NameStep::Grown { .. } => {}
                    NameStep::Exhausted { .. } => {
                        return Err(ApiError::new(ErrorKind::Conflict, "Could not find an unused name."))
                    }
                }
            }
        }
    };
    let token = if auth.give_token() { Some(get_token()) } else { None };
    let link = if kind == ShareKind::Link {
        auth.create_link()?;
        headers.limit_content_length(body_limit(conf, kind))?;
        Some(classify_link(body, &conf.restrictions.allowed_link_schemes)?)
    } else {
        None
    };
    let share = Share::from_request(conf, &auth, headers, kind, name, token, now, link)?;
    headers.limit_content_length(body_limit(conf, kind))?;
    store.shares.insert(share.name.clone(), share.clone());
    Ok(share)
}

/// Reads a share as the server does, deleting it if it has expired.
fn get(store: &mut Store, name: &str, now: u64) -> Result<Share, ApiError> {
    match Share::lookup(store.shares.get(name).cloned(), now) {
        Lookup::Live(s) => Ok(s),
        Lookup::Expired(s) => {
            store.shares.remove(&s.name);
            Err(ApiError::new(ErrorKind::NotFound, "Share not found."))
        }
        Lookup::Missing => Err(ApiError::new(ErrorKind::NotFound, "Share not found.")),
    }
}

fn request(kind: &str, mime: Option<&str>, expire_after: Option<&str>, length: &str) -> HeaderParams {
    HeaderParams::from_headers(None, mime, None, Some(kind), expire_after, Some(length)).unwrap()
}

#[test]
fn paste_without_name_gets_generated_name() {
    let conf = server_config();
    let mut store = Store { shares: HashMap::new() };
    let share = create(&conf, &mut store, &request("paste", None, None, "12"), None, "", 1_000).unwrap();
    assert_eq!(share.name.len(), 8);
    assert!(share.name.chars().all(|c| c.is_ascii_lowercase() || c.is_ascii_digit()));
    assert_eq!(share.kind, ShareKind::Paste);
    assert_eq!(share.language.as_deref(), Some("auto"));
    assert_eq!(share.token.as_ref().map(|t| t.len()), Some(128));
    assert!(store.shares.contains_key(&share.name));
}

#[test]
fn ftp_link_is_refused_when_only_http_allowed() {
    let conf = server_config();
    let mut store = Store { shares: HashMap::new() };
    let err = create(&conf, &mut store, &request("link", None, None, "7"), None, "ftp://x", 0).unwrap_err();
    assert_eq!(err.kind, ErrorKind::ValidationFailure);
    assert!(store.shares.is_empty());
}

#[test]
fn html_upload_is_refused_by_blacklist() {
    let conf = server_config();
    let mut store = Store { shares: HashMap::new() };
    let err = create(&conf, &mut store, &request("file", Some("text/html"), None, "5"), None, "", 0).unwrap_err();
    assert_eq!(err.kind, ErrorKind::ValidationFailure);
    assert!(store.shares.is_empty());
}

#[test]
fn requested_lifetime_over_max_is_capped() {
    let conf = server_config();
    let mut store = Store { shares: HashMap::new() };
    let now = 50_000;
    let share = create(&conf, &mut store, &request("paste", None, Some("7200"), "3"), None, "", now).unwrap();
    assert_eq!(share.expiry, Some(now + 3_600_000));
    assert_ne!(share.expiry, Some(now + 7_200_000));
}

#[test]
fn expired_share_is_gone_on_every_read() {
    let conf = server_config();
    let mut store = Store { shares: HashMap::new() };
    let share = create(&conf, &mut store, &request("link", None, None, "18"), Some("docs"), "https://a.example", 0)
        .unwrap();
    assert_eq!(share.link.as_deref(), Some("https://a.example/"));
    store.shares.get_mut("docs").unwrap().expiry = Some(10);
    let first = get(&mut store, "docs", 20).unwrap_err();
    assert_eq!(first.kind, ErrorKind::NotFound);
    assert!(!store.shares.contains_key("docs"));
    let second = get(&mut store, "docs", 21).unwrap_err();
    assert_eq!(second.kind, ErrorKind::NotFound);
}

#[test]
fn live_share_is_returned() {
    let conf = server_config();
    let mut store = Store { shares: HashMap::new() };
    create(&conf, &mut store, &request("link", None, Some("60"), "18"), Some("live"), "https://a.example", 0)
        .unwrap();
    assert_eq!(get(&mut store, "live", 59_999).unwrap().name, "live");
    assert!(get(&mut store, "live", 60_000).is_err());
}

#[test]
fn explicit_name_is_kept_or_refused() {
    let conf = server_config();
    let mut store = Store { shares: HashMap::new() };
    let a = create(&conf, &mut store, &request("paste", None, None, "1"), Some("mine"), "", 0).unwrap();
    assert_eq!(a.name, "mine");
    let again = create(&conf, &mut store, &request("paste", None, None, "1"), Some("mine"), "", 0).unwrap_err();
    assert_eq!(again.kind, ErrorKind::Conflict);
    let bad = create(&conf, &mut store, &request("paste", None, None, "1"), Some("Mine"), "", 0).unwrap_err();
    assert_eq!(bad.kind, ErrorKind::ValidationFailure);
}

#[test]
fn oversized_link_body_is_refused() {
    let conf = server_config();
    let mut store = Store { shares: HashMap::new() };
    let err = create(&conf, &mut store, &request("link", None, None, "256"), None, "https://a.example", 0)
        .unwrap_err();
    assert_eq!(err.message, "Body is too large.");
}
