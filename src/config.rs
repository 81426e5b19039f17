//! The configuration that the share engine consults: the password table, the
//! name rules with the shared random-name length, and the content
//! restrictions.
use vstd::prelude::*;
use vstd::rwlock::{RwLock, RwLockPredicate};

use crate::text::{decimal, decimal_of, line_list, line_list_of, texts};

verus! {

/// The password table entry that an anonymous caller falls back on.
pub const DEFAULT_PASSWORD: &'static str = "password";

/// A capability that a credential can grant.
#[derive(Clone, Copy, Debug, PartialEq, Eq, Structural)]
pub enum Permission {
    CreateAny,
    CreateLink,
    CreateFile,
    CreatePaste,
    UpdateOwn,
    UpdateAny,
    CustomName,
}

/// Whether `perms` holds `p`.
pub fn has_permission_in(perms: &[Permission], p: Permission) -> (r: bool)
    ensures
        r == perms@.contains(p),
{
    let mut i: usize = 0;
    while i < perms.len()
        invariant
            i <= perms@.len(),
            forall|j: int| 0 <= j < i ==> perms@[j] != p,
        decreases perms@.len() - i,
    {
        if perms[i] == p {
            return true;
        }
        i = i + 1;
    }
    false
}

/// Whether entry `i` is the first one of `entries` with key `k`.
pub open spec fn key_first_at(entries: Seq<(String, Vec<Permission>)>, k: Seq<char>, i: int) -> bool {
    &&& 0 <= i < entries.len()
    &&& entries[i].0@ == k
    &&& forall|j: int| 0 <= j < i ==> (#[trigger] entries[j]).0@ != k
}

/// Whether some entry of `entries` has key `k`.
pub open spec fn has_key(entries: Seq<(String, Vec<Permission>)>, k: Seq<char>) -> bool {
    exists|i: int| key_first_at(entries, k, i)
}

/// The position of the first entry of `entries` with key `k`.
pub open spec fn key_index(entries: Seq<(String, Vec<Permission>)>, k: Seq<char>) -> int {
    choose|i: int| key_first_at(entries, k, i)
}

/// The passwords that the server accepts, each with the permissions it grants.
pub struct PasswordTable {
    entries: Vec<(String, Vec<Permission>)>,
}

impl View for PasswordTable {
    type V = Map<Seq<char>, Seq<Permission>>;

    /// Each password, mapped to the permissions of its first entry.
    closed spec fn view(&self) -> Map<Seq<char>, Seq<Permission>> {
        Map::new(
            |k: Seq<char>| has_key(self.entries@, k),
            |k: Seq<char>| self.entries@[key_index(self.entries@, k)].1@,
        )
    }
}

/// Two first positions of one key are the same position.
proof fn lemma_key_first_unique(entries: Seq<(String, Vec<Permission>)>, k: Seq<char>, i: int, m: int)
    requires
        key_first_at(entries, k, i),
        key_first_at(entries, k, m),
    ensures
        i == m,
{
    if i < m {
        assert(entries[i].0@ != k);
    } else if m < i {
        assert(entries[m].0@ != k);
    }
}

impl PasswordTable {
    /// A table with no passwords.
    pub fn new() -> (r: PasswordTable)
        ensures
            r@ == Map::<Seq<char>, Seq<Permission>>::empty(),
    {
        let r = PasswordTable { entries: Vec::new() };
        assert(r@ =~= Map::<Seq<char>, Seq<Permission>>::empty());
        r
    }

    /// The position of the first entry for `key`, if any.
    fn find(&self, key: &str) -> (r: Option<usize>)
        ensures
            match r {
                Some(i) => key_first_at(self.entries@, key@, i as int),
                None => forall|j: int| 0 <= j < self.entries@.len() ==> (#[trigger] self.entries@[j]).0@ != key@,
            },
    {
        let mut i: usize = 0;
        while i < self.entries.len()
            invariant
                i <= self.entries@.len(),
                forall|j: int| 0 <= j < i ==> (#[trigger] self.entries@[j]).0@ != key@,
            decreases self.entries@.len() - i,
        {
            if crate::text::same_text(self.entries[i].0.as_str(), key) {
                return Some(i);
            }
            i = i + 1;
        }
        None
    }

    /// Sets the permissions granted by `key`, replacing those it had.
    pub fn insert(&mut self, key: String, permissions: Vec<Permission>)
        ensures
            final(self)@ == old(self)@.insert(key@, permissions@),
    {
        let ghost k = key@;
        let ghost p = permissions@;
        let ghost before = self.entries@;
        match self.find(key.as_str()) {
            Some(i) => {
                self.entries.set(i, (key, permissions));
                proof {
                    let after = self.entries@;
                    assert(before[i as int].0@ == k);
                    assert forall|j: int| #![trigger after[j]] #![trigger before[j]] 0 <= j < after.len() implies after[j].0@ == before[j].0@ by {
                        if j != i {
                            assert(after[j] == before[j]);
                        }
                    }
                    assert forall|q: Seq<char>| #[trigger] has_key(after, q) == has_key(before, q) by {
                        if has_key(before, q) {
                            assert(key_first_at(after, q, key_index(before, q)));
                        }
                        if has_key(after, q) {
                            let n = key_index(after, q);
                            assert(key_first_at(after, q, n));
                            assert(key_first_at(before, q, n));
                        }
                    }
                    assert forall|q: Seq<char>| #[trigger] has_key(after, q) implies after[key_index(after, q)].1@
                        == old(self)@.insert(k, p)[q] by {
                        let n = key_index(after, q);
                        assert(key_first_at(after, q, n));
                        assert(key_first_at(before, q, n));
                        if q == k {
                            lemma_key_first_unique(before, k, i as int, n);
                        } else {
                            lemma_key_first_unique(before, q, n, key_index(before, q));
                        }
                    }
                    assert(key_first_at(after, k, i as int));
                    assert(self@ =~= old(self)@.insert(k, p));
                }
            },
            None => {
                self.entries.push((key, permissions));
                proof {
                    let after = self.entries@;
                    let last = before.len() as int;
                    assert forall|j: int| #![trigger after[j]] #![trigger before[j]] 0 <= j < last implies after[j] == before[j] by {}
                    assert(key_first_at(after, k, last));
                    assert forall|q: Seq<char>| #[trigger] has_key(after, q) == (has_key(before, q) || q == k) by {
                        if has_key(before, q) {
                            assert(key_first_at(after, q, key_index(before, q)));
                        }
                        if has_key(after, q) {
                            let n = key_index(after, q);
                            assert(key_first_at(after, q, n));
                            if n < last {
                                assert(key_first_at(before, q, n));
                            }
                        }
                    }
                    assert forall|q: Seq<char>| #[trigger] has_key(after, q) implies after[key_index(after, q)].1@
                        == old(self)@.insert(k, p)[q] by {
                        let n = key_index(after, q);
                        assert(key_first_at(after, q, n));
                        if q == k {
                            lemma_key_first_unique(after, k, last, n);
                        } else {
                            assert(n < last);
                            assert(key_first_at(before, q, n));
                            lemma_key_first_unique(before, q, n, key_index(before, q));
                        }
                    }
                    assert(self@ =~= old(self)@.insert(k, p));
                }
            },
        }
    }

    /// The permissions that `key` grants, if it is a known password.
    pub fn get<'a>(&'a self, key: &str) -> (r: Option<&'a [Permission]>)
        ensures
            match r {
                Some(p) => self@.contains_key(key@) && p@ == self@[key@],
                None => !self@.contains_key(key@),
            },
    {
        match self.find(key) {
            Some(i) => {
                proof {
                    lemma_key_first_unique(self.entries@, key@, i as int, key_index(self.entries@, key@));
                }
                Some(self.entries[i].1.as_slice())
            },
            None => {
                assert(!has_key(self.entries@, key@));
                None
            },
        }
    }

    /// Whether `key` is a known password.
    pub fn contains_key(&self, key: &str) -> (r: bool)
        ensures
            r == self@.contains_key(key@),
    {
        self.get(key).is_some()
    }

    /// Whether the table holds no password.
    pub fn is_empty(&self) -> (r: bool)
        ensures
            r == (self@.dom() == Set::<Seq<char>>::empty()),
    {
        if self.entries.len() == 0 {
            assert(self@.dom() =~= Set::<Seq<char>>::empty());
            true
        } else {
            proof {
                let k = self.entries@[0].0@;
                assert(key_first_at(self.entries@, k, 0));
                assert(self@.dom().contains(k));
            }
            false
        }
    }
}

/// What every value of the shared random-name length satisfies: it never falls
/// below the length it started at.
pub struct LengthFloor {
    pub floor: usize,
}

impl RwLockPredicate<usize> for LengthFloor {
    open spec fn inv(self, v: usize) -> bool {
        self.floor <= v
    }
}

/// The rules for share names, and the length of randomly drawn names, which
/// all callers share and which only grows.
pub struct NamesConfig {
    pub min_length: u8,
    pub max_length: u8,
    pub random_length: RwLock<usize, LengthFloor>,
    pub random_attempt_limit: u8,
}

impl NamesConfig {
    /// The random-name length that this configuration started with.
    pub closed spec fn initial_random_length(&self) -> usize {
        self.random_length.pred().floor
    }

    /// A configuration whose shared random-name length starts at `random_length`.
    pub fn new(min_length: u8, max_length: u8, random_length: usize, random_attempt_limit: u8) -> (r: NamesConfig)
        ensures
            r.min_length == min_length,
            r.max_length == max_length,
            r.random_attempt_limit == random_attempt_limit,
            r.initial_random_length() == random_length,
    {
        NamesConfig {
            min_length,
            max_length,
            random_length: RwLock::new(random_length, Ghost(LengthFloor { floor: random_length })),
            random_attempt_limit,
        }
    }

    /// The current length of randomly drawn names.
    pub fn get_random_length(&self) -> (r: usize)
        ensures
            r >= self.initial_random_length(),
    {
        let handle = self.random_length.acquire_read();
        let value = *handle.borrow();
        handle.release_read();
        value
    }

    /// Lengthens randomly drawn names by one, unless they already reach
    /// `max_length`, in one step that no other caller can interleave with.
    /// Returns the length found and the length left.
    pub fn incr_random_length(&self) -> (r: (usize, usize))
        ensures
            r.0 >= self.initial_random_length(),
            r.0 < self.max_length ==> r.1 == r.0 + 1,
            r.0 >= self.max_length ==> r.1 == r.0,
    {
        let (value, handle) = self.random_length.acquire_write();
        let next = if value < self.max_length as usize {
            value + 1
        } else {
            value
        };
        handle.release_write(next);
        (value, next)
    }
}

impl Default for NamesConfig {
    fn default() -> (r: NamesConfig)
        ensures
            r.min_length == 1,
            r.max_length == 32,
            r.random_attempt_limit == 3,
            r.initial_random_length() == 8,
    {
        NamesConfig::new(
            default_min_name_length(),
            default_max_name_length(),
            default_random_name_length(),
            default_random_name_attempt_limit(),
        )
    }
}

/// What the server accepts as share content.
pub struct RestrictionsConfig {
    /// The largest body of a paste or file upload, in bytes.
    pub max_upload_size: u64,
    /// The largest body of a link, in bytes.
    pub max_link_length: u16,
    /// The longest time a share may live, in milliseconds, if there is a limit.
    pub max_expiry_time: Option<u64>,
    /// MIME types allowed for uploads; when not empty, no other type is.
    pub allowed_mime_types: Vec<String>,
    /// MIME types refused for uploads, when `allowed_mime_types` is empty.
    pub disallowed_mime_types: Vec<String>,
    /// URL schemes allowed for links; when empty, any scheme is.
    pub allowed_link_schemes: Vec<String>,
}

/// Where the server listens and how it is reached.
pub struct NetworkConfig {
    /// The URL under which shares are published, ending in a slash.
    pub host: String,
    pub address: String,
    pub port: u16,
}

/// How to reach the database.
pub struct DatabaseConfig {
    pub pass: String,
    pub host: String,
    pub port: u16,
    pub user: String,
    pub name: String,
}

/// The whole configuration of the server.
pub struct Config {
    pub frontend_path: Option<String>,
    pub upload_dir: String,
    pub highlighting_languages: Vec<String>,
    pub default_highlighting_language: String,
    pub default_mime_type: String,
    /// How often expired shares are swept, in milliseconds.
    pub expiry_check_interval: u64,
    pub passwords: PasswordTable,
    pub names: NamesConfig,
    pub restrictions: RestrictionsConfig,
    pub network: NetworkConfig,
    pub database: DatabaseConfig,
}

/// The PostgreSQL URL for user `u`, password `p`, host `h`, port `port` and database `n`.
pub open spec fn database_url_of(u: Seq<char>, p: Seq<char>, h: Seq<char>, port: u16, n: Seq<char>) -> Seq<char> {
    "postgres://"@ + u + ":"@ + p + "@"@ + h + ":"@ + decimal_of(port as nat) + "/"@ + n
}

impl Config {
    /// The URL of the database that the configuration names.
    pub fn make_database_url(&self) -> (r: String)
        ensures
            r@ == database_url_of(
                self.database.user@,
                self.database.pass@,
                self.database.host@,
                self.database.port,
                self.database.name@,
            ),
    {
        let mut url = "postgres://".to_string();
        url.append(self.database.user.as_str());
        url.append(":");
        url.append(self.database.pass.as_str());
        url.append("@");
        url.append(self.database.host.as_str());
        url.append(":");
        url.append(decimal(self.database.port as u64).as_str());
        url.append("/");
        url.append(self.database.name.as_str());
        url
    }
}

/// The highlighting languages offered when none are configured, one per line.
pub const LANGUAGES: &'static str = "bash
c
cpp
csharp
css
diff
go
graphql
ini
java
javascript
json
kotlin
less
lua
makefile
markdown
objectivec
perl
php
php-template
plaintext
python
python-repl
r
ruby
rust
scss
shell
sql
swift
typescript
vbnet
wasm
xml
yaml
";

/// The highlighting languages offered when none are configured: the lines of
/// `LANGUAGES`, trimmed, without blank ones.
pub fn default_highlighting_languages() -> (r: Vec<String>)
    ensures
        texts(r@) == line_list_of(LANGUAGES@),
{
    line_list(LANGUAGES)
}

/// The language of a paste that names none.
pub fn default_highlighting_language() -> (r: String)
    ensures
        r@ == "auto"@,
{
    "auto".to_string()
}

/// The MIME type of an upload that names none.
pub fn default_mime_type() -> (r: String)
    ensures
        r@ == "application/octet-stream"@,
{
    "application/octet-stream".to_string()
}

/// How often expired shares are swept, in milliseconds: once a minute.
pub fn default_expiry_check_interval() -> (r: u64)
    ensures
        r == 60_000,
{
    60_000
}

/// The shortest custom name.
pub fn default_min_name_length() -> (r: u8)
    ensures
        r == 1,
{
    1
}

/// The longest name.
pub fn default_max_name_length() -> (r: u8)
    ensures
        r == 32,
{
    32
}

/// The length that random names start at.
pub fn default_random_name_length() -> (r: usize)
    ensures
        r == 8,
{
    8
}

/// How many taken random names of one length are drawn before names grow longer.
pub fn default_random_name_attempt_limit() -> (r: u8)
    ensures
        r == 3,
{
    3
}

/// The largest body of a link, in bytes.
pub fn default_max_link_length() -> (r: u16)
    ensures
        r == 255,
{
    255
}

/// The URL schemes allowed for links.
pub fn default_allowed_link_schemes() -> (r: Vec<String>)
    ensures
        r@.len() == 2,
        r@[0]@ == "http"@,
        r@[1]@ == "https"@,
{
    vec!["http".to_string(), "https".to_string()]
}

/// The MIME types refused for uploads.
pub fn default_disallowed_mime_types() -> (r: Vec<String>)
    ensures
        r@.len() == 1,
        r@[0]@ == "text/html"@,
{
    vec!["text/html".to_string()]
}

/// The address the server binds to.
pub fn default_bind_address() -> (r: String)
    ensures
        r@ == "127.0.0.1"@,
{
    "127.0.0.1".to_string()
}

/// The port the server binds to.
pub fn default_bind_port() -> (r: u16)
    ensures
        r == 8000,
{
    8000
}

/// The database host.
pub fn default_db_host() -> (r: String)
    ensures
        r@ == "127.0.0.1"@,
{
    "127.0.0.1".to_string()
}

/// The database port.
pub fn default_db_port() -> (r: u16)
    ensures
        r == 5432,
{
    5432
}

/// The database user.
pub fn default_db_user() -> (r: String)
    ensures
        r@ == "shareit"@,
{
    "shareit".to_string()
}

/// The database name.
pub fn default_db_name() -> (r: String)
    ensures
        r@ == "shareit"@,
{
    "shareit".to_string()
}

/// The directory that holds the bodies of pastes and files.
pub fn default_upload_dir() -> (r: String)
    ensures
        r@ == "/var/shareit/shares/"@,
{
    "/var/shareit/shares/".to_string()
}

/// The password table when none is configured: anonymous callers may create
/// any share, manage their own shares and choose names.
pub fn default_passwords() -> (r: PasswordTable)
    ensures
        r@ == map![DEFAULT_PASSWORD@ => seq![Permission::CreateAny, Permission::UpdateOwn, Permission::CustomName]],
{
    let mut table = PasswordTable::new();
    table.insert(
        DEFAULT_PASSWORD.to_string(),
        vec![Permission::CreateAny, Permission::UpdateOwn, Permission::CustomName],
    );
    assert(table@ =~= map![DEFAULT_PASSWORD@ => seq![Permission::CreateAny, Permission::UpdateOwn, Permission::CustomName]]);
    table
}

} // verus!
