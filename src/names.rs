//! Share names and tokens: checking names that callers choose, and drawing
//! random ones whose length grows as the namespace fills up.
use rand::Rng;
use vstd::prelude::*;
use vstd::string::StringSliceAdditionalSpecFns;
use vstd::utf8::{encode_utf8, is_ascii_chars};

use crate::auth::Auth;
use crate::config::{Config, NamesConfig, Permission};
use crate::error::{ApiError, ErrorKind};
use crate::text::ends_with_char;

verus! {

/// The characters of random names.
pub const NAME_CHARS: &'static str = "abcdefghijklmnopqrstuvwxyz0123456789";

/// The characters of share tokens.
pub const TOKEN_CHARS: &'static str = "ABCDEFGHIJKLMNOPQRSTUVWXYZabcdefghijklmnopqrstuvwxyz0123456789";

/// The length of share tokens.
pub const TOKEN_LENGTH: usize = 128;

/// Whether `c` may appear in a share name.
pub open spec fn is_name_char(c: char) -> bool {
    ('a' <= c && c <= 'z') || ('0' <= c && c <= '9') || c == '-' || c == '.' || c == '_' || c == '~'
}

/// Whether every character of `s` may appear in a share name.
pub open spec fn name_chars_ok(s: Seq<char>) -> bool {
    forall|i: int| 0 <= i < s.len() ==> is_name_char(#[trigger] s[i])
}

/// Whether `s` is a lower-case ASCII letter or digit.
pub open spec fn is_lower_alnum(c: char) -> bool {
    ('a' <= c && c <= 'z') || ('0' <= c && c <= '9')
}

/// Whether `s` is an ASCII letter or digit.
pub open spec fn is_alnum(c: char) -> bool {
    ('a' <= c && c <= 'z') || ('A' <= c && c <= 'Z') || ('0' <= c && c <= '9')
}

/// Whether `s` is a name that a caller may choose, given the shortest and
/// longest allowed names: URL-safe characters only, a length within the
/// bounds, and no trailing period.
pub open spec fn valid_name(s: Seq<char>, min: u8, max: u8) -> bool {
    &&& name_chars_ok(s)
    &&& min <= s.len() <= max
    &&& !(s.len() > 0 && s.last() == '.')
}

/// How the checks that need no store judge a requested name: the error kind,
/// or `None` when the name may be asked for.
pub open spec fn name_check_of(auth: Auth, s: Seq<char>, min: u8, max: u8) -> Option<ErrorKind> {
    if auth.permissions() is None {
        Some(ErrorKind::AuthenticationFailure)
    } else if !auth.grants(Permission::CustomName) {
        Some(ErrorKind::AuthorizationFailure)
    } else if !valid_name(s, min, max) {
        Some(ErrorKind::ValidationFailure)
    } else {
        None
    }
}

/// What a request for the name `s` ends in, once the store has said whether
/// `s` is `taken`.
pub open spec fn explicit_name_of(auth: Auth, s: Seq<char>, min: u8, max: u8, taken: bool) -> Result<
    Seq<char>,
    ErrorKind,
> {
    match name_check_of(auth, s, min, max) {
        Some(k) => Err(k),
        None => if taken {
            Err(ErrorKind::Conflict)
        } else {
            Ok(s)
        },
    }
}

/// Every name made only of lower-case letters and digits is URL-safe.
proof fn lemma_alnum_names_ok(s: Seq<char>)
    requires
        forall|i: int| 0 <= i < s.len() ==> is_lower_alnum(#[trigger] s[i]),
    ensures
        name_chars_ok(s),
{
}

/// Whether `k` is the position of the first character of `s` that may not
/// appear in a share name.
pub open spec fn first_bad_name_char(s: Seq<char>, k: int) -> bool {
    &&& 0 <= k < s.len()
    &&& !is_name_char(s[k])
    &&& forall|j: int| 0 <= j < k ==> is_name_char(#[trigger] s[j])
}

/// The message that refuses a name whose first forbidden character is `c`.
pub open spec fn bad_char_message(c: char) -> Seq<char> {
    "Invalid character "@ + seq![c] + " in name, must be a-z, 0-9, _, ., ~ or -."@
}

/// Refuses a name with a character outside a-z, 0-9, `-`, `.`, `_` and `~`,
/// naming the first such character.
pub fn ensure_name_urlsafe(name: &str) -> (r: Result<(), ApiError>)
    ensures
        r is Ok <==> name_chars_ok(name@),
        r matches Err(e) ==> e.kind == ErrorKind::ValidationFailure && exists|k: int|
            first_bad_name_char(name@, k) && e.message@ == bad_char_message(#[trigger] name@[k]),
{
    let len = name.unicode_len();
    let mut position: usize = 0;
    for c in it: name.chars()
        invariant
            it.seq() == name@,
            len == name@.len(),
            position == it.index(),
            position <= len,
            forall|j: int| 0 <= j < position ==> is_name_char(#[trigger] name@[j]),
    {
        if !(('a' <= c && c <= 'z') || ('0' <= c && c <= '9') || c == '-' || c == '.' || c == '_'
            || c == '~') {
            let bad = name.substring_char(position, position + 1);
            let mut message = "Invalid character ".to_string();
            message.append(bad);
            message.append(" in name, must be a-z, 0-9, _, ., ~ or -.");
            proof {
                assert(bad@ =~= seq![name@[position as int]]);
                assert(first_bad_name_char(name@, position as int));
                assert(message@ =~= bad_char_message(name@[position as int]));
            }
            return Err(ApiError { kind: ErrorKind::ValidationFailure, message });
        }
        position = position + 1;
    }
    Ok(())
}

/// Refuses a name whose length in bytes is outside the configured bounds.
pub fn check_name_length(name: &str, conf: &Config) -> (r: Result<(), ApiError>)
    ensures
        r is Ok <==> conf.names.min_length <= name.spec_bytes().len() <= conf.names.max_length,
        r matches Err(e) ==> e.kind == ErrorKind::ValidationFailure && (if name.spec_bytes().len()
            < conf.names.min_length {
            e.message@ == "Name is too short."@
        } else {
            e.message@ == "Name is too long."@
        }),
{
    let length = name.as_bytes().len();
    if length < conf.names.min_length as usize {
        return Err(ApiError::new(ErrorKind::ValidationFailure, "Name is too short."));
    }
    if length > conf.names.max_length as usize {
        return Err(ApiError::new(ErrorKind::ValidationFailure, "Name is too long."));
    }
    Ok(())
}

/// A name of URL-safe characters is ASCII, so it has one byte per character.
proof fn lemma_urlsafe_len(name: Seq<char>)
    requires
        name_chars_ok(name),
    ensures
        encode_utf8(name).len() == name.len(),
{
    assert(is_ascii_chars(name)) by {
        assert forall|i: int| 0 <= i < name.len() implies '\0' <= #[trigger] name[i] <= '\u{7f}' by {
            assert(is_name_char(name[i]));
        }
    }
    vstd::utf8::is_ascii_chars_encode_utf8(name);
}

/// Checks a name that the caller asked for, as far as it can be checked
/// without the store: the caller may choose names, and the name is valid.
pub fn validate_name(name: String, conf: &Config, auth: &Auth) -> (r: Result<String, ApiError>)
    ensures
        match (r, name_check_of(*auth, name@, conf.names.min_length, conf.names.max_length)) {
            (Ok(n), None) => n == name,
            (Err(e), Some(k)) => e.kind == k,
            _ => false,
        },
{
    auth.custom_name()?;
    let text = name.as_str();
    ensure_name_urlsafe(text)?;
    proof {
        lemma_urlsafe_len(text@);
    }
    check_name_length(text, conf)?;
    if ends_with_char(text, '.') {
        return Err(ApiError::new(ErrorKind::ValidationFailure, "Name cannot end with a period."));
    }
    Ok(name)
}

/// Settles a checked name once the store has said whether it is `taken`.
pub fn claim_name(name: String, taken: bool) -> (r: Result<String, ApiError>)
    ensures
        taken ==> (r matches Err(e) && e.kind == ErrorKind::Conflict && e.message@
            == "Name is already taken."@),
        !taken ==> r == Ok::<String, ApiError>(name),
{
    if taken {
        Err(ApiError::new(ErrorKind::Conflict, "Name is already taken."))
    } else {
        Ok(name)
    }
}

/// A name that is valid and free is granted exactly as asked to a caller who
/// may choose names.
pub proof fn lemma_free_valid_name_granted(auth: Auth, name: Seq<char>, min: u8, max: u8)
    requires
        auth.grants(Permission::CustomName),
        valid_name(name, min, max),
    ensures
        explicit_name_of(auth, name, min, max, false) == Ok::<Seq<char>, ErrorKind>(name),
{
}

/// A name that breaks the character, length or trailing-period rules is
/// refused as invalid, whatever the store would say of it.
pub proof fn lemma_invalid_name_refused(auth: Auth, name: Seq<char>, min: u8, max: u8, taken: bool)
    requires
        auth.grants(Permission::CustomName),
        !valid_name(name, min, max),
    ensures
        explicit_name_of(auth, name, min, max, taken) == Err::<Seq<char>, ErrorKind>(
            ErrorKind::ValidationFailure,
        ),
        name_check_of(auth, name, min, max) == Some(ErrorKind::ValidationFailure),
{
}

/// Relies on `rand::thread_rng` and `rand::Rng::gen_range`: a value drawn from
/// `0..bound`; `gen_range` panics only on an empty range.
#[verifier::external_body]
fn random_below(bound: usize) -> (r: usize)
    requires
        bound > 0,
    ensures
        r < bound,
{
    rand::thread_rng().gen_range(0..bound)
}

/// A text of `length` characters, each drawn at random from `chars`.
pub fn generate_random_string(chars: &str, length: usize) -> (r: String)
    requires
        chars@.len() > 0,
    ensures
        r@.len() == length,
        forall|i: int| 0 <= i < length ==> chars@.contains(#[trigger] r@[i]),
{
    let n = chars.unicode_len();
    let mut r = String::new();
    let mut i: usize = 0;
    while i < length
        invariant
            n == chars@.len(),
            n > 0,
            i <= length,
            r@.len() == i,
            forall|j: int| 0 <= j < i ==> chars@.contains(#[trigger] r@[j]),
        decreases length - i,
    {
        let k = random_below(n);
        let piece = chars.substring_char(k, k + 1);
        let ghost before = r@;
        r.append(piece);
        proof {
            assert(r@[i as int] == chars@[k as int]);
            assert forall|j: int| 0 <= j < i + 1 implies chars@.contains(#[trigger] r@[j]) by {
                if j < i {
                    assert(r@[j] == before[j]);
                } else {
                    assert(chars@[k as int] == r@[j]);
                }
            }
        }
        i = i + 1;
    }
    r
}

/// A new share token: 128 random ASCII letters and digits.
pub fn get_token() -> (r: String)
    ensures
        r@.len() == TOKEN_LENGTH,
        forall|i: int| 0 <= i < r@.len() ==> is_alnum(#[trigger] r@[i]),
{
    proof {
        reveal_strlit("ABCDEFGHIJKLMNOPQRSTUVWXYZabcdefghijklmnopqrstuvwxyz0123456789");
    }
    let r = generate_random_string(TOKEN_CHARS, TOKEN_LENGTH);
    proof {
        assert forall|i: int| 0 <= i < r@.len() implies is_alnum(#[trigger] r@[i]) by {
            assert(TOKEN_CHARS@.contains(r@[i]));
            let k = choose|k: int| 0 <= k < TOKEN_CHARS@.len() && TOKEN_CHARS@[k] == r@[i];
            assert(is_alnum(TOKEN_CHARS@[k]));
        }
    }
    r
}

/// What the random-name generator does after the store has judged a candidate.
pub enum NameStep {
    /// The candidate is free: use it.
    Found(String),
    /// The candidate is taken: draw another of the same length.
    Retry,
    /// Too many candidates of one length were taken, so random names now have
    /// one more character: draw another.
    Grown { from: usize, to: usize },
    /// Too many candidates were taken at the longest length, `length`: give up.
    Exhausted { length: usize },
}

/// The state of one random-name allocation: how many taken candidates have
/// been drawn at the current length.
pub struct NameGenerator {
    pub attempt_count: u8,
}

impl NameGenerator {
    /// A generator that has drawn nothing yet.
    pub fn new() -> (r: NameGenerator)
        ensures
            r.attempt_count == 0,
    {
        NameGenerator { attempt_count: 0 }
    }

    /// Draws a candidate name of the current shared random length, made of
    /// lower-case letters and digits.
    pub fn candidate(&mut self, names: &NamesConfig) -> (r: String)
        ensures
            r@.len() >= names.initial_random_length(),
            forall|i: int| 0 <= i < r@.len() ==> is_lower_alnum(#[trigger] r@[i]),
            name_chars_ok(r@),
            final(self).attempt_count == (if old(self).attempt_count < 255 {
                old(self).attempt_count + 1
            } else {
                255int
            }),
    {
        proof {
            reveal_strlit("abcdefghijklmnopqrstuvwxyz0123456789");
        }
        let length = names.get_random_length();
        let r = generate_random_string(NAME_CHARS, length);
        proof {
            assert forall|i: int| 0 <= i < r@.len() implies is_lower_alnum(#[trigger] r@[i]) by {
                assert(NAME_CHARS@.contains(r@[i]));
                let k = choose|k: int| 0 <= k < NAME_CHARS@.len() && NAME_CHARS@[k] == r@[i];
                assert(is_lower_alnum(NAME_CHARS@[k]));
            }
            lemma_alnum_names_ok(r@);
        }
        self.attempt_count = self.attempt_count.saturating_add(1);
        r
    }

    /// Decides what to do once the store has said whether `candidate` is
    /// `taken`. A free candidate is used; after `random_attempt_limit` taken
    /// ones, random names grow one character longer, or, at `max_length`,
    /// the generator gives up.
    pub fn record(&mut self, names: &NamesConfig, candidate: String, taken: bool) -> (r: NameStep)
        ensures
            !taken ==> r == NameStep::Found(candidate),
            r is Found ==> !taken,
            taken && old(self).attempt_count < names.random_attempt_limit ==> r is Retry
                && final(self).attempt_count == old(self).attempt_count,
            taken && old(self).attempt_count >= names.random_attempt_limit ==> match r {
                NameStep::Grown { from, to } => from < names.max_length && to == from + 1
                    && from >= names.initial_random_length() && final(self).attempt_count == 0,
                NameStep::Exhausted { length } => length >= names.max_length
                    && length >= names.initial_random_length(),
                _ => false,
            },
    {
        if !taken {
            return NameStep::Found(candidate);
        }
        if self.attempt_count < names.random_attempt_limit {
            return NameStep::Retry;
        }
        let (from, to) = names.incr_random_length();
        self.settle_limit(names, from, to)
    }

    /// Decides what follows `random_attempt_limit` taken candidates, given the
    /// shared random length `from` that the lengthening step found and the
    /// length `to` it left: names grew by one below `max_length`; at or above
    /// it, the generator gives up.
    pub fn settle_limit(&mut self, names: &NamesConfig, from: usize, to: usize) -> (r: NameStep)
        ensures
            from < names.max_length ==> r == (NameStep::Grown { from, to }),
            from < names.max_length ==> final(self).attempt_count == 0,
            from >= names.max_length ==> r == (NameStep::Exhausted { length: from }),
            from >= names.max_length ==> final(self).attempt_count == old(self).attempt_count,
    {
        if from >= names.max_length as usize {
            NameStep::Exhausted { length: from }
        } else {
            self.attempt_count = 0;
            NameStep::Grown { from, to }
        }
    }
}

} // verus!
