//! Operations on text that the share engine needs: decimal numbers, comparison,
//! splitting, trimming and lines.
use vstd::prelude::*;
use vstd::string::StringSliceAdditionalSpecFns;
use vstd::utf8::encode_utf8_decode_utf8;

verus! {

/// The ten decimal digits, in order.
pub open spec fn digit_chars() -> Seq<char> {
    seq!['0', '1', '2', '3', '4', '5', '6', '7', '8', '9']
}

/// Whether `c` is an ASCII decimal digit.
pub open spec fn is_digit(c: char) -> bool {
    '0' <= c && c <= '9'
}

/// The value of the decimal digit `c`.
pub open spec fn digit_value(c: char) -> int {
    (c as u32) as int - ('0' as u32) as int
}

/// The value of a sequence of decimal digits, most significant first.
pub open spec fn digits_value(s: Seq<char>) -> int
    decreases s.len(),
{
    if s.len() == 0 {
        0
    } else {
        digits_value(s.drop_last()) * 10 + digit_value(s.last())
    }
}

/// The decimal representation of `n`, without leading zeros.
pub open spec fn decimal_of(n: nat) -> Seq<char>
    decreases n,
{
    if n < 10 {
        seq![digit_chars()[n as int]]
    } else {
        decimal_of(n / 10) + seq![digit_chars()[(n % 10) as int]]
    }
}

/// Whether every character of `s` is a decimal digit.
pub open spec fn all_digits(s: Seq<char>) -> bool {
    forall|i: int| 0 <= i < s.len() ==> is_digit(#[trigger] s[i])
}

/// `s` without one leading `+`, if it has one.
pub open spec fn unsigned_part(s: Seq<char>) -> Seq<char> {
    if s.len() > 0 && s[0] == '+' {
        s.drop_first()
    } else {
        s
    }
}

/// What `u64`'s `FromStr` gives for `s`: an optional `+`, then one or more
/// decimal digits whose value fits in a `u64`.
pub open spec fn parse_u64_of(s: Seq<char>) -> Option<u64> {
    let d = unsigned_part(s);
    if d.len() > 0 && all_digits(d) && digits_value(d) <= u64::MAX {
        Some(digits_value(d) as u64)
    } else {
        None
    }
}

/// Whether `i` is the position of the first `c` in `s`.
pub open spec fn first_at(s: Seq<char>, c: char, i: int) -> bool {
    &&& 0 <= i < s.len()
    &&& s[i] == c
    &&& forall|j: int| 0 <= j < i ==> s[j] != c
}

/// `s` cut at its first `c` into the text before and the text after it, if `s`
/// holds a `c`.
pub open spec fn split_once_of(s: Seq<char>, c: char) -> Option<(Seq<char>, Seq<char>)> {
    if exists|i: int| first_at(s, c, i) {
        let i = choose|i: int| first_at(s, c, i);
        Some((s.subrange(0, i), s.subrange(i + 1, s.len() as int)))
    } else {
        None
    }
}

/// The one-character text of a decimal digit.
fn digit_text(d: u64) -> (r: &'static str)
    requires
        d < 10,
    ensures
        r@ == seq![digit_chars()[d as int]],
{
    proof {
        reveal_strlit("0");
        reveal_strlit("1");
        reveal_strlit("2");
        reveal_strlit("3");
        reveal_strlit("4");
        reveal_strlit("5");
        reveal_strlit("6");
        reveal_strlit("7");
        reveal_strlit("8");
        reveal_strlit("9");
    }
    let r = match d {
        0 => "0",
        1 => "1",
        2 => "2",
        3 => "3",
        4 => "4",
        5 => "5",
        6 => "6",
        7 => "7",
        8 => "8",
        _ => "9",
    };
    assert(r@ =~= seq![digit_chars()[d as int]]);
    r
}

/// The decimal representation of `n`.
pub fn decimal(n: u64) -> (r: String)
    ensures
        r@ == decimal_of(n as nat),
    decreases n,
{
    if n < 10 {
        digit_text(n).to_string()
    } else {
        let mut r = decimal(n / 10);
        r.append(digit_text(n % 10));
        r
    }
}

/// Parses `s` as `u64`'s `FromStr` does.
pub fn parse_u64(s: &str) -> (r: Option<u64>)
    ensures
        r == parse_u64_of(s@),
{
    let ghost start: int = if s@.len() > 0 && s@[0] == '+' { 1 } else { 0 };
    let ghost d: Seq<char> = s@.subrange(start, s@.len() as int);
    let mut value: u64 = 0;
    let mut first = true;
    let mut any_digit = false;
    for c in it: s.chars()
        invariant
            it.seq() == s@,
            0 <= it.index() <= s@.len(),
            start == (if s@.len() > 0 && s@[0] == '+' { 1int } else { 0int }),
            d == s@.subrange(start, s@.len() as int),
            first == (it.index() == 0),
            start <= it.index() || first,
            any_digit == (it.index() > start),
            forall|i: int| start <= i < it.index() ==> is_digit(#[trigger] s@[i]),
            value == digits_value(s@.subrange(start, if it.index() < start { start } else { it.index() })),
    {
        let ghost position = it.index();
        if first && c == '+' {
            first = false;
        } else {
            if !('0' <= c && c <= '9') {
                proof {
                    lemma_non_digit_rejects(s@, start, position);
                }
                return None;
            }
            let digit = ((c as u32) - ('0' as u32)) as u64;
            let ghost prev = s@.subrange(start, position);
            let ghost next = s@.subrange(start, position + 1);
            assert(next.drop_last() =~= prev);
            assert(next.last() == c);
            match value.checked_mul(10) {
                Some(v10) => match v10.checked_add(digit) {
                    Some(v) => {
                        value = v;
                    },
                    None => {
                        proof {
                            lemma_overflow_rejects(s@, start, position - start + 1);
                        }
                        return None;
                    },
                },
                None => {
                    proof {
                        lemma_overflow_rejects(s@, start, position - start + 1);
                    }
                    return None;
                },
            }
            first = false;
            any_digit = true;
        }
    }
    assert(unsigned_part(s@) =~= d);
    if !any_digit {
        None
    } else {
        Some(value)
    }
}

/// A prefix of a digit sequence is worth at most the whole.
proof fn lemma_digits_prefix_bound(s: Seq<char>, k: int)
    requires
        0 <= k <= s.len(),
        forall|i: int| 0 <= i < s.len() ==> is_digit(#[trigger] s[i]),
    ensures
        digits_value(s.subrange(0, k)) <= digits_value(s),
    decreases s.len(),
{
    if k < s.len() {
        lemma_digits_prefix_bound(s.drop_last(), k);
        assert(s.drop_last().subrange(0, k) =~= s.subrange(0, k));
        lemma_digits_nonneg(s.drop_last());
    } else {
        assert(s.subrange(0, k) =~= s);
    }
}

/// Once a prefix of the digits is worth more than `u64::MAX`, the text does not parse.
proof fn lemma_overflow_rejects(s: Seq<char>, start: int, k: int)
    requires
        start == (if s.len() > 0 && s[0] == '+' { 1int } else { 0int }),
        0 < k,
        start + k <= s.len(),
        digits_value(s.subrange(start, start + k)) > u64::MAX,
    ensures
        parse_u64_of(s) is None,
{
    let d = unsigned_part(s);
    assert(d =~= s.subrange(start, s.len() as int));
    if all_digits(d) {
        lemma_digits_prefix_bound(d, k);
        assert(d.subrange(0, k) =~= s.subrange(start, start + k));
        assert(digits_value(d) > u64::MAX);
    }
}

/// A non-digit after the optional sign makes the text fail to parse.
proof fn lemma_non_digit_rejects(s: Seq<char>, start: int, k: int)
    requires
        start == (if s.len() > 0 && s[0] == '+' { 1int } else { 0int }),
        start <= k < s.len(),
        !is_digit(s[k]),
    ensures
        parse_u64_of(s) is None,
{
    let d = unsigned_part(s);
    assert(d =~= s.subrange(start, s.len() as int));
    assert(d[k - start] == s[k]);
}

/// A digit sequence has a value of at least zero.
proof fn lemma_digits_nonneg(s: Seq<char>)
    requires
        forall|i: int| 0 <= i < s.len() ==> is_digit(#[trigger] s[i]),
    ensures
        digits_value(s) >= 0,
    decreases s.len(),
{
    if s.len() > 0 {
        lemma_digits_nonneg(s.drop_last());
        assert(is_digit(s[s.len() - 1]));
    }
}

/// Cuts `s` at its first `c`: the text before it and the text after it.
pub fn split_once(s: &str, c: char) -> (r: Option<(String, String)>)
    ensures
        match (r, split_once_of(s@, c)) {
            (Some(p), Some(q)) => p.0@ == q.0 && p.1@ == q.1,
            (None, None) => true,
            _ => false,
        },
{
    let len = s.unicode_len();
    let mut position: usize = 0;
    for x in it: s.chars()
        invariant
            it.seq() == s@,
            len == s@.len(),
            position == it.index(),
            position <= len,
            forall|j: int| 0 <= j < position ==> s@[j] != c,
    {
        if x == c {
            proof {
                assert(first_at(s@, c, position as int));
                lemma_first_unique(s@, c, position as int);
            }
            let before = s.substring_char(0, position).to_string();
            let after = s.substring_char(position + 1, len).to_string();
            return Some((before, after));
        }
        position = position + 1;
    }
    assert(!exists|i: int| first_at(s@, c, i));
    None
}

/// The first position of a character is unique.
proof fn lemma_first_unique(s: Seq<char>, c: char, i: int)
    requires
        first_at(s, c, i),
    ensures
        (choose|k: int| first_at(s, c, k)) == i,
{
    let k = choose|k: int| first_at(s, c, k);
    assert(first_at(s, c, k));
    if k < i {
        assert(s[k] != c);
    } else if k > i {
        assert(s[i] != c);
    }
}

/// Whether `s` ends with `c`.
pub fn ends_with_char(s: &str, c: char) -> (r: bool)
    ensures
        r == (s@.len() > 0 && s@.last() == c),
{
    let len = s.unicode_len();
    if len == 0 {
        false
    } else {
        s.get_char(len - 1) == c
    }
}

/// Whether `a` and `b` hold the same text.
pub fn same_text(a: &str, b: &str) -> (r: bool)
    ensures
        r == (a@ == b@),
{
    let x = a.as_bytes();
    let y = b.as_bytes();
    if x.len() != y.len() {
        return false;
    }
    let mut i: usize = 0;
    while i < x.len()
        invariant
            x@ == a.spec_bytes(),
            y@ == b.spec_bytes(),
            x@.len() == y@.len(),
            i <= x@.len(),
            forall|j: int| 0 <= j < i ==> x@[j] == y@[j],
        decreases x@.len() - i,
    {
        if x[i] != y[i] {
            return false;
        }
        i = i + 1;
    }
    proof {
        assert(x@ =~= y@);
        encode_utf8_decode_utf8(a@);
        encode_utf8_decode_utf8(b@);
    }
    true
}

/// Whether `items` holds the text `s`.
pub fn contains_text(items: &Vec<String>, s: &str) -> (r: bool)
    ensures
        r == exists|i: int| 0 <= i < items@.len() && (#[trigger] items@[i])@ == s@,
{
    let mut i: usize = 0;
    while i < items.len()
        invariant
            i <= items@.len(),
            forall|j: int| 0 <= j < i ==> (#[trigger] items@[j])@ != s@,
        decreases items@.len() - i,
    {
        if same_text(items[i].as_str(), s) {
            return true;
        }
        i = i + 1;
    }
    false
}

/// The texts of `items`, as sequences of characters.
pub open spec fn texts(items: Seq<String>) -> Seq<Seq<char>> {
    items.map_values(|s: String| s@)
}

/// Whether `c` has the Unicode `White_Space` property, as `char::is_whitespace` tests.
pub open spec fn is_white_space(c: char) -> bool {
    ('\u{9}' <= c && c <= '\u{d}') || c == ' ' || c == '\u{85}' || c == '\u{a0}' || c == '\u{1680}'
        || ('\u{2000}' <= c && c <= '\u{200a}') || c == '\u{2028}' || c == '\u{2029}' || c == '\u{202f}'
        || c == '\u{205f}' || c == '\u{3000}'
}

/// `s` without its leading white space.
pub open spec fn trim_start_of(s: Seq<char>) -> Seq<char>
    decreases s.len(),
{
    if s.len() > 0 && is_white_space(s[0]) {
        trim_start_of(s.drop_first())
    } else {
        s
    }
}

/// `s` without its trailing white space.
pub open spec fn trim_end_of(s: Seq<char>) -> Seq<char>
    decreases s.len(),
{
    if s.len() > 0 && is_white_space(s.last()) {
        trim_end_of(s.drop_last())
    } else {
        s
    }
}

/// `s` without its leading and trailing white space, as `str::trim` gives it.
pub open spec fn trim_of(s: Seq<char>) -> Seq<char> {
    trim_end_of(trim_start_of(s))
}

/// Whether `c` is white space.
fn white_space(c: char) -> (r: bool)
    ensures
        r == is_white_space(c),
{
    ('\u{9}' <= c && c <= '\u{d}') || c == ' ' || c == '\u{85}' || c == '\u{a0}' || c == '\u{1680}'
        || ('\u{2000}' <= c && c <= '\u{200a}') || c == '\u{2028}' || c == '\u{2029}' || c == '\u{202f}'
        || c == '\u{205f}' || c == '\u{3000}'
}

/// `s` without its leading and trailing white space.
pub fn trim(s: &str) -> (r: String)
    ensures
        r@ == trim_of(s@),
{
    let len = s.unicode_len();
    let mut a: usize = 0;
    assert(s@.subrange(0, len as int) =~= s@);
    while a < len && white_space(s.get_char(a))
        invariant
            len == s@.len(),
            a <= len,
            trim_start_of(s@) == trim_start_of(s@.subrange(a as int, len as int)),
        decreases len - a,
    {
        assert(s@.subrange(a as int, len as int).drop_first() =~= s@.subrange(a + 1, len as int));
        a = a + 1;
    }
    let ghost front = s@.subrange(a as int, len as int);
    assert(trim_start_of(front) == front);
    let mut b: usize = len;
    while b > a && white_space(s.get_char(b - 1))
        invariant
            len == s@.len(),
            a <= b <= len,
            front == s@.subrange(a as int, len as int),
            trim_end_of(front) == trim_end_of(s@.subrange(a as int, b as int)),
        decreases b,
    {
        assert(s@.subrange(a as int, b as int).drop_last() =~= s@.subrange(a as int, b - 1));
        b = b - 1;
    }
    let ghost kept = s@.subrange(a as int, b as int);
    assert(trim_end_of(kept) == kept);
    s.substring_char(a, b).to_string()
}

/// The lines of `s`: the texts between its newlines.
pub open spec fn lines_of(s: Seq<char>) -> Seq<Seq<char>>
    decreases s.len(),
{
    if exists|i: int| first_at(s, '\n', i) {
        let i = choose|i: int| first_at(s, '\n', i);
        seq![s.subrange(0, i)] + lines_of(s.subrange(i + 1, s.len() as int))
    } else {
        seq![s]
    }
}

/// The trimmed lines of `lines` that are not empty.
pub open spec fn kept_lines(lines: Seq<Seq<char>>) -> Seq<Seq<char>>
    decreases lines.len(),
{
    if lines.len() == 0 {
        Seq::empty()
    } else {
        let t = trim_of(lines[0]);
        (if t.len() > 0 {
            seq![t]
        } else {
            Seq::empty()
        }) + kept_lines(lines.drop_first())
    }
}

/// The list that a text of one entry per line gives: each line trimmed, and
/// blank lines dropped.
pub open spec fn line_list_of(text: Seq<char>) -> Seq<Seq<char>> {
    kept_lines(lines_of(text))
}

/// Splitting at the first newline of a text.
proof fn lemma_lines_at_newline(s: Seq<char>, i: int)
    requires
        first_at(s, '\n', i),
    ensures
        lines_of(s) == seq![s.subrange(0, i)] + lines_of(s.subrange(i + 1, s.len() as int)),
{
    lemma_first_unique(s, '\n', i);
}

/// Keeping the lines of a sequence that starts with `l`.
proof fn lemma_kept_cons(l: Seq<char>, rest: Seq<Seq<char>>)
    ensures
        kept_lines(seq![l] + rest) == (if trim_of(l).len() > 0 {
            seq![trim_of(l)]
        } else {
            Seq::<Seq<char>>::empty()
        }) + kept_lines(rest),
{
    let ls = seq![l] + rest;
    assert(ls[0] == l);
    assert(ls.drop_first() =~= rest);
}

/// The entries of a text with one entry per line.
pub fn line_list(text: &str) -> (r: Vec<String>)
    ensures
        texts(r@) == line_list_of(text@),
{
    let len = text.unicode_len();
    let mut r: Vec<String> = Vec::new();
    let mut start: usize = 0;
    let mut position: usize = 0;
    assert(text@.subrange(0, len as int) =~= text@);
    for c in it: text.chars()
        invariant
            it.seq() == text@,
            len == text@.len(),
            position == it.index(),
            start <= position <= len,
            forall|j: int| start <= j < position ==> text@[j] != '\n',
            texts(r@) + kept_lines(lines_of(text@.subrange(start as int, len as int))) == line_list_of(text@),
    {
        if c == '\n' {
            let ghost rest = text@.subrange(start as int, len as int);
            let ghost k = position - start;
            proof {
                assert(rest[k] == '\n');
                assert forall|j: int| 0 <= j < k implies rest[j] != '\n' by {
                    assert(rest[j] == text@[start + j]);
                }
                assert(first_at(rest, '\n', k));
                lemma_lines_at_newline(rest, k);
                assert(rest.subrange(0, k) =~= text@.subrange(start as int, position as int));
                assert(rest.subrange(k + 1, rest.len() as int) =~= text@.subrange(position + 1, len as int));
                lemma_kept_cons(
                    text@.subrange(start as int, position as int),
                    lines_of(text@.subrange(position + 1, len as int)),
                );
            }
            let line = trim(text.substring_char(start, position));
            let ghost before = r@;
            if line.unicode_len() > 0 {
                r.push(line);
                assert(texts(r@) =~= texts(before) + seq![trim_of(text@.subrange(start as int, position as int))]);
            }
            start = position + 1;
        }
        position = position + 1;
    }
    let ghost rest = text@.subrange(start as int, len as int);
    proof {
        assert forall|i: int| !first_at(rest, '\n', i) by {
            if 0 <= i < rest.len() {
                assert(rest[i] == text@[start + i]);
            }
        }
        assert(lines_of(rest) == seq![rest]);
        lemma_kept_cons(rest, Seq::empty());
        assert(seq![rest] + Seq::<Seq<char>>::empty() =~= seq![rest]);
        assert(kept_lines(Seq::<Seq<char>>::empty()) =~= Seq::<Seq<char>>::empty());
    }
    let line = trim(text.substring_char(start, len));
    let ghost before = r@;
    if line.unicode_len() > 0 {
        r.push(line);
        assert(texts(r@) =~= texts(before) + seq![trim_of(rest)]);
    }
    assert(texts(r@) =~= line_list_of(text@));
    r
}

/// What `str::to_lowercase` makes of a text.
pub uninterp spec fn lower_of(s: Seq<char>) -> Seq<char>;

/// Relies on `str::to_lowercase`, whose result depends on the characters of
/// its argument alone.
#[verifier::external_body]
pub(crate) fn lowercase(s: &str) -> (r: String)
    ensures
        r@ == lower_of(s@),
{
    s.to_lowercase()
}

} // verus!
