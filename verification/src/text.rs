//! Character-level string operations with exact specifications.
//!
//! The control logic compares ALSA control names, matches user input without
//! regard to ASCII case and renders numbers into messages.  These helpers give
//! each of those operations a specification over `Seq<char>`.

use vstd::prelude::*;
use vstd::string::*;

verus! {

/// The ASCII lower-case form of one character; every other character is kept.
pub open spec fn lower_char(c: char) -> char {
    if 'A' <= c && c <= 'Z' {
        ((c as u32) + 32) as char
    } else {
        c
    }
}

/// The ASCII lower-case form of a whole character sequence.
pub open spec fn lower_seq(s: Seq<char>) -> Seq<char> {
    Seq::new(s.len(), |i: int| lower_char(s[i]))
}

/// Equality that ignores ASCII case, as `str::eq_ignore_ascii_case` defines it.
pub open spec fn eq_ignore_case(a: Seq<char>, b: Seq<char>) -> bool {
    lower_seq(a) == lower_seq(b)
}

/// `prefix` is a prefix of `s`.
pub open spec fn has_prefix(s: Seq<char>, prefix: Seq<char>) -> bool {
    prefix.len() <= s.len() && s.subrange(0, prefix.len() as int) == prefix
}

/// `suffix` is a suffix of `s`.
pub open spec fn has_suffix(s: Seq<char>, suffix: Seq<char>) -> bool {
    suffix.len() <= s.len() && s.subrange(s.len() - suffix.len(), s.len() as int) == suffix
}

/// `needle` occurs in `s` starting at position `i`.
pub open spec fn occurs_at(s: Seq<char>, needle: Seq<char>, i: int) -> bool {
    0 <= i && i + needle.len() <= s.len() && s.subrange(i, i + needle.len()) == needle
}

/// `needle` occurs somewhere in `s`.
pub open spec fn has_infix(s: Seq<char>, needle: Seq<char>) -> bool {
    exists|i: int| occurs_at(s, needle, i)
}

/// A found position lies inside the searched text.
pub proof fn lemma_find_from_bounds(s: Seq<char>, needle: Seq<char>, i: int)
    ensures
        match find_from(s, needle, i) {
            Some(j) => i <= j && 0 <= j && j + needle.len() <= s.len() && occurs_at(s, needle, j),
            None => true,
        },
    decreases s.len() + 1 - i,
{
    if !(i < 0 || i + needle.len() > s.len()) && !occurs_at(s, needle, i) {
        lemma_find_from_bounds(s, needle, i + 1);
    }
}

/// The decimal digit character for `d < 10`.
pub open spec fn digit_char(d: nat) -> char {
    if d == 0 {
        '0'
    } else if d == 1 {
        '1'
    } else if d == 2 {
        '2'
    } else if d == 3 {
        '3'
    } else if d == 4 {
        '4'
    } else if d == 5 {
        '5'
    } else if d == 6 {
        '6'
    } else if d == 7 {
        '7'
    } else if d == 8 {
        '8'
    } else {
        '9'
    }
}

/// The value of a decimal digit character, if it is one.
pub open spec fn digit_value(c: char) -> Option<nat> {
    if c == '0' {
        Some(0)
    } else if c == '1' {
        Some(1)
    } else if c == '2' {
        Some(2)
    } else if c == '3' {
        Some(3)
    } else if c == '4' {
        Some(4)
    } else if c == '5' {
        Some(5)
    } else if c == '6' {
        Some(6)
    } else if c == '7' {
        Some(7)
    } else if c == '8' {
        Some(8)
    } else if c == '9' {
        Some(9)
    } else {
        None
    }
}

/// The shortest decimal rendering of a natural number, as `Display` prints it.
pub open spec fn decimal(n: nat) -> Seq<char>
    decreases n,
{
    if n < 10 {
        seq![digit_char(n)]
    } else {
        decimal(n / 10).push(digit_char(n % 10))
    }
}

/// The decimal rendering of an integer, with a leading `-` when negative.
pub open spec fn signed_decimal(v: int) -> Seq<char> {
    if v < 0 {
        seq!['-'] + decimal((-v) as nat)
    } else {
        decimal(v as nat)
    }
}

/// All characters of `s` are decimal digits.
pub open spec fn all_digits(s: Seq<char>) -> bool {
    forall|i: int| 0 <= i < s.len() ==> (#[trigger] digit_value(s[i])) is Some
}

/// The number a sequence of decimal digits denotes (leading zeros allowed).
pub open spec fn digits_value(s: Seq<char>) -> nat
    decreases s.len(),
{
    if s.len() == 0 {
        0
    } else {
        digits_value(s.drop_last()) * 10 + match digit_value(s.last()) {
            Some(d) => d,
            None => 0,
        }
    }
}

/// What Rust's `str::parse` gives for an unsigned integer type whose largest
/// value is `max`: an optional leading `+`, then at least one decimal digit,
/// with leading zeros allowed and no other character.
pub open spec fn parse_unsigned(s: Seq<char>, max: nat) -> Option<nat> {
    let digits = if s.len() > 0 && s[0] == '+' {
        s.drop_first()
    } else {
        s
    };
    if s.len() == 0 || digits.len() == 0 || !all_digits(digits) || digits_value(digits) > max {
        None
    } else {
        Some(digits_value(digits))
    }
}

/// The first position at or after `i` where `needle` occurs in `s`.
pub open spec fn find_from(s: Seq<char>, needle: Seq<char>, i: int) -> Option<int>
    decreases s.len() + 1 - i,
{
    if i < 0 || i + needle.len() > s.len() {
        None
    } else if occurs_at(s, needle, i) {
        Some(i)
    } else {
        find_from(s, needle, i + 1)
    }
}

/// The lower-case hexadecimal digit character for `d < 16`.
pub open spec fn hex_char(d: nat) -> char {
    if d < 10 {
        digit_char(d)
    } else if d == 10 {
        'a'
    } else if d == 11 {
        'b'
    } else if d == 12 {
        'c'
    } else if d == 13 {
        'd'
    } else if d == 14 {
        'e'
    } else {
        'f'
    }
}

/// A 16-bit value as exactly four lower-case hexadecimal digits (`{:04x}`).
pub open spec fn hex4(v: u16) -> Seq<char> {
    seq![
        hex_char(((v as nat) / 4096) % 16),
        hex_char(((v as nat) / 256) % 16),
        hex_char(((v as nat) / 16) % 16),
        hex_char((v as nat) % 16),
    ]
}

/// Appends one character to a string.
#[verifier::external_body]
pub(crate) fn push_char(s: &mut String, c: char)
    ensures
        final(s)@ == old(s)@.push(c),
{
    s.push(c);
}

/// A new string holding the characters of `s`.
pub fn owned(s: &str) -> (r: String)
    ensures
        r@ == s@,
{
    s.to_owned()
}

/// Appends `other` to `s`.
pub fn push_str(s: &mut String, other: &str)
    ensures
        final(s)@ == old(s)@ + other@,
{
    s.append(other);
}

/// Character-wise equality of two strings.
pub fn str_eq(a: &str, b: &str) -> (r: bool)
    ensures
        r == (a@ == b@),
{
    let n = a.unicode_len();
    if n != b.unicode_len() {
        return false;
    }
    let mut i: usize = 0;
    while i < n
        invariant
            n == a@.len(),
            n == b@.len(),
            i <= n,
            forall|j: int| 0 <= j < i ==> a@[j] == b@[j],
        decreases n - i,
    {
        if a.get_char(i) != b.get_char(i) {
            return false;
        }
        i += 1;
    }
    assert(a@ =~= b@);
    true
}

/// The ASCII lower-case form of one character.
pub fn to_lower_char(c: char) -> (r: char)
    ensures
        r == lower_char(c),
{
    let code = c as u32;
    if 65 <= code && code <= 90 {
        let lowered = (code + 32) as u8;
        lowered as char
    } else {
        c
    }
}

/// Equality of two strings ignoring ASCII case (`str::eq_ignore_ascii_case`).
pub fn eq_ignore_ascii_case(a: &str, b: &str) -> (r: bool)
    ensures
        r == eq_ignore_case(a@, b@),
{
    let n = a.unicode_len();
    if n != b.unicode_len() {
        assert(lower_seq(a@).len() != lower_seq(b@).len());
        return false;
    }
    let mut i: usize = 0;
    while i < n
        invariant
            n == a@.len(),
            n == b@.len(),
            i <= n,
            forall|j: int| 0 <= j < i ==> lower_char(a@[j]) == lower_char(b@[j]),
        decreases n - i,
    {
        if to_lower_char(a.get_char(i)) != to_lower_char(b.get_char(i)) {
            assert(lower_seq(a@)[i as int] != lower_seq(b@)[i as int]);
            return false;
        }
        i += 1;
    }
    assert(lower_seq(a@) =~= lower_seq(b@));
    true
}

/// The ASCII lower-case form of a string (`str::to_ascii_lowercase`).
pub fn to_ascii_lowercase(s: &str) -> (r: String)
    ensures
        r@ == lower_seq(s@),
{
    let n = s.unicode_len();
    let mut out = String::new();
    let mut i: usize = 0;
    while i < n
        invariant
            n == s@.len(),
            i <= n,
            out@ == lower_seq(s@.subrange(0, i as int)),
        decreases n - i,
    {
        let c = to_lower_char(s.get_char(i));
        push_char(&mut out, c);
        i += 1;
        assert(lower_seq(s@.subrange(0, i as int)) =~= lower_seq(s@.subrange(0, i - 1)).push(
            lower_char(s@[i - 1]),
        ));
    }
    assert(s@.subrange(0, n as int) =~= s@);
    out
}

/// `s` starts with `prefix`.
pub fn starts_with(s: &str, prefix: &str) -> (r: bool)
    ensures
        r == has_prefix(s@, prefix@),
{
    let n = s.unicode_len();
    let m = prefix.unicode_len();
    if m > n {
        return false;
    }
    let mut i: usize = 0;
    while i < m
        invariant
            n == s@.len(),
            m == prefix@.len(),
            m <= n,
            i <= m,
            forall|j: int| 0 <= j < i ==> s@[j] == prefix@[j],
        decreases m - i,
    {
        if s.get_char(i) != prefix.get_char(i) {
            assert(s@.subrange(0, m as int)[i as int] != prefix@[i as int]);
            return false;
        }
        i += 1;
    }
    assert(s@.subrange(0, m as int) =~= prefix@);
    true
}

/// `needle` occurs in `s` at character position `at`.
fn matches_at(s: &str, needle: &str, at: usize) -> (r: bool)
    requires
        at + needle@.len() <= s@.len(),
    ensures
        r == occurs_at(s@, needle@, at as int),
{
    let _n = s.unicode_len();
    let m = needle.unicode_len();
    let mut i: usize = 0;
    while i < m
        invariant
            m == needle@.len(),
            at + m <= s@.len(),
            s@.len() == _n,
            i <= m,
            forall|j: int| 0 <= j < i ==> s@[at + j] == needle@[j],
        decreases m - i,
    {
        if s.get_char(at + i) != needle.get_char(i) {
            assert(s@.subrange(at as int, at + m)[i as int] != needle@[i as int]);
            return false;
        }
        i += 1;
    }
    assert(s@.subrange(at as int, at + m) =~= needle@);
    true
}

/// `s` ends with `suffix`.
pub fn ends_with(s: &str, suffix: &str) -> (r: bool)
    ensures
        r == has_suffix(s@, suffix@),
{
    let n = s.unicode_len();
    let m = suffix.unicode_len();
    if m > n {
        return false;
    }
    matches_at(s, suffix, n - m)
}

/// `needle` occurs somewhere in `s` (`str::contains`).
pub fn contains(s: &str, needle: &str) -> (r: bool)
    ensures
        r == has_infix(s@, needle@),
{
    let n = s.unicode_len();
    let m = needle.unicode_len();
    if m > n {
        assert forall|i: int| !occurs_at(s@, needle@, i) by {}
        return false;
    }
    let last = n - m;
    let mut at: usize = 0;
    loop
        invariant
            n == s@.len(),
            m == needle@.len(),
            m <= n,
            last == n - m,
            at <= last,
            forall|i: int| 0 <= i < at ==> !occurs_at(s@, needle@, i),
        ensures
            forall|i: int| 0 <= i <= last ==> !occurs_at(s@, needle@, i),
        decreases last - at,
    {
        if matches_at(s, needle, at) {
            return true;
        }
        if at == last {
            break;
        }
        at += 1;
    }
    assert forall|i: int| !occurs_at(s@, needle@, i) by {
        if 0 <= i && i + m <= n {
            assert(i <= last);
        }
    }
    false
}

/// The value of an ASCII decimal digit character.
fn digit_of(c: char) -> (r: Option<u64>)
    ensures
        match digit_value(c) {
            Some(d) => r == Some(d as u64),
            None => r is None,
        },
{
    if c == '0' {
        Some(0)
    } else if c == '1' {
        Some(1)
    } else if c == '2' {
        Some(2)
    } else if c == '3' {
        Some(3)
    } else if c == '4' {
        Some(4)
    } else if c == '5' {
        Some(5)
    } else if c == '6' {
        Some(6)
    } else if c == '7' {
        Some(7)
    } else if c == '8' {
        Some(8)
    } else if c == '9' {
        Some(9)
    } else {
        None
    }
}

/// Parses `s` as an unsigned integer no larger than `max`, as `str::parse`
/// does for an unsigned type with that maximum.
pub fn parse_unsigned_text(s: &str, max: u64) -> (r: Option<u64>)
    requires
        max < u64::MAX,
    ensures
        match parse_unsigned(s@, max as nat) {
            Some(v) => r == Some(v as u64),
            None => r is None,
        },
{
    let n = s.unicode_len();
    if n == 0 {
        return None;
    }
    let start: usize = if s.get_char(0) == '+' {
        1
    } else {
        0
    };
    let ghost digits = if s@.len() > 0 && s@[0] == '+' {
        s@.drop_first()
    } else {
        s@
    };
    assert(digits =~= s@.subrange(start as int, n as int));
    if start == n {
        return None;
    }
    let cap = max + 1;
    let mut acc: u64 = 0;
    let mut i: usize = start;
    while i < n
        invariant
            n == s@.len(),
            start <= i <= n,
            cap == max + 1,
            cap <= u64::MAX,
            digits == s@.subrange(start as int, n as int),
            digits == (if s@.len() > 0 && s@[0] == '+' {
                s@.drop_first()
            } else {
                s@
            }),
            digits.len() > 0,
            all_digits(s@.subrange(start as int, i as int)),
            acc as nat == if digits_value(s@.subrange(start as int, i as int)) < cap as nat {
                digits_value(s@.subrange(start as int, i as int))
            } else {
                cap as nat
            },
        decreases n - i,
    {
        let c = s.get_char(i);
        let d = match digit_of(c) {
            Some(d) => d,
            None => {
                assert(!all_digits(digits)) by {
                    assert(digits[i - start] == c);
                    assert(digit_value(digits[i - start]) is None);
                }
                assert(parse_unsigned(s@, max as nat) is None);
                return None;
            },
        };
        let ghost prev = s@.subrange(start as int, i as int);
        let ghost next = s@.subrange(start as int, i + 1);
        assert(next.drop_last() =~= prev);
        assert(next.last() == c);
        assert(all_digits(next)) by {
            assert forall|j: int| 0 <= j < next.len() implies (#[trigger] digit_value(next[j])) is Some by {
                if j < prev.len() {
                    assert(next[j] == prev[j]);
                }
            }
        }
        if acc >= cap {
            acc = cap;
        } else {
            let grown: u128 = acc as u128 * 10 + d as u128;
            acc = if grown >= cap as u128 {
                cap
            } else {
                grown as u64
            };
        }
        i += 1;
    }
    assert(s@.subrange(start as int, n as int) =~= digits);
    if acc > max {
        None
    } else {
        Some(acc)
    }
}

/// The first character position of `needle` in `s` (`str::find`).
pub fn find(s: &str, needle: &str) -> (r: Option<usize>)
    ensures
        match r {
            Some(i) => find_from(s@, needle@, 0) == Some(i as int),
            None => find_from(s@, needle@, 0) is None,
        },
{
    let n = s.unicode_len();
    let m = needle.unicode_len();
    if m > n {
        return None;
    }
    let last = n - m;
    let mut at: usize = 0;
    loop
        invariant
            n == s@.len(),
            m == needle@.len(),
            m <= n,
            last == n - m,
            at <= last,
            find_from(s@, needle@, 0) == find_from(s@, needle@, at as int),
        decreases last - at,
    {
        if matches_at(s, needle, at) {
            return Some(at);
        }
        if at == last {
            assert(find_from(s@, needle@, at + 1) is None);
            return None;
        }
        at += 1;
    }
}

/// Appends the decimal rendering of `n` to `s`.
pub fn push_decimal(s: &mut String, n: u64)
    ensures
        final(s)@ == old(s)@ + decimal(n as nat),
    decreases n,
{
    if n >= 10 {
        push_decimal(s, n / 10);
    }
    let d = n % 10;
    let c = if d == 0 {
        '0'
    } else if d == 1 {
        '1'
    } else if d == 2 {
        '2'
    } else if d == 3 {
        '3'
    } else if d == 4 {
        '4'
    } else if d == 5 {
        '5'
    } else if d == 6 {
        '6'
    } else if d == 7 {
        '7'
    } else if d == 8 {
        '8'
    } else {
        '9'
    };
    push_char(s, c);
    if n >= 10 {
        assert(decimal(n as nat) == decimal((n / 10) as nat).push(digit_char((n % 10) as nat)));
    }
}

/// Appends the decimal rendering of a signed value to `s`.
pub fn push_signed(s: &mut String, v: i64)
    ensures
        final(s)@ == old(s)@ + signed_decimal(v as int),
{
    if v < 0 {
        push_char(s, '-');
        let magnitude: u64 = if v == i64::MIN {
            9223372036854775808u64
        } else {
            (-v) as u64
        };
        push_decimal(s, magnitude);
    } else {
        push_decimal(s, v as u64);
    }
}

/// The decimal rendering of `n` as a new string.
pub fn decimal_string(n: u64) -> (r: String)
    ensures
        r@ == decimal(n as nat),
{
    let mut s = String::new();
    push_decimal(&mut s, n);
    s
}

/// The lower-case hexadecimal digit for a value below 16.
fn hex_digit(d: u16) -> (c: char)
    requires
        d < 16,
    ensures
        c == hex_char(d as nat),
{
    if d < 10 {
        if d == 0 {
            '0'
        } else if d == 1 {
            '1'
        } else if d == 2 {
            '2'
        } else if d == 3 {
            '3'
        } else if d == 4 {
            '4'
        } else if d == 5 {
            '5'
        } else if d == 6 {
            '6'
        } else if d == 7 {
            '7'
        } else if d == 8 {
            '8'
        } else {
            '9'
        }
    } else if d == 10 {
        'a'
    } else if d == 11 {
        'b'
    } else if d == 12 {
        'c'
    } else if d == 13 {
        'd'
    } else if d == 14 {
        'e'
    } else {
        'f'
    }
}

/// Appends `v` as four lower-case hexadecimal digits.
pub fn push_hex4(s: &mut String, v: u16)
    ensures
        final(s)@ == old(s)@ + hex4(v),
{
    push_char(s, hex_digit((v / 4096) % 16));
    push_char(s, hex_digit((v / 256) % 16));
    push_char(s, hex_digit((v / 16) % 16));
    push_char(s, hex_digit(v % 16));
    assert(old(s)@ + hex4(v) =~= old(s)@.push(hex_char(((v as nat) / 4096) % 16)).push(
        hex_char(((v as nat) / 256) % 16),
    ).push(hex_char(((v as nat) / 16) % 16)).push(hex_char((v as nat) % 16)));
}

/// Parts joined by `sep`, as `[T]::join` joins them.
pub open spec fn join_with(parts: Seq<Seq<char>>, sep: Seq<char>) -> Seq<char>
    decreases parts.len(),
{
    if parts.len() == 0 {
        Seq::empty()
    } else if parts.len() == 1 {
        parts[0]
    } else {
        join_with(parts.drop_last(), sep) + sep + parts.last()
    }
}

/// The characters of each string.
pub open spec fn strings_view(v: Seq<String>) -> Seq<Seq<char>> {
    v.map_values(|s: String| s@)
}

/// Strings joined by `sep`.
pub fn join_strings(parts: &Vec<String>, sep: &str) -> (r: String)
    ensures
        r@ == join_with(strings_view(parts@), sep@),
{
    let ghost all = strings_view(parts@);
    let mut s = String::new();
    let mut i: usize = 0;
    while i < parts.len()
        invariant
            i <= parts@.len(),
            all == strings_view(parts@),
            s@ == join_with(all.subrange(0, i as int), sep@),
        decreases parts.len() - i,
    {
        if i > 0 {
            push_str(&mut s, sep);
        }
        push_str(&mut s, parts[i].as_str());
        i += 1;
        assert(all.subrange(0, i as int).drop_last() =~= all.subrange(0, i - 1));
    }
    assert(all.subrange(0, parts@.len() as int) =~= all);
    s
}

/// An optional string as optional characters.
pub open spec fn opt_string_view(o: Option<String>) -> Option<Seq<char>> {
    match o {
        Some(s) => Some(s@),
        None => None,
    }
}

/// Equality of two optional strings by their characters.
pub fn opt_string_eq(a: &Option<String>, b: &Option<String>) -> (r: bool)
    ensures
        r == (opt_string_view(*a) == opt_string_view(*b)),
{
    match (a, b) {
        (Some(x), Some(y)) => str_eq(x.as_str(), y.as_str()),
        (None, None) => true,
        _ => false,
    }
}

/// `char::is_whitespace`: the characters with the Unicode `White_Space` property.
pub open spec fn is_white(c: char) -> bool {
    let u = c as u32;
    (0x9 <= u && u <= 0xD) || u == 0x20 || u == 0x85 || u == 0xA0 || u == 0x1680 || (0x2000 <= u
        && u <= 0x200A) || u == 0x2028 || u == 0x2029 || u == 0x202F || u == 0x205F || u == 0x3000
}

/// Whether `c` is white space (`char::is_whitespace`).
pub fn is_white_char(c: char) -> (r: bool)
    ensures
        r == is_white(c),
{
    let u = c as u32;
    (0x9 <= u && u <= 0xD) || u == 0x20 || u == 0x85 || u == 0xA0 || u == 0x1680 || (0x2000 <= u
        && u <= 0x200A) || u == 0x2028 || u == 0x2029 || u == 0x202F || u == 0x205F || u == 0x3000
}

/// The end of the run of non-white characters that starts at `i`.
pub open spec fn word_end(s: Seq<char>, i: int) -> int
    decreases s.len() - i,
{
    if 0 <= i < s.len() && !is_white(s[i]) {
        word_end(s, i + 1)
    } else {
        i
    }
}

/// A run of non-white characters ends after it starts and within the text.
pub proof fn lemma_word_end(s: Seq<char>, i: int)
    requires
        0 <= i <= s.len(),
    ensures
        i <= word_end(s, i) <= s.len(),
        i < s.len() && !is_white(s[i]) ==> i < word_end(s, i),
        forall|j: int| i <= j < word_end(s, i) ==> !is_white(#[trigger] s[j]),
        word_end(s, i) < s.len() ==> is_white(s[word_end(s, i)]),
    decreases s.len() - i,
{
    if i < s.len() && !is_white(s[i]) {
        lemma_word_end(s, i + 1);
    }
}

/// The white-space separated words of `s` from position `i` on, as
/// `str::split_whitespace` yields them.
pub open spec fn words_from(s: Seq<char>, i: int) -> Seq<Seq<char>>
    decreases s.len() - i,
{
    if i < 0 || i >= s.len() {
        Seq::empty()
    } else if is_white(s[i]) {
        words_from(s, i + 1)
    } else {
        proof {
            lemma_word_end(s, i);
        }
        seq![s.subrange(i, word_end(s, i))] + words_from(s, word_end(s, i))
    }
}

/// The white-space separated words of `s`.
pub fn split_whitespace(s: &str) -> (r: Vec<String>)
    ensures
        strings_view(r@) == words_from(s@, 0),
{
    let n = s.unicode_len();
    let mut out: Vec<String> = Vec::new();
    let mut i: usize = 0;
    while i < n
        invariant
            n == s@.len(),
            i <= n,
            strings_view(out@) + words_from(s@, i as int) == words_from(s@, 0),
        decreases n - i,
    {
        if is_white_char(s.get_char(i)) {
            i += 1;
        } else {
            proof {
                lemma_word_end(s@, i as int);
            }
            let mut e: usize = i + 1;
            while e < n && !is_white_char(s.get_char(e))
                invariant
                    n == s@.len(),
                    i < e <= n,
                    word_end(s@, i as int) == word_end(s@, e as int),
                decreases n - e,
            {
                e += 1;
            }
            let ghost before = strings_view(out@);
            out.push(owned(s.substring_char(i, e)));
            assert(strings_view(out@) =~= before.push(s@.subrange(i as int, e as int)));
            assert(words_from(s@, i as int) == seq![s@.subrange(i as int, e as int)] + words_from(s@, e as int));
            assert(before + words_from(s@, i as int) =~= strings_view(out@) + words_from(s@, e as int));
            i = e;
        }
    }
    assert(strings_view(out@) + words_from(s@, n as int) =~= strings_view(out@));
    out
}

/// `s` without its leading white space.
pub open spec fn trim_start(s: Seq<char>) -> Seq<char>
    decreases s.len(),
{
    if s.len() > 0 && is_white(s[0]) {
        trim_start(s.drop_first())
    } else {
        s
    }
}

/// `s` without its trailing white space.
pub open spec fn trim_end(s: Seq<char>) -> Seq<char>
    decreases s.len(),
{
    if s.len() > 0 && is_white(s.last()) {
        trim_end(s.drop_last())
    } else {
        s
    }
}

/// `s` without leading and trailing white space (`str::trim`).
pub open spec fn trimmed(s: Seq<char>) -> Seq<char> {
    trim_end(trim_start(s))
}

/// `s` without leading and trailing white space.
pub fn trim(s: &str) -> (r: String)
    ensures
        r@ == trimmed(s@),
{
    let n = s.unicode_len();
    let mut start: usize = 0;
    assert(s@.subrange(0, n as int) =~= s@);
    while start < n && is_white_char(s.get_char(start))
        invariant
            n == s@.len(),
            start <= n,
            trim_start(s@) == trim_start(s@.subrange(start as int, n as int)),
        decreases n - start,
    {
        assert(s@.subrange(start as int, n as int).drop_first() =~= s@.subrange(start + 1, n as int));
        start += 1;
    }
    assert(trim_start(s@) == s@.subrange(start as int, n as int));
    let mut end: usize = n;
    while end > start && is_white_char(s.get_char(end - 1))
        invariant
            n == s@.len(),
            start <= end <= n,
            trim_start(s@) == s@.subrange(start as int, n as int),
            trimmed(s@) == trim_end(s@.subrange(start as int, end as int)),
        decreases end - start,
    {
        assert(s@.subrange(start as int, end as int).drop_last() =~= s@.subrange(start as int, end - 1));
        end -= 1;
    }
    owned(s.substring_char(start, end))
}

/// The message `str::parse::<u16>` gives for text that is not a `u16`.
pub uninterp spec fn u16_parse_error_text(s: Seq<char>) -> Seq<char>;

/// The message of the error `str::parse::<u16>` returns for `s`.
///
/// Calls `str::parse::<u16>` and renders its `ParseIntError` with
/// `to_string`; the message is named rather than spelled out, since which
/// of the error kinds a text falls under is core's to define.
#[verifier::external_body]
pub(crate) fn u16_parse_error(s: &str) -> (r: String)
    requires
        parse_unsigned(s@, 65535) is None,
    ensures
        r@ == u16_parse_error_text(s@),
{
    match s.parse::<u16>() {
        Err(e) => e.to_string(),
        Ok(_) => String::new(),
    }
}

/// The upper-case hexadecimal digit character for `d < 16`.
pub open spec fn upper_hex_char(d: nat) -> char {
    if d < 10 {
        digit_char(d)
    } else if d == 10 {
        'A'
    } else if d == 11 {
        'B'
    } else if d == 12 {
        'C'
    } else if d == 13 {
        'D'
    } else if d == 14 {
        'E'
    } else {
        'F'
    }
}

/// A byte as exactly two upper-case hexadecimal digits (`{:02X}`).
pub open spec fn upper_hex2(v: u8) -> Seq<char> {
    seq![upper_hex_char((v as nat) / 16), upper_hex_char((v as nat) % 16)]
}

/// The upper-case hexadecimal digit for a value below 16.
fn upper_hex_digit(d: u8) -> (c: char)
    requires
        d < 16,
    ensures
        c == upper_hex_char(d as nat),
{
    if d < 10 {
        if d == 0 {
            '0'
        } else if d == 1 {
            '1'
        } else if d == 2 {
            '2'
        } else if d == 3 {
            '3'
        } else if d == 4 {
            '4'
        } else if d == 5 {
            '5'
        } else if d == 6 {
            '6'
        } else if d == 7 {
            '7'
        } else if d == 8 {
            '8'
        } else {
            '9'
        }
    } else if d == 10 {
        'A'
    } else if d == 11 {
        'B'
    } else if d == 12 {
        'C'
    } else if d == 13 {
        'D'
    } else if d == 14 {
        'E'
    } else {
        'F'
    }
}

/// Appends a byte as two upper-case hexadecimal digits.
pub fn push_upper_hex2(s: &mut String, v: u8)
    ensures
        final(s)@ == old(s)@ + upper_hex2(v),
{
    push_char(s, upper_hex_digit(v / 16));
    push_char(s, upper_hex_digit(v % 16));
    assert(old(s)@ + upper_hex2(v) =~= old(s)@.push(upper_hex_char((v as nat) / 16)).push(
        upper_hex_char((v as nat) % 16),
    ));
}

/// The last position at or before `i` where `needle` occurs in `s`.
pub open spec fn rfind_from(s: Seq<char>, needle: Seq<char>, i: int) -> Option<int>
    decreases i + 1,
{
    if i < 0 {
        None
    } else if occurs_at(s, needle, i) {
        Some(i)
    } else {
        rfind_from(s, needle, i - 1)
    }
}

/// A position found from the end lies inside the text and holds `needle`.
pub proof fn lemma_rfind_from_bounds(s: Seq<char>, needle: Seq<char>, i: int)
    ensures
        match rfind_from(s, needle, i) {
            Some(j) => 0 <= j <= i && j + needle.len() <= s.len() && occurs_at(s, needle, j),
            None => true,
        },
    decreases i + 1,
{
    if i >= 0 && !occurs_at(s, needle, i) {
        lemma_rfind_from_bounds(s, needle, i - 1);
    }
}

/// The last character position of `needle` in `s` (`str::rfind`).
pub fn rfind(s: &str, needle: &str) -> (r: Option<usize>)
    ensures
        match r {
            Some(i) => rfind_from(s@, needle@, s@.len() - needle@.len()) == Some(i as int),
            None => rfind_from(s@, needle@, s@.len() - needle@.len()) is None,
        },
{
    let n = s.unicode_len();
    let m = needle.unicode_len();
    if m > n {
        assert(rfind_from(s@, needle@, s@.len() - needle@.len()) is None);
        return None;
    }
    let mut at: usize = n - m;
    loop
        invariant
            n == s@.len(),
            m == needle@.len(),
            m <= n,
            at <= n - m,
            rfind_from(s@, needle@, n - m) == rfind_from(s@, needle@, at as int),
        decreases at,
    {
        if matches_at(s, needle, at) {
            return Some(at);
        }
        if at == 0 {
            assert(rfind_from(s@, needle@, -1) is None);
            return None;
        }
        at -= 1;
    }
}

} // verus!
