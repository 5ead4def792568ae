//! Character-level helpers on strings, stated over `Seq<char>`.
use vstd::prelude::*;
use vstd::string::*;

verus! {

/// Appends one character to a string (`String::push`).
#[verifier::external_body]
pub fn push_char(s: &mut String, c: char)
    ensures
        final(s)@ == old(s)@.push(c),
{
    s.push(c);
}

/// The lowercase form of `s`, by the Unicode rules of `str::to_lowercase`.
pub uninterp spec fn lowercased(s: Seq<char>) -> Seq<char>;

/// `str::to_lowercase`: the text is named by [`lowercased`].
#[verifier::external_body]
pub fn to_lowercase(s: &str) -> (r: String)
    ensures
        r@ == lowercased(s@),
{
    s.to_lowercase()
}

/// The uppercase form of `s`, by the Unicode rules of `str::to_uppercase`.
pub uninterp spec fn uppercased(s: Seq<char>) -> Seq<char>;

/// `str::to_uppercase`: the text is named by [`uppercased`].
#[verifier::external_body]
pub fn to_uppercase(s: &str) -> (r: String)
    ensures
        r@ == uppercased(s@),
{
    s.to_uppercase()
}

/// Copies a string slice into an owned `String`.
pub fn to_owned_string(s: &str) -> (r: String)
    ensures
        r@ == s@,
{
    s.to_owned()
}

/// The characters of `s`, in order.
pub fn chars_of(s: &str) -> (r: Vec<char>)
    ensures
        r@ == s@,
{
    let n = s.unicode_len();
    let mut out: Vec<char> = Vec::new();
    let mut i: usize = 0;
    while i < n
        invariant
            n == s@.len(),
            i <= n,
            out@ == s@.subrange(0, i as int),
        decreases n - i,
    {
        let c = s.get_char(i);
        out.push(c);
        i = i + 1;
    }
    out
}

/// A `String` holding exactly the characters of `v`.
pub fn string_from_chars(v: &[char]) -> (r: String)
    ensures
        r@ == v@,
{
    let mut out = String::new();
    let mut i: usize = 0;
    while i < v.len()
        invariant
            i <= v@.len(),
            out@ == v@.subrange(0, i as int),
        decreases v@.len() - i,
    {
        push_char(&mut out, v[i]);
        i = i + 1;
    }
    out
}

/// Whether two strings hold the same characters.
pub fn str_eq(a: &str, b: &str) -> (r: bool)
    ensures
        r == (a@ == b@),
{
    let n = a.unicode_len();
    let m = b.unicode_len();
    if n != m {
        return false;
    }
    let mut i: usize = 0;
    while i < n
        invariant
            n == a@.len(),
            m == b@.len(),
            n == m,
            i <= n,
            a@.subrange(0, i as int) == b@.subrange(0, i as int),
        decreases n - i,
    {
        if a.get_char(i) != b.get_char(i) {
            assert(a@[i as int] != b@[i as int]);
            return false;
        }
        assert(a@.subrange(0, i + 1) == a@.subrange(0, i as int).push(a@[i as int]));
        assert(b@.subrange(0, i + 1) == b@.subrange(0, i as int).push(b@[i as int]));
        i = i + 1;
    }
    assert(a@ == a@.subrange(0, n as int));
    assert(b@ == b@.subrange(0, n as int));
    true
}

} // verus!

verus! {

/// An ASCII decimal digit.
pub open spec fn is_digit(c: char) -> bool {
    '0' <= c && c <= '9'
}

pub open spec fn digit_value(c: char) -> int {
    (c as int) - ('0' as int)
}

pub open spec fn all_digits(s: Seq<char>) -> bool {
    forall|i: int| 0 <= i < s.len() ==> is_digit(#[trigger] s[i])
}

/// The number that a string of decimal digits denotes.
pub open spec fn decimal_value(s: Seq<char>) -> int
    decreases s.len(),
{
    if s.len() == 0 {
        0
    } else {
        decimal_value(s.drop_last()) * 10 + digit_value(s.last())
    }
}

/// What `str::parse` reads the digits of an unsigned number from: one leading
/// `+` is skipped.
pub open spec fn unsigned_digits(s: Seq<char>) -> Seq<char> {
    if s.len() > 0 && s[0] == '+' {
        s.drop_first()
    } else {
        s
    }
}

/// The result of parsing `s` as an unsigned decimal integer whose type holds
/// values up to `max`, as `str::parse` does it: an optional `+`, then at least
/// one digit and nothing else, and a value that fits.
pub open spec fn parse_unsigned(s: Seq<char>, max: int) -> Option<int> {
    let d = unsigned_digits(s);
    if d.len() == 0 || !all_digits(d) || decimal_value(d) > max {
        None
    } else {
        Some(decimal_value(d))
    }
}

pub proof fn lemma_decimal_value_nonneg(s: Seq<char>)
    requires
        all_digits(s),
    ensures
        decimal_value(s) >= 0,
    decreases s.len(),
{
    if s.len() > 0 {
        assert(all_digits(s.drop_last())) by {
            assert forall|i: int| 0 <= i < s.drop_last().len() implies is_digit(
                #[trigger] s.drop_last()[i],
            ) by {
                assert(s.drop_last()[i] == s[i]);
            }
        }
        lemma_decimal_value_nonneg(s.drop_last());
        assert(is_digit(s[s.len() - 1]));
    }
}

/// Appending digits never makes the value smaller.
pub proof fn lemma_decimal_value_prefix(s: Seq<char>, k: int)
    requires
        all_digits(s),
        0 <= k <= s.len(),
    ensures
        decimal_value(s.subrange(0, k)) <= decimal_value(s),
    decreases s.len() - k,
{
    if k < s.len() {
        let t = s.subrange(0, k + 1);
        assert(all_digits(t)) by {
            assert forall|i: int| 0 <= i < t.len() implies is_digit(#[trigger] t[i]) by {
                assert(t[i] == s[i]);
            }
        }
        assert(t.drop_last() == s.subrange(0, k));
        assert(is_digit(t.last())) by {
            assert(t.last() == s[k]);
        }
        assert(all_digits(t.drop_last())) by {
            assert forall|i: int| 0 <= i < t.drop_last().len() implies is_digit(
                #[trigger] t.drop_last()[i],
            ) by {
                assert(t.drop_last()[i] == s[i]);
            }
        }
        lemma_decimal_value_nonneg(t.drop_last());
        lemma_decimal_value_prefix(s, k + 1);
    } else {
        assert(s.subrange(0, k) == s);
    }
}

/// Parses `s` as `str::parse` parses an unsigned integer type whose largest
/// value is `max`.
pub fn parse_decimal(s: &str, max: u64) -> (r: Option<u64>)
    ensures
        match parse_unsigned(s@, max as int) {
            Some(v) => r == Some(v as u64),
            None => r is None,
        },
        r matches Some(x) ==> x <= max,
{
    let chars = chars_of(s);
    let n = chars.len();
    let start: usize = if n > 0 && chars[0] == '+' { 1 } else { 0 };
    let ghost d = unsigned_digits(s@);
    assert(d == chars@.subrange(start as int, n as int));
    if start == n {
        return None;
    }
    let mut acc: u64 = 0;
    let mut i: usize = start;
    while i < n
        invariant
            chars@ == s@,
            n == chars@.len(),
            start <= i <= n,
            d == chars@.subrange(start as int, n as int),
            d == unsigned_digits(s@),
            all_digits(chars@.subrange(start as int, i as int)),
            acc as int == decimal_value(chars@.subrange(start as int, i as int)),
            acc <= max,
        decreases n - i,
    {
        let c = chars[i];
        let ghost pre = chars@.subrange(start as int, i as int);
        let ghost next = chars@.subrange(start as int, i + 1);
        assert(next.drop_last() == pre);
        assert(next.last() == c);
        if !('0' <= c && c <= '9') {
            assert(d[i - start] == c);
            assert(!all_digits(d)) by {
                assert(!is_digit(d[i - start]));
            }
            assert(parse_unsigned(s@, max as int) is None);
            return None;
        }
        let dv: u64 = (c as u64) - ('0' as u64);
        assert(dv as int == digit_value(c));
        assert(all_digits(next)) by {
            assert forall|j: int| 0 <= j < next.len() implies is_digit(#[trigger] next[j]) by {
                if j < pre.len() {
                    assert(next[j] == pre[j]);
                }
            }
        }
        if dv > max || acc > (max - dv) / 10 {
            proof {
                assert(decimal_value(next) == acc * 10 + dv);
                if dv <= max {
                    assert(acc * 10 + dv > max) by (nonlinear_arith)
                        requires
                            acc > (max - dv) / 10,
                            dv <= max,
                    ;
                }
                assert(decimal_value(next) > max as int);
                if all_digits(d) {
                    assert(next == d.subrange(0, i + 1 - start));
                    lemma_decimal_value_prefix(d, i + 1 - start);
                }
                assert(parse_unsigned(s@, max as int) is None);
            }
            return None;
        }
        assert(acc * 10 + dv <= max) by (nonlinear_arith)
            requires
                acc <= (max - dv) / 10,
                dv <= max,
        ;
        acc = acc * 10 + dv;
        i = i + 1;
    }
    assert(chars@.subrange(start as int, n as int) == d);
    Some(acc)
}

/// `str::parse::<u16>`.
pub fn parse_u16(s: &str) -> (r: Option<u16>)
    ensures
        match parse_unsigned(s@, u16::MAX as int) {
            Some(v) => 0 <= v <= u16::MAX && r == Some(v as u16),
            None => r is None,
        },
{
    proof {
        let d = unsigned_digits(s@);
        if all_digits(d) {
            lemma_decimal_value_nonneg(d);
        }
    }
    match parse_decimal(s, 0xffff) {
        Some(v) => Some(v as u16),
        None => None,
    }
}

/// `str::parse::<u8>`.
pub fn parse_u8(s: &str) -> (r: Option<u8>)
    ensures
        match parse_unsigned(s@, u8::MAX as int) {
            Some(v) => 0 <= v <= u8::MAX && r == Some(v as u8),
            None => r is None,
        },
{
    proof {
        let d = unsigned_digits(s@);
        if all_digits(d) {
            lemma_decimal_value_nonneg(d);
        }
    }
    match parse_decimal(s, 0xff) {
        Some(v) => Some(v as u8),
        None => None,
    }
}

} // verus!

verus! {

/// `s` with every trailing copy of the non-empty `pat` removed, as
/// `str::trim_end_matches` does it.
pub open spec fn trim_end_seq(s: Seq<char>, pat: Seq<char>) -> Seq<char>
    decreases s.len(),
{
    if pat.len() > 0 && pat.len() <= s.len() && s.subrange(s.len() - pat.len(), s.len() as int)
        == pat {
        trim_end_seq(s.subrange(0, s.len() - pat.len()), pat)
    } else {
        s
    }
}

/// Whether `s` ends with `pat`.
pub fn ends_with_at(s: &Vec<char>, len: usize, pat: &Vec<char>) -> (r: bool)
    requires
        len <= s@.len(),
    ensures
        r == (pat@.len() <= len && s@.subrange(len - pat@.len(), len as int) == pat@),
{
    let m = pat.len();
    if m > len {
        return false;
    }
    let off = len - m;
    let mut i: usize = 0;
    while i < m
        invariant
            m == pat@.len(),
            off + m == len,
            len <= s@.len(),
            i <= m,
            forall|j: int| 0 <= j < i ==> s@[off + j] == pat@[j],
        decreases m - i,
    {
        if s[off + i] != pat[i] {
            assert(s@.subrange(off as int, len as int)[i as int] != pat@[i as int]);
            return false;
        }
        i = i + 1;
    }
    assert(s@.subrange(off as int, len as int) =~= pat@);
    true
}

/// `str::trim_end_matches` with a non-empty string pattern.
pub fn trim_end_matches(s: &str, pat: &str) -> (r: String)
    ensures
        r@ == trim_end_seq(s@, pat@),
{
    let chars = chars_of(s);
    let p = chars_of(pat);
    let mut len: usize = chars.len();
    if p.len() == 0 {
        return to_owned_string(s);
    }
    assert(chars@.subrange(0, len as int) == chars@);
    while ends_with_at(&chars, len, &p)
        invariant
            chars@ == s@,
            p@ == pat@,
            p@.len() > 0,
            len <= chars@.len(),
            trim_end_seq(chars@.subrange(0, len as int), p@) == trim_end_seq(s@, pat@),
        decreases len,
    {
        let ghost cur = chars@.subrange(0, len as int);
        assert(cur.subrange(cur.len() - p@.len(), cur.len() as int) == chars@.subrange(
            len - p@.len(),
            len as int,
        ));
        assert(cur.subrange(0, cur.len() - p@.len()) == chars@.subrange(0, len - p@.len()));
        len = len - p.len();
    }
    let ghost cur = chars@.subrange(0, len as int);
    assert(cur.len() >= p@.len() ==> cur.subrange(cur.len() - p@.len(), cur.len() as int)
        == chars@.subrange(len - p@.len(), len as int));
    let out = string_from_chars(&chars.as_slice()[0..len]);
    out
}

} // verus!

verus! {

/// `s` with every trailing `c` removed.
pub open spec fn trim_end_char_seq(s: Seq<char>, c: char) -> Seq<char>
    decreases s.len(),
{
    if s.len() > 0 && s.last() == c {
        trim_end_char_seq(s.drop_last(), c)
    } else {
        s
    }
}

/// `str::trim_end_matches` with a character pattern.
pub fn trim_end_char(s: &str, c: char) -> (r: String)
    ensures
        r@ == trim_end_char_seq(s@, c),
{
    let chars = chars_of(s);
    let mut len: usize = chars.len();
    assert(chars@.subrange(0, len as int) == chars@);
    while len > 0 && chars[len - 1] == c
        invariant
            chars@ == s@,
            len <= chars@.len(),
            trim_end_char_seq(chars@.subrange(0, len as int), c) == trim_end_char_seq(s@, c),
        decreases len,
    {
        assert(chars@.subrange(0, len as int).drop_last() == chars@.subrange(0, len - 1));
        len = len - 1;
    }
    string_from_chars(&chars.as_slice()[0..len])
}

/// The position of the last `c` in `s`.
pub open spec fn is_last_index_of(s: Seq<char>, c: char, i: int) -> bool {
    &&& 0 <= i < s.len()
    &&& s[i] == c
    &&& forall|j: int| i < j < s.len() ==> s[j] != c
}

/// `str::rfind` with a character pattern, as a position in characters.
pub fn rfind_char(s: &Vec<char>, c: char) -> (r: Option<usize>)
    ensures
        match r {
            Some(i) => is_last_index_of(s@, c, i as int),
            None => forall|j: int| 0 <= j < s@.len() ==> s@[j] != c,
        },
{
    let mut i: usize = s.len();
    while i > 0
        invariant
            i <= s@.len(),
            forall|j: int| i <= j < s@.len() ==> s@[j] != c,
        decreases i,
    {
        if s[i - 1] == c {
            return Some(i - 1);
        }
        i = i - 1;
    }
    None
}

/// The characters of `s` from `from` up to `to`, as a `String`.
pub fn substring(s: &Vec<char>, from: usize, to: usize) -> (r: String)
    requires
        from <= to <= s@.len(),
    ensures
        r@ == s@.subrange(from as int, to as int),
{
    string_from_chars(&s.as_slice()[from..to])
}

/// Whether two dots stand next to each other somewhere in `s`.
pub open spec fn has_dot_dot(s: Seq<char>) -> bool {
    exists|i: int| 0 <= i && i + 1 < s.len() && #[trigger] s[i] == '.' && s[i + 1] == '.'
}

/// `str::contains("..")`.
pub fn contains_dot_dot(s: &str) -> (r: bool)
    ensures
        r == has_dot_dot(s@),
{
    let chars = chars_of(s);
    let n = chars.len();
    let mut i: usize = 0;
    while i < n && i + 1 < n
        invariant
            chars@ == s@,
            n == s@.len(),
            i <= n,
            forall|k: int| 0 <= k < i && k + 1 < n ==> !(#[trigger] chars@[k] == '.' && chars@[k + 1] == '.'),
        decreases n - i,
    {
        if chars[i] == '.' && chars[i + 1] == '.' {
            return true;
        }
        i = i + 1;
    }
    proof {
        if has_dot_dot(s@) {
            let k = choose|k: int| 0 <= k && k + 1 < s@.len() && #[trigger] s@[k] == '.' && s@[k + 1] == '.';
            assert(k < i);
        }
    }
    false
}

} // verus!
