//! Small verified operations on text: comparison, prefixes, finding a pattern,
//! and reading decimal numbers and booleans as configuration values.

use vstd::prelude::*;
use vstd::string::StringExecFns;

verus! {

/// Whether `pat` stands in `s` at position `i`.
pub open spec fn occurs_at(s: Seq<char>, pat: Seq<char>, i: int) -> bool {
    &&& 0 <= i
    &&& i + pat.len() <= s.len()
    &&& s.subrange(i, i + pat.len()) == pat
}

/// Whether `s` begins with `pat`.
pub open spec fn has_prefix(s: Seq<char>, pat: Seq<char>) -> bool {
    occurs_at(s, pat, 0)
}

/// Whether `pat` stands nowhere in `s` at a position below `bound`.
pub open spec fn absent_before(s: Seq<char>, pat: Seq<char>, bound: int) -> bool {
    forall|j: int| 0 <= j < bound ==> !occurs_at(s, pat, j)
}

/// The position of the first occurrence of `pat` in `s` at or after `from`,
/// if there is one.
pub open spec fn first_occurrence(s: Seq<char>, pat: Seq<char>, from: int, at: Option<int>) -> bool {
    match at {
        Some(i) => {
            &&& from <= i
            &&& occurs_at(s, pat, i)
            &&& forall|j: int| from <= j < i ==> !occurs_at(s, pat, j)
        },
        None => forall|j: int| from <= j ==> !occurs_at(s, pat, j),
    }
}

/// Whether two texts hold the same characters.
pub fn str_eq(a: &str, b: &str) -> (same: bool)
    ensures
        same == (a@ == b@),
{
    let x = a.to_owned();
    let y = b.to_owned();
    x == y
}

/// Whether `pat` stands in `s` at the character position `i`.
pub fn matches_at(s: &str, pat: &str, i: usize) -> (found: bool)
    ensures
        found == occurs_at(s@, pat@, i as int),
{
    let n = s.unicode_len();
    let m = pat.unicode_len();
    if i > n || m > n - i {
        return false;
    }
    let mut k: usize = 0;
    while k < m
        invariant
            k <= m,
            n == s@.len(),
            m == pat@.len(),
            i + m <= n,
            forall|j: int| 0 <= j < k ==> s@[i + j] == pat@[j],
        decreases m - k,
    {
        if s.get_char(i + k) != pat.get_char(k) {
            proof {
                let sub = s@.subrange(i as int, i + m);
                assert(sub[k as int] == s@[i + k]);
            }
            return false;
        }
        k += 1;
    }
    assert(s@.subrange(i as int, i + m) =~= pat@);
    true
}

/// Whether `s` begins with `pat`.
pub fn starts_with(s: &str, pat: &str) -> (found: bool)
    ensures
        found == has_prefix(s@, pat@),
{
    matches_at(s, pat, 0)
}

/// The first position at or after `from` where `pat` stands in `s`.
pub fn find_from(s: &str, pat: &str, from: usize) -> (at: Option<usize>)
    ensures
        first_occurrence(
            s@,
            pat@,
            from as int,
            match at {
                Some(i) => Some(i as int),
                None => None,
            },
        ),
{
    let n = s.unicode_len();
    let mut i: usize = from;
    loop
        invariant
            from <= i,
            n == s@.len(),
            forall|j: int| from <= j < i ==> !occurs_at(s@, pat@, j),
        decreases n + 1 - i,
    {
        if matches_at(s, pat, i) {
            return Some(i);
        }
        if i >= n {
            return None;
        }
        i += 1;
    }
}

/// The characters of `s` from position `from` up to, not including, `to`.
pub fn slice_chars(s: &str, from: usize, to: usize) -> (part: String)
    requires
        from <= to <= s@.len(),
    ensures
        part@ == s@.subrange(from as int, to as int),
{
    s.substring_char(from, to).to_owned()
}

/// Whether `c` is one of the ten decimal digits.
pub open spec fn is_digit(c: char) -> bool {
    '0' <= c && c <= '9'
}

/// The number that the digit `c` stands for.
pub open spec fn digit_value(c: char) -> nat {
    (c as u32 - '0' as u32) as nat
}

/// Whether `s` holds decimal digits only.
pub open spec fn all_digits(s: Seq<char>) -> bool {
    forall|i: int| 0 <= i < s.len() ==> is_digit(#[trigger] s[i])
}

/// The number that a run of decimal digits denotes, most significant first.
pub open spec fn digits_value(s: Seq<char>) -> nat
    decreases s.len(),
{
    if s.len() == 0 {
        0
    } else {
        digits_value(s.drop_last()) * 10 + digit_value(s.last())
    }
}

/// `s` without one leading plus sign.
pub open spec fn without_plus(s: Seq<char>) -> Seq<char> {
    if s.len() > 0 && s[0] == '+' {
        s.subrange(1, s.len() as int)
    } else {
        s
    }
}

/// What `s` denotes as an unsigned decimal number no greater than `max`: an
/// optional plus sign, then one or more digits and nothing else.
pub open spec fn unsigned_value(s: Seq<char>, max: nat) -> Option<nat> {
    let d = without_plus(s);
    if d.len() > 0 && all_digits(d) && digits_value(d) <= max {
        Some(digits_value(d))
    } else {
        None
    }
}

/// A run of digits denotes at least what any of its beginnings denotes.
pub proof fn lemma_digits_value_grows(s: Seq<char>, k: int)
    requires
        0 <= k <= s.len(),
    ensures
        digits_value(s.take(k)) <= digits_value(s),
    decreases s.len(),
{
    if k == s.len() {
        assert(s.take(k) =~= s);
    } else {
        lemma_digits_value_grows(s.drop_last(), k);
        assert(s.drop_last().take(k) =~= s.take(k));
    }
}

/// Reads `s` as an unsigned decimal number no greater than `max`.
pub fn parse_unsigned(s: &str, max: u64) -> (value: Option<u64>)
    ensures
        match value {
            Some(v) => unsigned_value(s@, max as nat) == Some(v as nat),
            None => unsigned_value(s@, max as nat) is None,
        },
{
    let n = s.unicode_len();
    let start: usize = if n > 0 && s.get_char(0) == '+' { 1 } else { 0 };
    if start == n {
        return None;
    }
    let ghost d = without_plus(s@);
    assert(d =~= s@.subrange(start as int, n as int));
    let mut acc: u64 = 0;
    let mut i: usize = start;
    while i < n
        invariant
            start <= i <= n,
            n == s@.len(),
            d == s@.subrange(start as int, n as int),
            d == without_plus(s@),
            all_digits(d.take(i - start)),
            acc == digits_value(d.take(i - start)),
            acc <= max,
        decreases n - i,
    {
        let c = s.get_char(i);
        assert(d[i - start] == c);
        if !(c >= '0' && c <= '9') {
            assert(!is_digit(d[i - start]));
            return None;
        }
        let digit: u64 = (c as u32 - '0' as u32) as u64;
        proof {
            let next = d.take(i - start + 1);
            assert(next.drop_last() =~= d.take(i - start));
            assert(next.last() == c);
            lemma_digits_value_grows(d, i - start + 1);
        }
        if digit > max || acc > (max - digit) / 10 {
            assert(digits_value(d.take(i - start + 1)) > max);
            return None;
        }
        acc = acc * 10 + digit;
        i += 1;
    }
    assert(d.take(n - start) =~= d);
    Some(acc)
}

/// What `s` denotes as a boolean: `true` or `false`, spelled exactly so.
pub open spec fn bool_value(s: Seq<char>) -> Option<bool> {
    if s == "true"@ {
        Some(true)
    } else if s == "false"@ {
        Some(false)
    } else {
        None
    }
}

/// Reads `s` as a boolean.
pub fn parse_bool(s: &str) -> (value: Option<bool>)
    ensures
        value == bool_value(s@),
{
    if str_eq(s, "true") {
        Some(true)
    } else if str_eq(s, "false") {
        Some(false)
    } else {
        None
    }
}

} // verus!

verus! {

/// The number of bytes that `text` takes in UTF-8.
pub open spec fn byte_len(text: Seq<char>) -> nat {
    vstd::utf8::encode_utf8(text).len()
}

/// The number of bytes of `s`.
pub fn byte_length(s: &str) -> (n: usize)
    ensures
        n == byte_len(s@),
{
    s.as_bytes().len()
}

/// The text behind an optional string.
pub open spec fn opt_text(o: Option<String>) -> Option<Seq<char>> {
    match o {
        Some(s) => Some(s@),
        None => None,
    }
}

/// The text behind an optional string slice.
pub open spec fn opt_str(o: Option<&str>) -> Option<Seq<char>> {
    match o {
        Some(s) => Some(s@),
        None => None,
    }
}

/// An owned copy of an optional text.
pub fn clone_opt(o: &Option<String>) -> (c: Option<String>)
    ensures
        opt_text(c) == opt_text(*o),
{
    match o {
        Some(s) => Some(s.clone()),
        None => None,
    }
}

/// The texts of a list of strings, in order.
pub open spec fn texts(v: Seq<String>) -> Seq<Seq<char>> {
    v.map_values(|s: String| s@)
}

/// A copy of a list of strings.
pub fn clone_texts(v: &Vec<String>) -> (copy: Vec<String>)
    ensures
        texts(copy@) == texts(v@),
{
    let mut copy: Vec<String> = Vec::new();
    let mut k: usize = 0;
    while k < v.len()
        invariant
            0 <= k <= v.len(),
            copy@.len() == k,
            forall|j: int| 0 <= j < k ==> (#[trigger] copy@[j])@ == v@[j]@,
        decreases v.len() - k,
    {
        copy.push(v[k].clone());
        k += 1;
    }
    assert(texts(copy@) =~= texts(v@));
    copy
}

/// The ten decimal digits, in order.
pub open spec fn decimal_digits() -> Seq<char> {
    "0123456789"@
}

/// `n` written in decimal digits, without leading zeros.
pub open spec fn decimal_text(n: nat) -> Seq<char>
    decreases n,
{
    if n < 10 {
        seq![decimal_digits()[n as int]]
    } else {
        decimal_text(n / 10).push(decimal_digits()[(n % 10) as int])
    }
}

/// `n` written in decimal digits, without leading zeros.
pub fn decimal(n: u64) -> (text: String)
    ensures
        text@ == decimal_text(n as nat),
    decreases n,
{
    proof {
        reveal_strlit("0123456789");
    }
    let last: usize = (n % 10) as usize;
    let digit = slice_chars("0123456789", last, last + 1);
    assert(digit@ =~= seq![decimal_digits()[last as int]]);
    if n < 10 {
        digit
    } else {
        let mut text = decimal(n / 10);
        let ghost front = text@;
        text.append(digit.as_str());
        assert(text@ =~= front.push(decimal_digits()[last as int]));
        text
    }
}

/// `a`, then `n` in decimal digits, then `b`.
pub open spec fn spec_with_number(a: Seq<char>, n: nat, b: Seq<char>) -> Seq<char> {
    a + decimal_text(n) + b
}

/// `a`, then `n` in decimal digits, then `b`.
pub fn with_number(a: &str, n: u64, b: &str) -> (text: String)
    ensures
        text@ == spec_with_number(a@, n as nat, b@),
{
    let mut text = a.to_owned();
    text.append(decimal(n).as_str());
    text.append(b);
    text
}

} // verus!
