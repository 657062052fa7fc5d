//! Verified text utilities: decimal integer parsing, whitespace trimming,
//! token extraction and `KEY=VALUE` splitting.
//!
//! These back the engine think-time validation, the engine reply parsing,
//! the analog-device line decoding and the command-line option parsing.

use vstd::prelude::*;

verus! {

/// ASCII whitespace, the only whitespace the line protocols produce.
pub open spec fn is_space(c: char) -> bool {
    c == ' ' || c == '\t' || c == '\n' || c == '\r'
}

/// Tests for ASCII whitespace.
pub fn is_space_char(c: char) -> (r: bool)
    ensures
        r == is_space(c),
{
    c == ' ' || c == '\t' || c == '\n' || c == '\r'
}

/// A decimal digit.
pub open spec fn is_digit(c: char) -> bool {
    '0' <= c && c <= '9'
}

/// The value of one decimal digit.
pub open spec fn digit_value(c: char) -> int {
    c as int - 48
}

/// Every character of the string is a decimal digit.
pub open spec fn all_digits(s: Seq<char>) -> bool {
    forall|i: int| 0 <= i < s.len() ==> is_digit(#[trigger] s[i])
}

/// The number denoted by a digit string, most significant digit first.
pub open spec fn digits_value(s: Seq<char>) -> int
    decreases s.len(),
{
    if s.len() == 0 {
        0
    } else {
        digits_value(s.drop_last()) * 10 + digit_value(s.last())
    }
}

/// The digit part of an integer string: everything after an optional
/// single leading `+` or `-` sign.
pub open spec fn int_digits(s: Seq<char>) -> Seq<char> {
    if s.len() > 0 && (s[0] == '+' || s[0] == '-') {
        s.subrange(1, s.len() as int)
    } else {
        s
    }
}

/// Whether the integer string carries a leading minus sign.
pub open spec fn int_negative(s: Seq<char>) -> bool {
    s.len() > 0 && s[0] == '-'
}

/// The integer a string denotes: an optional single `+` or `-` sign, then
/// one or more decimal digits, and nothing else.
pub open spec fn parse_int(s: Seq<char>) -> Option<int> {
    if int_digits(s).len() > 0 && all_digits(int_digits(s)) {
        if int_negative(s) {
            Some(-digits_value(int_digits(s)))
        } else {
            Some(digits_value(int_digits(s)))
        }
    } else {
        None
    }
}

/// What `str::parse::<i32>` accepts: the denoted integer, where it fits.
pub open spec fn parse_i32_spec(s: Seq<char>) -> Option<int> {
    match parse_int(s) {
        Some(v) => if -0x8000_0000 <= v <= 0x7fff_ffff {
            Some(v)
        } else {
            None
        },
        None => None,
    }
}

pub proof fn lemma_digits_value_nonneg(s: Seq<char>)
    requires
        all_digits(s),
    ensures
        digits_value(s) >= 0,
    decreases s.len(),
{
    if s.len() > 0 {
        assert(all_digits(s.drop_last()));
        lemma_digits_value_nonneg(s.drop_last());
        assert(digit_value(s.last()) >= 0);
    }
}

/// A digit string is worth at least as much as any of its prefixes.
pub proof fn lemma_digits_value_prefix(s: Seq<char>, m: int)
    requires
        all_digits(s),
        0 <= m <= s.len(),
    ensures
        digits_value(s.subrange(0, m)) <= digits_value(s),
    decreases s.len() - m,
{
    if m == s.len() {
        assert(s.subrange(0, m) =~= s);
    } else {
        let t = s.subrange(0, m + 1);
        assert(all_digits(t));
        assert(t.drop_last() =~= s.subrange(0, m));
        lemma_digits_value_nonneg(t.drop_last());
        assert(digits_value(t) >= digits_value(s.subrange(0, m)));
        lemma_digits_value_prefix(s, m + 1);
    }
}

/// Parses a decimal integer exactly as `str::parse::<i32>` does: an
/// optional sign, one or more digits, nothing else, and the value in range.
pub fn parse_i32(s: &str) -> (r: Option<i32>)
    ensures
        match parse_i32_spec(s@) {
            Some(v) => r == Some(v as i32) && r.unwrap() as int == v,
            None => r is None,
        },
{
    let n = s.unicode_len();
    let mut start: usize = 0;
    let mut neg = false;
    if n > 0 {
        let c0 = s.get_char(0);
        if c0 == '+' || c0 == '-' {
            start = 1;
            neg = c0 == '-';
        }
    }
    if start == n {
        return None;
    }
    let ghost digits = int_digits(s@);
    proof {
        assert(digits =~= s@.subrange(start as int, n as int));
        assert(neg == int_negative(s@));
    }
    let mut acc: u64 = 0;
    let mut i: usize = start;
    while i < n
        invariant
            start <= i <= n,
            n == s@.len(),
            start < n,
            digits == int_digits(s@),
            neg == int_negative(s@),
            digits == s@.subrange(start as int, n as int),
            all_digits(s@.subrange(start as int, i as int)),
            acc as int == digits_value(s@.subrange(start as int, i as int)),
            acc <= 0x8000_0000,
        decreases n - i,
    {
        let c = s.get_char(i);
        if c < '0' || c > '9' {
            assert(!is_digit(digits[i - start]));
            return None;
        }
        let d: u64 = (c as u32 - 48) as u64;
        let ghost pre = s@.subrange(start as int, i as int);
        let ghost cur = s@.subrange(start as int, i + 1 as int);
        proof {
            assert(cur.drop_last() =~= pre);
            assert(cur.last() == c);
        }
        acc = acc * 10 + d;
        assert(acc as int == digits_value(cur));
        if acc > 0x8000_0000 {
            proof {
                // either some later character is not a digit, or the full
                // value is at least this prefix and so out of range
                assert(cur =~= digits.subrange(0, i + 1 - start));
                if all_digits(digits) {
                    lemma_digits_value_prefix(digits, i + 1 - start);
                    assert(digits_value(digits) >= digits_value(cur));
                }
            }
            return None;
        }
        i = i + 1;
    }
    proof {
        assert(s@.subrange(start as int, i as int) =~= digits);
    }
    if neg {
        if acc == 0x8000_0000 {
            Some(i32::MIN)
        } else {
            Some(-(acc as i32))
        }
    } else {
        if acc > 0x7fff_ffff {
            None
        } else {
            Some(acc as i32)
        }
    }
}

/// The string with leading whitespace removed.
pub open spec fn trim_front(s: Seq<char>) -> Seq<char>
    decreases s.len(),
{
    if s.len() > 0 && is_space(s[0]) {
        trim_front(s.subrange(1, s.len() as int))
    } else {
        s
    }
}

/// The string with trailing whitespace removed.
pub open spec fn trim_back(s: Seq<char>) -> Seq<char>
    decreases s.len(),
{
    if s.len() > 0 && is_space(s.last()) {
        trim_back(s.drop_last())
    } else {
        s
    }
}

/// The string with whitespace removed from both ends.
pub open spec fn trimmed(s: Seq<char>) -> Seq<char> {
    trim_back(trim_front(s))
}

proof fn lemma_trim_front_skip(s: Seq<char>, lo: int)
    requires
        0 <= lo <= s.len(),
        forall|j: int| 0 <= j < lo ==> is_space(#[trigger] s[j]),
    ensures
        trim_front(s) == trim_front(s.subrange(lo, s.len() as int)),
    decreases lo,
{
    if lo > 0 {
        assert(is_space(s[0]));
        let t = s.subrange(1, s.len() as int);
        assert(forall|j: int| 0 <= j < lo - 1 ==> is_space(#[trigger] t[j]));
        lemma_trim_front_skip(t, lo - 1);
        assert(t.subrange(lo - 1, t.len() as int) =~= s.subrange(lo, s.len() as int));
    } else {
        assert(s.subrange(0, s.len() as int) =~= s);
    }
}

proof fn lemma_trim_back_take(s: Seq<char>, hi: int)
    requires
        0 <= hi <= s.len(),
        forall|j: int| hi <= j < s.len() ==> is_space(#[trigger] s[j]),
    ensures
        trim_back(s) == trim_back(s.subrange(0, hi)),
    decreases s.len() - hi,
{
    if hi < s.len() {
        assert(is_space(s.last()));
        let t = s.drop_last();
        assert(forall|j: int| hi <= j < t.len() ==> is_space(#[trigger] t[j]));
        lemma_trim_back_take(t, hi);
        assert(t.subrange(0, hi) =~= s.subrange(0, hi));
    } else {
        assert(s.subrange(0, hi) =~= s);
    }
}

/// Removes leading and trailing ASCII whitespace.
pub fn trim(s: &str) -> (r: &str)
    ensures
        r@ == trimmed(s@),
{
    let n = s.unicode_len();
    let mut lo: usize = 0;
    while lo < n && is_space_char(s.get_char(lo))
        invariant
            0 <= lo <= n,
            n == s@.len(),
            forall|j: int| 0 <= j < lo ==> is_space(#[trigger] s@[j]),
        decreases n - lo,
    {
        lo = lo + 1;
    }
    proof {
        lemma_trim_front_skip(s@, lo as int);
        if lo < n {
            // the front-trimmed suffix starts with a non-space, so it is final
            assert(!is_space(s@.subrange(lo as int, n as int)[0]));
        }
        assert(trim_front(s@) == s@.subrange(lo as int, n as int));
    }
    let mut hi: usize = n;
    while hi > lo && is_space_char(s.get_char(hi - 1))
        invariant
            lo <= hi <= n,
            n == s@.len(),
            forall|j: int| hi <= j < n ==> is_space(#[trigger] s@[j]),
        decreases hi,
    {
        hi = hi - 1;
    }
    proof {
        let front = s@.subrange(lo as int, n as int);
        assert(forall|j: int|
            hi - lo <= j < front.len() ==> is_space(#[trigger] front[j]));
        lemma_trim_back_take(front, hi - lo);
        assert(front.subrange(0, hi - lo) =~= s@.subrange(lo as int, hi as int));
        if hi > lo {
            let taken = s@.subrange(lo as int, hi as int);
            assert(!is_space(taken.last()));
        }
        assert(trimmed(s@) == s@.subrange(lo as int, hi as int));
    }
    s.substring_char(lo, hi)
}

/// The longest whitespace-free prefix of the string.
pub open spec fn token_of(s: Seq<char>) -> Seq<char>
    decreases s.len(),
{
    if s.len() > 0 && !is_space(s[0]) {
        seq![s[0]] + token_of(s.subrange(1, s.len() as int))
    } else {
        Seq::empty()
    }
}

/// The string with its leading whitespace-free prefix removed.
pub open spec fn after_token(s: Seq<char>) -> Seq<char>
    decreases s.len(),
{
    if s.len() > 0 && !is_space(s[0]) {
        after_token(s.subrange(1, s.len() as int))
    } else {
        s
    }
}

/// The whitespace-separated token of the string at position `n`, counted
/// from zero, if there are more than `n` tokens.
pub open spec fn nth_token_of(s: Seq<char>, n: nat) -> Option<Seq<char>>
    decreases n,
{
    if trim_front(s).len() == 0 {
        None
    } else if n == 0 {
        Some(token_of(trim_front(s)))
    } else {
        nth_token_of(after_token(trim_front(s)), (n - 1) as nat)
    }
}

/// The second whitespace-separated token of the string, if there are at
/// least two.
pub open spec fn second_token_of(s: Seq<char>) -> Option<Seq<char>> {
    nth_token_of(s, 1)
}

/// The third whitespace-separated token of the string, if there are at
/// least three.
pub open spec fn third_token_of(s: Seq<char>) -> Option<Seq<char>> {
    nth_token_of(s, 2)
}

proof fn lemma_after_token_skip(s: Seq<char>, k: int)
    requires
        0 <= k <= s.len(),
        forall|j: int| 0 <= j < k ==> !is_space(#[trigger] s[j]),
    ensures
        after_token(s) == after_token(s.subrange(k, s.len() as int)),
    decreases k,
{
    if k > 0 {
        assert(!is_space(s[0]));
        let t = s.subrange(1, s.len() as int);
        assert(forall|j: int| 0 <= j < k - 1 ==> !is_space(#[trigger] t[j]));
        lemma_after_token_skip(t, k - 1);
        assert(t.subrange(k - 1, t.len() as int) =~= s.subrange(k, s.len() as int));
    } else {
        assert(s.subrange(0, s.len() as int) =~= s);
    }
}

proof fn lemma_token_of_take(s: Seq<char>, m: int)
    requires
        0 <= m <= s.len(),
        forall|j: int| 0 <= j < m ==> !is_space(#[trigger] s[j]),
        m == s.len() || is_space(s[m]),
    ensures
        token_of(s) == s.subrange(0, m),
    decreases m,
{
    if m == 0 {
        assert(token_of(s) =~= s.subrange(0, 0));
    } else {
        assert(!is_space(s[0]));
        let t = s.subrange(1, s.len() as int);
        assert(forall|j: int| 0 <= j < m - 1 ==> !is_space(#[trigger] t[j]));
        assert(m - 1 == t.len() || is_space(t[m - 1]));
        lemma_token_of_take(t, m - 1);
        assert(seq![s[0]] + t.subrange(0, m - 1) =~= s.subrange(0, m));
    }
}

/// Returns the whitespace-separated token at position `n` of the line,
/// counted from zero, or `None` where the line has no such token.
pub fn nth_token(s: &str, n: usize) -> (r: Option<&str>)
    ensures
        match nth_token_of(s@, n as nat) {
            Some(t) => r is Some && r.unwrap()@ == t,
            None => r is None,
        },
{
    let len = s.unicode_len();
    proof {
        assert(s@.subrange(0, len as int) =~= s@);
    }
    let mut i: usize = 0;
    let mut k: usize = 0;
    loop
        invariant
            0 <= i <= len,
            k <= n,
            len == s@.len(),
            nth_token_of(s@.subrange(i as int, len as int), (n - k) as nat) == nth_token_of(
                s@,
                n as nat,
            ),
        decreases n - k,
    {
        let ghost suffix = s@.subrange(i as int, len as int);
        let start = i;
        let mut j: usize = i;
        while j < len && is_space_char(s.get_char(j))
            invariant
                start <= j <= len,
                len == s@.len(),
                forall|m: int| start <= m < j ==> is_space(#[trigger] s@[m]),
            decreases len - j,
        {
            j = j + 1;
        }
        proof {
            assert(forall|m: int| 0 <= m < j - start ==> is_space(#[trigger] suffix[m]));
            lemma_trim_front_skip(suffix, j - start);
            assert(suffix.subrange(j - start, suffix.len() as int) =~= s@.subrange(
                j as int,
                len as int,
            ));
            assert(trim_front(suffix) == s@.subrange(j as int, len as int));
        }
        if j == len {
            proof {
                assert(trim_front(suffix).len() == 0);
            }
            return None;
        }
        let ghost clean = s@.subrange(j as int, len as int);
        proof {
            assert(!is_space(clean[0]));
            assert(trim_front(clean) == clean);
        }
        let mut e: usize = j;
        while e < len && !is_space_char(s.get_char(e))
            invariant
                j <= e <= len,
                len == s@.len(),
                forall|m: int| j <= m < e ==> !is_space(#[trigger] s@[m]),
            decreases len - e,
        {
            e = e + 1;
        }
        proof {
            assert(forall|m: int| 0 <= m < e - j ==> !is_space(#[trigger] clean[m]));
        }
        if k == n {
            proof {
                if e < len {
                    assert(is_space(clean[e - j]));
                }
                lemma_token_of_take(clean, e - j);
                assert(clean.subrange(0, e - j) =~= s@.subrange(j as int, e as int));
            }
            return Some(s.substring_char(j, e));
        }
        proof {
            lemma_after_token_skip(clean, e - j);
            assert(clean.subrange(e - j, clean.len() as int) =~= s@.subrange(
                e as int,
                len as int,
            ));
            assert(after_token(clean) == s@.subrange(e as int, len as int));
        }
        i = e;
        k = k + 1;
    }
}

/// Returns the second whitespace-separated token of the line, or `None`
/// where the line holds fewer than two tokens.
pub fn second_token(s: &str) -> (r: Option<&str>)
    ensures
        match second_token_of(s@) {
            Some(t) => r is Some && r.unwrap()@ == t,
            None => r is None,
        },
{
    nth_token(s, 1)
}

/// Returns the third whitespace-separated token of the line, or `None`
/// where the line holds fewer than three tokens.
pub fn third_token(s: &str) -> (r: Option<&str>)
    ensures
        match third_token_of(s@) {
            Some(t) => r is Some && r.unwrap()@ == t,
            None => r is None,
        },
{
    nth_token(s, 2)
}

/// Every character of the string is ASCII, so its byte and character
/// counts agree and every byte index is a character boundary.
pub open spec fn ascii_chars(s: Seq<char>) -> bool {
    forall|i: int| 0 <= i < s.len() ==> #[trigger] s[i] <= '\u{7f}'
}

/// Tests that the string is pure ASCII.
pub fn chars_are_ascii(s: &str) -> (r: bool)
    ensures
        r == ascii_chars(s@),
{
    let n = s.unicode_len();
    let mut i: usize = 0;
    while i < n
        invariant
            0 <= i <= n,
            n == s@.len(),
            forall|j: int| 0 <= j < i ==> #[trigger] s@[j] <= '\u{7f}',
        decreases n - i,
    {
        if s.get_char(i) > '\u{7f}' {
            return false;
        }
        i = i + 1;
    }
    true
}

/// The full whitespace set of `char::is_whitespace`, which general
/// string splitting goes by.
pub open spec fn is_unicode_space(c: char) -> bool {
    ||| is_space(c)
    ||| c == '\u{b}'
    ||| c == '\u{c}'
    ||| c == '\u{85}'
    ||| c == '\u{a0}'
    ||| c == '\u{1680}'
    ||| ('\u{2000}' <= c && c <= '\u{200a}')
    ||| c == '\u{2028}'
    ||| c == '\u{2029}'
    ||| c == '\u{202f}'
    ||| c == '\u{205f}'
    ||| c == '\u{3000}'
}

/// Every whitespace character of the string is one of the four ASCII
/// ones, so splitting by Unicode whitespace and by [`is_space`] agree.
pub open spec fn spaces_are_ascii(s: Seq<char>) -> bool {
    forall|i: int| 0 <= i < s.len() ==> (is_unicode_space(#[trigger] s[i]) ==> is_space(s[i]))
}

/// Tests that the string holds no whitespace beyond the four ASCII kinds.
pub fn spaces_are_ascii_check(s: &str) -> (r: bool)
    ensures
        r == spaces_are_ascii(s@),
{
    let n = s.unicode_len();
    let mut i: usize = 0;
    while i < n
        invariant
            0 <= i <= n,
            n == s@.len(),
            forall|j: int| 0 <= j < i ==> (is_unicode_space(#[trigger] s@[j]) ==> is_space(s@[j])),
        decreases n - i,
    {
        let c = s.get_char(i);
        let exotic = c == '\u{b}' || c == '\u{c}' || c == '\u{85}' || c == '\u{a0}' || c
            == '\u{1680}' || ('\u{2000}' <= c && c <= '\u{200a}') || c == '\u{2028}' || c
            == '\u{2029}' || c == '\u{202f}' || c == '\u{205f}' || c == '\u{3000}';
        if exotic {
            return false;
        }
        i = i + 1;
    }
    true
}

/// No three consecutive decimal digits occur in the string.
pub open spec fn no_triple_digit(s: Seq<char>) -> bool {
    forall|i: int|
        0 <= i && i + 2 < s.len() ==> !(is_digit(#[trigger] s[i]) && is_digit(s[i + 1]) && is_digit(
            s[i + 2],
        ))
}

/// Tests that the string holds no three consecutive decimal digits.
pub fn has_no_triple_digit(s: &str) -> (r: bool)
    ensures
        r == no_triple_digit(s@),
{
    let n = s.unicode_len();
    let mut run: usize = 0;
    let mut i: usize = 0;
    while i < n
        invariant
            0 <= i <= n,
            n == s@.len(),
            run <= i,
            run <= 2,
            forall|k: int| i - run <= k < i ==> is_digit(#[trigger] s@[k]),
            run == i || i - run - 1 >= 0 && !is_digit(s@[i - run - 1]),
            forall|k: int|
                0 <= k && k + 2 < i ==> !(is_digit(#[trigger] s@[k]) && is_digit(s@[k + 1])
                    && is_digit(s@[k + 2])),
        decreases n - i,
    {
        let c = s.get_char(i);
        if '0' <= c && c <= '9' {
            if run >= 2 {
                proof {
                    assert(is_digit(s@[i as int - 2]) && is_digit(s@[i as int - 1]) && is_digit(
                        s@[i as int],
                    ));
                }
                return false;
            }
            run = run + 1;
        } else {
            run = 0;
        }
        i = i + 1;
    }
    true
}

/// Splits a `KEY=VALUE` string at its first `=`.  Where no `=` occurs the
/// result is an error carrying a human-readable message.
pub fn parse_key_val(s: &str) -> (r: Result<(String, String), String>)
    ensures
        match r {
            Ok(kv) => {
                let i = kv.0@.len() as int;
                &&& 0 <= i < s@.len()
                &&& s@[i] == '='
                &&& kv.0@ == s@.subrange(0, i)
                &&& kv.1@ == s@.subrange(i + 1, s@.len() as int)
                &&& forall|j: int| 0 <= j < i ==> s@[j] != '='
            },
            Err(msg) => {
                &&& forall|j: int| 0 <= j < s@.len() ==> s@[j] != '='
                &&& msg@ == "invalid KEY=VALUE: no `=` found in `"@ + s@ + "`"@
            },
        },
{
    let n = s.unicode_len();
    let mut i: usize = 0;
    while i < n && s.get_char(i) != '='
        invariant
            0 <= i <= n,
            n == s@.len(),
            forall|j: int| 0 <= j < i ==> s@[j] != '=',
        decreases n - i,
    {
        i = i + 1;
    }
    if i == n {
        let mut msg = String::from_str("invalid KEY=VALUE: no `=` found in `");
        msg.append(s);
        msg.append("`");
        return Err(msg);
    }
    let key = s.substring_char(0, i);
    let val = s.substring_char(i + 1, n);
    Ok((key.to_owned(), val.to_owned()))
}

} // verus!
