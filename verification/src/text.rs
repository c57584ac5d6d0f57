//! Text helpers shared by the library: decimal numbers, whitespace trimming,
//! prefix and suffix tests.
use vstd::prelude::*;

verus! {

/// The decimal digit character for `d`.
pub open spec fn digit_char(d: nat) -> char
    recommends
        d < 10,
{
    ((d + '0' as nat) as u32) as char
}

/// The decimal representation of `n`, without sign or leading zeros.
pub open spec fn spec_decimal(n: nat) -> Seq<char>
    decreases n,
{
    if n < 10 {
        seq![digit_char(n)]
    } else {
        spec_decimal(n / 10).push(digit_char(n % 10))
    }
}

/// The string holding the single decimal digit `d`.
fn digit_string(d: u64) -> (r: String)
    requires
        d < 10,
    ensures
        r@ == seq![digit_char(d as nat)],
{
    let digits = "0123456789";
    proof {
        reveal_strlit("0123456789");
    }
    let s = digits.substring_char(d as usize, (d + 1) as usize);
    let r = s.to_owned();
    proof {
        assert(r@ =~= seq![digit_char(d as nat)]);
    }
    r
}

/// The decimal representation of `n` (see [`spec_decimal`]).
pub fn decimal(n: u64) -> (r: String)
    ensures
        r@ == spec_decimal(n as nat),
    decreases n,
{
    if n < 10 {
        digit_string(n)
    } else {
        let head = decimal(n / 10);
        let tail = digit_string(n % 10);
        let r = head.concat(tail.as_str());
        proof {
            assert(r@ =~= spec_decimal(n as nat / 10).push(digit_char(n as nat % 10)));
        }
        r
    }
}

/// Whether `c` is an ASCII decimal digit.
pub open spec fn is_digit(c: char) -> bool {
    '0' <= c && c <= '9'
}

/// The value of the decimal digits `s` (most significant first).
pub open spec fn digits_value(s: Seq<char>) -> nat
    decreases s.len(),
{
    if s.len() == 0 {
        0
    } else {
        digits_value(s.drop_last()) * 10 + (s.last() as nat - '0' as nat) as nat
    }
}

/// The digits of a number as written for an unsigned integer parse: an
/// optional leading `+` is dropped.
pub open spec fn unsigned_digits(s: Seq<char>) -> Seq<char> {
    if s.len() > 0 && s[0] == '+' {
        s.drop_first()
    } else {
        s
    }
}

/// Parsing a `u64` the way the standard library does: an optional `+`, then at
/// least one ASCII digit and nothing else, denoting a value that fits in 64 bits.
pub open spec fn spec_parse_u64(s: Seq<char>) -> Option<u64> {
    let d = unsigned_digits(s);
    if d.len() > 0 && (forall|i: int| 0 <= i < d.len() ==> is_digit(#[trigger] d[i]))
        && digits_value(d) <= u64::MAX {
        Some(digits_value(d) as u64)
    } else {
        None
    }
}

/// A longer run of digits is worth at least as much as its prefix.
proof fn lemma_digits_value_prefix(s: Seq<char>, k: int)
    requires
        0 <= k <= s.len(),
        forall|i: int| 0 <= i < s.len() ==> is_digit(#[trigger] s[i]),
    ensures
        digits_value(s.subrange(0, k)) <= digits_value(s),
    decreases s.len() - k,
{
    if k < s.len() {
        lemma_digits_value_prefix(s, k + 1);
        let p = s.subrange(0, k + 1);
        assert(p.drop_last() =~= s.subrange(0, k));
    } else {
        assert(s.subrange(0, k) =~= s);
    }
}

/// Parses a `u64` (see [`spec_parse_u64`]).
pub fn parse_u64(s: &str) -> (r: Option<u64>)
    ensures
        r == spec_parse_u64(s@),
{
    let n = s.unicode_len();
    let mut start: usize = 0;
    if n > 0 && s.get_char(0) == '+' {
        start = 1;
    }
    let ghost d = unsigned_digits(s@);
    proof {
        assert(d =~= s@.subrange(start as int, n as int));
    }
    if start >= n {
        return None;
    }
    let mut value: u64 = 0;
    let mut i: usize = start;
    while i < n
        invariant
            start <= i <= n,
            n == s@.len(),
            d == s@.subrange(start as int, n as int),
            d == unsigned_digits(s@),
            forall|j: int| 0 <= j < i - start ==> is_digit(#[trigger] d[j]),
            value as nat == digits_value(d.subrange(0, i - start)),
        decreases n - i,
    {
        let c = s.get_char(i);
        proof {
            assert(d[i - start] == c);
        }
        if c < '0' || c > '9' {
            proof {
                assert(!is_digit(d[i - start]));
            }
            return None;
        }
        let digit = (c as u32 - '0' as u32) as u64;
        proof {
            let p = d.subrange(0, i - start + 1);
            assert(p.drop_last() =~= d.subrange(0, i - start));
            assert(p.last() == c);
        }
        let next = match value.checked_mul(10) {
            Some(v) => v.checked_add(digit),
            None => None,
        };
        match next {
            Some(v) => {
                value = v;
            },
            None => {
                proof {
                    let p = d.subrange(0, i - start + 1);
                    assert(digit as nat == (c as nat - '0' as nat) as nat);
                    assert(digits_value(p) == value as nat * 10 + digit as nat);
                    assert(digits_value(p) > u64::MAX);
                    assert forall|j: int| 0 <= j < i - start + 1 implies is_digit(
                        #[trigger] d.subrange(0, i - start + 1)[j],
                    ) by {
                        assert(d.subrange(0, i - start + 1)[j] == d[j]);
                    }
                    if forall|j: int| 0 <= j < d.len() ==> is_digit(#[trigger] d[j]) {
                        lemma_digits_value_prefix(d, i - start + 1);
                    }
                }
                return None;
            },
        }
        i = i + 1;
    }
    proof {
        assert(d.subrange(0, n - start) =~= d);
    }
    Some(value)
}

/// Whether `s` starts with `prefix`.
pub open spec fn has_prefix(s: Seq<char>, prefix: Seq<char>) -> bool {
    prefix.len() <= s.len() && s.subrange(0, prefix.len() as int) == prefix
}

/// Whether `s` ends with `suffix`.
pub open spec fn has_suffix(s: Seq<char>, suffix: Seq<char>) -> bool {
    suffix.len() <= s.len() && s.subrange(s.len() - suffix.len(), s.len() as int) == suffix
}

/// Whether `s` ends with `suffix`.
pub fn ends_with(s: &str, suffix: &str) -> (r: bool)
    ensures
        r == has_suffix(s@, suffix@),
{
    let n = s.unicode_len();
    let m = suffix.unicode_len();
    if m > n {
        return false;
    }
    let mut j: usize = 0;
    while j < m
        invariant
            j <= m <= n,
            n == s@.len(),
            m == suffix@.len(),
            forall|k: int| 0 <= k < j ==> s@[n - m + k] == suffix@[k],
        decreases m - j,
    {
        if s.get_char(n - m + j) != suffix.get_char(j) {
            proof {
                assert(s@.subrange(n - m, n as int)[j as int] == s@[n - m + j]);
            }
            return false;
        }
        j = j + 1;
    }
    proof {
        assert(s@.subrange(n - m, n as int) =~= suffix@);
    }
    true
}

/// Whether `needle` occurs in `s` starting at position `at`.
pub open spec fn occurs_at(s: Seq<char>, needle: Seq<char>, at: int) -> bool {
    0 <= at && at + needle.len() <= s.len() && s.subrange(at, at + needle.len()) == needle
}

/// Whether `needle` occurs anywhere in `s`.
pub open spec fn spec_contains(s: Seq<char>, needle: Seq<char>) -> bool {
    exists|at: int| occurs_at(s, needle, at)
}

/// Whether `needle` occurs anywhere in `s`.
pub fn contains(s: &str, needle: &str) -> (r: bool)
    ensures
        r == spec_contains(s@, needle@),
{
    let n = s.unicode_len();
    let m = needle.unicode_len();
    if m > n {
        proof {
            assert forall|at: int| !occurs_at(s@, needle@, at) by {}
        }
        return false;
    }
    let last = n - m;
    let mut at: usize = 0;
    loop
        invariant
            m <= n,
            n == s@.len(),
            m == needle@.len(),
            last == n - m,
            at <= last,
            forall|a: int| 0 <= a < at ==> !occurs_at(s@, needle@, a),
        decreases last - at,
    {
        let mut j: usize = 0;
        let mut matched = true;
        while j < m
            invariant
                j <= m,
                at + m <= n,
                n == s@.len(),
                m == needle@.len(),
                matched ==> forall|k: int| 0 <= k < j ==> s@[at + k] == needle@[k],
                !matched ==> !occurs_at(s@, needle@, at as int),
            decreases m - j,
        {
            if matched && s.get_char(at + j) != needle.get_char(j) {
                proof {
                    assert(s@.subrange(at as int, at + m)[j as int] == s@[at + j]);
                }
                matched = false;
            }
            j = j + 1;
        }
        if matched {
            proof {
                assert(s@.subrange(at as int, at + m) =~= needle@);
                assert(occurs_at(s@, needle@, at as int));
            }
            return true;
        }
        if at == last {
            proof {
                assert forall|a: int| !occurs_at(s@, needle@, a) by {
                    if 0 <= a && a + m <= n {
                        assert(a <= at);
                    }
                }
            }
            return false;
        }
        at = at + 1;
    }
}

/// The Unicode `White_Space` property, as listed in the Unicode Character Database.
pub open spec fn is_white_space(c: char) -> bool {
    let v = c as u32;
    ||| 0x09 <= v <= 0x0d
    ||| v == 0x20
    ||| v == 0x85
    ||| v == 0xa0
    ||| v == 0x1680
    ||| 0x2000 <= v <= 0x200a
    ||| v == 0x2028
    ||| v == 0x2029
    ||| v == 0x202f
    ||| v == 0x205f
    ||| v == 0x3000
}

/// `char::is_whitespace` of the standard library.
///
/// Trusted: its documentation defines the result as the Unicode `White_Space`
/// property, which [`is_white_space`] lists.
#[verifier::external_body]
fn char_is_whitespace(c: char) -> (r: bool)
    ensures
        r == is_white_space(c),
{
    c.is_whitespace()
}

/// `s` without its leading characters that satisfy `p`.
pub open spec fn strip_start(s: Seq<char>, p: spec_fn(char) -> bool) -> Seq<char>
    decreases s.len(),
{
    if s.len() > 0 && p(s[0]) {
        strip_start(s.drop_first(), p)
    } else {
        s
    }
}

/// `s` without its trailing characters that satisfy `p`.
pub open spec fn strip_end(s: Seq<char>, p: spec_fn(char) -> bool) -> Seq<char>
    decreases s.len(),
{
    if s.len() > 0 && p(s.last()) {
        strip_end(s.drop_last(), p)
    } else {
        s
    }
}

/// The predicate "is white space".
pub open spec fn white_space() -> spec_fn(char) -> bool {
    |c: char| is_white_space(c)
}

/// `s` without leading and trailing white space, as `str::trim` gives it.
pub open spec fn spec_trim(s: Seq<char>) -> Seq<char> {
    strip_end(strip_start(s, white_space()), white_space())
}

/// Stripping leading characters leaves a suffix of the sequence.
proof fn lemma_strip_start_suffix(s: Seq<char>, p: spec_fn(char) -> bool, k: int)
    requires
        0 <= k <= s.len(),
        forall|i: int| 0 <= i < k ==> p(#[trigger] s[i]),
        k == s.len() || !p(s[k]),
    ensures
        strip_start(s, p) == s.subrange(k, s.len() as int),
    decreases k,
{
    if k > 0 {
        assert forall|i: int| 0 <= i < k - 1 implies p(#[trigger] s.drop_first()[i]) by {
            assert(s.drop_first()[i] == s[i + 1]);
        }
        lemma_strip_start_suffix(s.drop_first(), p, k - 1);
        assert(s.drop_first().subrange(k - 1, s.len() - 1) =~= s.subrange(k, s.len() as int));
    } else {
        assert(s.subrange(0, s.len() as int) =~= s);
    }
}

/// Stripping trailing characters leaves a prefix of the sequence.
pub proof fn lemma_strip_end_prefix(s: Seq<char>, p: spec_fn(char) -> bool, k: int)
    requires
        0 <= k <= s.len(),
        forall|i: int| k <= i < s.len() ==> p(#[trigger] s[i]),
        k == 0 || !p(s[k - 1]),
    ensures
        strip_end(s, p) == s.subrange(0, k),
    decreases s.len() - k,
{
    if k < s.len() {
        assert forall|i: int| k <= i < s.len() - 1 implies p(#[trigger] s.drop_last()[i]) by {
            assert(s.drop_last()[i] == s[i]);
        }
        lemma_strip_end_prefix(s.drop_last(), p, k);
        assert(s.drop_last().subrange(0, k) =~= s.subrange(0, k));
    } else {
        assert(s.subrange(0, k) =~= s);
    }
}

/// What stripping trailing characters leaves: a prefix of `s` that does not end
/// with such a character, followed in `s` only by such characters.
pub proof fn lemma_strip_end_shape(s: Seq<char>, p: spec_fn(char) -> bool)
    ensures
        strip_end(s, p).len() <= s.len(),
        strip_end(s, p) == s.subrange(0, strip_end(s, p).len() as int),
        strip_end(s, p).len() > 0 ==> !p(strip_end(s, p).last()),
        forall|i: int| strip_end(s, p).len() <= i < s.len() ==> p(#[trigger] s[i]),
    decreases s.len(),
{
    if s.len() > 0 && p(s.last()) {
        lemma_strip_end_shape(s.drop_last(), p);
        let r = strip_end(s.drop_last(), p);
        assert(s.drop_last().subrange(0, r.len() as int) =~= s.subrange(0, r.len() as int));
        assert forall|i: int| r.len() <= i < s.len() implies p(#[trigger] s[i]) by {
            if i < s.len() - 1 {
                assert(s.drop_last()[i] == s[i]);
            }
        }
    } else {
        assert(s.subrange(0, s.len() as int) =~= s);
    }
}

/// `s` without leading and trailing white space (see [`spec_trim`]).
pub fn trim(s: &str) -> (r: String)
    ensures
        r@ == spec_trim(s@),
{
    let n = s.unicode_len();
    let mut a: usize = 0;
    while a < n && char_is_whitespace(s.get_char(a))
        invariant
            a <= n,
            n == s@.len(),
            forall|i: int| 0 <= i < a ==> is_white_space(#[trigger] s@[i]),
        decreases n - a,
    {
        a = a + 1;
    }
    proof {
        lemma_strip_start_suffix(s@, white_space(), a as int);
    }
    let ghost t = s@.subrange(a as int, n as int);
    let mut b: usize = n;
    while b > a && char_is_whitespace(s.get_char(b - 1))
        invariant
            a <= b <= n,
            n == s@.len(),
            t == s@.subrange(a as int, n as int),
            forall|i: int| b <= i < n ==> is_white_space(#[trigger] s@[i]),
        decreases b - a,
    {
        b = b - 1;
    }
    proof {
        assert forall|i: int| b - a <= i < t.len() implies white_space()(#[trigger] t[i]) by {
            assert(t[i] == s@[a + i]);
        }
        if b > a {
            assert(t[b - a - 1] == s@[b - 1]);
        }
        lemma_strip_end_prefix(t, white_space(), b - a);
        assert(t.subrange(0, b - a) =~= s@.subrange(a as int, b as int));
    }
    s.substring_char(a, b).to_owned()
}

} // verus!
