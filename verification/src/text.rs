//! Small verified helpers for building and inspecting strings.

use vstd::prelude::*;

verus! {

/// Relies on `String::push`: appends one character at the end of the string.
#[verifier::external_body]
pub(crate) fn push_char(s: &mut String, c: char)
    ensures
        final(s)@ == old(s)@ + seq![c],
{
    s.push(c);
}

/// The character for a single decimal digit.
pub open spec fn digit_char_spec(d: nat) -> char {
    if d == 0 {
        '0'
    } else if d == 1 {
        '1'
    } else if d == 2 {
        '2'
    } else if d == 3 {
        '3'
    } else if d == 4 {
        '4'
    } else if d == 5 {
        '5'
    } else if d == 6 {
        '6'
    } else if d == 7 {
        '7'
    } else if d == 8 {
        '8'
    } else {
        '9'
    }
}

/// Decimal representation of a natural number, most significant digit first.
pub open spec fn decimal_rep(n: nat) -> Seq<char>
    decreases n,
{
    if n < 10 {
        seq![digit_char_spec(n)]
    } else {
        decimal_rep(n / 10) + seq![digit_char_spec(n % 10)]
    }
}

fn digit_char(d: usize) -> (c: char)
    requires
        d < 10,
    ensures
        c == digit_char_spec(d as nat),
{
    if d == 0 {
        '0'
    } else if d == 1 {
        '1'
    } else if d == 2 {
        '2'
    } else if d == 3 {
        '3'
    } else if d == 4 {
        '4'
    } else if d == 5 {
        '5'
    } else if d == 6 {
        '6'
    } else if d == 7 {
        '7'
    } else if d == 8 {
        '8'
    } else {
        '9'
    }
}

/// Appends the decimal representation of `n` to `s`.
pub fn push_decimal(s: &mut String, n: usize)
    ensures
        final(s)@ == old(s)@ + decimal_rep(n as nat),
    decreases n,
{
    if n >= 10 {
        push_decimal(s, n / 10);
    }
    push_char(s, digit_char(n % 10));
}

/// Every character of a decimal representation is a decimal digit.
pub proof fn lemma_decimal_rep_digits(n: nat)
    ensures
        forall|i: int| 0 <= i < decimal_rep(n).len() ==> is_decimal_digit(#[trigger] decimal_rep(n)[i]),
    decreases n,
{
    if n >= 10 {
        lemma_decimal_rep_digits(n / 10);
        let pre = decimal_rep(n / 10);
        assert forall|i: int| 0 <= i < decimal_rep(n).len() implies is_decimal_digit(
            #[trigger] decimal_rep(n)[i],
        ) by {
            if i < pre.len() {
                assert(decimal_rep(n)[i] == pre[i]);
            } else {
                assert(decimal_rep(n)[i] == digit_char_spec(n % 10));
            }
        }
    }
}

/// Digits grow one per factor of ten: up to four characters below ten thousand.
pub proof fn lemma_decimal_rep_len(n: nat)
    ensures
        n < 10 ==> decimal_rep(n).len() == 1,
        n < 100 ==> decimal_rep(n).len() <= 2,
        n < 1000 ==> decimal_rep(n).len() <= 3,
        n < 10000 ==> decimal_rep(n).len() <= 4,
    decreases n,
{
    if n >= 10 {
        lemma_decimal_rep_len(n / 10);
    }
}

pub open spec fn is_decimal_digit(c: char) -> bool {
    c == '0' || c == '1' || c == '2' || c == '3' || c == '4' || c == '5' || c == '6' || c == '7'
        || c == '8' || c == '9'
}

pub open spec fn is_lower_hex_digit(c: char) -> bool {
    is_decimal_digit(c) || c == 'a' || c == 'b' || c == 'c' || c == 'd' || c == 'e' || c == 'f'
}

pub open spec fn is_upper_hex_digit(c: char) -> bool {
    c == 'A' || c == 'B' || c == 'C' || c == 'D' || c == 'E' || c == 'F'
}

pub open spec fn is_hex_digit(c: char) -> bool {
    is_lower_hex_digit(c) || is_upper_hex_digit(c)
}

pub(crate) fn hex_digit(c: char) -> (r: bool)
    ensures
        r == is_hex_digit(c),
{
    ('0' <= c && c <= '9') || ('a' <= c && c <= 'f') || ('A' <= c && c <= 'F')
}

/// ASCII whitespace, the characters the deployment request checks ignore
/// at either end of a field.
pub open spec fn is_space(c: char) -> bool {
    c == ' ' || c == '\t' || c == '\n' || c == '\r'
}

pub(crate) fn space(c: char) -> (r: bool)
    ensures
        r == is_space(c),
{
    c == ' ' || c == '\t' || c == '\n' || c == '\r'
}

/// The sequence with leading and trailing whitespace removed.
pub open spec fn trimmed(s: Seq<char>) -> Seq<char>
    decreases s.len(),
{
    if s.len() == 0 {
        s
    } else if is_space(s[0]) {
        trimmed(s.subrange(1, s.len() as int))
    } else if is_space(s[s.len() - 1]) {
        trimmed(s.subrange(0, s.len() - 1))
    } else {
        s
    }
}

proof fn lemma_trimmed_is_core(s: Seq<char>, a: int, b: int)
    requires
        0 <= a <= b < s.len(),
        !is_space(s[a]),
        !is_space(s[b]),
        forall|j: int| 0 <= j < a ==> is_space(#[trigger] s[j]),
        forall|j: int| b < j < s.len() ==> is_space(#[trigger] s[j]),
    ensures
        trimmed(s) == s.subrange(a, b + 1),
    decreases s.len(),
{
    if a == 0 && b == s.len() - 1 {
        assert(s.subrange(0, s.len() as int) =~= s);
    } else if is_space(s[0]) {
        let t = s.subrange(1, s.len() as int);
        assert(a >= 1);
        assert(!is_space(t[a - 1]));
        assert(!is_space(t[b - 1]));
        assert forall|j: int| 0 <= j < a - 1 implies is_space(#[trigger] t[j]) by {
            assert(t[j] == s[j + 1]);
        }
        assert forall|j: int| b - 1 < j < t.len() implies is_space(#[trigger] t[j]) by {
            assert(t[j] == s[j + 1]);
        }
        lemma_trimmed_is_core(t, a - 1, b - 1);
        assert(t.subrange(a - 1, b) =~= s.subrange(a, b + 1));
    } else {
        assert(a == 0);
        assert(b < s.len() - 1);
        assert(is_space(s[s.len() - 1]));
        let t = s.subrange(0, s.len() - 1);
        assert(!is_space(t[a]));
        assert(!is_space(t[b]));
        assert forall|j: int| b < j < t.len() implies is_space(#[trigger] t[j]) by {
            assert(t[j] == s[j]);
        }
        lemma_trimmed_is_core(t, a, b);
        assert(t.subrange(a, b + 1) =~= s.subrange(a, b + 1));
    }
}

/// The string with leading and trailing whitespace removed.
pub fn trim_string(s: &str) -> (r: String)
    ensures
        r@ == trimmed(s@),
{
    let n = s.unicode_len();
    let mut a: usize = 0;
    while a < n && space(s.get_char(a))
        invariant
            0 <= a <= n,
            n == s@.len(),
            forall|j: int| 0 <= j < a ==> is_space(#[trigger] s@[j]),
        decreases n - a,
    {
        a += 1;
    }
    if a == n {
        proof {
            lemma_trimmed_blank(s@);
        }
        return String::new();
    }
    let mut b: usize = n - 1;
    while b > a && space(s.get_char(b))
        invariant
            a <= b < n,
            n == s@.len(),
            forall|j: int| b < j < n ==> is_space(#[trigger] s@[j]),
        decreases b,
    {
        b -= 1;
    }
    proof {
        lemma_trimmed_is_core(s@, a as int, b as int);
    }
    let core = s.substring_char(a, b + 1);
    String::from_str(core)
}

/// A sequence is blank when every character is whitespace.
pub open spec fn is_blank(s: Seq<char>) -> bool {
    forall|i: int| 0 <= i < s.len() ==> is_space(#[trigger] s[i])
}

proof fn lemma_trimmed_blank(s: Seq<char>)
    ensures
        is_blank(s) <==> trimmed(s).len() == 0,
    decreases s.len(),
{
    if s.len() == 0 {
    } else if is_space(s[0]) {
        let t = s.subrange(1, s.len() as int);
        lemma_trimmed_blank(t);
        if is_blank(t) {
            assert forall|i: int| 0 <= i < s.len() implies is_space(#[trigger] s[i]) by {
                if i >= 1 {
                    assert(t[i - 1] == s[i]);
                }
            }
        }
        if is_blank(s) {
            assert forall|i: int| 0 <= i < t.len() implies is_space(#[trigger] t[i]) by {
                assert(t[i] == s[i + 1]);
            }
        }
    } else if is_space(s[s.len() - 1]) {
        lemma_trimmed_blank(s.subrange(0, s.len() - 1));
        if is_blank(s.subrange(0, s.len() - 1)) {
            assert(is_space(s[s.len() - 1]));
            assert forall|i: int| 0 <= i < s.len() implies is_space(#[trigger] s[i]) by {
                if i < s.len() - 1 {
                    assert(s.subrange(0, s.len() - 1)[i] == s[i]);
                }
            }
        }
        if is_blank(s) {
            assert forall|i: int| 0 <= i < s.len() - 1 implies is_space(
                #[trigger] s.subrange(0, s.len() - 1)[i],
            ) by {
                assert(s.subrange(0, s.len() - 1)[i] == s[i]);
            }
        }
    } else {
        assert(!is_blank(s));
        assert(trimmed(s).len() > 0);
    }
}

/// Whether `s` begins with `p`.
pub open spec fn starts_with(s: Seq<char>, p: Seq<char>) -> bool {
    s.len() >= p.len() && s.subrange(0, p.len() as int) == p
}

/// Character-by-character prefix test.
pub fn str_starts_with(s: &str, p: &str) -> (r: bool)
    ensures
        r == starts_with(s@, p@),
{
    let n = s.unicode_len();
    let m = p.unicode_len();
    if n < m {
        return false;
    }
    let mut i: usize = 0;
    while i < m
        invariant
            0 <= i <= m,
            m <= n,
            n == s@.len(),
            m == p@.len(),
            forall|j: int| 0 <= j < i ==> s@[j] == p@[j],
        decreases m - i,
    {
        if s.get_char(i) != p.get_char(i) {
            assert(s@.subrange(0, p@.len() as int)[i as int] != p@[i as int]);
            return false;
        }
        i += 1;
    }
    proof {
        assert(s@.subrange(0, p@.len() as int) =~= p@);
    }
    true
}

/// ASCII lower-casing of one character; other characters pass through.
pub open spec fn ascii_lower_char(c: char) -> char {
    if 'A' <= c && c <= 'Z' {
        ((c as u8) + 32) as char
    } else {
        c
    }
}

/// ASCII lower-casing of a string.
pub open spec fn ascii_lower(s: Seq<char>) -> Seq<char> {
    Seq::new(s.len(), |i: int| ascii_lower_char(s[i]))
}

/// Lower-cases the ASCII letters of a string, leaving the rest unchanged.
pub fn to_ascii_lower(s: &str) -> (r: String)
    ensures
        r@ == ascii_lower(s@),
{
    let n = s.unicode_len();
    let mut out = String::new();
    let mut i: usize = 0;
    while i < n
        invariant
            0 <= i <= n,
            n == s@.len(),
            out@.len() == i,
            forall|j: int| 0 <= j < i ==> out@[j] == ascii_lower_char(s@[j]),
        decreases n - i,
    {
        let c = s.get_char(i);
        if 'A' <= c && c <= 'Z' {
            let b = (c as u8) + 32;
            push_char(&mut out, b as char);
        } else {
            push_char(&mut out, c);
        }
        i += 1;
    }
    proof {
        assert(out@ =~= ascii_lower(s@));
    }
    out
}

/// Character-by-character string equality.
pub fn str_eq(a: &str, b: &str) -> (r: bool)
    ensures
        r == (a@ == b@),
{
    let n = a.unicode_len();
    let m = b.unicode_len();
    if n != m {
        proof {
            assert(a@.len() != b@.len());
        }
        return false;
    }
    let mut i: usize = 0;
    while i < n
        invariant
            0 <= i <= n,
            n == a@.len(),
            n == b@.len(),
            forall|j: int| 0 <= j < i ==> a@[j] == b@[j],
        decreases n - i,
    {
        if a.get_char(i) != b.get_char(i) {
            return false;
        }
        i += 1;
    }
    proof {
        assert(a@ =~= b@);
    }
    true
}

/// Whether the string holds only whitespace (or nothing): the emptiness
/// test that every trimmed-field check of the deployment request uses.
pub fn blank(s: &str) -> (r: bool)
    ensures
        r == is_blank(s@),
        r == (trimmed(s@).len() == 0),
{
    let n = s.unicode_len();
    let mut i: usize = 0;
    while i < n
        invariant
            0 <= i <= n,
            n == s@.len(),
            forall|j: int| 0 <= j < i ==> is_space(#[trigger] s@[j]),
        decreases n - i,
    {
        if !space(s.get_char(i)) {
            proof {
                lemma_trimmed_blank(s@);
            }
            return false;
        }
        i += 1;
    }
    proof {
        lemma_trimmed_blank(s@);
    }
    true
}

} // verus!
