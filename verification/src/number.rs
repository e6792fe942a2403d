//! The decimal literals that stand for a gauge's value.
//!
//! A value is carried as the text that denotes it; this module says which
//! texts denote a number. The grammar is the one that Rust's standard
//! library documents for parsing a double:
//!
//! ```text
//! Number   ::= Sign? ( 'inf' | 'infinity' | 'nan' | Decimal )
//! Decimal  ::= Mantissa Exponent?
//! Mantissa ::= Digit+ | Digit+ '.' Digit* | Digit* '.' Digit+
//! Exponent ::= 'e' Sign? Digit+
//! Sign     ::= [+-]
//! Digit    ::= [0-9]
//! ```
//!
//! with letters taken in either case.

use vstd::prelude::*;
use vstd::slice::slice_subrange;
use vstd::string::StringExecFns;

verus! {

/// An ASCII decimal digit.
pub open spec fn is_digit(c: char) -> bool {
    0x30 <= c as u32 <= 0x39
}

/// `+` or `-`.
pub open spec fn is_sign(c: char) -> bool {
    c == '+' || c == '-'
}

/// `c` is the lower-case ASCII letter `lower`, or its upper-case form.
pub open spec fn is_letter(c: char, lower: char) -> bool {
    c == lower || c as u32 + 32 == lower as u32
}

/// Every element of `s` is a digit.
pub open spec fn all_digits(s: Seq<char>) -> bool {
    forall|i: int| 0 <= i < s.len() ==> is_digit(#[trigger] s[i])
}

/// `s` spells the lower-case word `word`, in any mix of cases.
pub open spec fn is_word(s: Seq<char>, word: Seq<char>) -> bool {
    s.len() == word.len() && forall|i: int| 0 <= i < s.len() ==> is_letter(#[trigger] s[i], word[i])
}

/// `inf`, `infinity` or `nan`.
pub open spec fn is_special(s: Seq<char>) -> bool {
    ||| is_word(s, seq!['i', 'n', 'f'])
    ||| is_word(s, seq!['n', 'a', 'n'])
    ||| is_word(s, seq!['i', 'n', 'f', 'i', 'n', 'i', 't', 'y'])
}

/// Digits with at most one point among them, and at least one digit.
pub open spec fn is_mantissa(m: Seq<char>) -> bool {
    exists|d: int|
        0 <= d <= m.len() && all_digits(#[trigger] m.take(d)) && if d == m.len() {
            d >= 1
        } else {
            m[d] == '.' && all_digits(m.skip(d + 1)) && m.len() >= 2
        }
}

/// The letter `e`, an optional sign, and at least one digit.
pub open spec fn is_exponent(e: Seq<char>) -> bool {
    &&& e.len() >= 2
    &&& is_letter(e[0], 'e')
    &&& if is_sign(e[1]) {
        e.len() >= 3 && all_digits(e.skip(2))
    } else {
        all_digits(e.skip(1))
    }
}

/// A mantissa, followed or not by an exponent.
pub open spec fn is_decimal(s: Seq<char>) -> bool {
    exists|k: int|
        0 <= k <= s.len() && is_mantissa(#[trigger] s.take(k)) && (k == s.len() || is_exponent(
            s.skip(k),
        ))
}

/// A number without a sign.
pub open spec fn is_unsigned(s: Seq<char>) -> bool {
    is_special(s) || is_decimal(s)
}

/// `s` denotes a number.
pub open spec fn is_number(s: Seq<char>) -> bool {
    is_unsigned(s) || (s.len() > 0 && is_sign(s[0]) && is_unsigned(s.skip(1)))
}

/// The literal of zero.
pub open spec fn zero() -> Seq<char> {
    seq!['0']
}

/// The literal of one.
pub open spec fn one() -> Seq<char> {
    seq!['1']
}

/// The literal of the value that is no number.
pub open spec fn not_a_number() -> Seq<char> {
    seq!['N', 'a', 'N']
}

/// A single digit is a number.
pub proof fn lemma_digit_is_number(c: char)
    requires
        is_digit(c),
    ensures
        is_number(seq![c]),
{
    let s = seq![c];
    assert(s.take(1) =~= s);
    assert(all_digits(s.take(1)));
    assert(is_mantissa(s.take(1)));
    assert(is_decimal(s));
}

/// The three literals that stand for a missing or undecidable reading are
/// numbers.
pub proof fn lemma_literals_are_numbers()
    ensures
        is_number(zero()),
        is_number(one()),
        is_number(not_a_number()),
{
    lemma_digit_is_number('0');
    lemma_digit_is_number('1');
    assert(is_word(not_a_number(), seq!['n', 'a', 'n']));
}

/// A mantissa holds digits and points only.
pub proof fn lemma_mantissa_chars(m: Seq<char>)
    requires
        is_mantissa(m),
    ensures
        m.len() > 0,
        forall|i: int| 0 <= i < m.len() ==> is_digit(#[trigger] m[i]) || m[i] == '.',
{
    let d = choose|d: int|
        0 <= d <= m.len() && all_digits(#[trigger] m.take(d)) && if d == m.len() {
            d >= 1
        } else {
            m[d] == '.' && all_digits(m.skip(d + 1)) && m.len() >= 2
        };
    assert forall|i: int| 0 <= i < m.len() implies is_digit(#[trigger] m[i]) || m[i] == '.' by {
        if i < d {
            assert(m.take(d)[i] == m[i]);
        } else if i > d {
            assert(m.skip(d + 1)[i - d - 1] == m[i]);
        }
    }
}

/// A number is not empty and holds only digits, signs, points and ASCII
/// letters: in particular no whitespace, colon or line feed.
pub proof fn lemma_number_chars(s: Seq<char>)
    requires
        is_number(s),
    ensures
        s.len() > 0,
        forall|i: int|
            0 <= i < s.len() ==> {
                let n = (#[trigger] s[i]) as u32;
                n == 0x2B || n == 0x2D || n == 0x2E || 0x30 <= n <= 0x39 || 0x41 <= n <= 0x5A
                    || 0x61 <= n <= 0x7A
            },
{
    if is_unsigned(s) {
        lemma_unsigned_chars(s);
    } else {
        let t = s.skip(1);
        lemma_unsigned_chars(t);
        assert forall|i: int| 0 <= i < s.len() implies {
            let n = (#[trigger] s[i]) as u32;
            n == 0x2B || n == 0x2D || n == 0x2E || 0x30 <= n <= 0x39 || 0x41 <= n <= 0x5A || 0x61
                <= n <= 0x7A
        } by {
            if i > 0 {
                assert(t[i - 1] == s[i]);
            }
        }
    }
}

/// An unsigned number is not empty and holds only digits, signs, points and
/// ASCII letters.
pub proof fn lemma_unsigned_chars(s: Seq<char>)
    requires
        is_unsigned(s),
    ensures
        s.len() > 0,
        forall|i: int|
            0 <= i < s.len() ==> {
                let n = (#[trigger] s[i]) as u32;
                n == 0x2B || n == 0x2D || n == 0x2E || 0x30 <= n <= 0x39 || 0x41 <= n <= 0x5A
                    || 0x61 <= n <= 0x7A
            },
{
    if is_special(s) {
        let a = seq!['i', 'n', 'f'];
        let b = seq!['n', 'a', 'n'];
        let c = seq!['i', 'n', 'f', 'i', 'n', 'i', 't', 'y'];
        assert forall|i: int| 0 <= i < s.len() implies {
            let n = (#[trigger] s[i]) as u32;
            0x41 <= n <= 0x5A || 0x61 <= n <= 0x7A
        } by {
            if is_word(s, a) {
                assert(is_letter(s[i], a[i]));
            } else if is_word(s, b) {
                assert(is_letter(s[i], b[i]));
            } else {
                assert(is_letter(s[i], c[i]));
            }
        }
    } else {
        let k = choose|k: int|
            0 <= k <= s.len() && is_mantissa(#[trigger] s.take(k)) && (k == s.len()
                || is_exponent(s.skip(k)));
        lemma_mantissa_chars(s.take(k));
        assert forall|i: int| 0 <= i < s.len() implies {
            let n = (#[trigger] s[i]) as u32;
            n == 0x2B || n == 0x2D || n == 0x2E || 0x30 <= n <= 0x39 || 0x41 <= n <= 0x5A || 0x61
                <= n <= 0x7A
        } by {
            let e = s.skip(k);
            if i < k {
                assert(s.take(k)[i] == s[i]);
            } else if i == k {
                assert(e[0] == s[i]);
            } else if i == k + 1 {
                assert(e[1] == s[i]);
                if !is_sign(e[1]) {
                    assert(e.skip(1)[0] == e[1]);
                }
            } else {
                if is_sign(e[1]) {
                    assert(e.skip(2)[i - k - 2] == s[i]);
                } else {
                    assert(e.skip(1)[i - k - 1] == s[i]);
                }
            }
        }
    }
}

/// Tells whether `c` is a decimal digit.
pub fn digit(c: char) -> (b: bool)
    ensures
        b == is_digit(c),
{
    let n: u32 = c as u32;
    0x30 <= n && n <= 0x39
}

/// Tells whether `c` is the letter `lower` in either case.
pub fn letter(c: char, lower: char) -> (b: bool)
    ensures
        b == is_letter(c, lower),
{
    c == lower || (c as u32 <= 0x10FFFF && c as u32 + 32 == lower as u32)
}

/// The end of the run of digits that starts at `from`; `from` itself where
/// it lies beyond the end of `s`.
pub fn digits_end(s: &[char], from: usize) -> (end: usize)
    ensures
        from <= end,
        from <= s@.len() ==> end <= s@.len() && all_digits(s@.subrange(from as int, end as int)),
        from > s@.len() ==> end == from,
        end < s@.len() ==> !is_digit(s@[end as int]),
{
    let n: usize = s.len();
    let mut i: usize = from;
    if from > n {
        return from;
    }
    while i < n && digit(s[i])
        invariant
            n == s@.len(),
            from <= i <= n,
            all_digits(s@.subrange(from as int, i as int)),
        decreases n - i,
    {
        assert forall|j: int| 0 <= j < i + 1 - from implies is_digit(
            #[trigger] s@.subrange(from as int, i + 1)[j],
        ) by {
            if j < i - from {
                assert(s@.subrange(from as int, i as int)[j] == s@[from + j]);
            }
        }
        i = i + 1;
    }
    i
}

/// Tells whether `s` spells `word`.
pub fn spells(s: &[char], word: &[char]) -> (b: bool)
    ensures
        b == is_word(s@, word@),
{
    let n: usize = s.len();
    if n != word.len() {
        return false;
    }
    let mut i: usize = 0;
    while i < n
        invariant
            n == s@.len(),
            n == word@.len(),
            i <= n,
            forall|j: int| 0 <= j < i ==> is_letter(#[trigger] s@[j], word@[j]),
        decreases n - i,
    {
        if !letter(s[i], word[i]) {
            return false;
        }
        i = i + 1;
    }
    true
}

/// Tells whether `s` is one of the three words for a value that is no
/// finite number.
pub fn special(s: &[char]) -> (b: bool)
    ensures
        b == is_special(s@),
{
    let inf: Vec<char> = vec!['i', 'n', 'f'];
    let nan: Vec<char> = vec!['n', 'a', 'n'];
    let infinity: Vec<char> = vec!['i', 'n', 'f', 'i', 'n', 'i', 't', 'y'];
    assert(inf@ =~= seq!['i', 'n', 'f']);
    assert(nan@ =~= seq!['n', 'a', 'n']);
    assert(infinity@ =~= seq!['i', 'n', 'f', 'i', 'n', 'i', 't', 'y']);
    spells(s, inf.as_slice()) || spells(s, nan.as_slice()) || spells(s, infinity.as_slice())
}

/// Tells whether `m` is a mantissa.
pub fn mantissa(m: &[char]) -> (b: bool)
    ensures
        b == is_mantissa(m@),
{
    let n: usize = m.len();
    let d: usize = digits_end(m, 0);
    assert(m@.subrange(0, d as int) =~= m@.take(d as int));
    let b = if d == n {
        d >= 1
    } else if m[d] == '.' {
        let e: usize = digits_end(m, d + 1);
        assert(e == n ==> m@.subrange(d + 1, e as int) =~= m@.skip(d + 1));
        proof {
            if e < n && all_digits(m@.skip(d + 1)) {
                assert(m@.skip(d + 1)[e - d - 1] == m@[e as int]);
            }
        }
        e == n && n >= 2
    } else {
        false
    };
    proof {
        if is_mantissa(m@) {
            let w = choose|w: int|
                0 <= w <= m@.len() && all_digits(#[trigger] m@.take(w)) && if w == m@.len() {
                    w >= 1
                } else {
                    m@[w] == '.' && all_digits(m@.skip(w + 1)) && m@.len() >= 2
                };
            if w < d {
                assert(m@.take(d as int)[w] == m@[w]);
            }
            if d < w {
                assert(m@.take(w)[d as int] == m@[d as int]);
            }
            assert(w == d);
        }
    }
    b
}

/// Tells whether `e` is an exponent.
pub fn exponent(e: &[char]) -> (b: bool)
    ensures
        b == is_exponent(e@),
{
    let n: usize = e.len();
    if n < 2 || !letter(e[0], 'e') {
        return false;
    }
    let c: char = e[1];
    let start: usize = if c == '+' || c == '-' {
        2
    } else {
        1
    };
    let end: usize = digits_end(e, start);
    proof {
        if end == n {
            assert(e@.subrange(start as int, end as int) =~= e@.skip(start as int));
        } else if all_digits(e@.skip(start as int)) {
            assert(e@.skip(start as int)[end - start] == e@[end as int]);
        }
    }
    end == n && start < n
}

/// Tells whether `s` is a mantissa with or without an exponent.
pub fn decimal(s: &[char]) -> (b: bool)
    ensures
        b == is_decimal(s@),
{
    let n: usize = s.len();
    let mut k: usize = 0;
    while k < n && !letter(s[k], 'e')
        invariant
            n == s@.len(),
            k <= n,
            forall|j: int| 0 <= j < k ==> !is_letter(#[trigger] s@[j], 'e'),
        decreases n - k,
    {
        k = k + 1;
    }
    let head = slice_subrange(s, 0, k);
    let tail = slice_subrange(s, k, n);
    assert(head@ =~= s@.take(k as int));
    assert(tail@ =~= s@.skip(k as int));
    let b = mantissa(head) && (k == n || exponent(tail));
    proof {
        if is_decimal(s@) {
            let w = choose|w: int|
                0 <= w <= s@.len() && is_mantissa(#[trigger] s@.take(w)) && (w == s@.len()
                    || is_exponent(s@.skip(w)));
            lemma_mantissa_chars(s@.take(w));
            if k < w {
                assert(s@.take(w)[k as int] == s@[k as int]);
            }
            if w < k {
                assert(s@.skip(w)[0] == s@[w]);
            }
            assert(w == k);
        }
    }
    b
}

/// Tells whether `s` denotes a number.
pub fn number(s: &[char]) -> (b: bool)
    ensures
        b == is_number(s@),
{
    if special(s) || decimal(s) {
        return true;
    }
    let n: usize = s.len();
    if n == 0 {
        return false;
    }
    let c: char = s[0];
    if c == '+' || c == '-' {
        let rest = slice_subrange(s, 1, n);
        assert(rest@ =~= s@.skip(1));
        special(rest) || decimal(rest)
    } else {
        false
    }
}

/// The text `0`.
pub fn zero_text() -> (r: String)
    ensures
        r@ == zero(),
        is_number(r@),
{
    proof {
        reveal_strlit("0");
        lemma_literals_are_numbers();
    }
    let r = String::from_str("0");
    assert(r@ =~= zero());
    r
}

/// The text `1`.
pub fn one_text() -> (r: String)
    ensures
        r@ == one(),
        is_number(r@),
{
    proof {
        reveal_strlit("1");
        lemma_literals_are_numbers();
    }
    let r = String::from_str("1");
    assert(r@ =~= one());
    r
}

/// The text `NaN`.
pub fn not_a_number_text() -> (r: String)
    ensures
        r@ == not_a_number(),
        is_number(r@),
{
    proof {
        reveal_strlit("NaN");
        lemma_literals_are_numbers();
    }
    let r = String::from_str("NaN");
    assert(r@ =~= not_a_number());
    r
}

} // verus!
