//! Lexical grammar of the numeric strings a station report may carry:
//! unsigned and signed decimal integers, and finite decimal numerals.
//! The decoder accepts a report only when every numeric field matches
//! its grammar, so everything downstream can rely on it.

use vstd::prelude::*;

verus! {

/// Whether a character is an ASCII decimal digit.
pub open spec fn is_digit(c: char) -> bool {
    48 <= (c as u32) && (c as u32) <= 57
}

/// Numeric value of an ASCII decimal digit.
pub open spec fn digit_val(c: char) -> nat
    recommends
        is_digit(c),
{
    ((c as u32) - 48) as nat
}

/// Every character of the sequence is an ASCII decimal digit.
pub open spec fn all_digits(s: Seq<char>) -> bool {
    forall|i: int| 0 <= i < s.len() ==> is_digit(#[trigger] s[i])
}

/// The number denoted by a sequence of decimal digits (most significant first).
pub open spec fn digits_val(s: Seq<char>) -> nat
    decreases s.len(),
{
    if s.len() == 0 {
        0
    } else {
        digits_val(s.drop_last()) * 10 + digit_val(s.last())
    }
}

/// Appending a digit multiplies the value by ten and adds the digit.
pub proof fn lemma_digits_val_push(s: Seq<char>, c: char)
    ensures
        digits_val(s.push(c)) == digits_val(s) * 10 + digit_val(c),
{
    assert(s.push(c).drop_last() =~= s);
    assert(s.push(c).last() == c);
}

/// A digit string denotes at least as much as any of its prefixes.
pub proof fn lemma_digits_val_take(s: Seq<char>, k: int)
    requires
        0 <= k <= s.len(),
    ensures
        digits_val(s.take(k)) <= digits_val(s),
    decreases s.len(),
{
    if k == s.len() {
        assert(s.take(k) =~= s);
    } else {
        lemma_digits_val_take(s.drop_last(), k);
        assert(s.drop_last().take(k) =~= s.take(k));
    }
}

/// The sequence with one leading `+` or `-` sign removed.
pub open spec fn skip_sign(s: Seq<char>) -> Seq<char> {
    if s.len() > 0 && (s[0] == '+' || s[0] == '-') {
        s.drop_first()
    } else {
        s
    }
}

/// The sequence with one leading `+` sign removed (`-` is not a sign here).
pub open spec fn skip_plus(s: Seq<char>) -> Seq<char> {
    if s.len() > 0 && s[0] == '+' {
        s.drop_first()
    } else {
        s
    }
}

/// Whether the numeral begins with a `-` sign.
pub open spec fn is_negative(s: Seq<char>) -> bool {
    s.len() > 0 && s[0] == '-'
}

/// The unsigned integer a string denotes: an optional `+` sign followed by
/// at least one digit. `None` when the string is not of that form.
pub open spec fn parse_uint(s: Seq<char>) -> Option<nat> {
    let b = skip_plus(s);
    if b.len() > 0 && all_digits(b) {
        Some(digits_val(b))
    } else {
        None
    }
}

/// The signed integer a string denotes: an optional `+` or `-` sign followed
/// by at least one digit.
pub open spec fn parse_int(s: Seq<char>) -> Option<int> {
    let b = skip_sign(s);
    if b.len() > 0 && all_digits(b) {
        if is_negative(s) {
            Some(-(digits_val(b) as int))
        } else {
            Some(digits_val(b) as int)
        }
    } else {
        None
    }
}

/// `parse_uint` restricted to values that fit in `u64`.
pub open spec fn parse_u64_spec(s: Seq<char>) -> Option<u64> {
    match parse_uint(s) {
        Some(v) => if v <= u64::MAX { Some(v as u64) } else { None },
        None => None,
    }
}

/// `parse_uint` restricted to values that fit in `u32`.
pub open spec fn parse_u32_spec(s: Seq<char>) -> Option<u32> {
    match parse_uint(s) {
        Some(v) => if v <= u32::MAX { Some(v as u32) } else { None },
        None => None,
    }
}

/// `parse_uint` restricted to values that fit in `u16`.
pub open spec fn parse_u16_spec(s: Seq<char>) -> Option<u16> {
    match parse_uint(s) {
        Some(v) => if v <= u16::MAX { Some(v as u16) } else { None },
        None => None,
    }
}

/// `parse_uint` restricted to values that fit in `u8`.
pub open spec fn parse_u8_spec(s: Seq<char>) -> Option<u8> {
    match parse_uint(s) {
        Some(v) => if v <= u8::MAX { Some(v as u8) } else { None },
        None => None,
    }
}

/// `parse_int` restricted to values that fit in `i32`.
pub open spec fn parse_i32_spec(s: Seq<char>) -> Option<i32> {
    match parse_int(s) {
        Some(v) => if i32::MIN <= v <= i32::MAX { Some(v as i32) } else { None },
        None => None,
    }
}

/// A finite decimal numeral without its sign: digits with at most one
/// decimal point somewhere among them, and at least one digit.
pub open spec fn is_decimal_body(b: Seq<char>) -> bool {
    (b.len() > 0 && all_digits(b)) || (exists|k: int|
        0 <= k < b.len() && (#[trigger] b[k]) == '.' && b.len() >= 2 && all_digits(b.take(k))
            && all_digits(b.skip(k + 1)))
}

/// A finite decimal numeral: an optional sign, then digits with at most one
/// decimal point and at least one digit (`7`, `-3.25`, `+.5`, `12.`).
pub open spec fn is_decimal(s: Seq<char>) -> bool {
    is_decimal_body(skip_sign(s))
}

/// Parses the digit run `s[start..]` as an unsigned integer no greater than
/// `bound`; `None` when the run is empty, holds a non-digit, or denotes a
/// larger number.
fn parse_digits(s: &str, start: usize, bound: u64) -> (r: Option<u64>)
    requires
        start <= s@.len(),
    ensures
        ({
            let b = s@.subrange(start as int, s@.len() as int);
            match r {
                Some(v) => b.len() > 0 && all_digits(b) && digits_val(b) == v && v <= bound,
                None => !(b.len() > 0 && all_digits(b) && digits_val(b) <= bound),
            }
        }),
{
    let ghost b = s@.subrange(start as int, s@.len() as int);
    let n = s.unicode_len();
    if start == n {
        return None;
    }
    let mut i: usize = start;
    let mut acc: u64 = 0;
    while i < n
        invariant
            start <= i <= n,
            start < n,
            n == s@.len(),
            b == s@.subrange(start as int, n as int),
            acc <= bound,
            all_digits(s@.subrange(start as int, i as int)),
            digits_val(s@.subrange(start as int, i as int)) == acc,
        decreases n - i,
    {
        let c = s.get_char(i);
        let u = c as u32;
        if u < 48 || u > 57 {
            proof {
                assert(b[i - start] == s@[i as int]);
                assert(!is_digit(b[i - start]));
            }
            return None;
        }
        let d: u64 = (u - 48) as u64;
        proof {
            assert(s@.subrange(start as int, i as int).push(s@[i as int]) =~= s@.subrange(
                start as int,
                i + 1,
            ));
            lemma_digits_val_push(s@.subrange(start as int, i as int), s@[i as int]);
            assert(digits_val(s@.subrange(start as int, i + 1 as int)) == acc * 10 + d);
        }
        if acc > bound / 10 || (acc == bound / 10 && d > bound % 10) {
            proof {
                assert(bound == (bound / 10) * 10 + bound % 10);
                assert(acc * 10 + d > bound);
                assert(s@.subrange(start as int, i + 1 as int) =~= b.take(i + 1 - start));
                lemma_digits_val_take(b, i + 1 - start);
                assert(digits_val(b) > bound);
            }
            return None;
        }
        proof {
            assert(bound == (bound / 10) * 10 + bound % 10);
            assert(acc * 10 + d <= bound);
        }
        acc = acc * 10 + d;
        i = i + 1;
    }
    proof {
        assert(b =~= s@.subrange(start as int, i as int));
    }
    Some(acc)
}

/// Parses an unsigned 64-bit integer: an optional `+` sign and digits.
pub fn parse_u64(s: &str) -> (r: Option<u64>)
    ensures
        r == parse_u64_spec(s@),
{
    let n = s.unicode_len();
    let start: usize = if n > 0 && s.get_char(0) == '+' {
        1
    } else {
        0
    };
    proof {
        assert(skip_plus(s@) =~= s@.subrange(start as int, s@.len() as int));
    }
    parse_digits(s, start, u64::MAX)
}

/// Parses an unsigned 32-bit integer: an optional `+` sign and digits.
pub fn parse_u32(s: &str) -> (r: Option<u32>)
    ensures
        r == parse_u32_spec(s@),
{
    let n = s.unicode_len();
    let start: usize = if n > 0 && s.get_char(0) == '+' {
        1
    } else {
        0
    };
    proof {
        assert(skip_plus(s@) =~= s@.subrange(start as int, s@.len() as int));
    }
    match parse_digits(s, start, 0xffff_ffff) {
        Some(v) => Some(v as u32),
        None => None,
    }
}

/// Parses an unsigned 16-bit integer: an optional `+` sign and digits.
pub fn parse_u16(s: &str) -> (r: Option<u16>)
    ensures
        r == parse_u16_spec(s@),
{
    let n = s.unicode_len();
    let start: usize = if n > 0 && s.get_char(0) == '+' {
        1
    } else {
        0
    };
    proof {
        assert(skip_plus(s@) =~= s@.subrange(start as int, s@.len() as int));
    }
    match parse_digits(s, start, 0xffff) {
        Some(v) => Some(v as u16),
        None => None,
    }
}

/// Parses an unsigned 8-bit integer: an optional `+` sign and digits.
pub fn parse_u8(s: &str) -> (r: Option<u8>)
    ensures
        r == parse_u8_spec(s@),
{
    let n = s.unicode_len();
    let start: usize = if n > 0 && s.get_char(0) == '+' {
        1
    } else {
        0
    };
    proof {
        assert(skip_plus(s@) =~= s@.subrange(start as int, s@.len() as int));
    }
    match parse_digits(s, start, 0xff) {
        Some(v) => Some(v as u8),
        None => None,
    }
}

/// Parses a signed 32-bit integer: an optional `+` or `-` sign and digits.
pub fn parse_i32(s: &str) -> (r: Option<i32>)
    ensures
        r == parse_i32_spec(s@),
{
    let n = s.unicode_len();
    let mut neg = false;
    let mut start: usize = 0;
    if n > 0 {
        let c = s.get_char(0);
        if c == '+' {
            start = 1;
        } else if c == '-' {
            neg = true;
            start = 1;
        }
    }
    proof {
        assert(skip_sign(s@) =~= s@.subrange(start as int, s@.len() as int));
        assert(neg == is_negative(s@));
    }
    let bound: u64 = if neg {
        2147483648
    } else {
        2147483647
    };
    match parse_digits(s, start, bound) {
        Some(v) => if neg {
            Some((-(v as i64)) as i32)
        } else {
            Some(v as i32)
        },
        None => None,
    }
}

/// Checks whether a string is a finite decimal numeral.
pub fn check_decimal(s: &str) -> (r: bool)
    ensures
        r == is_decimal(s@),
{
    let n = s.unicode_len();
    let mut start: usize = 0;
    if n > 0 {
        let c = s.get_char(0);
        if c == '+' || c == '-' {
            start = 1;
        }
    }
    let ghost b = s@.subrange(start as int, n as int);
    proof {
        assert(skip_sign(s@) =~= b);
    }
    let mut i: usize = start;
    let mut has_dot = false;
    let mut dot_i: usize = 0;
    let mut ndig: usize = 0;
    while i < n
        invariant
            start <= i <= n,
            n == s@.len(),
            b == s@.subrange(start as int, n as int),
            skip_sign(s@) == b,
            has_dot ==> start <= dot_i < i && s@[dot_i as int] == '.',
            forall|j: int|
                #![trigger s@[j]]
                start <= j < i && !(has_dot && j == dot_i) ==> is_digit(s@[j]),
            ndig + (if has_dot { 1int } else { 0int }) == i - start,
        decreases n - i,
    {
        let c = s.get_char(i);
        let u = c as u32;
        if 48 <= u && u <= 57 {
            ndig = ndig + 1;
        } else if c == '.' && !has_dot {
            has_dot = true;
            dot_i = i;
        } else {
            proof {
                let j0: int = i - start;
                assert(b[j0] == s@[i as int]);
                assert(!is_digit(b[j0]));
                assert forall|k: int|
                    !(0 <= k < b.len() && (#[trigger] b[k]) == '.' && b.len() >= 2 && all_digits(
                        b.take(k),
                    ) && all_digits(b.skip(k + 1))) by {
                    if 0 <= k < b.len() && b[k] == '.' && all_digits(b.take(k)) && all_digits(
                        b.skip(k + 1),
                    ) {
                        if has_dot {
                            let j1: int = dot_i - start;
                            assert(b[j1] == s@[dot_i as int]);
                            if k < j0 {
                                assert(b.skip(k + 1)[j0 - k - 1] == b[j0]);
                            } else if k > j0 {
                                assert(b.take(k)[j0] == b[j0]);
                            } else {
                                assert(b.take(k)[j1] == b[j1]);
                            }
                        } else {
                            if k < j0 {
                                assert(b.skip(k + 1)[j0 - k - 1] == b[j0]);
                            } else if k > j0 {
                                assert(b.take(k)[j0] == b[j0]);
                            }
                        }
                    }
                }
                assert(!is_decimal_body(b));
            }
            return false;
        }
        i = i + 1;
    }
    if ndig == 0 {
        proof {
            if has_dot {
                assert(b.len() == 1);
                assert(b[0] == s@[dot_i as int]);
                assert(!is_digit(b[0]));
            } else {
                assert(b.len() == 0);
            }
            assert(!is_decimal_body(b));
        }
        return false;
    }
    proof {
        if has_dot {
            let k: int = dot_i - start;
            assert(b[k] == s@[dot_i as int]);
            assert(b.len() >= 2);
            assert forall|j: int| 0 <= j < b.take(k).len() implies is_digit(
                #[trigger] b.take(k)[j],
            ) by {
                if 0 <= j < k {
                    assert(b.take(k)[j] == s@[j + start]);
                }
            }
            assert forall|j: int| 0 <= j < b.skip(k + 1).len() implies is_digit(
                #[trigger] b.skip(k + 1)[j],
            ) by {
                if 0 <= j < b.len() - k - 1 {
                    assert(b.skip(k + 1)[j] == s@[j + k + 1 + start]);
                }
            }
            assert(is_decimal_body(b));
        } else {
            assert forall|j: int| 0 <= j < b.len() implies is_digit(#[trigger] b[j]) by {
                if 0 <= j < b.len() {
                    assert(b[j] == s@[j + start]);
                }
            }
            assert(b.len() > 0);
            assert(is_decimal_body(b));
        }
    }
    true
}

/// A string that the decoder has checked to be a finite decimal numeral.
/// The text is kept exactly as the device sent it; no rounding has occurred.
#[derive(Debug, Clone, PartialEq, Eq)]
pub struct Numeral {
    text: String,
}

impl View for Numeral {
    type V = Seq<char>;

    closed spec fn view(&self) -> Seq<char> {
        self.text@
    }
}

impl Numeral {
    /// Every `Numeral` holds a finite decimal numeral; constructors enforce it.
    pub open spec fn wf(&self) -> bool {
        is_decimal(self@)
    }

    /// Accepts the string only when it is a finite decimal numeral.
    pub fn new(text: String) -> (r: Option<Numeral>)
        ensures
            r is Some <==> is_decimal(text@),
            r is Some ==> r->Some_0@ == text@ && r->Some_0.wf(),
    {
        if check_decimal(text.as_str()) {
            Some(Numeral { text })
        } else {
            None
        }
    }

    /// The numeral's text.
    pub fn as_str(&self) -> (r: &str)
        ensures
            r@ == self@,
    {
        self.text.as_str()
    }
}

} // verus!
