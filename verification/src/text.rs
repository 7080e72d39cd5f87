//! Text primitives: characters of a string, comparison, trimming, decimal integers.

use vstd::arithmetic::power::pow;
use vstd::prelude::*;
use vstd::string::*;

verus! {

/// Appending a character to a string: `String::push` adds it at the end and changes nothing
/// else.
pub assume_specification[ String::push ](s: &mut String, c: char)
    ensures
        final(s)@ == old(s)@.push(c),
;

/// The characters that Unicode gives the property White_Space.
pub open spec fn white_space(c: char) -> bool {
    ||| '\u{9}' <= c <= '\u{d}'
    ||| c == ' '
    ||| c == '\u{85}'
    ||| c == '\u{a0}'
    ||| c == '\u{1680}'
    ||| '\u{2000}' <= c <= '\u{200a}'
    ||| c == '\u{2028}'
    ||| c == '\u{2029}'
    ||| c == '\u{202f}'
    ||| c == '\u{205f}'
    ||| c == '\u{3000}'
}

/// `char::is_whitespace` tells the characters with the Unicode property White_Space, which
/// [`white_space`] lists.
pub assume_specification[ char::is_whitespace ](c: char) -> (r: bool)
    ensures
        r == white_space(c),
;

/// The characters of a string, in order.
pub fn chars_of(s: &str) -> (v: Vec<char>)
    ensures
        v@ == s@,
{
    let mut v: Vec<char> = Vec::new();
    for c in it: s.chars()
        invariant
            it.seq() == s@,
            v@ == s@.take(it.index() as int),
    {
        v.push(c);
    }
    v
}

/// The string made of the given characters.
pub fn string_of(v: &[char]) -> (s: String)
    ensures
        s@ == v@,
{
    let mut s: String = String::new();
    let mut i: usize = 0;
    while i < v.len()
        invariant
            i <= v@.len(),
            s@ == v@.take(i as int),
        decreases v@.len() - i,
    {
        s.push(v[i]);
        i += 1;
    }
    s
}

/// Whether two strings hold the same characters.
pub fn same_text(a: &str, b: &str) -> (r: bool)
    ensures
        r == (a@ == b@),
{
    let x: Vec<char> = chars_of(a);
    let y: Vec<char> = chars_of(b);
    if x.len() != y.len() {
        return false;
    }
    let mut i: usize = 0;
    while i < x.len()
        invariant
            x@.len() == y@.len(),
            x@ == a@,
            y@ == b@,
            i <= x@.len(),
            forall|j: int| 0 <= j < i ==> x@[j] == y@[j],
        decreases x@.len() - i,
    {
        if x[i] != y[i] {
            return false;
        }
        i += 1;
    }
    assert(a@ =~= b@);
    true
}

/// The text without its leading white space.
pub open spec fn trimmed_start(s: Seq<char>) -> Seq<char>
    decreases s.len(),
{
    if s.len() > 0 && white_space(s.first()) {
        trimmed_start(s.drop_first())
    } else {
        s
    }
}

/// The text without its trailing white space.
pub open spec fn trimmed_end(s: Seq<char>) -> Seq<char>
    decreases s.len(),
{
    if s.len() > 0 && white_space(s.last()) {
        trimmed_end(s.drop_last())
    } else {
        s
    }
}

/// The text without the white space around it.
pub open spec fn trimmed(s: Seq<char>) -> Seq<char> {
    trimmed_end(trimmed_start(s))
}

/// Cut the white space off both ends of a text.
pub fn trim_chars(v: &[char]) -> (r: &[char])
    ensures
        r@ == trimmed(v@),
{
    let mut i: usize = 0;
    proof {
        assert(v@.skip(0) =~= v@);
    }
    while i < v.len() && v[i].is_whitespace()
        invariant
            i <= v@.len(),
            trimmed_start(v@.skip(i as int)) == trimmed_start(v@),
        decreases v@.len() - i,
    {
        proof {
            assert(v@.skip(i as int).drop_first() =~= v@.skip(i + 1));
        }
        i += 1;
    }
    let ghost rest = v@.skip(i as int);
    assert(rest == trimmed_start(v@));
    let mut j: usize = v.len();
    proof {
        assert(v@.subrange(i as int, j as int) =~= rest);
    }
    while i < j && v[j - 1].is_whitespace()
        invariant
            i <= j <= v@.len(),
            trimmed_end(v@.subrange(i as int, j as int)) == trimmed_end(rest),
        decreases j - i,
    {
        proof {
            assert(v@.subrange(i as int, j as int).drop_last() =~= v@.subrange(i as int, j - 1));
        }
        j -= 1;
    }
    vstd::slice::slice_subrange(v, i, j)
}

/// The character of a decimal digit.
pub open spec fn digit_char(d: nat) -> char {
    (48 + d) as char
}

/// A number in decimal, without leading zeros.
pub open spec fn decimal(n: nat) -> Seq<char>
    decreases n,
{
    if n < 10 {
        seq![digit_char(n)]
    } else {
        decimal(n / 10).push(digit_char(n % 10))
    }
}

/// Write a number in decimal.
pub fn decimal_text(n: u64) -> (s: String)
    ensures
        s@ == decimal(n as nat),
    decreases n,
{
    let digit: u8 = 48 + (n % 10) as u8;
    let mut s: String = if n < 10 {
        String::new()
    } else {
        decimal_text(n / 10)
    };
    s.push(digit as char);
    proof {
        assert(s@ =~= decimal(n as nat));
    }
    s
}

/// A signed number in decimal.
pub open spec fn signed_text(n: int) -> Seq<char> {
    if n < 0 {
        seq!['-'] + decimal((-n) as nat)
    } else {
        decimal(n as nat)
    }
}

/// Write a signed number in decimal.
pub fn signed_decimal_text(n: i64) -> (s: String)
    ensures
        s@ == signed_text(n as int),
{
    if n >= 0 {
        decimal_text(n as u64)
    } else {
        let mut s: String = String::new();
        s.push('-');
        s.append(decimal_text((-(n as i128)) as u64).as_str());
        proof {
            assert(s@ =~= seq!['-'] + decimal((-n) as nat));
        }
        s
    }
}

/// Whether every character is a decimal digit.
pub open spec fn all_digits(s: Seq<char>) -> bool {
    forall|i: int| 0 <= i < s.len() ==> '0' <= #[trigger] s[i] <= '9'
}

/// The number that a run of decimal digits stands for.
pub open spec fn digits_value(s: Seq<char>) -> nat
    decreases s.len(),
{
    if s.len() == 0 {
        0
    } else {
        digits_value(s.drop_last()) * 10 + (s.last() as int - 48) as nat
    }
}

/// The number that a text writes as an optional sign and at least one decimal digit.
pub open spec fn signed_decimal(s: Seq<char>) -> Option<int> {
    let signed = s.len() > 0 && (s[0] == '+' || s[0] == '-');
    let digits = if signed { s.skip(1) } else { s };
    if digits.len() == 0 || !all_digits(digits) {
        None
    } else if signed && s[0] == '-' {
        Some(-(digits_value(digits) as int))
    } else {
        Some(digits_value(digits) as int)
    }
}

/// The 32-bit number that a text writes in decimal, if it writes one.
pub open spec fn decimal_i32(s: Seq<char>) -> Option<i32> {
    match signed_decimal(s) {
        Some(v) => if i32::MIN <= v <= i32::MAX {
            Some(v as i32)
        } else {
            None
        },
        None => None,
    }
}

/// Read a 32-bit number in decimal, with an optional sign and no other characters.
pub fn parse_i32(s: &[char]) -> (r: Option<i32>)
    ensures
        r == decimal_i32(s@),
{
    let n: usize = s.len();
    let signed: bool = n > 0 && (s[0] == '+' || s[0] == '-');
    let start: usize = if signed {
        1
    } else {
        0
    };
    if start == n {
        return None;
    }
    let ghost digits = s@.skip(start as int);
    proof {
        if !signed {
            assert(digits =~= s@);
        }
    }
    // Saturates one past the largest magnitude, so that no input overflows it.
    let limit: i64 = 0x1_0000_0000;
    let mut value: i64 = 0;
    let mut i: usize = start;
    while i < n
        invariant
            n == s@.len(),
            start <= i <= n,
            start == (if signed { 1int } else { 0int }),
            signed == (n > 0 && (s@[0] == '+' || s@[0] == '-')),
            digits == s@.skip(start as int),
            !signed ==> digits == s@,
            digits.len() > 0,
            limit == 0x1_0000_0000,
            0 <= value <= limit,
            all_digits(digits.take(i - start)),
            value == limit ==> digits_value(digits.take(i - start)) >= limit,
            value < limit ==> value == digits_value(digits.take(i - start)),
        decreases n - i,
    {
        let c: char = s[i];
        proof {
            assert(digits[i - start] == c);
        }
        if c < '0' || c > '9' {
            return None;
        }
        let next: i64 = value * 10 + (c as u32 - 48) as i64;
        proof {
            let before = digits.take(i - start);
            let after = digits.take(i + 1 - start);
            assert(after.drop_last() =~= before);
            assert(after.last() == c);
            assert(digits_value(after) == digits_value(before) * 10 + (c as int - 48));
        }
        value = if next > limit {
            limit
        } else {
            next
        };
        i += 1;
    }
    proof {
        assert(digits.take(n - start) =~= digits);
    }
    let result: i64 = if signed && s[0] == '-' {
        -value
    } else {
        value
    };
    if result < i32::MIN as i64 || result > i32::MAX as i64 {
        None
    } else {
        Some(result as i32)
    }
}

/// What leading white space is cut off.
proof fn lemma_trimmed_start(s: Seq<char>) -> (a: int)
    ensures
        0 <= a <= s.len(),
        trimmed_start(s) == s.skip(a),
        forall|i: int| 0 <= i < a ==> white_space(#[trigger] s[i]),
        a < s.len() ==> !white_space(s[a]),
    decreases s.len(),
{
    if s.len() > 0 && white_space(s.first()) {
        let t = s.drop_first();
        let b = lemma_trimmed_start(t);
        assert(t.skip(b) =~= s.skip(b + 1));
        assert forall|i: int| 0 <= i < b + 1 implies white_space(#[trigger] s[i]) by {
            if i > 0 {
                assert(t[i - 1] == s[i]);
            }
        }
        if b < t.len() {
            assert(t[b] == s[b + 1]);
        }
        b + 1
    } else {
        assert(s.skip(0) =~= s);
        0
    }
}

/// What trailing white space is cut off.
proof fn lemma_trimmed_end(s: Seq<char>) -> (b: int)
    ensures
        0 <= b <= s.len(),
        trimmed_end(s) == s.take(b),
        forall|i: int| b <= i < s.len() ==> white_space(#[trigger] s[i]),
        b > 0 ==> !white_space(s[b - 1]),
    decreases s.len(),
{
    if s.len() > 0 && white_space(s.last()) {
        let t = s.drop_last();
        let b = lemma_trimmed_end(t);
        assert(t.take(b) =~= s.take(b));
        assert forall|i: int| b <= i < s.len() implies white_space(#[trigger] s[i]) by {
            if i < t.len() {
                assert(t[i] == s[i]);
            }
        }
        if b > 0 {
            assert(t[b - 1] == s[b - 1]);
        }
        b
    } else {
        assert(s.take(s.len() as int) =~= s);
        s.len() as int
    }
}

/// Trimming cuts off white space at both ends and nothing else: a text that neither begins nor
/// ends with white space is what is left of it whatever white space stands around it.
pub proof fn law_trimming_leaves_what_stands_between(
    before: Seq<char>,
    text: Seq<char>,
    behind: Seq<char>,
)
    requires
        forall|i: int| 0 <= i < before.len() ==> white_space(#[trigger] before[i]),
        forall|i: int| 0 <= i < behind.len() ==> white_space(#[trigger] behind[i]),
        text.len() > 0 ==> !white_space(text.first()) && !white_space(text.last()),
    ensures
        trimmed(before + text + behind) == text,
{
    let s = before + text + behind;
    let a = lemma_trimmed_start(s);
    let rest = s.skip(a);
    let b = lemma_trimmed_end(rest);
    if text.len() > 0 {
        assert(s[before.len() as int] == text.first());
        assert(a <= before.len());
        if a < before.len() {
            assert(s[a] == before[a]);
        }
        assert(rest =~= text + behind);
        assert(rest[text.len() - 1] == text.last());
        assert(b >= text.len());
        if b > text.len() {
            assert(rest[b - 1] == behind[b - 1 - text.len()]);
        }
        assert(rest.take(b) =~= text);
    } else {
        assert forall|i: int| 0 <= i < s.len() implies white_space(#[trigger] s[i]) by {
            if i < before.len() {
                assert(s[i] == before[i]);
            } else {
                assert(s[i] == behind[i - before.len()]);
            }
        }
        if a < s.len() {
            assert(white_space(s[a]));
        }
        assert(rest.take(b) =~= text);
    }
}

/// Digits count by their place: ten times as much for each digit behind them.
pub proof fn law_digits_count_by_their_place(a: Seq<char>, b: Seq<char>, c: char)
    requires
        '0' <= c <= '9',
    ensures
        digits_value(a + b) == digits_value(a) * pow(10, b.len()) + digits_value(b),
        digits_value(seq![c]) == c as int - '0' as int,
        digits_value(Seq::empty()) == 0,
    decreases b.len(),
{
    reveal(pow);
    assert(seq![c].drop_last() =~= Seq::empty());
    reveal_with_fuel(digits_value, 2);
    if b.len() == 0 {
        assert(a + b =~= a);
    } else {
        law_digits_count_by_their_place(a, b.drop_last(), c);
        assert((a + b).drop_last() =~= a + b.drop_last());
        let p = pow(10, (b.len() - 1) as nat);
        let v = digits_value(a) as int;
        assert(pow(10, b.len()) == 10 * p);
        assert((v * p) * 10 == v * (10 * p)) by (nonlinear_arith);
    }
}

/// A number that is written can be read again: its text is made of digits, which count up to
/// it, and does not begin with a zero unless it is one digit long. So no two numbers share a
/// text, and no number has two.
pub proof fn law_written_numbers_read_back(n: nat)
    ensures
        decimal(n).len() > 0,
        forall|i: int| 0 <= i < decimal(n).len() ==> '0' <= #[trigger] decimal(n)[i] <= '9',
        digits_value(decimal(n)) == n,
        n >= 10 ==> decimal(n)[0] != '0' && decimal(n).len() > 1,
        n < 10 ==> decimal(n).len() == 1,
        n > 0 ==> decimal(n)[0] != '0',
    decreases n,
{
    if n >= 10 {
        law_written_numbers_read_back(n / 10);
        assert(decimal(n).drop_last() =~= decimal(n / 10));
        assert(decimal(n)[0] == decimal(n / 10)[0]);
        assert forall|i: int| 0 <= i < decimal(n).len() implies '0' <= #[trigger] decimal(n)[i]
            <= '9' by {
            if i < decimal(n / 10).len() {
                assert(decimal(n)[i] == decimal(n / 10)[i]);
            }
        }
    } else {
        assert(decimal(n).drop_last() =~= Seq::empty());
        reveal_with_fuel(digits_value, 2);
    }
}

/// A negative number is written as its magnitude behind a minus sign, any other one as its
/// magnitude alone.
pub proof fn law_signs_stand_in_front(n: int)
    ensures
        n >= 0 ==> signed_text(n) == decimal(n as nat),
        n < 0 ==> signed_text(n).len() > 0 && signed_text(n)[0] == '-' && signed_text(n).skip(1)
            == decimal((-n) as nat),
{
    if n < 0 {
        assert(signed_text(n).skip(1) =~= decimal((-n) as nat));
    }
}

/// Digits are read as the number that they count up to, with or without a plus sign in front,
/// and as its negative behind a minus sign, wherever that fits 32 bits.
pub proof fn law_digits_are_read(digits: Seq<char>)
    requires
        digits.len() > 0,
        forall|i: int| 0 <= i < digits.len() ==> '0' <= #[trigger] digits[i] <= '9',
    ensures
        ({
            let v = digits_value(digits);
            &&& v <= i32::MAX ==> decimal_i32(digits) == Some(v as i32)
            &&& v > i32::MAX ==> decimal_i32(digits) is None
            &&& decimal_i32(seq!['+'] + digits) == decimal_i32(digits)
            &&& v <= 0x8000_0000 ==> decimal_i32(seq!['-'] + digits) == Some((-v) as i32)
            &&& v > 0x8000_0000 ==> decimal_i32(seq!['-'] + digits) is None
        }),
{
    assert((seq!['+'] + digits).skip(1) =~= digits);
    assert((seq!['-'] + digits).skip(1) =~= digits);
    assert((seq!['+'] + digits)[0] == '+');
    assert((seq!['-'] + digits)[0] == '-');
    assert('0' <= digits[0] <= '9');
    assert(all_digits(digits));
}

/// Nothing else is read as a number: every character of a text that is one is a digit, save for
/// a sign in front, and there is at least one digit.
pub proof fn law_only_digits_are_read(s: Seq<char>)
    requires
        decimal_i32(s) is Some,
    ensures
        s.len() > 0,
        '0' <= s.last() <= '9',
        forall|i: int| 1 <= i < s.len() ==> '0' <= #[trigger] s[i] <= '9',
        s[0] == '+' || s[0] == '-' || '0' <= s[0] <= '9',
{
    let signed = s[0] == '+' || s[0] == '-';
    let digits = if signed {
        s.skip(1)
    } else {
        s
    };
    assert(all_digits(digits));
    assert forall|i: int| 1 <= i < s.len() implies '0' <= #[trigger] s[i] <= '9' by {
        if signed {
            assert(digits[i - 1] == s[i]);
        } else {
            assert(digits[i] == s[i]);
        }
    }
    if !signed {
        assert('0' <= digits[0] <= '9');
    }
}

/// Whatever is trimmed away is white space.
pub(crate) proof fn lemma_trimmed_away(s: Seq<char>, i: int)
    requires
        0 <= i < s.len(),
        !white_space(s[i]),
    ensures
        exists|k: int| 0 <= k < trimmed(s).len() && #[trigger] trimmed(s)[k] == s[i],
{
    let a = lemma_trimmed_start(s);
    let rest = s.skip(a);
    let b = lemma_trimmed_end(rest);
    assert(a <= i);
    assert(rest[i - a] == s[i]);
    assert(i - a < b);
    assert(trimmed(s)[i - a] == s[i]);
}

} // verus!
