//! Small operations on text that the rest of the crate shares: comparison,
//! conversion between `str` and `Vec<char>`, and the decimal form of an integer.

use vstd::prelude::*;
use vstd::string::*;

verus! {

/// Appending one character to a `String`, as std documents `String::push`:
/// the text afterwards is the text before followed by `c`.
pub assume_specification[ String::push ](s: &mut String, c: char)
    ensures
        final(s)@ == old(s)@.push(c),
;

/// The character that stands for the digit `d`, for `d` from 0 to 9.
pub open spec fn digit(d: int) -> char {
    ('0' as int + d) as char
}

/// The digits of `n` in base ten, most significant first, without leading
/// zeros; zero is the single digit `0`.
pub open spec fn digits(n: nat) -> Seq<char>
    decreases n,
{
    if n < 10 {
        seq![digit(n as int)]
    } else {
        digits(n / 10).push(digit((n % 10) as int))
    }
}

/// The decimal form of `i`: its digits, after a minus sign when `i` is negative.
pub open spec fn decimal(i: int) -> Seq<char> {
    if i < 0 {
        seq!['-'] + digits((-i) as nat)
    } else {
        digits(i as nat)
    }
}

/// The digits of the part of a number that is still to be written: none when
/// nothing is left.
spec fn leading_digits(rest: nat) -> Seq<char> {
    if rest == 0 {
        Seq::empty()
    } else {
        digits(rest)
    }
}

/// A number has at least one digit, exactly one when it is below ten, and
/// none of its digits is a minus sign.
pub proof fn lemma_digits_shape(n: nat)
    ensures
        digits(n).len() >= 1,
        digits(n).len() == 1 <==> n < 10,
        forall|i: int| 0 <= i < digits(n).len() ==> digits(n)[i] != '-',
    decreases n,
{
    if n >= 10 {
        lemma_digits_shape(n / 10);
    }
}

/// Two numbers with the same digits are the same number.
pub proof fn lemma_digits_injective(a: nat, b: nat)
    requires
        digits(a) == digits(b),
    ensures
        a == b,
    decreases a,
{
    lemma_digits_shape(a);
    lemma_digits_shape(b);
    if a >= 10 {
        let da = digits(a / 10).push(digit((a % 10) as int));
        let db = digits(b / 10).push(digit((b % 10) as int));
        assert(da.drop_last() =~= digits(a / 10));
        assert(db.drop_last() =~= digits(b / 10));
        assert(da.last() == digit((a % 10) as int));
        assert(db.last() == digit((b % 10) as int));
        lemma_digits_injective(a / 10, b / 10);
    } else {
        assert(digits(a)[0] == digit(a as int));
        assert(digits(b)[0] == digit(b as int));
    }
}

/// Two integers with the same decimal form are the same integer: comparing
/// the written forms compares the integers.
pub proof fn lemma_decimal_injective(a: int, b: int)
    requires
        decimal(a) == decimal(b),
    ensures
        a == b,
{
    lemma_digits_shape((-a) as nat);
    lemma_digits_shape((-b) as nat);
    lemma_digits_shape(a as nat);
    lemma_digits_shape(b as nat);
    if a < 0 {
        assert(decimal(a)[0] == '-');
        if b < 0 {
            assert((seq!['-'] + digits((-a) as nat)).subrange(1, decimal(a).len() as int) =~= digits(
                (-a) as nat,
            ));
            assert((seq!['-'] + digits((-b) as nat)).subrange(1, decimal(b).len() as int) =~= digits(
                (-b) as nat,
            ));
            lemma_digits_injective((-a) as nat, (-b) as nat);
        } else {
            assert(decimal(b)[0] != '-');
        }
    } else {
        assert(decimal(a)[0] != '-');
        if b < 0 {
            assert(decimal(b)[0] == '-');
        } else {
            lemma_digits_injective(a as nat, b as nat);
        }
    }
}

/// Whether two texts hold the same characters.
pub fn same_text(a: &str, b: &str) -> (same: bool)
    ensures
        same == (a@ == b@),
{
    let left = a.to_owned();
    let right = b.to_owned();
    left == right
}

/// The characters of `s`, in order.
pub fn chars_of(s: &str) -> (chars: Vec<char>)
    ensures
        chars@ == s@,
{
    let mut chars: Vec<char> = Vec::new();
    for c in it: s.chars()
        invariant
            it.seq() == s@,
            chars@ == s@.take(it.index() as int),
    {
        assert(s@.take(it.index() + 1) =~= s@.take(it.index() as int).push(c));
        chars.push(c);
    }
    assert(s@.take(s@.len() as int) =~= s@);
    chars
}

/// The text made of `chars`, in order.
pub fn text_of(chars: &Vec<char>) -> (text: String)
    ensures
        text@ == chars@,
{
    let mut text = String::new();
    let mut i: usize = 0;
    while i < chars.len()
        invariant
            i <= chars.len(),
            text@ == chars@.take(i as int),
        decreases chars.len() - i,
    {
        assert(chars@.take(i + 1) =~= chars@.take(i as int).push(chars@[i as int]));
        text.push(chars[i]);
        i = i + 1;
    }
    assert(chars@.take(chars@.len() as int) =~= chars@);
    text
}

/// `head` followed by `tail`.
pub fn joined(head: &str, tail: &str) -> (text: String)
    ensures
        text@ == head@ + tail@,
{
    head.to_owned().concat(tail)
}

fn digit_char(d: u64) -> (c: char)
    requires
        d < 10,
    ensures
        c == digit(d as int),
{
    if d == 0 {
        '0'
    } else if d == 1 {
        '1'
    } else if d == 2 {
        '2'
    } else if d == 3 {
        '3'
    } else if d == 4 {
        '4'
    } else if d == 5 {
        '5'
    } else if d == 6 {
        '6'
    } else if d == 7 {
        '7'
    } else if d == 8 {
        '8'
    } else {
        '9'
    }
}

/// The distance of `n` from zero.
fn magnitude(n: i64) -> (m: u64)
    ensures
        m == if n < 0 { -(n as int) } else { n as int },
{
    if n < 0 {
        let below: i64 = -(n + 1);
        below as u64 + 1
    } else {
        n as u64
    }
}

/// The decimal form of `n`, as `to_string` writes an integer: `-12`, `0`, `305`.
pub fn decimal_text(n: i64) -> (text: String)
    ensures
        text@ == decimal(n as int),
{
    let whole: u64 = magnitude(n);
    let mut rest: u64 = whole / 10;
    let mut written: Vec<char> = Vec::new();
    written.push(digit_char(whole % 10));
    assert(digits(whole as nat) =~= leading_digits(rest as nat) + written@);
    while rest > 0
        invariant
            digits(whole as nat) == leading_digits(rest as nat) + written@,
        decreases rest,
    {
        let c = digit_char(rest % 10);
        let ghost before = written@;
        written.insert(0, c);
        assert(leading_digits(rest as nat) + before =~= leading_digits((rest / 10) as nat)
            + written@);
        rest = rest / 10;
    }
    if n < 0 {
        written.insert(0, '-');
    }
    assert(written@ =~= decimal(n as int));
    text_of(&written)
}

} // verus!
