//! Unsigned decimal numbers as text: reading one and writing one.

use crate::text::chars_of;
use vstd::prelude::*;

verus! {

/// The value of a decimal digit; `None` for every other character.
pub open spec fn digit_of(c: char) -> Option<nat> {
    if c == '0' {
        Some(0)
    } else if c == '1' {
        Some(1)
    } else if c == '2' {
        Some(2)
    } else if c == '3' {
        Some(3)
    } else if c == '4' {
        Some(4)
    } else if c == '5' {
        Some(5)
    } else if c == '6' {
        Some(6)
    } else if c == '7' {
        Some(7)
    } else if c == '8' {
        Some(8)
    } else if c == '9' {
        Some(9)
    } else {
        None
    }
}

/// The digit that stands for a value below ten.
pub open spec fn digit_char(d: nat) -> char
    recommends
        d < 10,
{
    if d == 0 {
        '0'
    } else if d == 1 {
        '1'
    } else if d == 2 {
        '2'
    } else if d == 3 {
        '3'
    } else if d == 4 {
        '4'
    } else if d == 5 {
        '5'
    } else if d == 6 {
        '6'
    } else if d == 7 {
        '7'
    } else if d == 8 {
        '8'
    } else {
        '9'
    }
}

/// Whether `s` holds decimal digits only.
pub open spec fn all_digits(s: Seq<char>) -> bool {
    forall|i: int| 0 <= i < s.len() ==> (#[trigger] digit_of(s[i])) is Some
}

/// The number that a run of decimal digits writes, the most significant
/// digit first.
pub open spec fn decimal_value(digits: Seq<char>) -> nat
    decreases digits.len(),
{
    if digits.len() == 0 {
        0
    } else {
        decimal_value(digits.drop_last()) * 10 + digit_of(digits.last()).unwrap()
    }
}

/// `s` without the plus sign that may stand in front of the digits.
pub open spec fn unsigned_body(s: Seq<char>) -> Seq<char> {
    if s.len() > 0 && s[0] == '+' {
        s.skip(1)
    } else {
        s
    }
}

/// The number that `s` writes, where it is at most `max`: an optional plus
/// sign, then one or more decimal digits, and nothing else. `None` for every
/// other text and for a number above `max`.
pub open spec fn parsed_decimal(s: Seq<char>, max: u64) -> Option<u64> {
    let body = unsigned_body(s);
    if body.len() > 0 && all_digits(body) && decimal_value(body) <= max {
        Some(decimal_value(body) as u64)
    } else {
        None
    }
}

/// The decimal digits of `n`, without a sign and without leading zeros.
pub open spec fn decimal_digits(n: nat) -> Seq<char>
    decreases n,
{
    if n < 10 {
        seq![digit_char(n)]
    } else {
        decimal_digits(n / 10).push(digit_char(n % 10))
    }
}

/// A run of digits is worth at least as much as each of its prefixes.
pub proof fn lemma_decimal_value_prefix(digits: Seq<char>, k: int)
    requires
        0 <= k <= digits.len(),
    ensures
        decimal_value(digits.take(k)) <= decimal_value(digits),
    decreases digits.len() - k,
{
    if k == digits.len() {
        assert(digits.take(k) =~= digits);
    } else {
        let front = digits.drop_last();
        assert(front.take(k) =~= digits.take(k));
        lemma_decimal_value_prefix(front, k);
    }
}

/// The digits of a number are digits, do not start with a sign, and write
/// that number.
pub proof fn lemma_decimal_digits_value(n: nat)
    ensures
        decimal_digits(n).len() > 0,
        all_digits(decimal_digits(n)),
        decimal_digits(n)[0] != '+',
        decimal_value(decimal_digits(n)) == n,
    decreases n,
{
    let digits = decimal_digits(n);
    if n < 10 {
        assert(digits.drop_last() =~= Seq::<char>::empty());
        assert(digits.last() == digit_char(n));
        assert(digit_of(digit_char(n)) == Some(n));
        assert(decimal_value(digits.drop_last()) == 0);
        assert(decimal_value(digits) == 0 * 10 + n);
    } else {
        let front = decimal_digits(n / 10);
        lemma_decimal_digits_value(n / 10);
        assert(digits.drop_last() =~= front);
        assert(digits.last() == digit_char(n % 10));
        assert(digit_of(digit_char(n % 10)) == Some(n % 10));
        assert(decimal_value(digits) == decimal_value(front) * 10 + n % 10);
        assert(digits[0] == front[0]);
        assert forall|i: int| 0 <= i < digits.len() implies (#[trigger] digit_of(digits[i]))
            is Some by {
            if i < front.len() {
                assert(digits[i] == front[i]);
            }
        }
    }
}

/// Reading what was written gives the number back, where the bound lets it
/// through.
pub proof fn lemma_decimal_round_trip(n: u64, max: u64)
    requires
        n <= max,
    ensures
        parsed_decimal(decimal_digits(n as nat), max) == Some(n),
{
    lemma_decimal_digits_value(n as nat);
}

/// Returns the value of a decimal digit.
fn digit_value(c: char) -> (d: Option<u64>)
    ensures
        match d {
            Some(v) => digit_of(c) == Some(v as nat),
            None => digit_of(c) is None,
        },
{
    if c == '0' {
        Some(0)
    } else if c == '1' {
        Some(1)
    } else if c == '2' {
        Some(2)
    } else if c == '3' {
        Some(3)
    } else if c == '4' {
        Some(4)
    } else if c == '5' {
        Some(5)
    } else if c == '6' {
        Some(6)
    } else if c == '7' {
        Some(7)
    } else if c == '8' {
        Some(8)
    } else if c == '9' {
        Some(9)
    } else {
        None
    }
}

/// Returns the digit that stands for a value below ten, as a text of one
/// character.
fn digit_text(d: u64) -> (s: &'static str)
    requires
        d < 10,
    ensures
        s@ == seq![digit_char(d as nat)],
{
    proof {
        reveal_strlit("0");
        reveal_strlit("1");
        reveal_strlit("2");
        reveal_strlit("3");
        reveal_strlit("4");
        reveal_strlit("5");
        reveal_strlit("6");
        reveal_strlit("7");
        reveal_strlit("8");
        reveal_strlit("9");
    }
    let s: &'static str = if d == 0 {
        "0"
    } else if d == 1 {
        "1"
    } else if d == 2 {
        "2"
    } else if d == 3 {
        "3"
    } else if d == 4 {
        "4"
    } else if d == 5 {
        "5"
    } else if d == 6 {
        "6"
    } else if d == 7 {
        "7"
    } else if d == 8 {
        "8"
    } else {
        "9"
    };
    assert(s@ =~= seq![digit_char(d as nat)]);
    s
}

/// Reads an unsigned decimal number that is at most `max`: an optional plus
/// sign, then one or more digits. Anything else reads as `None`: an empty
/// text, a sign alone, a minus sign, a blank, a digit of another script, a
/// number above `max`.
pub fn parse_decimal(text: &str, max: u64) -> (r: Option<u64>)
    ensures
        r == parsed_decimal(text@, max),
{
    let v = chars_of(text);
    let n: usize = v.len();
    let start: usize = if n > 0 && v[0] == '+' {
        1
    } else {
        0
    };
    let ghost body = unsigned_body(text@);
    assert(body =~= v@.skip(start as int));
    if start == n {
        return None;
    }
    let mut acc: u64 = 0;
    let mut i: usize = start;
    assert(body.take(0) =~= Seq::<char>::empty());
    while i < n
        invariant
            v@ == text@,
            n == v.len(),
            start <= i <= n,
            start < n,
            body == v@.skip(start as int),
            body == unsigned_body(text@),
            forall|k: int| 0 <= k < i - start ==> (#[trigger] digit_of(body[k])) is Some,
            acc == decimal_value(body.take(i - start)),
            acc <= max,
        decreases n - i,
    {
        let ghost k = i - start;
        proof {
            assert(body[k] == v@[i as int]);
            assert(body.take(k + 1).drop_last() =~= body.take(k));
            assert(body.take(k + 1).last() == body[k]);
            lemma_decimal_value_prefix(body, k + 1);
        }
        let d: u64 = match digit_value(v[i]) {
            Some(d) => d,
            None => {
                return None;
            },
        };
        if acc > max / 10 {
            return None;
        }
        if d > max - acc * 10 {
            return None;
        }
        acc = acc * 10 + d;
        i += 1;
    }
    proof {
        assert(body.take(n - start) =~= body);
    }
    Some(acc)
}

/// Writes `n` in decimal digits, without a sign and without leading zeros.
pub fn decimal_text(n: u64) -> (s: String)
    ensures
        s@ == decimal_digits(n as nat),
    decreases n,
{
    if n < 10 {
        digit_text(n).to_owned()
    } else {
        let mut s = decimal_text(n / 10);
        s.append(digit_text(n % 10));
        s
    }
}

} // verus!
