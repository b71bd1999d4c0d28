//! Decimal text of integers, as it appears in plan and result lines.
use vstd::prelude::*;
use vstd::string::StringExecFns;

verus! {

/// The character that writes the digit `d`, for `0 <= d <= 9`.
pub open spec fn digit_char(d: int) -> char {
    if d == 0 {
        '0'
    } else if d == 1 {
        '1'
    } else if d == 2 {
        '2'
    } else if d == 3 {
        '3'
    } else if d == 4 {
        '4'
    } else if d == 5 {
        '5'
    } else if d == 6 {
        '6'
    } else if d == 7 {
        '7'
    } else if d == 8 {
        '8'
    } else {
        '9'
    }
}

/// The digits of `n` in base ten, most significant first, without leading
/// zeros; zero is written `0`.
pub open spec fn digits(n: nat) -> Seq<char>
    decreases n,
{
    if n < 10 {
        seq![digit_char(n as int)]
    } else {
        digits(n / 10).push(digit_char((n % 10) as int))
    }
}

/// The decimal text of an integer: its digits, after a `-` when it is
/// negative.
pub open spec fn decimal(i: int) -> Seq<char> {
    if i < 0 {
        seq!['-'] + digits((-i) as nat)
    } else {
        digits(i as nat)
    }
}

fn digit_str(d: u64) -> (s: &'static str)
    requires
        d < 10,
    ensures
        s@ == seq![digit_char(d as int)],
{
    proof {
        reveal_strlit("0");
        reveal_strlit("1");
        reveal_strlit("2");
        reveal_strlit("3");
        reveal_strlit("4");
        reveal_strlit("5");
        reveal_strlit("6");
        reveal_strlit("7");
        reveal_strlit("8");
        reveal_strlit("9");
    }
    if d == 0 {
        "0"
    } else if d == 1 {
        "1"
    } else if d == 2 {
        "2"
    } else if d == 3 {
        "3"
    } else if d == 4 {
        "4"
    } else if d == 5 {
        "5"
    } else if d == 6 {
        "6"
    } else if d == 7 {
        "7"
    } else if d == 8 {
        "8"
    } else {
        "9"
    }
}

/// Appends the digits of `n` to `buf`.
pub fn push_digits(buf: &mut String, n: u64)
    ensures
        final(buf)@ == old(buf)@ + digits(n as nat),
    decreases n,
{
    if n >= 10 {
        push_digits(buf, n / 10);
    }
    buf.append(digit_str(n % 10));
}

/// Appends the decimal text of `i` to `buf`.
pub fn push_decimal(buf: &mut String, i: i64)
    ensures
        final(buf)@ == old(buf)@ + decimal(i as int),
{
    if i < 0 {
        proof {
            reveal_strlit("-");
        }
        buf.append("-");
        // -(i + 1) fits in an i64 for every negative i, i64::MIN included.
        let below: i64 = -(i + 1);
        let magnitude: u64 = (below as u64) + 1;
        push_digits(buf, magnitude);
    } else {
        push_digits(buf, i as u64);
    }
}

/// The decimal text of `i` as a string of its own.
pub fn decimal_string(i: i64) -> (text: String)
    ensures
        text@ == decimal(i as int),
{
    let mut text = String::new();
    push_decimal(&mut text, i);
    text
}

/// The decimal text of the natural number `n` as a string of its own.
pub fn natural_string(n: u64) -> (text: String)
    ensures
        text@ == decimal(n as int),
{
    let mut text = String::new();
    push_digits(&mut text, n);
    text
}

/// Whether `c` is one of the ten digits.
pub open spec fn is_digit(c: char) -> bool {
    exists|d: int| 0 <= d <= 9 && c == digit_char(d)
}

/// The number that the digit `c` writes.
pub open spec fn digit_value(c: char) -> int {
    choose|d: int| 0 <= d <= 9 && c == digit_char(d)
}

/// The number that a sequence of digits writes in base ten.
pub open spec fn digits_value(text: Seq<char>) -> int
    decreases text.len(),
{
    if text.len() == 0 {
        0
    } else {
        digits_value(text.drop_last()) * 10 + digit_value(text.last())
    }
}

/// The ten digits are ten different characters, so each of them writes one
/// number.
pub proof fn lemma_digit_value(d: int)
    requires
        0 <= d <= 9,
    ensures
        is_digit(digit_char(d)),
        digit_value(digit_char(d)) == d,
        digit_char(d) != '-',
{
    assert(forall|a: int, b: int|
        0 <= a <= 9 && 0 <= b <= 9 && digit_char(a) == digit_char(b) ==> a == b);
}

/// The digits of a number are its usual decimal notation: they are digits
/// and nothing else, they write that number, and they begin with `0` only
/// when the number is zero.
pub proof fn lemma_digits_write_the_number(n: nat)
    ensures
        digits(n).len() >= 1,
        forall|k: int| 0 <= k < digits(n).len() ==> is_digit(#[trigger] digits(n)[k]),
        digits_value(digits(n)) == n,
        digits(n)[0] == '0' <==> n == 0,
    decreases n,
{
    lemma_digit_value((n % 10) as int);
    if n < 10 {
        assert(digits(n).drop_last() =~= Seq::<char>::empty());
        assert(digits_value(digits(n).drop_last()) == 0);
        lemma_digit_value(0);
        lemma_digit_value(n as int);
    } else {
        lemma_digits_write_the_number(n / 10);
        assert(digits(n).drop_last() =~= digits(n / 10));
        assert(digits(n)[0] == digits(n / 10)[0]);
    }
}

/// Different integers have different decimal texts: the text of a number
/// tells the number.
pub proof fn lemma_decimal_tells_the_number(a: int, b: int)
    requires
        decimal(a) == decimal(b),
    ensures
        a == b,
{
    let abs_a: nat = if a < 0 { (-a) as nat } else { a as nat };
    let abs_b: nat = if b < 0 { (-b) as nat } else { b as nat };
    lemma_digits_write_the_number(abs_a);
    lemma_digits_write_the_number(abs_b);
    assert(forall|d: int| 0 <= d <= 9 ==> digit_char(d) != '-');
    assert(decimal(a)[0] == decimal(b)[0]);
    if a < 0 {
        assert(decimal(a)[0] == '-');
        assert(b < 0) by {
            if b >= 0 {
                assert(is_digit(digits(abs_b)[0]));
            }
        }
        assert(digits(abs_a) =~= decimal(a).subrange(1, decimal(a).len() as int));
        assert(digits(abs_b) =~= decimal(b).subrange(1, decimal(b).len() as int));
    } else {
        assert(is_digit(digits(abs_a)[0]));
        assert(b >= 0);
    }
}

} // verus!
