//! Decimal numbers as text.

use vstd::prelude::*;
use vstd::string::StringExecFns;

verus! {

/// The character that stands for the digit `d`.
pub open spec fn digit_char(d: int) -> char {
    if d == 0 {
        '0'
    } else if d == 1 {
        '1'
    } else if d == 2 {
        '2'
    } else if d == 3 {
        '3'
    } else if d == 4 {
        '4'
    } else if d == 5 {
        '5'
    } else if d == 6 {
        '6'
    } else if d == 7 {
        '7'
    } else if d == 8 {
        '8'
    } else {
        '9'
    }
}

/// `n` in decimal digits, without leading zeros.
pub open spec fn decimal(n: nat) -> Seq<char>
    decreases n,
{
    if n < 10 {
        seq![digit_char(n as int)]
    } else {
        decimal(n / 10).push(digit_char((n % 10) as int))
    }
}

/// `count` zeros.
pub open spec fn zeros(count: nat) -> Seq<char> {
    Seq::new(count, |i: int| '0')
}

/// `n` in decimal digits, with zeros in front where it has fewer than
/// `width` digits.
pub open spec fn padded(n: nat, width: nat) -> Seq<char> {
    let digits = decimal(n);
    if digits.len() >= width {
        digits
    } else {
        zeros((width - digits.len()) as nat) + digits
    }
}

/// The text of one digit.
fn digit_text(d: u64) -> (s: &'static str)
    requires
        d < 10,
    ensures
        s@ == seq![digit_char(d as int)],
{
    proof {
        reveal_strlit("0");
        reveal_strlit("1");
        reveal_strlit("2");
        reveal_strlit("3");
        reveal_strlit("4");
        reveal_strlit("5");
        reveal_strlit("6");
        reveal_strlit("7");
        reveal_strlit("8");
        reveal_strlit("9");
    }
    let s = if d == 0 {
        "0"
    } else if d == 1 {
        "1"
    } else if d == 2 {
        "2"
    } else if d == 3 {
        "3"
    } else if d == 4 {
        "4"
    } else if d == 5 {
        "5"
    } else if d == 6 {
        "6"
    } else if d == 7 {
        "7"
    } else if d == 8 {
        "8"
    } else {
        "9"
    };
    assert(s@ =~= seq![digit_char(d as int)]);
    s
}

/// Appends `n` in decimal digits to `out` and tells how many digits it has.
pub fn push_decimal(out: &mut String, n: u64) -> (count: usize)
    ensures
        final(out)@ == old(out)@ + decimal(n as nat),
        count == decimal(n as nat).len(),
        1 <= count <= 20,
    decreases n,
{
    if n < 10 {
        out.append(digit_text(n));
        1
    } else {
        let before = push_decimal(out, n / 10);
        out.append(digit_text(n % 10));
        proof {
            lemma_decimal_len(n as nat);
            lemma_decimal_len(n as nat / 10);
            assert(old(out)@ + decimal(n as nat / 10) + seq![digit_char((n % 10) as int)] =~= old(
                out,
            )@ + decimal(n as nat));
        }
        before + 1
    }
}

/// Appends `n` to `out`, with zeros in front where it has fewer than `width`
/// digits.
pub fn push_padded(out: &mut String, n: u64, width: usize)
    ensures
        final(out)@ == old(out)@ + padded(n as nat, width as nat),
{
    let mut digits = String::new();
    let count = push_decimal(&mut digits, n);
    assert(digits@ =~= decimal(n as nat));
    let ghost start = out@;
    let mut filled: usize = count;
    while filled < width
        invariant
            count <= filled,
            filled <= width || filled == count,
            out@ == start + zeros((filled - count) as nat),
        decreases width - filled,
    {
        proof {
            reveal_strlit("0");
        }
        out.append("0");
        assert(out@ =~= start + zeros((filled + 1 - count) as nat));
        filled += 1;
    }
    out.append(digits.as_str());
    proof {
        if count >= width {
            assert(zeros(0) =~= Seq::<char>::empty());
            assert(out@ =~= start + decimal(n as nat));
        } else {
            assert(out@ =~= start + (zeros((width - count) as nat) + decimal(n as nat)));
        }
    }
}

/// Ten to the power `k`.
pub open spec fn ten_to(k: nat) -> nat
    decreases k,
{
    if k == 0 {
        1
    } else {
        10 * ten_to((k - 1) as nat)
    }
}

/// Every number has at least one digit, and one that fits sixty-four bits
/// has at most twenty.
pub proof fn lemma_decimal_len(n: nat)
    ensures
        decimal(n).len() >= 1,
        n < 10 ==> decimal(n).len() == 1,
        n <= u64::MAX ==> decimal(n).len() <= 20,
{
    if n <= u64::MAX {
        assert(ten_to(20) == 100_000_000_000_000_000_000) by {
            reveal_with_fuel(ten_to, 21);
        }
        lemma_decimal_len_below(n, 20);
    }
}

/// A number below ten to the power `digits` has at most `digits` digits.
pub proof fn lemma_decimal_len_below(n: nat, digits: nat)
    requires
        digits >= 1,
        n < ten_to(digits),
    ensures
        decimal(n).len() <= digits,
    decreases digits,
{
    if n >= 10 {
        assert(digits > 1) by {
            reveal_with_fuel(ten_to, 2);
        }
        lemma_decimal_len_below(n / 10, (digits - 1) as nat);
    }
}

/// The digit that a character stands for; zero for any other character.
pub open spec fn digit_value(c: char) -> nat {
    if c == '1' {
        1
    } else if c == '2' {
        2
    } else if c == '3' {
        3
    } else if c == '4' {
        4
    } else if c == '5' {
        5
    } else if c == '6' {
        6
    } else if c == '7' {
        7
    } else if c == '8' {
        8
    } else if c == '9' {
        9
    } else {
        0
    }
}

/// The number that a sequence of digits stands for.
pub open spec fn number_of(digits: Seq<char>) -> nat
    decreases digits.len(),
{
    if digits.len() == 0 {
        0
    } else {
        10 * number_of(digits.drop_last()) + digit_value(digits.last())
    }
}

/// The digits of a number stand for that number.
pub proof fn lemma_number_of_decimal(n: nat)
    ensures
        number_of(decimal(n)) == n,
    decreases n,
{
    if n < 10 {
        let d = decimal(n);
        assert(d.drop_last().len() == 0);
        assert(number_of(d.drop_last()) == 0);
        assert(d.last() == digit_char(n as int));
    } else {
        let d = decimal(n);
        lemma_number_of_decimal(n / 10);
        assert(d.drop_last() == decimal(n / 10));
        assert(d.last() == digit_char((n % 10) as int));
    }
}

/// Zeros in front do not change the number that digits stand for.
pub proof fn lemma_number_of_zeros(count: nat, digits: Seq<char>)
    ensures
        number_of(zeros(count) + digits) == number_of(digits),
    decreases digits.len(), count,
{
    let all = zeros(count) + digits;
    if digits.len() > 0 {
        assert(all.drop_last() == zeros(count) + digits.drop_last());
        assert(all.last() == digits.last());
        lemma_number_of_zeros(count, digits.drop_last());
    } else if count > 0 {
        assert(all.drop_last() == zeros((count - 1) as nat) + digits);
        assert(all.last() == '0');
        lemma_number_of_zeros((count - 1) as nat, digits);
    } else {
        assert(all.len() == 0);
    }
}

/// A padded number stands for the number that was padded.
pub proof fn lemma_number_of_padded(n: nat, width: nat)
    ensures
        number_of(padded(n, width)) == n,
{
    lemma_number_of_decimal(n);
    let digits = decimal(n);
    if digits.len() < width {
        lemma_number_of_zeros((width - digits.len()) as nat, digits);
    }
}

/// A number below ten to the power `width` is padded to exactly `width`
/// characters.
pub proof fn lemma_padded_len(n: nat, width: nat)
    requires
        width >= 1,
        n < ten_to(width),
    ensures
        padded(n, width).len() == width,
{
    lemma_decimal_len_below(n, width);
}

/// Two numbers with the same digits are the same number.
pub proof fn lemma_decimal_injective(a: nat, b: nat)
    requires
        decimal(a) == decimal(b),
    ensures
        a == b,
{
    lemma_number_of_decimal(a);
    lemma_number_of_decimal(b);
}

} // verus!
