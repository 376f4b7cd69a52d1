use vstd::prelude::*;
use vstd::string::*;

verus! {

/// The character that writes one decimal digit.
pub open spec fn digit_char(digit: int) -> char {
    if digit == 0 {
        '0'
    } else if digit == 1 {
        '1'
    } else if digit == 2 {
        '2'
    } else if digit == 3 {
        '3'
    } else if digit == 4 {
        '4'
    } else if digit == 5 {
        '5'
    } else if digit == 6 {
        '6'
    } else if digit == 7 {
        '7'
    } else if digit == 8 {
        '8'
    } else {
        '9'
    }
}

/// The decimal digits of a natural number, most significant first, with no
/// leading zero but for zero itself.
pub open spec fn decimal_digits(n: nat) -> Seq<char>
    decreases n,
{
    if n < 10 {
        seq![digit_char(n as int)]
    } else {
        decimal_digits(n / 10).push(digit_char((n % 10) as int))
    }
}

/// The decimal form of an integer: a minus sign where it is negative, then
/// the digits of its magnitude.
pub open spec fn decimal(n: int) -> Seq<char> {
    if n < 0 {
        seq!['-'] + decimal_digits((-n) as nat)
    } else {
        decimal_digits(n as nat)
    }
}

/// Appends one decimal digit to `text`.
fn push_digit(text: &mut String, digit: u64)
    requires
        digit < 10,
    ensures
        final(text)@ == old(text)@.push(digit_char(digit as int)),
{
    proof {
        reveal_strlit("0");
        reveal_strlit("1");
        reveal_strlit("2");
        reveal_strlit("3");
        reveal_strlit("4");
        reveal_strlit("5");
        reveal_strlit("6");
        reveal_strlit("7");
        reveal_strlit("8");
        reveal_strlit("9");
    }
    let ghost before = text@;
    if digit == 0 {
        text.append("0");
        assert(text@ =~= before.push('0'));
    } else if digit == 1 {
        text.append("1");
        assert(text@ =~= before.push('1'));
    } else if digit == 2 {
        text.append("2");
        assert(text@ =~= before.push('2'));
    } else if digit == 3 {
        text.append("3");
        assert(text@ =~= before.push('3'));
    } else if digit == 4 {
        text.append("4");
        assert(text@ =~= before.push('4'));
    } else if digit == 5 {
        text.append("5");
        assert(text@ =~= before.push('5'));
    } else if digit == 6 {
        text.append("6");
        assert(text@ =~= before.push('6'));
    } else if digit == 7 {
        text.append("7");
        assert(text@ =~= before.push('7'));
    } else if digit == 8 {
        text.append("8");
        assert(text@ =~= before.push('8'));
    } else {
        text.append("9");
        assert(text@ =~= before.push('9'));
    }
}

/// Appends the digits of `n` to `text`.
fn push_digits(text: &mut String, n: u64)
    ensures
        final(text)@ == old(text)@ + decimal_digits(n as nat),
    decreases n,
{
    let ghost before = text@;
    if n < 10 {
        push_digit(text, n);
        assert(text@ =~= before + decimal_digits(n as nat));
    } else {
        push_digits(text, n / 10);
        push_digit(text, n % 10);
        assert(text@ =~= before + decimal_digits(n as nat));
    }
}

/// Appends the decimal form of `n` to `text`.
pub fn push_decimal(text: &mut String, n: i32)
    ensures
        final(text)@ == old(text)@ + decimal(n as int),
{
    let ghost before = text@;
    let wide: i64 = n as i64;
    if wide < 0 {
        proof {
            reveal_strlit("-");
        }
        text.append("-");
        let magnitude: u64 = (-wide) as u64;
        push_digits(text, magnitude);
        assert(text@ =~= before + decimal(n as int));
    } else {
        push_digits(text, wide as u64);
    }
}

/// The digit that a character writes; zero for any other character.
pub open spec fn digit_value(c: char) -> int {
    if c == '1' {
        1
    } else if c == '2' {
        2
    } else if c == '3' {
        3
    } else if c == '4' {
        4
    } else if c == '5' {
        5
    } else if c == '6' {
        6
    } else if c == '7' {
        7
    } else if c == '8' {
        8
    } else if c == '9' {
        9
    } else {
        0
    }
}

/// The number that a sequence of digits writes, most significant first.
pub open spec fn digits_value(digits: Seq<char>) -> int
    decreases digits.len(),
{
    if digits.len() == 0 {
        0
    } else {
        digits_value(digits.drop_last()) * 10 + digit_value(digits.last())
    }
}

/// Reading the digits of a number gives the number back, and the digits
/// never begin with a minus sign.
pub proof fn lemma_digits_read_back(n: nat)
    ensures
        digits_value(decimal_digits(n)) == n,
        decimal_digits(n).len() >= 1,
        decimal_digits(n)[0] != '-',
    decreases n,
{
    if n < 10 {
        let digits = decimal_digits(n);
        assert(digits.drop_last() =~= Seq::<char>::empty());
        assert(digits_value(digits.drop_last()) == 0);
    } else {
        lemma_digits_read_back(n / 10);
        let shorter = decimal_digits(n / 10);
        let digits = decimal_digits(n);
        assert(digits.drop_last() =~= shorter);
        assert(digits.last() == digit_char((n % 10) as int));
        assert(digits[0] == shorter[0]);
    }
}

/// No two integers share a decimal form.
pub proof fn lemma_decimal_injective(a: int, b: int)
    requires
        decimal(a) == decimal(b),
    ensures
        a == b,
{
    let magnitude_a: nat = if a < 0 { (-a) as nat } else { a as nat };
    let magnitude_b: nat = if b < 0 { (-b) as nat } else { b as nat };
    lemma_digits_read_back(magnitude_a);
    lemma_digits_read_back(magnitude_b);
    let sign = seq!['-'];
    assert(decimal(a)[0] == decimal(b)[0]);
    if a < 0 {
        assert((sign + decimal_digits(magnitude_a))[0] == '-');
        assert(b < 0);
        assert(decimal_digits(magnitude_a) =~= decimal(a).subrange(1, decimal(a).len() as int));
        assert(decimal_digits(magnitude_b) =~= decimal(b).subrange(1, decimal(b).len() as int));
    } else {
        assert(b < 0 ==> (sign + decimal_digits(magnitude_b))[0] == '-');
    }
}

} // verus!
