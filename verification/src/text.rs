//! Text that the library puts together itself.

use vstd::prelude::*;

verus! {

/// The decimal digit of a number below ten.
pub open spec fn digit(d: int) -> char {
    ('0' as int + d) as char
}

/// A number in decimal, without leading zeros.
pub open spec fn decimal_digits(n: nat) -> Seq<char>
    decreases n,
{
    if n < 10 {
        seq![digit(n as int)]
    } else {
        decimal_digits(n / 10).push(digit((n % 10) as int))
    }
}

fn digit_text(d: u64) -> (text: &'static str)
    requires
        d < 10,
    ensures
        text@ == seq![digit(d as int)],
{
    proof {
        reveal_strlit("0");
        reveal_strlit("1");
        reveal_strlit("2");
        reveal_strlit("3");
        reveal_strlit("4");
        reveal_strlit("5");
        reveal_strlit("6");
        reveal_strlit("7");
        reveal_strlit("8");
        reveal_strlit("9");
    }
    match d {
        0 => "0",
        1 => "1",
        2 => "2",
        3 => "3",
        4 => "4",
        5 => "5",
        6 => "6",
        7 => "7",
        8 => "8",
        _ => "9",
    }
}

/// Writes a number in decimal.
pub fn decimal(n: u64) -> (text: String)
    ensures
        text@ == decimal_digits(n as nat),
    decreases n,
{
    if n < 10 {
        digit_text(n).to_owned()
    } else {
        let mut text = decimal(n / 10);
        text.append(digit_text(n % 10));
        text
    }
}

/// Different numbers are written differently.
pub proof fn decimal_digits_are_injective(a: nat, b: nat)
    requires
        decimal_digits(a) == decimal_digits(b),
    ensures
        a == b,
    decreases a,
{
    let x = decimal_digits(a);
    let y = decimal_digits(b);
    decimal_digits_nonempty(a / 10);
    decimal_digits_nonempty(b / 10);
    assert(x.last() == y.last());
    if a >= 10 && b >= 10 {
        assert(x.drop_last() =~= decimal_digits(a / 10));
        assert(y.drop_last() =~= decimal_digits(b / 10));
        decimal_digits_are_injective(a / 10, b / 10);
    }
}

proof fn decimal_digits_nonempty(n: nat)
    ensures
        decimal_digits(n).len() > 0,
{
}

/// `before`, then `middle`, then `after`.
pub(crate) fn enclosed(before: &str, middle: &str, after: &str) -> (text: String)
    ensures
        text@ == before@ + middle@ + after@,
{
    let mut text = before.to_owned();
    text.append(middle);
    text.append(after);
    text
}

/// A number below ten is written as one digit, and a digit behind a number other
/// than zero gives ten times that number and the digit.
pub proof fn decimal_goes_digit_by_digit(n: u64, d: u64, longer: u64, short: String, long: String)
    requires
        d < 10,
        longer == 10 * n + d,
        call_ensures(decimal, (n,), short),
        call_ensures(decimal, (longer,), long),
    ensures
        n == 0 ==> long@.len() == 1,
        n > 0 ==> long@.len() == short@.len() + 1,
        n > 0 ==> forall|i: int| 0 <= i < short@.len() ==> #[trigger] long@[i] == short@[i],
        long@[long@.len() - 1] == match d {
            0 => '0',
            1 => '1',
            2 => '2',
            3 => '3',
            4 => '4',
            5 => '5',
            6 => '6',
            7 => '7',
            8 => '8',
            _ => '9',
        },
{
    assert(n == 0 || longer / 10 == n);
    assert(longer % 10 == d);
}

/// A number is written with digits only, and none but zero begins with a zero.
pub proof fn decimal_holds_digits_only(n: nat)
    ensures
        decimal_digits(n).len() > 0,
        forall|i: int|
            0 <= i < decimal_digits(n).len() ==> '0' <= #[trigger] decimal_digits(n)[i] <= '9',
        n > 0 ==> decimal_digits(n)[0] != '0',
    decreases n,
{
    if n >= 10 {
        decimal_holds_digits_only(n / 10);
    }
}

} // verus!
