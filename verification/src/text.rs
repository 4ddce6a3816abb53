//! Building blocks of the rendered text: repetition of a glyph, decimal
//! numerals and percentages with one decimal place.

use vstd::prelude::*;
use vstd::string::*;

verus! {

/// `unit` written `times` times in a row.
pub open spec fn repeated(unit: Seq<char>, times: nat) -> Seq<char>
    decreases times,
{
    if times == 0 {
        Seq::empty()
    } else {
        repeated(unit, (times - 1) as nat) + unit
    }
}

/// The character of a decimal digit.
pub open spec fn digit(d: nat) -> char {
    if d == 0 {
        '0'
    } else if d == 1 {
        '1'
    } else if d == 2 {
        '2'
    } else if d == 3 {
        '3'
    } else if d == 4 {
        '4'
    } else if d == 5 {
        '5'
    } else if d == 6 {
        '6'
    } else if d == 7 {
        '7'
    } else if d == 8 {
        '8'
    } else {
        '9'
    }
}

/// The decimal numeral of `n`, without leading zeros.
pub open spec fn decimal(n: nat) -> Seq<char>
    decreases n,
{
    if n < 10 {
        seq![digit(n)]
    } else {
        decimal(n / 10).push(digit(n % 10))
    }
}

/// `count` out of `total` in tenths of a percent, rounded to the nearest
/// tenth, a tie going to the even tenth. Nothing out of nothing is zero.
pub open spec fn percent_tenths(count: nat, total: nat) -> nat {
    if total == 0 {
        0
    } else {
        let quotient = (1000 * count) / total;
        let rest = (1000 * count) % total;
        if 2 * rest > total || (2 * rest == total && quotient % 2 == 1) {
            quotient + 1
        } else {
            quotient
        }
    }
}

/// The percentage of `count` out of `total` with one decimal place, such as `33.3`.
pub open spec fn percent(count: nat, total: nat) -> Seq<char> {
    let tenths = percent_tenths(count, total);
    decimal(tenths / 10) + seq!['.'] + decimal(tenths % 10)
}

/// Of nothing, every share is `0.0`.
pub proof fn lemma_percent_of_nothing(count: nat)
    ensures
        percent_tenths(count, 0) == 0,
        percent(count, 0) == seq!['0', '.', '0'],
{
    assert(percent(count, 0) =~= seq!['0', '.', '0']);
}

/// Appends `unit` to `out`, `times` times.
pub fn push_repeated(out: &mut String, unit: &str, times: usize)
    ensures
        final(out)@ == old(out)@ + repeated(unit@, times as nat),
{
    let mut i: usize = 0;
    assert(out@ =~= old(out)@ + repeated(unit@, 0));
    while i < times
        invariant
            i <= times,
            out@ == old(out)@ + repeated(unit@, i as nat),
        decreases times - i,
    {
        out.append(unit);
        i = i + 1;
        assert(out@ =~= old(out)@ + repeated(unit@, i as nat));
    }
}

/// The one-character text of a decimal digit.
pub fn digit_text(d: u8) -> (r: &'static str)
    requires
        d < 10,
    ensures
        r@ == seq![digit(d as nat)],
{
    proof {
        reveal_strlit("0");
        reveal_strlit("1");
        reveal_strlit("2");
        reveal_strlit("3");
        reveal_strlit("4");
        reveal_strlit("5");
        reveal_strlit("6");
        reveal_strlit("7");
        reveal_strlit("8");
        reveal_strlit("9");
    }
    let r = if d == 0 {
        "0"
    } else if d == 1 {
        "1"
    } else if d == 2 {
        "2"
    } else if d == 3 {
        "3"
    } else if d == 4 {
        "4"
    } else if d == 5 {
        "5"
    } else if d == 6 {
        "6"
    } else if d == 7 {
        "7"
    } else if d == 8 {
        "8"
    } else {
        "9"
    };
    assert(r@ =~= seq![digit(d as nat)]);
    r
}

/// The decimal numeral of `n`.
pub fn decimal_text(n: u128) -> (r: String)
    ensures
        r@ == decimal(n as nat),
    decreases n,
{
    if n < 10 {
        String::from_str(digit_text(n as u8))
    } else {
        let mut r = decimal_text(n / 10);
        r.append(digit_text((n % 10) as u8));
        assert(r@ =~= decimal(n as nat));
        r
    }
}

/// `count` out of `total` in tenths of a percent; see [`percent_tenths`].
pub fn percent_tenths_of(count: usize, total: u128) -> (r: u128)
    ensures
        r == percent_tenths(count as nat, total as nat),
{
    if total == 0 {
        0
    } else {
        let scaled: u128 = 1000 * (count as u128);
        let quotient: u128 = scaled / total;
        let rest: u128 = scaled % total;
        // `rest < total`, so the comparison with half of `total` needs no doubling.
        let above_half = rest > total - rest;
        let at_half = rest == total - rest;
        if above_half || (at_half && quotient % 2 == 1) {
            quotient + 1
        } else {
            quotient
        }
    }
}

/// The percentage of `count` out of `total` with one decimal place.
pub fn percent_text(count: usize, total: u128) -> (r: String)
    ensures
        r@ == percent(count as nat, total as nat),
{
    let tenths = percent_tenths_of(count, total);
    let mut r = decimal_text(tenths / 10);
    r.append(".");
    r.append(decimal_text(tenths % 10).as_str());
    proof {
        reveal_strlit(".");
        assert("."@ =~= seq!['.']);
        assert(r@ =~= percent(count as nat, total as nat));
    }
    r
}

} // verus!
