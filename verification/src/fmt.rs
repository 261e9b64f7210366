//! Decimal rendering of integers and of quotients rounded to one decimal place.
use vstd::prelude::*;
use crate::text::{concat, string_of};

verus! {

/// The decimal digit character for `d < 10`.
pub open spec fn digit_char(d: nat) -> char {
    if d == 0 { '0' }
    else if d == 1 { '1' }
    else if d == 2 { '2' }
    else if d == 3 { '3' }
    else if d == 4 { '4' }
    else if d == 5 { '5' }
    else if d == 6 { '6' }
    else if d == 7 { '7' }
    else if d == 8 { '8' }
    else { '9' }
}

/// The decimal representation of `n`, without leading zeros (what `{}` prints).
pub open spec fn decimal(n: nat) -> Seq<char>
    decreases n,
{
    if n < 10 {
        seq![digit_char(n)]
    } else {
        decimal(n / 10).push(digit_char(n % 10))
    }
}

/// `n / d` rounded to the nearest integer, ties to even.
pub open spec fn div_round_even(n: nat, d: nat) -> nat
    recommends
        d > 0,
{
    let q = n / d;
    let r = n % d;
    if 2 * r > d {
        q + 1
    } else if 2 * r < d {
        q
    } else if q % 2 == 1 {
        q + 1
    } else {
        q
    }
}

/// A number of tenths shown with one decimal place (`12` is `1.2`).
pub open spec fn tenths_text(t: nat) -> Seq<char> {
    decimal(t / 10) + seq!['.', digit_char(t % 10)]
}

/// The quotient `n / d` shown with one decimal place, rounded to the nearest
/// tenth with ties to even.
pub open spec fn one_decimal(n: nat, d: nat) -> Seq<char> {
    tenths_text(div_round_even(n * 10, d))
}

pub fn digit_char_exec(d: u64) -> (c: char)
    requires
        d < 10,
    ensures
        c == digit_char(d as nat),
{
    match d {
        0 => '0',
        1 => '1',
        2 => '2',
        3 => '3',
        4 => '4',
        5 => '5',
        6 => '6',
        7 => '7',
        8 => '8',
        _ => '9',
    }
}

/// The decimal characters of `n`.
pub fn decimal_chars(n: u64) -> (r: Vec<char>)
    ensures
        r@ == decimal(n as nat),
    decreases n,
{
    if n < 10 {
        let r = vec![digit_char_exec(n)];
        assert(r@ =~= seq![digit_char(n as nat)]);
        r
    } else {
        let mut r = decimal_chars(n / 10);
        r.push(digit_char_exec(n % 10));
        r
    }
}

/// `n / d` rounded to the nearest integer, ties to even.
pub fn div_round_even_exec(n: u128, d: u128) -> (r: u128)
    requires
        d > 0,
        d < 0x1_0000_0000_0000_0000_0000_0000_0000,
        n < 0x1_0000_0000_0000_0000_0000_0000_0000,
    ensures
        r == div_round_even(n as nat, d as nat),
{
    let q = n / d;
    let r = n % d;
    assert(r < d);
    if 2 * r > d {
        q + 1
    } else if 2 * r < d {
        q
    } else if q % 2 == 1 {
        q + 1
    } else {
        q
    }
}

/// A number of tenths shown with one decimal place.
pub fn tenths_chars(t: u64) -> (r: Vec<char>)
    ensures
        r@ == tenths_text(t as nat),
{
    let whole = decimal_chars(t / 10);
    let frac = vec!['.', digit_char_exec(t % 10)];
    assert(frac@ =~= seq!['.', digit_char((t % 10) as nat)]);
    concat(whole.as_slice(), frac.as_slice())
}

/// The quotient `n / d` shown with one decimal place, ties to even.
pub fn one_decimal_chars(n: u64, d: u64) -> (r: Vec<char>)
    requires
        d > 0,
    ensures
        r@ == one_decimal(n as nat, d as nat),
{
    let t = div_round_even_exec((n as u128) * 10, d as u128);
    let hi = decimal_u128(t / 10);
    let frac = vec!['.', digit_char_exec((t % 10) as u64)];
    assert(frac@ =~= seq!['.', digit_char((t % 10) as nat)]);
    concat(hi.as_slice(), frac.as_slice())
}

/// The decimal characters of a 128-bit `n`.
pub fn decimal_u128(n: u128) -> (r: Vec<char>)
    ensures
        r@ == decimal(n as nat),
    decreases n,
{
    if n < 10 {
        let r = vec![digit_char_exec(n as u64)];
        assert(r@ =~= seq![digit_char(n as nat)]);
        r
    } else {
        let mut r = decimal_u128(n / 10);
        r.push(digit_char_exec((n % 10) as u64));
        r
    }
}

/// The decimal representation of a signed `i`, with a leading `-` when it is
/// negative.
pub open spec fn signed_decimal(i: int) -> Seq<char> {
    if i < 0 {
        seq!['-'] + decimal((-i) as nat)
    } else {
        decimal(i as nat)
    }
}

/// The decimal characters of a signed `i`.
pub fn signed_decimal_chars(i: i64) -> (r: Vec<char>)
    ensures
        r@ == signed_decimal(i as int),
{
    if i < 0 {
        let m: i128 = -(i as i128);
        let d = decimal_u128(m as u128);
        let mut r: Vec<char> = vec!['-'];
        crate::text::append_chars(&mut r, d.as_slice());
        assert(r@ =~= seq!['-'] + decimal((-(i as int)) as nat));
        r
    } else {
        decimal_chars(i as u64)
    }
}


} // verus!
