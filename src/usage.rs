//! Memory and swap usage text: `{used}MB/{total}MB({percent}%)`, with
//! mebibytes to three decimals and the percentage to one. Both are the exact
//! ratios, rounded to the nearest step with ties to the even neighbour.

use vstd::prelude::*;
use crate::text::{decimal, padded, push_char, push_decimal, push_padded};

verus! {

/// `a / b` rounded to the nearest integer, ties to the even neighbour.
pub open spec fn round_even(a: nat, b: nat) -> nat
    recommends
        b > 0,
{
    let q = a / b;
    let r = a % b;
    if 2 * r > b || (2 * r == b && q % 2 == 1) {
        q + 1
    } else {
        q
    }
}

/// A quantity given in `1/unit` steps, written with `places` decimals, where
/// `unit` is `10^places`.
pub open spec fn fixed_point(scaled: nat, unit: nat, places: nat) -> Seq<char>
    recommends
        unit > 0,
{
    decimal(scaled / unit) + seq!['.'] + padded(scaled % unit, places)
}

/// Mebibytes of `bytes`, to three decimals.
pub open spec fn mebibytes(bytes: nat) -> Seq<char> {
    fixed_point(round_even(bytes * 1000, 1048576), 1000, 3)
}

/// `used` as a percentage of `total`, to one decimal.
pub open spec fn percent(used: nat, total: nat) -> Seq<char>
    recommends
        total > 0,
{
    fixed_point(round_even(used * 1000, total), 10, 1)
}

pub open spec fn usage_text(used: nat, total: nat) -> Seq<char> {
    mebibytes(used) + "MB/"@ + mebibytes(total) + "MB("@ + percent(used, total) + "%)"@
}

fn rounded(a: u128, b: u128) -> (r: u128)
    requires
        0 < b <= u64::MAX as u128,
        a <= u64::MAX as u128 * 1000,
    ensures
        r == round_even(a as nat, b as nat),
{
    let q = a / b;
    let m = a % b;
    if 2 * m > b || (2 * m == b && q % 2 == 1) {
        q + 1
    } else {
        q
    }
}

fn push_fixed(s: &mut String, scaled: u128, unit: u128, places: usize)
    requires
        unit > 0,
    ensures
        final(s)@ == old(s)@ + fixed_point(scaled as nat, unit as nat, places as nat),
{
    push_decimal(s, scaled / unit);
    push_char(s, '.');
    push_padded(s, scaled % unit, places);
    assert(final(s)@ =~= old(s)@ + fixed_point(scaled as nat, unit as nat, places as nat));
}

/// Renders used and total bytes with the share in percent; `None` when the
/// total is zero, where the share is undefined.
pub fn format_usage(used: u64, total: u64) -> (r: Option<String>)
    ensures
        total == 0 <==> r is None,
        r matches Some(t) ==> t@ == usage_text(used as nat, total as nat),
{
    if total == 0 {
        return None;
    }
    let mut s = String::new();
    push_fixed(&mut s, rounded(used as u128 * 1000, 1048576), 1000, 3);
    s.append("MB/");
    push_fixed(&mut s, rounded(total as u128 * 1000, 1048576), 1000, 3);
    s.append("MB(");
    push_fixed(&mut s, rounded(used as u128 * 1000, total as u128), 10, 1);
    s.append("%)");
    assert(s@ =~= usage_text(used as nat, total as nat));
    Some(s)
}

} // verus!
