//! Byte counts as short text: two decimals and a binary unit.

use crate::text::{decimal, padded};
use crate::text::{decimal_text, zero_padded};
use vstd::arithmetic::div_mod::{
    lemma_div_is_ordered, lemma_div_multiples_vanish, lemma_fundamental_div_mod, lemma_mod_multiples_basic,
};
use vstd::prelude::*;
use vstd::string::*;

verus! {

pub const KIB: u64 = 0x400;

pub const MIB: u64 = 0x10_0000;

pub const GIB: u64 = 0x4000_0000;

pub const TIB: u64 = 0x100_0000_0000;

/// One past the largest significand of a double.
pub const SIGNIFICANDS: u64 = 0x20_0000_0000_0000;

/// `n / d` to the nearest integer; halfway between two, the even one.
pub open spec fn nearest_even(n: nat, d: nat) -> nat
    recommends
        0 < d,
{
    let down = n / d;
    let over = n % d;
    if 2 * over < d || (2 * over == d && down % 2 == 0) {
        down
    } else {
        down + 1
    }
}

/// The distance between neighbouring doubles at the integer `n`, or 1 where
/// doubles are denser than the integers.
pub open spec fn spacing(n: nat) -> nat
    decreases n,
{
    if n < SIGNIFICANDS {
        1
    } else {
        2 * spacing(n / 2)
    }
}

/// The double nearest to the integer `n`, itself an integer.
pub open spec fn nearest_double(n: nat) -> nat {
    nearest_even(n, spacing(n)) * spacing(n)
}

/// The largest unit that `bytes` reaches.
pub open spec fn unit(bytes: nat) -> nat {
    if bytes >= TIB {
        TIB as nat
    } else if bytes >= GIB {
        GIB as nat
    } else if bytes >= MIB {
        MIB as nat
    } else if bytes >= KIB {
        KIB as nat
    } else {
        1
    }
}

/// What follows the number, for each unit.
pub open spec fn unit_suffix(bytes: nat) -> Seq<char> {
    if bytes >= TIB {
        " TiB"@
    } else if bytes >= GIB {
        " GiB"@
    } else if bytes >= MIB {
        " MiB"@
    } else if bytes >= KIB {
        " KiB"@
    } else {
        " B"@
    }
}

/// `bytes` in hundredths of its unit, rounded.
pub open spec fn hundredths(bytes: nat) -> nat {
    nearest_even(100 * nearest_double(bytes), unit(bytes))
}

/// `h` hundredths as a number with two decimals.
pub open spec fn two_decimals(h: nat) -> Seq<char> {
    decimal_text(h / 100) + "."@ + zero_padded(decimal_text(h % 100), 2)
}

/// `bytes` as shown to a person.
pub open spec fn size_text(bytes: nat) -> Seq<char> {
    if bytes < KIB {
        decimal_text(bytes) + unit_suffix(bytes)
    } else {
        two_decimals(hundredths(bytes)) + unit_suffix(bytes)
    }
}

pub(crate) proof fn lemma_spacing_bounds(n: nat)
    ensures
        1 <= spacing(n),
        n < spacing(n) * SIGNIFICANDS,
        SIGNIFICANDS <= n ==> 2 * n >= spacing(n) * SIGNIFICANDS,
    decreases n,
{
    if n >= SIGNIFICANDS {
        lemma_spacing_bounds(n / 2);
    }
}

proof fn lemma_spacing_doubles(a: nat, b: nat)
    requires
        a <= b,
    ensures
        spacing(a) == spacing(b) || 2 * spacing(a) <= spacing(b),
    decreases b,
{
    lemma_spacing_bounds(b / 2);
    if SIGNIFICANDS <= a {
        lemma_spacing_doubles(a / 2, b / 2);
    }
}

pub(crate) proof fn lemma_nearest_even_near(n: nat, d: nat)
    requires
        0 < d,
    ensures
        n / d <= nearest_even(n, d) <= n / d + 1,
        2 * n <= 2 * (nearest_even(n, d) * d) + d,
        2 * (nearest_even(n, d) * d) <= 2 * n + d,
{
    lemma_fundamental_div_mod(n as int, d as int);
    let q = n / d;
    assert((q + 1) * d == q * d + d) by (nonlinear_arith);
    assert(d * q == q * d) by (nonlinear_arith);
}

proof fn lemma_nearest_even_ordered(a: nat, b: nat, d: nat)
    requires
        0 < d,
        a <= b,
    ensures
        nearest_even(a, d) <= nearest_even(b, d),
{
    lemma_div_is_ordered(a as int, b as int, d as int);
    lemma_fundamental_div_mod(a as int, d as int);
    lemma_fundamental_div_mod(b as int, d as int);
}

proof fn lemma_nearest_even_multiple(k: nat, d: nat)
    requires
        0 < d,
    ensures
        nearest_even(k * d, d) == k,
{
    lemma_div_multiples_vanish(k as int, d as int);
    lemma_mod_multiples_basic(k as int, d as int);
    assert(k * d == d * k) by (nonlinear_arith);
}

proof fn lemma_nearest_double_ordered(a: nat, b: nat)
    requires
        a <= b,
    ensures
        nearest_double(a) <= nearest_double(b),
{
    let s = spacing(a);
    let t = spacing(b);
    lemma_spacing_bounds(a);
    lemma_spacing_bounds(b);
    lemma_spacing_doubles(a, b);
    if s == t {
        lemma_nearest_even_ordered(a, b, s);
        let x = nearest_even(a, s);
        let y = nearest_even(b, s);
        assert(x * s <= y * s) by (nonlinear_arith)
            requires
                x <= y,
        ;
    } else {
        let k = SIGNIFICANDS as nat;
        let h = k / 2;
        assert(a <= k * s) by {
            assert(s * k == k * s) by (nonlinear_arith);
        }
        lemma_nearest_even_ordered(a, k * s, s);
        lemma_nearest_even_multiple(k, s);
        let x = nearest_even(a, s);
        assert(x * s <= k * s) by (nonlinear_arith)
            requires
                x <= k,
        ;
        assert(SIGNIFICANDS <= b);
        assert(h * t <= b) by (nonlinear_arith)
            requires
                2 * b >= t * k,
                2 * h == k,
        ;
        lemma_nearest_even_ordered(h * t, b, t);
        lemma_nearest_even_multiple(h, t);
        let y = nearest_even(b, t);
        assert(h * t <= y * t) by (nonlinear_arith)
            requires
                h <= y,
        ;
        assert(k * s <= h * t) by (nonlinear_arith)
            requires
                2 * h == k,
                2 * s <= t,
        ;
    }
}

/// A byte count of up to 2^53 is shown from its exact value.
pub proof fn law_small_sizes_are_exact(bytes: nat)
    requires
        bytes <= SIGNIFICANDS,
    ensures
        nearest_double(bytes) == bytes,
{
    if bytes < SIGNIFICANDS {
        lemma_nearest_even_multiple(bytes, 1);
    } else {
        assert(spacing(bytes / 2) == 1);
        assert(spacing(bytes) == 2);
    }
}

/// The number shown is within half a hundredth of the unit of the double
/// nearest to the byte count.
pub proof fn law_size_is_nearest(bytes: nat)
    ensures
        2 * (100 * nearest_double(bytes)) <= 2 * (hundredths(bytes) * unit(bytes)) + unit(bytes),
        2 * (hundredths(bytes) * unit(bytes)) <= 2 * (100 * nearest_double(bytes)) + unit(bytes),
{
    lemma_nearest_even_near(100 * nearest_double(bytes), unit(bytes));
}

/// A count that reaches a unit is shown as at least one of that unit.
pub proof fn law_size_is_at_least_one(bytes: nat)
    requires
        1 <= bytes,
    ensures
        100 <= hundredths(bytes),
{
    let u = unit(bytes);
    law_small_sizes_are_exact(u);
    lemma_nearest_double_ordered(u, bytes);
    lemma_nearest_even_ordered(100 * u, 100 * nearest_double(bytes), u);
    lemma_nearest_even_multiple(100, u);
}

proof fn lemma_unit_multiple(a: nat, b: nat) -> (k: nat)
    requires
        a <= b,
    ensures
        unit(b) == k * unit(a),
{
    let u = unit(a);
    let v = unit(b);
    let k = if u == 1 {
        v
    } else if u == KIB {
        v / 0x400
    } else if u == MIB {
        v / 0x10_0000
    } else if u == GIB {
        v / 0x4000_0000
    } else {
        1
    };
    assert(v == k * u) by (nonlinear_arith)
        requires
            (u == 1 && v == k) || (u == 0x400 && v == 0x400 * k) || (u == 0x10_0000 && v == 0x10_0000
                * k) || (u == 0x4000_0000 && v == 0x4000_0000 * k) || (u == v && k == 1),
    ;
    k
}

/// More bytes are never shown as less, whatever the units.
pub proof fn law_sizes_keep_their_order(a: nat, b: nat)
    requires
        a <= b,
    ensures
        hundredths(a) * unit(a) <= hundredths(b) * unit(b),
{
    let u = unit(a);
    let v = unit(b);
    let x = hundredths(a);
    let y = hundredths(b);
    if u == v {
        lemma_nearest_double_ordered(a, b);
        lemma_nearest_even_ordered(100 * nearest_double(a), 100 * nearest_double(b), u);
        assert(x * u <= y * u) by (nonlinear_arith)
            requires
                x <= y,
        ;
    } else {
        law_small_sizes_are_exact(a);
        law_size_is_at_least_one(b);
        let k = lemma_unit_multiple(a, b);
        assert((100 * k) * u == 100 * v) by (nonlinear_arith)
            requires
                v == k * u,
        ;
        lemma_nearest_even_ordered(100 * a, (100 * k) * u, u);
        lemma_nearest_even_multiple(100 * k, u);
        assert(x * u <= (100 * k) * u) by (nonlinear_arith)
            requires
                x <= 100 * k,
        ;
        assert(100 * v <= y * v) by (nonlinear_arith)
            requires
                100 <= y,
        ;
    }
}

/// `n / d` to the nearest integer, ties to even.
fn divide_to_nearest(n: u128, d: u128) -> (q: u128)
    requires
        0 < d <= u64::MAX,
        n < u128::MAX,
    ensures
        q == nearest_even(n as nat, d as nat),
{
    let down = n / d;
    let over = n % d;
    assert(down <= n) by (nonlinear_arith)
        requires
            down == n / d,
            0 < d,
    ;
    if 2 * over < d || (2 * over == d && down % 2 == 0) {
        down
    } else {
        down + 1
    }
}

/// The distance between neighbouring doubles at `n`.
fn double_spacing(n: u64) -> (s: u64)
    ensures
        s == spacing(n as nat),
    decreases n,
{
    proof {
        lemma_spacing_bounds(n as nat);
    }
    if n < SIGNIFICANDS {
        1
    } else {
        2 * double_spacing(n / 2)
    }
}

/// The double nearest to `n`.
fn round_to_double(n: u64) -> (v: u128)
    ensures
        v == nearest_double(n as nat),
        v <= 2 * n + 1,
{
    let s = double_spacing(n) as u128;
    proof {
        lemma_spacing_bounds(n as nat);
        lemma_nearest_even_near(n as nat, s as nat);
    }
    let q = divide_to_nearest(n as u128, s);
    q * s
}

/// `bytes` as shown to a person: the count itself below one KiB, above that
/// the number of KiB, MiB, GiB or TiB with two decimals, as a double divided
/// by the unit prints with a precision of two.
pub fn human_bytes(bytes: u64) -> (s: String)
    ensures
        s@ == size_text(bytes as nat),
{
    if bytes < KIB {
        let mut s = decimal(bytes);
        s.append(" B");
        return s;
    }
    let (unit, suffix) = if bytes >= TIB {
        (TIB, " TiB")
    } else if bytes >= GIB {
        (GIB, " GiB")
    } else if bytes >= MIB {
        (MIB, " MiB")
    } else {
        (KIB, " KiB")
    };
    let whole = round_to_double(bytes);
    let h = divide_to_nearest(100 * whole, unit as u128);
    proof {
        lemma_nearest_even_near((100 * whole) as nat, unit as nat);
        assert(h / 100 <= u64::MAX) by (nonlinear_arith)
            requires
                2 * (h * unit) <= 2 * (100 * whole) + unit,
                whole <= 2 * u64::MAX + 1,
                0x400 <= unit,
        ;
    }
    let mut s = decimal((h / 100) as u64);
    s.append(".");
    let cents = padded(decimal((h % 100) as u64), 2);
    s.append(cents.as_str());
    s.append(suffix);
    s
}

} // verus!
