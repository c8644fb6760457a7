//! Byte counts as text: the number shown, and how near it is.

use crate::laws::text::law_two_places;
use crate::size::{
    hundredths, law_small_sizes_are_exact, lemma_nearest_even_near, lemma_spacing_bounds, nearest_double,
    nearest_even, size_text, spacing, unit,
};
use crate::text::decimal_text;
use vstd::arithmetic::div_mod::lemma_fundamental_div_mod;
use vstd::arithmetic::power2::{lemma_pow2_unfold, pow2};
use vstd::prelude::*;
use vstd::string::*;

verus! {

/// Whether `q` is the integer nearest to `n / d`, and the even one of two that
/// are as near.
pub open spec fn is_nearest(q: int, n: int, d: int) -> bool {
    &&& -d <= 2 * (q * d - n) <= d
    &&& (2 * (q * d - n) == d || 2 * (q * d - n) == -d) ==> q % 2 == 0
}

/// Whether `s` is `h` hundredths as a number with two decimals, and then
/// `suffix`.
pub open spec fn shows_hundredths(s: Seq<char>, h: int, suffix: Seq<char>) -> bool {
    let whole = decimal_text((h / 100) as nat);
    let p = whole.len() as int;
    &&& s.len() == p + 3 + suffix.len()
    &&& s.subrange(0, p) == whole
    &&& s[p] == '.'
    &&& s[p + 1] as int == 48 + h / 10 % 10
    &&& s[p + 2] as int == 48 + h % 10
    &&& s.subrange(p + 3, s.len() as int) == suffix
}

proof fn lemma_nearest_even_is_nearest(n: nat, d: nat)
    requires
        0 < d,
    ensures
        is_nearest(nearest_even(n, d) as int, n as int, d as int),
{
    let q = n / d;
    let r = n % d;
    lemma_nearest_even_near(n, d);
    lemma_fundamental_div_mod(n as int, d as int);
    assert(d * q == q * d) by (nonlinear_arith);
    assert((q + 1) * d == q * d + d) by (nonlinear_arith);
}

proof fn lemma_size_text(bytes: nat, suffix: Seq<char>)
    requires
        0x400 <= bytes,
        suffix == crate::size::unit_suffix(bytes),
    ensures
        shows_hundredths(size_text(bytes), hundredths(bytes) as int, suffix),
{
    let h = hundredths(bytes);
    let cents = crate::text::zero_padded(decimal_text(h % 100), 2);
    law_two_places(h % 100);
    reveal_strlit(".");
    let s = size_text(bytes);
    let p = decimal_text(h / 100).len() as int;
    assert(s.subrange(0, p) =~= decimal_text(h / 100));
    assert(s.subrange(p + 3, s.len() as int) =~= suffix);
    assert(s[p + 1] == cents[0] && s[p + 2] == cents[1]);
    assert(h % 100 / 10 == h / 10 % 10 && h % 100 % 10 == h % 10);
}

/// Less than 1024 bytes are counted one by one.
pub proof fn law_bytes_are_counted(bytes: nat)
    requires
        bytes < 1024,
    ensures
        size_text(bytes) == decimal_text(bytes) + " B"@,
{
}

/// A count of up to 2^53 bytes is shown in the largest unit that it reaches,
/// to the nearest hundredth.
pub proof fn law_size_in_its_unit(bytes: nat, per_unit: nat, suffix: Seq<char>) -> (h: nat)
    requires
        bytes <= 0x20_0000_0000_0000,
        per_unit <= bytes,
        (per_unit == 1024 && bytes < 1024 * 1024 && suffix == " KiB"@) || (per_unit == 1024 * 1024 && bytes < 1024 * 1024
            * 1024 && suffix == " MiB"@) || (per_unit == 1024 * 1024 * 1024 && bytes < 1024 * 1024 * 1024 * 1024
            && suffix == " GiB"@) || (per_unit == 1024 * 1024 * 1024 * 1024 && suffix == " TiB"@),
    ensures
        shows_hundredths(size_text(bytes), h as int, suffix),
        is_nearest(h as int, 100 * bytes as int, per_unit as int),
{
    law_small_sizes_are_exact(bytes);
    lemma_size_text(bytes, suffix);
    lemma_nearest_even_is_nearest(100 * bytes, per_unit);
    hundredths(bytes)
}

proof fn lemma_spacing_is_power(n: nat) -> (k: nat)
    ensures
        spacing(n) == pow2(k),
    decreases n,
{
    if n < 0x20_0000_0000_0000 {
        vstd::arithmetic::power2::lemma2_to64();
        0
    } else {
        let k = lemma_spacing_is_power(n / 2);
        lemma_pow2_unfold(k + 1);
        k + 1
    }
}

/// A larger count is first taken to 53 significant bits: `m` of them, `k` bits
/// up, the nearest such number. That is then shown in TiB to the nearest
/// hundredth.
pub proof fn law_huge_size_in_tib(bytes: nat) -> (r: (nat, nat, nat))
    requires
        0x20_0000_0000_0000 <= bytes,
    ensures
        ({
            let (h, m, k) = r;
            &&& 0x10_0000_0000_0000 * pow2(k) <= bytes < 0x20_0000_0000_0000 * pow2(k)
            &&& is_nearest(m as int, bytes as int, pow2(k) as int)
            &&& is_nearest(h as int, 100 * (m * pow2(k)) as int, 1024 * 1024 * 1024 * 1024int)
            &&& shows_hundredths(size_text(bytes), h as int, " TiB"@)
        }),
{
    let k = lemma_spacing_is_power(bytes);
    let m = nearest_even(bytes, spacing(bytes));
    lemma_spacing_bounds(bytes);
    lemma_nearest_even_is_nearest(bytes, spacing(bytes));
    lemma_nearest_even_is_nearest(100 * nearest_double(bytes), unit(bytes));
    lemma_size_text(bytes, " TiB"@);
    (hundredths(bytes), m, k)
}

} // verus!
