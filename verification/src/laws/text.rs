//! Numbers as text: whoever reads the text gets the number back.

use crate::text::{decimal_text, digit, numeral, upper_hex_text, zero_padded};
use vstd::arithmetic::div_mod::lemma_fundamental_div_mod;
use vstd::prelude::*;
use vstd::string::*;

verus! {

/// What a digit counts, or -1 for anything else.
pub open spec fn digit_value(c: char) -> int {
    if 48 <= c as int <= 57 {
        c as int - 48
    } else if 65 <= c as int <= 70 {
        c as int - 55
    } else {
        -1
    }
}

/// The number that a reader makes of `s`, place by place.
pub open spec fn number_read(s: Seq<char>, base: int) -> int
    decreases s.len(),
{
    if s.len() == 0 {
        0
    } else {
        number_read(s.drop_last(), base) * base + digit_value(s.last())
    }
}

/// Whether all of `s` are digits below `base`.
pub open spec fn all_digits(s: Seq<char>, base: int) -> bool {
    forall|i: int| 0 <= i < s.len() ==> 0 <= #[trigger] digit_value(s[i]) < base
}

proof fn lemma_digit(d: nat)
    requires
        d < 16,
    ensures
        digit_value(digit(d)) == d,
        d != 0 ==> digit(d) != '0',
        d < 10 ==> digit(d) as int == 48 + d,
{
    reveal_strlit("0123456789ABCDEF");
}

/// A numeral is made of digits of its base, reads back as the number, and has
/// no zero in front but for zero itself.
pub proof fn law_numeral_reads_back(n: nat, base: nat)
    requires
        2 <= base <= 16,
    ensures
        numeral(n, base).len() > 0,
        all_digits(numeral(n, base), base as int),
        number_read(numeral(n, base), base as int) == n,
        n > 0 ==> numeral(n, base)[0] != '0',
        n == 0 ==> numeral(n, base) == seq!['0'],
    decreases n,
{
    let s = numeral(n, base);
    if n < base {
        lemma_digit(n);
        assert(s.drop_last() =~= seq![]);
        assert(number_read(s.drop_last(), base as int) == 0);
        assert(0 * base == 0);
        if n == 0 {
            reveal_strlit("0123456789ABCDEF");
        }
    } else {
        let q = n / base;
        let r = n % base;
        assert(0 < q < n && r < base) by (nonlinear_arith)
            requires
                q == n / base,
                r == n % base,
                2 <= base <= n,
        ;
        law_numeral_reads_back(q, base);
        lemma_digit(r);
        assert(s.drop_last() =~= numeral(q, base));
        lemma_fundamental_div_mod(n as int, base as int);
        assert(q * base == base * q) by (nonlinear_arith);
        assert forall|i: int| 0 <= i < s.len() implies 0 <= #[trigger] digit_value(s[i]) < base by {
            if i < s.len() - 1 {
                assert(s[i] == numeral(q, base)[i]);
            }
        }
        assert(s[0] == numeral(q, base)[0]);
    }
}

/// A number in decimal reads back as itself, in digits from 0 to 9, with no
/// zero in front.
pub proof fn law_decimal_reads_back(n: nat)
    ensures
        all_digits(decimal_text(n), 10),
        number_read(decimal_text(n), 10) == n,
        n > 0 ==> decimal_text(n).len() > 0 && decimal_text(n)[0] != '0',
        n == 0 ==> decimal_text(n) == seq!['0'],
{
    law_numeral_reads_back(n, 10);
}

proof fn lemma_zeros_read_as_nothing(zeros: Seq<char>, s: Seq<char>, base: int)
    requires
        forall|i: int| 0 <= i < zeros.len() ==> #[trigger] zeros[i] == '0',
    ensures
        number_read(zeros + s, base) == number_read(s, base),
    decreases zeros.len() + s.len(),
{
    let whole = zeros + s;
    if s.len() > 0 {
        assert(whole.drop_last() =~= zeros + s.drop_last());
        lemma_zeros_read_as_nothing(zeros, s.drop_last(), base);
    } else if zeros.len() > 0 {
        assert(whole =~= zeros);
        assert(whole.drop_last() =~= zeros.drop_last() + s);
        lemma_zeros_read_as_nothing(zeros.drop_last(), s, base);
        assert(zeros.last() == '0');
        assert(0 * base == 0);
    } else {
        assert(whole =~= s);
    }
}

/// A number in hexadecimal reads back as itself, fills `width` places, and has
/// a zero in front only where it takes one to fill them.
pub proof fn law_hex_reads_back(n: nat, width: nat)
    ensures
        all_digits(upper_hex_text(n, width), 16),
        number_read(upper_hex_text(n, width), 16) == n,
        upper_hex_text(n, width).len() >= width,
        upper_hex_text(n, width).len() > width && n > 0 ==> upper_hex_text(n, width)[0] != '0',
        n == 0 && width == 0 ==> upper_hex_text(n, width) == seq!['0'],
{
    let s = numeral(n, 16);
    law_numeral_reads_back(n, 16);
    if s.len() < width {
        let zeros = Seq::new((width - s.len()) as nat, |i: int| '0');
        lemma_zeros_read_as_nothing(zeros, s, 16);
        let whole = zeros + s;
        assert forall|i: int| 0 <= i < whole.len() implies 0 <= #[trigger] digit_value(whole[i]) < 16 by {
            if i >= zeros.len() {
                assert(whole[i] == s[i - zeros.len()]);
            }
        }
    }
}

/// A number below a hundred, padded to two places, is its two digits.
pub proof fn law_two_places(n: nat)
    requires
        n < 100,
    ensures
        zero_padded(decimal_text(n), 2).len() == 2,
        zero_padded(decimal_text(n), 2)[0] as int == 48 + n / 10,
        zero_padded(decimal_text(n), 2)[1] as int == 48 + n % 10,
{
    reveal_with_fuel(numeral, 3);
    lemma_digit(n / 10);
    lemma_digit(n % 10);
}

} // verus!
