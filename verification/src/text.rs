//! Numbers and strings as text.

use vstd::arithmetic::div_mod::lemma_small_mod;
use vstd::prelude::*;
use vstd::string::*;
use vstd::utf8::*;

verus! {

/// The digits of every base up to sixteen, in order.
pub open spec fn digit(d: nat) -> char {
    "0123456789ABCDEF"@[d as int]
}

/// `n` written in `base`, without leading zeros; zero is one digit.
pub open spec fn numeral(n: nat, base: nat) -> Seq<char>
    recommends
        2 <= base <= 16,
    decreases n,
{
    if base < 2 || n < base {
        seq![digit(n)]
    } else {
        proof {
            assert(n / base < n) by (nonlinear_arith)
                requires
                    2 <= base <= n,
            ;
        }
        numeral(n / base, base).push(digit(n % base))
    }
}

/// `s` with as many zeros in front as it takes to fill `width` places.
pub open spec fn zero_padded(s: Seq<char>, width: nat) -> Seq<char> {
    if s.len() < width {
        Seq::new((width - s.len()) as nat, |i: int| '0') + s
    } else {
        s
    }
}

/// `n` in decimal.
pub open spec fn decimal_text(n: nat) -> Seq<char> {
    numeral(n, 10)
}

/// `n` in upper-case hexadecimal, at least `width` places wide.
pub open spec fn upper_hex_text(n: nat, width: nat) -> Seq<char> {
    zero_padded(numeral(n, 16), width)
}

/// Whether the two strings hold the same characters.
pub fn same_text(a: &str, b: &str) -> (same: bool)
    ensures
        same == (a@ == b@),
{
    let x = a.as_bytes();
    let y = b.as_bytes();
    if x.len() != y.len() {
        return false;
    }
    let mut i: usize = 0;
    while i < x.len()
        invariant
            i <= x@.len(),
            x@.len() == y@.len(),
            x@ == encode_utf8(a@),
            y@ == encode_utf8(b@),
            forall|j: int| 0 <= j < i ==> x@[j] == y@[j],
        decreases x@.len() - i,
    {
        if x[i] != y[i] {
            return false;
        }
        i += 1;
    }
    proof {
        assert(x@ =~= y@);
        encode_utf8_decode_utf8(a@);
        encode_utf8_decode_utf8(b@);
    }
    true
}

/// The numeral of `n` in `base`.
fn numeral_of(n: u64, base: u64) -> (s: String)
    requires
        2 <= base <= 16,
    ensures
        s@ == numeral(n as nat, base as nat),
    decreases n,
{
    proof {
        reveal_strlit("0123456789ABCDEF");
    }
    let low = (n % base) as usize;
    let place = "0123456789ABCDEF".substring_char(low, low + 1);
    assert(place@ =~= seq![digit(low as nat)]);
    if n < base {
        proof {
            lemma_small_mod(n as nat, base as nat);
        }
        place.to_owned()
    } else {
        proof {
            assert(n / base < n) by (nonlinear_arith)
                requires
                    2 <= base <= n,
            ;
        }
        let mut s = numeral_of(n / base, base);
        s.append(place);
        assert(s@ =~= numeral(n as nat, base as nat));
        s
    }
}

/// `n` in decimal.
pub fn decimal(n: u64) -> (s: String)
    ensures
        s@ == decimal_text(n as nat),
{
    numeral_of(n, 10)
}

/// `n` in upper-case hexadecimal, padded with zeros to `width` places.
pub fn upper_hex(n: u64, width: usize) -> (s: String)
    ensures
        s@ == upper_hex_text(n as nat, width as nat),
{
    let numeral = numeral_of(n, 16);
    padded(numeral, width)
}

/// `numeral` with zeros in front, up to `width` places.
pub(crate) fn padded(numeral: String, width: usize) -> (s: String)
    ensures
        s@ == zero_padded(numeral@, width as nat),
{
    proof {
        reveal_strlit("0");
    }
    let len = numeral.as_str().unicode_len();
    let mut s = String::new();
    let mut filled: usize = len;
    assert(s@ =~= Seq::new(0, |i: int| '0'));
    while filled < width
        invariant
            len == numeral@.len(),
            len <= filled,
            filled <= width || filled == len,
            "0"@ =~= seq!['0'],
            s@ =~= Seq::new((filled - len) as nat, |i: int| '0'),
        decreases width - filled,
    {
        s.append("0");
        filled += 1;
    }
    s.append(numeral.as_str());
    assert(s@ =~= zero_padded(numeral@, width as nat));
    s
}

} // verus!
