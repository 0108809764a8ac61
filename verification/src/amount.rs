//! Fixed-point currency amounts and fee rates.
//!
//! Whole-unit amounts are held as a count of satoshis and rendered as decimal
//! text with eight fractional digits, never as binary floating point, so no
//! rounding drift can occur at the eight-decimal-place boundary.
use vstd::prelude::*;

verus! {

/// Number of satoshis in one whole currency unit.
pub const SATS_PER_UNIT: u64 = 100_000_000;

/// The character for a single decimal digit.
pub open spec fn digit_char(d: nat) -> char
    recommends
        d < 10,
{
    if d == 0 {
        '0'
    } else if d == 1 {
        '1'
    } else if d == 2 {
        '2'
    } else if d == 3 {
        '3'
    } else if d == 4 {
        '4'
    } else if d == 5 {
        '5'
    } else if d == 6 {
        '6'
    } else if d == 7 {
        '7'
    } else if d == 8 {
        '8'
    } else {
        '9'
    }
}

/// The decimal text of a natural number, most significant digit first,
/// without leading zeros (zero itself is the single digit `0`).
pub open spec fn dec_text(n: nat) -> Seq<char>
    decreases n,
{
    if n < 10 {
        seq![digit_char(n)]
    } else {
        dec_text(n / 10).push(digit_char(n % 10))
    }
}

/// The decimal text of `n` has at most `k` digits when `n < 10^k` (`k >= 1`).
pub proof fn lemma_dec_text_len(n: nat, k: nat)
    requires
        k >= 1,
        n < vstd::arithmetic::power::pow(10, k),
    ensures
        1 <= dec_text(n).len() <= k,
    decreases k,
{
    vstd::arithmetic::power::lemma_pow_positive(10, k);
    if n < 10 {
    } else {
        vstd::arithmetic::power::lemma_pow_subtracts(10, 1, k);
        assert(vstd::arithmetic::power::pow(10, 1) == 10) by {
            reveal_with_fuel(vstd::arithmetic::power::pow, 2);
        }
        assert(n / 10 < vstd::arithmetic::power::pow(10, (k - 1) as nat)) by {
            assert(vstd::arithmetic::power::pow(10, k) == 10 * vstd::arithmetic::power::pow(
                10,
                (k - 1) as nat,
            )) by {
                reveal(vstd::arithmetic::power::pow);
            }
            vstd::arithmetic::div_mod::lemma_multiply_divide_lt(
                n as int,
                10,
                vstd::arithmetic::power::pow(10, (k - 1) as nat) as int,
            );
        }
        lemma_dec_text_len(n / 10, (k - 1) as nat);
    }
}

/// A run of `n` zero characters.
pub open spec fn zeros(n: int) -> Seq<char> {
    Seq::new(n as nat, |i: int| '0')
}

/// The decimal text of a fractional satoshi count, zero-padded on the left to
/// exactly eight digits.
pub open spec fn frac_text(n: nat) -> Seq<char>
    recommends
        n < SATS_PER_UNIT,
{
    zeros(8 - dec_text(n).len() as int) + dec_text(n)
}

/// The decimal text of an amount of `sats` satoshis in whole currency units:
/// the whole part, a decimal point, then exactly eight fractional digits.
pub open spec fn amount_text(sats: nat) -> Seq<char> {
    dec_text(sats / SATS_PER_UNIT as nat) + seq!['.'] + frac_text(sats % SATS_PER_UNIT as nat)
}

/// A fixed-point amount of currency, held as a count of satoshis.
#[derive(Clone, Copy)]
pub struct Amount {
    pub sats: u64,
}

/// One decimal digit as text.
fn digit_str(d: u64) -> (r: &'static str)
    requires
        d < 10,
    ensures
        r@ =~= seq![digit_char(d as nat)],
{
    proof {
        reveal_strlit("0");
        reveal_strlit("1");
        reveal_strlit("2");
        reveal_strlit("3");
        reveal_strlit("4");
        reveal_strlit("5");
        reveal_strlit("6");
        reveal_strlit("7");
        reveal_strlit("8");
        reveal_strlit("9");
    }
    if d == 0 {
        "0"
    } else if d == 1 {
        "1"
    } else if d == 2 {
        "2"
    } else if d == 3 {
        "3"
    } else if d == 4 {
        "4"
    } else if d == 5 {
        "5"
    } else if d == 6 {
        "6"
    } else if d == 7 {
        "7"
    } else if d == 8 {
        "8"
    } else {
        "9"
    }
}

/// The decimal text of `n`, most significant digit first.
pub fn dec_string(n: u64) -> (r: String)
    ensures
        r@ == dec_text(n as nat),
    decreases n,
{
    if n < 10 {
        let s = digit_str(n);
        let r = s.to_owned();
        assert(r@ =~= dec_text(n as nat));
        r
    } else {
        let mut r = dec_string(n / 10);
        r.append(digit_str(n % 10));
        assert(r@ =~= dec_text(n as nat));
        r
    }
}

impl Amount {
    /// Construct an amount from a count of satoshis.
    pub fn from_sats(sats: u64) -> (r: Amount)
        ensures
            r.sats == sats,
    {
        Amount { sats }
    }

    /// Construct an amount from a count of whole currency units.
    /// `None` exactly when the amount does not fit in a satoshi count.
    pub fn from_units(units: u64) -> (r: Option<Amount>)
        ensures
            units * SATS_PER_UNIT <= u64::MAX ==> (r matches Some(a) && a.sats == units
                * SATS_PER_UNIT),
            units * SATS_PER_UNIT > u64::MAX ==> r is None,
    {
        match units.checked_mul(SATS_PER_UNIT) {
            Some(sats) => Some(Amount { sats }),
            None => None,
        }
    }

    /// Render the amount as decimal text in whole currency units, with a
    /// decimal point and exactly eight fractional digits.
    pub fn to_decimal_text(&self) -> (r: String)
        ensures
            r@ == amount_text(self.sats as nat),
    {
        proof {
            reveal_strlit(".");
            reveal_strlit("0");
        }
        let units: u64 = self.sats / SATS_PER_UNIT;
        let frac: u64 = self.sats % SATS_PER_UNIT;
        let mut r = dec_string(units);
        r.append(".");
        assert(r@ =~= dec_text(self.sats as nat / SATS_PER_UNIT as nat) + seq!['.']);
        let frac_digits = dec_string(frac);
        proof {
            assert(SATS_PER_UNIT == vstd::arithmetic::power::pow(10, 8)) by {
                reveal_with_fuel(vstd::arithmetic::power::pow, 9);
            }
            lemma_dec_text_len(frac as nat, 8);
        }
        let len = frac_digits.as_str().unicode_len();
        let mut pad: usize = 8 - len;
        let ghost padded_start = r@;
        while pad > 0
            invariant
                r@ == padded_start + zeros(8 - len - pad),
                pad <= 8 - len,
            decreases pad,
        {
            r.append("0");
            proof {
                reveal_strlit("0");
                assert(zeros(8 - len - pad) + "0"@ =~= zeros(8 - len - (pad - 1)));
            }
            pad = pad - 1;
        }
        r.append(frac_digits.as_str());
        assert(r@ =~= amount_text(self.sats as nat)) by {
            assert(r@ == padded_start + zeros(8 - len) + dec_text(frac as nat));
        }
        r
    }
}

/// A fee rate in satoshis per virtual byte; always strictly positive.
#[derive(Clone, Copy)]
pub struct FeeRate {
    pub sat_per_vb: u64,
}

impl FeeRate {
    /// Construct a fee rate. `None` exactly when the rate is zero: a fee rate
    /// must be strictly positive.
    pub fn new(sat_per_vb: u64) -> (r: Option<FeeRate>)
        ensures
            sat_per_vb > 0 ==> (r matches Some(f) && f.sat_per_vb == sat_per_vb),
            sat_per_vb == 0 ==> r is None,
    {
        if sat_per_vb == 0 {
            None
        } else {
            Some(FeeRate { sat_per_vb })
        }
    }

    /// The fee rate is well formed: strictly positive.
    pub open spec fn wf(&self) -> bool {
        self.sat_per_vb > 0
    }
}

} // verus!
