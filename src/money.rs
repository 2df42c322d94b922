use bigdecimal::ToPrimitive;
use std::str::FromStr;
use vstd::prelude::*;

verus! {

/// Digits kept after the decimal point: a `Money` counts units of 10^-18.
pub const FRACTION_DIGITS: i128 = 18;

/// Parsed amounts stay strictly between minus and plus this many units
/// (10^18 whole units of currency).
pub const AMOUNT_LIMIT: i128 = 1_000_000_000_000_000_000_000_000_000_000_000_000;

pub open spec fn pow10(n: nat) -> int
    decreases n,
{
    if n == 0 {
        1
    } else {
        10 * pow10((n - 1) as nat)
    }
}

pub open spec fn fits_i128(x: int) -> bool {
    i128::MIN <= x <= i128::MAX
}

/// An amount that text input may produce.
pub open spec fn in_amount_range(x: int) -> bool {
    -AMOUNT_LIMIT < x < AMOUNT_LIMIT
}

pub open spec fn abs(x: int) -> int {
    if x < 0 {
        -x
    } else {
        x
    }
}

/// The number of 10^-18 units in `m * 10^-e`, when that number is whole.
pub open spec fn scaled_units(m: int, e: int) -> Option<int> {
    if e <= FRACTION_DIGITS {
        Some(m * pow10((FRACTION_DIGITS - e) as nat))
    } else {
        let p = pow10((e - FRACTION_DIGITS) as nat);
        if abs(m) % p == 0 {
            Some(if m < 0 { -(abs(m) / p) } else { abs(m) / p })
        } else {
            None
        }
    }
}

/// The amount in units that the decimal `m * 10^-e` stands for, if it is
/// whole in units and within the amount range.
pub open spec fn amount_of(m: int, e: int) -> Option<int> {
    match scaled_units(m, e) {
        Some(u) => if in_amount_range(u) { Some(u) } else { None },
        None => None,
    }
}

/// The digits and exponent that `BigDecimal` reads from a text: the text stands
/// for `digits * 10^-exponent`; `None` when it is no decimal number.
pub uninterp spec fn decimal_parts(s: Seq<char>) -> Option<(int, int)>;

/// The amount in units that a text stands for, where the library can hold it.
pub open spec fn text_amount(s: Seq<char>) -> Option<int> {
    match decimal_parts(s) {
        Some((m, e)) => if fits_i128(m) { amount_of(m, e) } else { None },
        None => None,
    }
}

/// Why a text gave no amount.
#[derive(Clone, Copy, Debug, PartialEq, Eq, Structural)]
pub enum ParseError {
    /// The text is no decimal number.
    Malformed,
    /// The text is a decimal number that is too large, or has more than
    /// eighteen digits after the point.
    OutOfRange,
}

/// How a text reads as a decimal number.
pub enum DecimalText {
    Malformed,
    /// A decimal number whose digits do not fit in an `i128`.
    Wide,
    /// `digits * 10^-exponent`.
    Parts(i128, i64),
}

/// Relies on `BigDecimal::from_str` to read a decimal number, and on
/// `into_bigint_and_exponent` and `ToPrimitive::to_i128` to hand out its digits
/// and exponent as plain integers.
#[verifier::external_body]
fn read_decimal(s: &str) -> (r: DecimalText)
    ensures
        match r {
            DecimalText::Malformed => decimal_parts(s@) is None,
            DecimalText::Wide => decimal_parts(s@) matches Some((m, _)) && !fits_i128(m),
            DecimalText::Parts(m, e) => decimal_parts(s@) == Some((m as int, e as int)),
        },
{
    match bigdecimal::BigDecimal::from_str(s) {
        Err(_) => DecimalText::Malformed,
        Ok(d) => {
            let (digits, exponent) = d.into_bigint_and_exponent();
            match digits.to_i128() {
                Some(m) => DecimalText::Parts(m, exponent),
                None => DecimalText::Wide,
            }
        },
    }
}

/// An exact amount of money, counted in units of 10^-18.
#[derive(Clone, Copy, Debug, PartialEq, Eq, Structural)]
pub struct Money {
    units: i128,
}

impl View for Money {
    type V = int;

    closed spec fn view(&self) -> int {
        self.units as int
    }
}

pub proof fn lemma_pow10_positive(n: nat)
    ensures
        pow10(n) >= 1,
    decreases n,
{
    if n > 0 {
        lemma_pow10_positive((n - 1) as nat);
    }
}

pub proof fn lemma_pow10_monotone(a: nat, b: nat)
    requires
        a <= b,
    ensures
        pow10(a) <= pow10(b),
    decreases b,
{
    if a < b {
        lemma_pow10_monotone(a, (b - 1) as nat);
        lemma_pow10_positive((b - 1) as nat);
    }
}

proof fn lemma_pow10_limits()
    ensures
        pow10(36) == AMOUNT_LIMIT,
        pow10(37) == 10 * AMOUNT_LIMIT,
        pow10(38) == 100 * AMOUNT_LIMIT,
{
    reveal_with_fuel(pow10, 39);
}

/// `10^n` for `n <= 38`.
fn pow10_u128(n: u32) -> (r: u128)
    requires
        n <= 38,
    ensures
        r == pow10(n as nat),
{
    let mut r: u128 = 1;
    let mut i: u32 = 0;
    while i < n
        invariant
            i <= n <= 38,
            r == pow10(i as nat),
        decreases n - i,
    {
        proof {
            lemma_pow10_limits();
            lemma_pow10_monotone(i as nat, 37);
        }
        r = r * 10;
        i = i + 1;
    }
    r
}

impl Money {
    pub fn zero() -> (r: Money)
        ensures
            r@ == 0,
    {
        Money { units: 0 }
    }

    pub fn from_units(units: i128) -> (r: Money)
        ensures
            r@ == units,
    {
        Money { units }
    }

    pub fn units(&self) -> (r: i128)
        ensures
            r == self@,
    {
        self.units
    }

    pub open spec fn is_amount(&self) -> bool {
        in_amount_range(self@)
    }

    /// Reads the decimal number `digits * 10^-exponent` as an amount.
    pub fn from_parts(digits: i128, exponent: i64) -> (r: Result<Money, ParseError>)
        ensures
            r is Ok <==> amount_of(digits as int, exponent as int) is Some,
            r matches Ok(x) ==> Some(x@) == amount_of(digits as int, exponent as int),
            r matches Err(err) ==> err == ParseError::OutOfRange,
    {
        proof {
            lemma_pow10_limits();
        }
        if digits == 0 {
            proof {
                lemma_pow10_positive((exponent - FRACTION_DIGITS) as nat);
            }
            return Ok(Money::zero());
        }
        let e = exponent as i128;
        if e <= FRACTION_DIGITS {
            let k = FRACTION_DIGITS - e;
            if k > 36 {
                proof {
                    lemma_pow10_monotone(37, k as nat);
                    let p = pow10(k as nat);
                    assert(abs(digits * p) >= p) by (nonlinear_arith)
                        requires
                            digits != 0,
                            p >= 1,
                    ;
                }
                return Err(ParseError::OutOfRange);
            }
            let p = pow10_u128(k as u32) as i128;
            proof {
                lemma_pow10_monotone(k as nat, 36);
            }
            match digits.checked_mul(p) {
                None => Err(ParseError::OutOfRange),
                Some(u) => {
                    if -AMOUNT_LIMIT < u && u < AMOUNT_LIMIT {
                        Ok(Money { units: u })
                    } else {
                        Err(ParseError::OutOfRange)
                    }
                },
            }
        } else {
            let k = e - FRACTION_DIGITS;
            let mag: u128 = if digits >= 0 {
                digits as u128
            } else {
                ((-(digits + 1)) as u128) + 1
            };
            if k > 38 {
                proof {
                    lemma_pow10_monotone(39, k as nat);
                    reveal_with_fuel(pow10, 40);
                    let p = pow10(k as nat);
                    assert(abs(digits as int) % p == abs(digits as int)) by (nonlinear_arith)
                        requires
                            0 < abs(digits as int) < p,
                    ;
                }
                return Err(ParseError::OutOfRange);
            }
            let p = pow10_u128(k as u32);
            proof {
                lemma_pow10_positive(k as nat);
            }
            if mag % p != 0 {
                return Err(ParseError::OutOfRange);
            }
            let q = mag / p;
            proof {
                assert(q <= mag) by (nonlinear_arith)
                    requires
                        p >= 1,
                        q == mag / p,
                ;
            }
            if q < AMOUNT_LIMIT as u128 {
                if digits < 0 {
                    Ok(Money { units: -(q as i128) })
                } else {
                    Ok(Money { units: q as i128 })
                }
            } else {
                Err(ParseError::OutOfRange)
            }
        }
    }

    /// Reads a text as a decimal amount.
    pub fn parse(text: &str) -> (r: Result<Money, ParseError>)
        ensures
            r is Ok <==> text_amount(text@) is Some,
            r matches Ok(x) ==> Some(x@) == text_amount(text@),
            r == Err::<Money, ParseError>(ParseError::Malformed) <==> decimal_parts(text@) is None,
    {
        match read_decimal(text) {
            DecimalText::Malformed => Err(ParseError::Malformed),
            DecimalText::Wide => Err(ParseError::OutOfRange),
            DecimalText::Parts(m, e) => Money::from_parts(m, e),
        }
    }

    pub fn checked_add(&self, other: &Money) -> (r: Option<Money>)
        ensures
            r is Some <==> fits_i128(self@ + other@),
            r matches Some(x) ==> x@ == self@ + other@,
    {
        match self.units.checked_add(other.units) {
            Some(u) => Some(Money { units: u }),
            None => None,
        }
    }

    pub fn checked_sub(&self, other: &Money) -> (r: Option<Money>)
        ensures
            r is Some <==> fits_i128(self@ - other@),
            r matches Some(x) ==> x@ == self@ - other@,
    {
        match self.units.checked_sub(other.units) {
            Some(u) => Some(Money { units: u }),
            None => None,
        }
    }

    pub fn checked_neg(&self) -> (r: Option<Money>)
        ensures
            r is Some <==> fits_i128(-self@),
            r matches Some(x) ==> x@ == -self@,
    {
        if self.units == i128::MIN {
            None
        } else {
            Some(Money { units: -self.units })
        }
    }

    pub fn checked_abs(&self) -> (r: Option<Money>)
        ensures
            r is Some <==> fits_i128(abs(self@)),
            r matches Some(x) ==> x@ == abs(self@),
    {
        if self.units == i128::MIN {
            None
        } else if self.units < 0 {
            Some(Money { units: -self.units })
        } else {
            Some(*self)
        }
    }

    pub fn is_zero(&self) -> (r: bool)
        ensures
            r == (self@ == 0),
    {
        self.units == 0
    }

    pub fn le(&self, other: &Money) -> (r: bool)
        ensures
            r == (self@ <= other@),
    {
        self.units <= other.units
    }

    pub fn compare(&self, other: &Money) -> (r: std::cmp::Ordering)
        ensures
            r == std::cmp::Ordering::Less <==> self@ < other@,
            r == std::cmp::Ordering::Equal <==> self@ == other@,
            r == std::cmp::Ordering::Greater <==> self@ > other@,
    {
        if self.units < other.units {
            std::cmp::Ordering::Less
        } else if self.units == other.units {
            std::cmp::Ordering::Equal
        } else {
            std::cmp::Ordering::Greater
        }
    }
}

} // verus!
