use vstd::prelude::*;

verus! {

/// Number of fractional decimal digits every amount carries.
pub const FRACTION_DIGITS: u32 = 4;

/// Number of units in one whole currency unit.
pub const UNITS_PER_WHOLE: i128 = 10000;

/// An exact base-10 fixed-point amount: a count of ten-thousandths of a
/// currency unit.
#[derive(Clone, Copy, Debug, PartialEq, Eq, Structural)]
pub struct Amount {
    pub units: i128,
}

impl View for Amount {
    type V = int;

    open spec fn view(&self) -> int {
        self.units as int
    }
}

/// The text of `units / 10^4` with exactly four fractional digits, as
/// rust_decimal prints it.
pub uninterp spec fn four_place_text(units: int) -> Seq<char>;

/// The largest magnitude of the 96-bit mantissa of a decimal.
pub open spec fn decimal_limit() -> int {
    0xFFFF_FFFF_FFFF_FFFF_FFFF_FFFF
}

/// Relies on rust_decimal's `Decimal::try_from_i128_with_scale`, which fails
/// exactly when the magnitude of `units` exceeds the 96-bit mantissa, and on
/// its `Display` with precision 4, which prints four fractional digits.
#[verifier::external_body]
fn decimal_text(units: i128) -> (r: Option<String>)
    ensures
        match r {
            Some(s) => -decimal_limit() <= units <= decimal_limit() && s@ == four_place_text(
                units as int,
            ),
            None => !(-decimal_limit() <= units <= decimal_limit()),
        },
{
    match rust_decimal::Decimal::try_from_i128_with_scale(units, FRACTION_DIGITS) {
        Ok(d) => Some(format!("{:.4}", d)),
        Err(_) => None,
    }
}

/// True when `x` can be held by an `Amount`.
pub open spec fn representable(x: int) -> bool {
    i128::MIN <= x <= i128::MAX
}

impl Amount {
    /// The amount zero.
    pub fn zero() -> (r: Amount)
        ensures
            r@ == 0,
    {
        Amount { units: 0 }
    }

    /// The amount made of `units` ten-thousandths.
    pub fn from_units(units: i128) -> (r: Amount)
        ensures
            r@ == units as int,
    {
        Amount { units }
    }

    /// The amount `whole` currency units, with no fractional part.
    pub fn from_whole(whole: i64) -> (r: Amount)
        ensures
            r@ == whole as int * 10000,
    {
        Amount { units: whole as i128 * UNITS_PER_WHOLE }
    }

    /// The amount as text with exactly four fractional digits; `None` when
    /// its magnitude is beyond what a 96-bit decimal mantissa holds.
    pub fn to_text(&self) -> (r: Option<String>)
        ensures
            match r {
                Some(s) => -decimal_limit() <= self@ <= decimal_limit() && s@ == four_place_text(
                    self@,
                ),
                None => !(-decimal_limit() <= self@ <= decimal_limit()),
            },
    {
        decimal_text(self.units)
    }

    /// The number of ten-thousandths this amount holds.
    pub fn units(&self) -> (r: i128)
        ensures
            r as int == self@,
    {
        self.units
    }
}

} // verus!
