use vstd::prelude::*;
use vstd::string::*;

verus! {

/// The fixed-point decimal of `rust_decimal`, carried as the curve's slope.
#[verifier::external_type_specification]
#[verifier::external_body]
pub struct ExRustDecimal(rust_decimal::Decimal);

/// Number of decimal places of the supply token and of the reserve token.
#[derive(Clone, Copy, Debug, PartialEq, Eq, Structural)]
pub struct DecimalPlaces {
    pub supply: u32,
    pub reserve: u32,
}

impl DecimalPlaces {
    pub fn new(supply: u8, reserve: u8) -> (places: Self)
        ensures
            places.supply == supply as u32,
            places.reserve == reserve as u32,
    {
        DecimalPlaces { supply: supply as u32, reserve: reserve as u32 }
    }
}

/// Errors of curve configuration and evaluation.
#[derive(Clone, Debug, PartialEq, Eq)]
pub enum CurveError {
    InvalidConfiguration { reason: String },
    DivisionByZero,
}

/// `f(s) = slope * s^(num/den)`: a power curve with a rational exponent.
pub struct Power {
    pub slope: rust_decimal::Decimal,
    pub exponent_num: u32,
    pub exponent_den: u32,
    pub normalize: DecimalPlaces,
}

/// Upper bound on the exponent work (`num`, `den` and `num + den`).
pub const MAX_EXPONENT_WORK: u32 = 32;

/// The exponents are usable: the denominator is positive and numerator,
/// denominator and their sum stay within the work bound.
pub open spec fn valid_exponents(num: u32, den: u32) -> bool {
    &&& den != 0
    &&& num <= MAX_EXPONENT_WORK
    &&& den <= MAX_EXPONENT_WORK
    &&& num + den <= MAX_EXPONENT_WORK
}

impl Power {
    pub fn new(
        slope: rust_decimal::Decimal,
        exponent_num: u32,
        exponent_den: u32,
        normalize: DecimalPlaces,
    ) -> (p: Self)
        ensures
            p.slope == slope,
            p.exponent_num == exponent_num,
            p.exponent_den == exponent_den,
            p.normalize == normalize,
    {
        Power { slope, exponent_num, exponent_den, normalize }
    }

    /// `num + den`, the numerator of the integral's exponent `(num + den) / den`.
    pub fn integral_num(&self) -> (r: Result<u32, CurveError>)
        ensures
            valid_exponents(self.exponent_num, self.exponent_den) ==> r == Ok::<u32, CurveError>(
                (self.exponent_num + self.exponent_den) as u32,
            ),
            !valid_exponents(self.exponent_num, self.exponent_den) ==> r is Err,
            self.exponent_den > 0 && self.exponent_num + self.exponent_den <= 32 ==> r == Ok::<
                u32,
                CurveError,
            >((self.exponent_num + self.exponent_den) as u32),
            r is Err ==> self.exponent_den == 0 || self.exponent_num + self.exponent_den > 32,
            r matches Err(e) ==> e matches CurveError::InvalidConfiguration { reason } && reason@
                == (if self.exponent_num + self.exponent_den > u32::MAX {
                "power exponent sum overflows"@
            } else {
                "power denominator must be positive and exponent work must be <= 32"@
            }),
    {
        let sum = match self.exponent_num.checked_add(self.exponent_den) {
            Some(s) => s,
            None => {
                let reason = String::from_str("power exponent sum overflows");
                return Err(CurveError::InvalidConfiguration { reason });
            },
        };
        if self.exponent_den == 0 || self.exponent_num > MAX_EXPONENT_WORK || self.exponent_den
            > MAX_EXPONENT_WORK || sum > MAX_EXPONENT_WORK {
            let reason = String::from_str(
                "power denominator must be positive and exponent work must be <= 32",
            );
            return Err(CurveError::InvalidConfiguration { reason });
        }
        Ok(sum)
    }

    /// Checks the exponents, as every evaluation of the curve does first.
    pub fn validate_exponents(&self) -> (r: Result<(), CurveError>)
        ensures
            r is Ok <==> valid_exponents(self.exponent_num, self.exponent_den),
            r is Ok <==> self.exponent_den > 0 && self.exponent_num + self.exponent_den <= 32,
            r matches Err(e) ==> self.integral_num_error(e),
    {
        match self.integral_num() {
            Ok(_) => Ok(()),
            Err(e) => Err(e),
        }
    }

    /// The error that `integral_num` reports for these exponents.
    pub open spec fn integral_num_error(&self, e: CurveError) -> bool {
        e matches CurveError::InvalidConfiguration { reason } && reason@ == (if self.exponent_num
            + self.exponent_den > u32::MAX {
            "power exponent sum overflows"@
        } else {
            "power denominator must be positive and exponent work must be <= 32"@
        })
    }
}

/// Law: the exponents are usable exactly when the denominator is positive and
/// numerator plus denominator is at most 32; so every such rational exponent
/// (`0/1` constant, `1/1` linear, `1/2` square root, ...) is accepted.
pub proof fn lemma_valid_exponents_iff_work_bound(num: u32, den: u32)
    ensures
        valid_exponents(num, den) <==> (den > 0 && num + den <= 32),
{
}

} // verus!
