use vstd::prelude::*;

verus! {

/// The radial basis kinds the interpolator supports.
///
/// `PolyHarmonic(k)` stands for the polyharmonic spline of exponent `k`:
/// `r^k * ln r` when `k` is even (guarded to `0` near `r == 0`), `r^k` when
/// `k` is odd. The exponent must be positive for the spline to be a valid
/// basis; nothing here validates that, it is the caller's obligation.
/// `Gaussian` stands for `exp(-(r/c)^2)` for a positive width `c`; the
/// width is a real number that the numeric layer carries alongside, since
/// only the choice of formula matters structurally.
#[derive(Clone, Copy, Debug, PartialEq, Eq)]
pub enum Basis {
    PolyHarmonic(i32),
    Gaussian,
}

/// The closed formula a basis kind evaluates at a distance `r >= 0`.
#[derive(Clone, Copy, Debug, PartialEq, Eq)]
pub enum BasisForm {
    /// `r^k * ln r`, with the result fixed to `0` when `r` is below a tiny
    /// positive threshold, so that the logarithm is never taken at zero.
    LogPolyHarmonic(i32),
    /// `r^k`, with no guard needed.
    PlainPolyHarmonic(i32),
    /// `exp(-(r/c)^2)` for the width `c` held by the numeric layer.
    GaussianExp,
}

impl Basis {
    /// Which formula this basis kind uses: the guarded logarithmic form
    /// exactly for even polyharmonic exponents.
    pub open spec fn spec_form(self) -> BasisForm {
        match self {
            Basis::PolyHarmonic(k) => {
                if k % 2 == 0 {
                    BasisForm::LogPolyHarmonic(k)
                } else {
                    BasisForm::PlainPolyHarmonic(k)
                }
            }
            Basis::Gaussian => BasisForm::GaussianExp,
        }
    }

    /// Select the formula for this basis kind.
    pub fn form(&self) -> (f: BasisForm)
        ensures
            f == self.spec_form(),
    {
        match self {
            Basis::PolyHarmonic(k) => {
                if k % 2 == 0 {
                    BasisForm::LogPolyHarmonic(*k)
                } else {
                    BasisForm::PlainPolyHarmonic(*k)
                }
            }
            Basis::Gaussian => BasisForm::GaussianExp,
        }
    }
}

/// A polyharmonic basis routes through the zero-guarded logarithmic form
/// exactly when its exponent is even, and the exponent is passed through
/// unchanged; so evaluating an even-exponent polyharmonic basis at distance
/// zero hits the guard and yields zero rather than a logarithm of zero.
pub proof fn lemma_even_exponent_uses_guarded_log(k: i32)
    ensures
        Basis::PolyHarmonic(k).spec_form() is LogPolyHarmonic <==> k % 2 == 0,
        Basis::PolyHarmonic(k).spec_form() matches BasisForm::LogPolyHarmonic(e) ==> e == k,
        Basis::PolyHarmonic(k).spec_form() matches BasisForm::PlainPolyHarmonic(e) ==> e == k,
{
}

} // verus!
