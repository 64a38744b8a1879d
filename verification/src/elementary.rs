//! The elementary function kernel: power, reciprocal, sine, cosine and tangent.
//! Each applies the chain rule with a factor computed from the real part of its
//! operand as it was handed in.

use crate::dual::Dual;
use crate::model::yields;
use crate::scalar::{faithful, Scalar};
use vstd::prelude::*;

verus! {

impl<S: Scalar> Dual<S> {
    /// `self` raised to the power `exponent`. Whatever the scalar power makes
    /// of the real part, not-a-number and infinities included, goes into the
    /// result as it is.
    pub fn powf(&self, exponent: S) -> (out: Dual<S>)
        ensures
            yields(out@, self@.power(exponent)),
    {
        let count = self.derivatives.len();
        let slope = self.real.powf(exponent.sub(S::one()));
        let mut derivatives: Vec<S> = Vec::new();
        let mut i: usize = 0;
        while i < count
            invariant
                i <= count,
                count == self@.axis_count(),
                derivatives@.len() == i,
                faithful::<S>() ==> slope == self@.real.powf_spec(
                    exponent.sub_spec(S::one_spec()),
                ),
                faithful::<S>() ==> derivatives@ == self@.power(exponent).derivatives.take(
                    i as int,
                ),
            decreases count - i,
        {
            derivatives.push(self.derivatives[i].mul(exponent).mul(slope));
            i += 1;
        }
        let out = Dual { real: self.real.powf(exponent), derivatives };
        assert(faithful::<S>() ==> out@ =~= self@.power(exponent));
        out
    }

    /// `1 / self`, as the power `-1`.
    pub fn invert(&self) -> (out: Dual<S>)
        ensures
            yields(out@, self@.reciprocal()),
    {
        self.powf(S::one().neg())
    }

    /// Scales every derivative by `factor` and sets the real part to `value`.
    fn chained(&self, value: S, factor: S) -> (out: Dual<S>)
        ensures
            out@.real == value,
            out@.same_family(self@),
            faithful::<S>() ==> out@.derivatives == Seq::new(
                self@.axis_count(),
                |i: int| self@.derivatives[i].mul_spec(factor),
            ),
    {
        let count = self.derivatives.len();
        let mut derivatives: Vec<S> = Vec::new();
        let mut i: usize = 0;
        while i < count
            invariant
                i <= count,
                count == self@.axis_count(),
                derivatives@.len() == i,
                faithful::<S>() ==> derivatives@ == Seq::new(
                    i as nat,
                    |j: int| self@.derivatives[j].mul_spec(factor),
                ),
            decreases count - i,
        {
            derivatives.push(self.derivatives[i].mul(factor));
            i += 1;
        }
        Dual { real: value, derivatives }
    }

    /// The sine of `self`; every derivative is scaled by the cosine of the real
    /// part.
    pub fn sin(&self) -> (out: Dual<S>)
        ensures
            yields(out@, self@.sine()),
    {
        let value = self.real.sin();
        let factor = self.real.cos();
        self.chained(value, factor)
    }

    /// The cosine of `self`; every derivative is scaled by minus the sine of
    /// the real part.
    pub fn cos(&self) -> (out: Dual<S>)
        ensures
            yields(out@, self@.cosine()),
    {
        let value = self.real.cos();
        let factor = self.real.sin().neg();
        self.chained(value, factor)
    }

    /// The tangent of `self`, as its sine divided by its cosine.
    pub fn tan(&self) -> (out: Dual<S>)
        ensures
            yields(out@, self@.tangent()),
    {
        let sine = self.sin();
        let cosine = self.cos();
        sine.quotient_with(&cosine)
    }
}

} // verus!
