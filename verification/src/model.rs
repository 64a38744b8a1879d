//! The mathematics of dual values: what each operation of the library computes,
//! stated over the scalar models.

use crate::scalar::{faithful, Scalar};
use vstd::prelude::*;

verus! {

/// The mathematical content of a dual value: its real part and the sequence of
/// its partial derivatives, slot `i` holding the derivative along axis `i`.
#[verifier::ext_equal]
pub struct DualValue<S> {
    pub real: S,
    pub derivatives: Seq<S>,
}

impl<S: Scalar> DualValue<S> {
    /// The number of axes of the family the value belongs to.
    pub open spec fn axis_count(self) -> nat {
        self.derivatives.len()
    }

    /// Two values can be combined when their families have as many axes.
    pub open spec fn same_family(self, other: Self) -> bool {
        self.axis_count() == other.axis_count()
    }

    /// The constant `value` in a family of `axis_count` axes: it depends on no
    /// axis, so every derivative is zero.
    pub open spec fn constant(axis_count: nat, value: S) -> Self {
        DualValue { real: value, derivatives: Seq::new(axis_count, |i: int| S::zero_spec()) }
    }

    /// The value whose derivative along `axis` is `derivative` and whose
    /// derivative along every other axis is zero.
    pub open spec fn seeded(axis_count: nat, axis: int, value: S, derivative: S) -> Self {
        DualValue {
            real: value,
            derivatives: Seq::new(
                axis_count,
                |i: int|
                    if i == axis {
                        derivative
                    } else {
                        S::zero_spec()
                    },
            ),
        }
    }

    /// An independent variable: its derivative along its own axis is one.
    pub open spec fn variable(axis_count: nat, axis: int, value: S) -> Self {
        Self::seeded(axis_count, axis, value, S::one_spec())
    }

    /// Linearity: real parts add, and so does every derivative.
    pub open spec fn sum(self, other: Self) -> Self {
        DualValue {
            real: self.real.add_spec(other.real),
            derivatives: Seq::new(
                self.axis_count(),
                |i: int| self.derivatives[i].add_spec(other.derivatives[i]),
            ),
        }
    }

    /// The product rule, axis by axis, over the real parts of the two operands.
    pub open spec fn product(self, other: Self) -> Self {
        DualValue {
            real: self.real.mul_spec(other.real),
            derivatives: Seq::new(
                self.axis_count(),
                |i: int|
                    self.derivatives[i].mul_spec(other.real).add_spec(
                        other.derivatives[i].mul_spec(self.real),
                    ),
            ),
        }
    }

    /// The power rule: `d(x^p) = dx * p * x^(p - 1)`, with `x` the real part of
    /// the operand.
    pub open spec fn power(self, exponent: S) -> Self {
        DualValue {
            real: self.real.powf_spec(exponent),
            derivatives: Seq::new(
                self.axis_count(),
                |i: int|
                    self.derivatives[i].mul_spec(exponent).mul_spec(
                        self.real.powf_spec(exponent.sub_spec(S::one_spec())),
                    ),
            ),
        }
    }

    /// The reciprocal is the power `-1`.
    pub open spec fn reciprocal(self) -> Self {
        self.power(S::one_spec().neg_spec())
    }

    /// Division is multiplication by the reciprocal.
    pub open spec fn quotient(self, other: Self) -> Self {
        self.product(other.reciprocal())
    }

    /// Negation is multiplication by the constant `-1`.
    pub open spec fn negation(self) -> Self {
        self.product(Self::constant(self.axis_count(), S::one_spec().neg_spec()))
    }

    /// Subtraction adds the negation.
    pub open spec fn difference(self, other: Self) -> Self {
        self.sum(other.negation())
    }

    /// The chain rule for the sine: every derivative is scaled by the cosine of
    /// the operand's real part.
    pub open spec fn sine(self) -> Self {
        DualValue {
            real: self.real.sin_spec(),
            derivatives: Seq::new(
                self.axis_count(),
                |i: int| self.derivatives[i].mul_spec(self.real.cos_spec()),
            ),
        }
    }

    /// The chain rule for the cosine: every derivative is scaled by minus the
    /// sine of the operand's real part.
    pub open spec fn cosine(self) -> Self {
        DualValue {
            real: self.real.cos_spec(),
            derivatives: Seq::new(
                self.axis_count(),
                |i: int| self.derivatives[i].mul_spec(self.real.sin_spec().neg_spec()),
            ),
        }
    }

    /// The tangent is the sine divided by the cosine.
    pub open spec fn tangent(self) -> Self {
        self.sine().quotient(self.cosine())
    }
}

/// `out` is the dual value `expected`: it has as many axes, and for a scalar
/// type whose operations compute their models it is equal to it.
pub open spec fn yields<S: Scalar>(out: DualValue<S>, expected: DualValue<S>) -> bool {
    &&& out.same_family(expected)
    &&& faithful::<S>() ==> out == expected
}

} // verus!
