//! The arithmetic kernel: sum, difference, product, quotient and negation of
//! dual values, their forms with a bare scalar on either side, and the
//! compound forms that replace the left operand.

use crate::dual::Dual;
use crate::model::{yields, DualValue};
use crate::scalar::{faithful, Scalar};
use vstd::prelude::*;

verus! {

/// Two operands of one operation belong to families with different numbers of
/// axes: `left` and `right` are the two axis counts.
#[derive(Clone, Copy, Debug, PartialEq, Eq)]
pub struct MismatchedFamilyError {
    pub left: usize,
    pub right: usize,
}

/// What a binary operation returns: where both operands belong to the same
/// family a value that is `combined`, and otherwise the error that holds the
/// two axis counts.
pub open spec fn checked<S: Scalar>(
    left: DualValue<S>,
    right: DualValue<S>,
    combined: DualValue<S>,
    out: Result<Dual<S>, MismatchedFamilyError>,
) -> bool {
    match out {
        Ok(dual) => left.same_family(right) && yields(dual@, combined),
        Err(error) => !left.same_family(right) && error.left == left.axis_count() && error.right
            == right.axis_count(),
    }
}

/// What a compound operation does: where both operands belong to the same
/// family it replaces the left operand by a value that is `combined`, and
/// otherwise it leaves the left operand as it was and returns the error that
/// holds the two axis counts.
pub open spec fn replaced<S: Scalar>(
    before: DualValue<S>,
    right: DualValue<S>,
    combined: DualValue<S>,
    after: DualValue<S>,
    out: Result<(), MismatchedFamilyError>,
) -> bool {
    match out {
        Ok(_) => before.same_family(right) && yields(after, combined),
        Err(error) => !before.same_family(right) && after == before && error.left
            == before.axis_count() && error.right == right.axis_count(),
    }
}

impl<S: Scalar> Dual<S> {
    fn mismatch(&self, other: &Dual<S>) -> (out: MismatchedFamilyError)
        ensures
            out.left == self@.axis_count(),
            out.right == other@.axis_count(),
    {
        MismatchedFamilyError { left: self.derivatives.len(), right: other.derivatives.len() }
    }

    fn sum_with(&self, other: &Dual<S>) -> (out: Dual<S>)
        requires
            self@.same_family(other@),
        ensures
            yields(out@, self@.sum(other@)),
    {
        let count = self.derivatives.len();
        let mut derivatives: Vec<S> = Vec::new();
        let mut i: usize = 0;
        while i < count
            invariant
                i <= count,
                count == self@.axis_count(),
                count == other@.axis_count(),
                derivatives@.len() == i,
                faithful::<S>() ==> derivatives@ == self@.sum(other@).derivatives.take(
                    i as int,
                ),
            decreases count - i,
        {
            derivatives.push(self.derivatives[i].add(other.derivatives[i]));
            i += 1;
        }
        let out = Dual { real: self.real.add(other.real), derivatives };
        assert(faithful::<S>() ==> out@ =~= self@.sum(other@));
        out
    }

    fn product_with(&self, other: &Dual<S>) -> (out: Dual<S>)
        requires
            self@.same_family(other@),
        ensures
            yields(out@, self@.product(other@)),
    {
        let count = self.derivatives.len();
        let mut derivatives: Vec<S> = Vec::new();
        let mut i: usize = 0;
        while i < count
            invariant
                i <= count,
                count == self@.axis_count(),
                count == other@.axis_count(),
                derivatives@.len() == i,
                faithful::<S>() ==> derivatives@ == self@.product(other@).derivatives.take(
                    i as int,
                ),
            decreases count - i,
        {
            let left = self.derivatives[i].mul(other.real);
            let right = other.derivatives[i].mul(self.real);
            derivatives.push(left.add(right));
            i += 1;
        }
        let out = Dual { real: self.real.mul(other.real), derivatives };
        assert(faithful::<S>() ==> out@ =~= self@.product(other@));
        out
    }

    /// `self / other` for two values of one family.
    pub(crate) fn quotient_with(&self, other: &Dual<S>) -> (out: Dual<S>)
        requires
            self@.same_family(other@),
        ensures
            yields(out@, self@.quotient(other@)),
    {
        let inverse = other.invert();
        self.product_with(&inverse)
    }

    fn lift(&self, k: S) -> (out: Dual<S>)
        ensures
            yields(out@, DualValue::constant(self@.axis_count(), k)),
    {
        Self::constant(self.derivatives.len(), k)
    }

    /// `self + other`: real parts add, and each derivative adds on its own.
    pub fn add(&self, other: &Dual<S>) -> (out: Result<Dual<S>, MismatchedFamilyError>)
        ensures
            checked(self@, other@, self@.sum(other@), out),
    {
        if self.derivatives.len() != other.derivatives.len() {
            return Err(self.mismatch(other));
        }
        Ok(self.sum_with(other))
    }

    /// `self * other`: real parts multiply, and each derivative follows the
    /// product rule over the real parts of the two operands.
    pub fn multiply(&self, other: &Dual<S>) -> (out: Result<Dual<S>, MismatchedFamilyError>)
        ensures
            checked(self@, other@, self@.product(other@), out),
    {
        if self.derivatives.len() != other.derivatives.len() {
            return Err(self.mismatch(other));
        }
        Ok(self.product_with(other))
    }

    /// `-self`: the product of `self` and the constant `-1`.
    pub fn negate(&self) -> (out: Dual<S>)
        ensures
            yields(out@, self@.negation()),
    {
        let minus_one = self.lift(S::one().neg());
        self.product_with(&minus_one)
    }

    /// `self - other`: the sum of `self` and the negation of `other`.
    pub fn subtract(&self, other: &Dual<S>) -> (out: Result<Dual<S>, MismatchedFamilyError>)
        ensures
            checked(self@, other@, self@.difference(other@), out),
    {
        if self.derivatives.len() != other.derivatives.len() {
            return Err(self.mismatch(other));
        }
        let negated = other.negate();
        Ok(self.sum_with(&negated))
    }

    /// `self / other`: the product of `self` and the reciprocal of `other`.
    pub fn divide(&self, other: &Dual<S>) -> (out: Result<Dual<S>, MismatchedFamilyError>)
        ensures
            checked(self@, other@, self@.quotient(other@), out),
    {
        if self.derivatives.len() != other.derivatives.len() {
            return Err(self.mismatch(other));
        }
        Ok(self.quotient_with(other))
    }

    /// `self + k`, with the scalar lifted to a constant of the family of `self`.
    pub fn add_scalar(&self, k: S) -> (out: Dual<S>)
        ensures
            yields(out@, self@.sum(DualValue::constant(self@.axis_count(), k))),
    {
        let lifted = self.lift(k);
        self.sum_with(&lifted)
    }

    /// `self - k`, with the scalar lifted to a constant of the family of `self`.
    pub fn subtract_scalar(&self, k: S) -> (out: Dual<S>)
        ensures
            yields(out@, self@.difference(DualValue::constant(self@.axis_count(), k))),
    {
        let negated = self.lift(k).negate();
        self.sum_with(&negated)
    }

    /// `self * k`, with the scalar lifted to a constant of the family of `self`.
    pub fn multiply_scalar(&self, k: S) -> (out: Dual<S>)
        ensures
            yields(out@, self@.product(DualValue::constant(self@.axis_count(), k))),
    {
        let lifted = self.lift(k);
        self.product_with(&lifted)
    }

    /// `self / k`, with the scalar lifted to a constant of the family of `self`.
    pub fn divide_scalar(&self, k: S) -> (out: Dual<S>)
        ensures
            yields(out@, self@.quotient(DualValue::constant(self@.axis_count(), k))),
    {
        let lifted = self.lift(k);
        self.quotient_with(&lifted)
    }

    /// `k + rhs`, with the scalar lifted to a constant of the family of `rhs`.
    pub fn scalar_add(k: S, rhs: &Dual<S>) -> (out: Dual<S>)
        ensures
            yields(out@, DualValue::constant(rhs@.axis_count(), k).sum(rhs@)),
    {
        rhs.lift(k).sum_with(rhs)
    }

    /// `k - rhs`, with the scalar lifted to a constant of the family of `rhs`.
    pub fn scalar_subtract(k: S, rhs: &Dual<S>) -> (out: Dual<S>)
        ensures
            yields(out@, DualValue::constant(rhs@.axis_count(), k).difference(rhs@)),
    {
        let negated = rhs.negate();
        rhs.lift(k).sum_with(&negated)
    }

    /// `k * rhs`, with the scalar lifted to a constant of the family of `rhs`.
    pub fn scalar_multiply(k: S, rhs: &Dual<S>) -> (out: Dual<S>)
        ensures
            yields(out@, DualValue::constant(rhs@.axis_count(), k).product(rhs@)),
    {
        rhs.lift(k).product_with(rhs)
    }

    /// `k / rhs`, with the scalar lifted to a constant of the family of `rhs`.
    pub fn scalar_divide(k: S, rhs: &Dual<S>) -> (out: Dual<S>)
        ensures
            yields(out@, DualValue::constant(rhs@.axis_count(), k).quotient(rhs@)),
    {
        rhs.lift(k).quotient_with(rhs)
    }

    /// `self += other`: replaces `self` by `self + other`.
    pub fn add_assign(&mut self, other: &Dual<S>) -> (out: Result<(), MismatchedFamilyError>)
        ensures
            replaced(old(self)@, other@, old(self)@.sum(other@), final(self)@, out),
    {
        match self.add(other) {
            Ok(combined) => {
                *self = combined;
                Ok(())
            },
            Err(error) => Err(error),
        }
    }

    /// `self -= other`: replaces `self` by `self - other`.
    pub fn subtract_assign(&mut self, other: &Dual<S>) -> (out: Result<(), MismatchedFamilyError>)
        ensures
            replaced(old(self)@, other@, old(self)@.difference(other@), final(self)@, out),
    {
        match self.subtract(other) {
            Ok(combined) => {
                *self = combined;
                Ok(())
            },
            Err(error) => Err(error),
        }
    }

    /// `self *= other`: replaces `self` by `self * other`.
    pub fn multiply_assign(&mut self, other: &Dual<S>) -> (out: Result<(), MismatchedFamilyError>)
        ensures
            replaced(old(self)@, other@, old(self)@.product(other@), final(self)@, out),
    {
        match self.multiply(other) {
            Ok(combined) => {
                *self = combined;
                Ok(())
            },
            Err(error) => Err(error),
        }
    }

    /// `self /= other`: replaces `self` by `self / other`.
    pub fn divide_assign(&mut self, other: &Dual<S>) -> (out: Result<(), MismatchedFamilyError>)
        ensures
            replaced(old(self)@, other@, old(self)@.quotient(other@), final(self)@, out),
    {
        match self.divide(other) {
            Ok(combined) => {
                *self = combined;
                Ok(())
            },
            Err(error) => Err(error),
        }
    }

    /// `self += k`: replaces `self` by `self + k`.
    pub fn add_assign_scalar(&mut self, k: S)
        ensures
            yields(
                final(self)@,
                old(self)@.sum(DualValue::constant(old(self)@.axis_count(), k)),
            ),
    {
        *self = self.add_scalar(k);
    }

    /// `self -= k`: replaces `self` by `self - k`.
    pub fn subtract_assign_scalar(&mut self, k: S)
        ensures
            yields(
                final(self)@,
                old(self)@.difference(DualValue::constant(old(self)@.axis_count(), k)),
            ),
    {
        *self = self.subtract_scalar(k);
    }

    /// `self *= k`: replaces `self` by `self * k`.
    pub fn multiply_assign_scalar(&mut self, k: S)
        ensures
            yields(
                final(self)@,
                old(self)@.product(DualValue::constant(old(self)@.axis_count(), k)),
            ),
    {
        *self = self.multiply_scalar(k);
    }

    /// `self /= k`: replaces `self` by `self / k`.
    pub fn divide_assign_scalar(&mut self, k: S)
        ensures
            yields(
                final(self)@,
                old(self)@.quotient(DualValue::constant(old(self)@.axis_count(), k)),
            ),
    {
        *self = self.divide_scalar(k);
    }
}

} // verus!
