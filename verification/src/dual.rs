//! The dual value: a real part plus one derivative slot per axis.

use crate::model::{yields, DualValue};
use crate::scalar::{faithful, Scalar};
use vstd::prelude::*;

verus! {

/// A value together with its partial derivative along every axis of its family.
///
/// The family is not stored in the value: only its number of axes shows, as the
/// number of derivative slots.
#[derive(Debug, PartialEq)]
pub struct Dual<S> {
    /// The real value.
    pub real: S,
    /// Slot `i` is the derivative of the value along axis `i`.
    pub derivatives: Vec<S>,
}

impl<S> View for Dual<S> {
    type V = DualValue<S>;

    open spec fn view(&self) -> DualValue<S> {
        DualValue { real: self.real, derivatives: self.derivatives@ }
    }
}

impl<S: Copy> Clone for Dual<S> {
    fn clone(&self) -> (out: Self)
        ensures
            out@ == self@,
    {
        let count = self.derivatives.len();
        let mut derivatives: Vec<S> = Vec::new();
        let mut i: usize = 0;
        while i < count
            invariant
                i <= count,
                count == self.derivatives@.len(),
                derivatives@ == self.derivatives@.take(i as int),
            decreases count - i,
        {
            derivatives.push(self.derivatives[i]);
            i += 1;
        }
        Dual { real: self.real, derivatives }
    }
}

impl<S: Scalar> Dual<S> {
    /// The number of axes of the family this value belongs to.
    pub fn axis_count(&self) -> (out: usize)
        ensures
            out == self@.axis_count(),
    {
        self.derivatives.len()
    }

    /// Lifts a bare scalar into a family of `axis_count` axes.
    pub fn constant(axis_count: usize, value: S) -> (out: Self)
        ensures
            out@.real == value,
            yields(out@, DualValue::constant(axis_count as nat, value)),
    {
        let zero = S::zero();
        let mut derivatives: Vec<S> = Vec::new();
        let mut i: usize = 0;
        while i < axis_count
            invariant
                i <= axis_count,
                derivatives@.len() == i,
                faithful::<S>() ==> zero == S::zero_spec(),
                faithful::<S>() ==> derivatives@ == Seq::new(
                    i as nat,
                    |j: int| S::zero_spec(),
                ),
            decreases axis_count - i,
        {
            derivatives.push(zero);
            i += 1;
        }
        Dual { real: value, derivatives }
    }

    /// The value `value` with the given derivative along `axis` and the
    /// derivative zero along every other axis. There is no such value when the
    /// family has no axis `axis`.
    pub fn with_derivative(
        axis_count: usize,
        axis: usize,
        value: S,
        derivative: S,
    ) -> (out: Option<Self>)
        ensures
            match out {
                Some(dual) => {
                    &&& axis < axis_count
                    &&& dual@.real == value
                    &&& dual@.derivatives[axis as int] == derivative
                    &&& yields(
                        dual@,
                        DualValue::seeded(axis_count as nat, axis as int, value, derivative),
                    )
                },
                None => axis >= axis_count,
            },
    {
        if axis >= axis_count {
            return None;
        }
        let mut dual = Self::constant(axis_count, value);
        dual.derivatives.set(axis, derivative);
        assert(faithful::<S>() ==> dual@.derivatives =~= DualValue::seeded(
            axis_count as nat,
            axis as int,
            value,
            derivative,
        ).derivatives);
        Some(dual)
    }

    /// A fresh independent variable along `axis`: its derivative with respect to
    /// itself is one.
    pub fn variable_at(axis_count: usize, axis: usize, value: S) -> (out: Option<Self>)
        ensures
            match out {
                Some(dual) => {
                    &&& axis < axis_count
                    &&& dual@.real == value
                    &&& yields(dual@, DualValue::variable(axis_count as nat, axis as int, value))
                },
                None => axis >= axis_count,
            },
    {
        Self::with_derivative(axis_count, axis, value, S::one())
    }

    /// The derivative along `axis`, if the family has such an axis.
    pub fn extract_derivative(&self, axis: usize) -> (out: Option<S>)
        ensures
            out == if axis < self@.axis_count() {
                Some(self@.derivatives[axis as int])
            } else {
                None
            },
    {
        if axis < self.derivatives.len() {
            Some(self.derivatives[axis])
        } else {
            None
        }
    }
}

} // verus!
