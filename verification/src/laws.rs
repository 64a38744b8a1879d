//! Laws of the dual-number rules, proved over the models of the operations.

use crate::arithmetic::{checked, replaced, MismatchedFamilyError};
use crate::dual::Dual;
use crate::model::{yields, DualValue};
use crate::scalar::{faithful, Scalar};
use vstd::prelude::*;

verus! {

/// The sum of two constants is the constant of the sum, and each of its
/// derivatives is zero. This takes `0 + 0 = 0` in the scalar type.
pub proof fn law_constants_add<S: Scalar>(axis_count: nat, a: S, b: S)
    requires
        S::zero_spec().add_spec(S::zero_spec()) == S::zero_spec(),
    ensures
        DualValue::constant(axis_count, a).sum(DualValue::constant(axis_count, b))
            == DualValue::constant(axis_count, a.add_spec(b)),
        forall|axis: int|
            0 <= axis < axis_count ==> DualValue::constant(axis_count, a).sum(
                DualValue::constant(axis_count, b),
            ).derivatives[axis] == S::zero_spec(),
{
    assert(DualValue::constant(axis_count, a).sum(DualValue::constant(axis_count, b))
        =~= DualValue::constant(axis_count, a.add_spec(b)));
}

/// A value made with one derivative has that derivative along its axis and
/// the derivative zero along every other axis.
pub proof fn law_seeded_slots<S: Scalar>(axis_count: nat, axis: int, value: S, derivative: S)
    requires
        0 <= axis < axis_count,
    ensures
        DualValue::seeded(axis_count, axis, value, derivative).real == value,
        DualValue::seeded(axis_count, axis, value, derivative).axis_count() == axis_count,
        DualValue::seeded(axis_count, axis, value, derivative).derivatives[axis] == derivative,
        forall|other: int|
            0 <= other < axis_count && other != axis ==> DualValue::seeded(
                axis_count,
                axis,
                value,
                derivative,
            ).derivatives[other] == S::zero_spec(),
{
}

/// A fresh variable has the derivative one along its own axis and the
/// derivative zero along every other axis.
pub proof fn law_variable_is_seeded<S: Scalar>(axis_count: nat, axis: int, value: S)
    requires
        0 <= axis < axis_count,
    ensures
        DualValue::variable(axis_count, axis, value).real == value,
        DualValue::variable(axis_count, axis, value).derivatives[axis] == S::one_spec(),
        forall|other: int|
            0 <= other < axis_count && other != axis ==> DualValue::variable(
                axis_count,
                axis,
                value,
            ).derivatives[other] == S::zero_spec(),
{
}

/// The sum rule: along every axis, the derivative of a sum is the sum of the
/// derivatives.
pub proof fn law_sum_rule<S: Scalar>(f: DualValue<S>, g: DualValue<S>, axis: int)
    requires
        f.same_family(g),
        0 <= axis < f.axis_count(),
    ensures
        f.sum(g).real == f.real.add_spec(g.real),
        f.sum(g).derivatives[axis] == f.derivatives[axis].add_spec(g.derivatives[axis]),
{
}

/// The product rule: along every axis, `d(f * g) = df * g + dg * f`, over the
/// real parts of the two operands.
pub proof fn law_product_rule<S: Scalar>(f: DualValue<S>, g: DualValue<S>, axis: int)
    requires
        f.same_family(g),
        0 <= axis < f.axis_count(),
    ensures
        f.product(g).real == f.real.mul_spec(g.real),
        f.product(g).derivatives[axis] == f.derivatives[axis].mul_spec(g.real).add_spec(
            g.derivatives[axis].mul_spec(f.real),
        ),
{
}

/// The square of a variable `x` at `v` has, along the axis of `x`, the
/// derivative `1 * v + 1 * v`.
pub proof fn law_square_of_variable<S: Scalar>(axis_count: nat, axis: int, v: S)
    requires
        0 <= axis < axis_count,
    ensures
        ({
            let x = DualValue::variable(axis_count, axis, v);
            x.product(x).derivatives[axis] == S::one_spec().mul_spec(v).add_spec(
                S::one_spec().mul_spec(v),
            )
        }),
{
}

/// The power `p` of a variable `x` at `v` has, along the axis of `x`, the
/// derivative `1 * p * v^(p - 1)`.
pub proof fn law_power_of_variable<S: Scalar>(axis_count: nat, axis: int, v: S, p: S)
    requires
        0 <= axis < axis_count,
    ensures
        ({
            let x = DualValue::variable(axis_count, axis, v);
            &&& x.power(p).real == v.powf_spec(p)
            &&& x.power(p).derivatives[axis] == S::one_spec().mul_spec(p).mul_spec(
                v.powf_spec(p.sub_spec(S::one_spec())),
            )
        }),
{
}

/// Dividing is multiplying by the reciprocal, and the reciprocal is the power
/// `-1`: the two ways give one and the same value.
pub proof fn law_division_by_reciprocal<S: Scalar>(a: DualValue<S>, b: DualValue<S>)
    ensures
        a.quotient(b) == a.product(b.reciprocal()),
        b.reciprocal() == b.power(S::one_spec().neg_spec()),
{
}

/// The power one gives the operand back, real part and every derivative. This
/// takes three facts of the scalar type: `x^1 = x` and `x^(1 - 1) = 1` for the
/// real part `x` of the operand, and `d * 1 = d` for each of its derivatives
/// and for one.
pub proof fn law_power_one<S: Scalar>(v: DualValue<S>)
    requires
        v.real.powf_spec(S::one_spec()) == v.real,
        v.real.powf_spec(S::one_spec().sub_spec(S::one_spec())) == S::one_spec(),
        forall|axis: int|
            0 <= axis < v.axis_count() ==> (#[trigger] v.derivatives[axis]).mul_spec(
                S::one_spec(),
            ) == v.derivatives[axis],
    ensures
        v.power(S::one_spec()) == v,
{
    assert(v.power(S::one_spec()) =~= v);
}

/// Negation keeps the family and is the product with the constant `-1`;
/// subtraction adds the negation.
pub proof fn law_subtraction_by_negation<S: Scalar>(a: DualValue<S>, b: DualValue<S>)
    ensures
        a.difference(b) == a.sum(b.negation()),
        b.negation() == b.product(
            DualValue::constant(b.axis_count(), S::one_spec().neg_spec()),
        ),
        b.negation().same_family(b),
{
}

/// For a faithful scalar type, two results that are the same dual value are
/// equal: an operation and its compound form with a scalar leave one and the
/// same value.
pub proof fn law_yields_one_value<S: Scalar>(
    first: DualValue<S>,
    second: DualValue<S>,
    expected: DualValue<S>,
)
    requires
        faithful::<S>(),
        yields(first, expected),
        yields(second, expected),
    ensures
        first == second,
{
}

/// For a faithful scalar type, a compound form does what its plain operation
/// does: where the plain operation returns a value, the compound form leaves
/// that value in the left operand; where it returns an error, the compound
/// form returns the same error and leaves the left operand as it was.
pub proof fn law_compound_is_plain<S: Scalar>(
    before: DualValue<S>,
    right: DualValue<S>,
    combined: DualValue<S>,
    plain: Result<Dual<S>, MismatchedFamilyError>,
    after: DualValue<S>,
    compound: Result<(), MismatchedFamilyError>,
)
    requires
        faithful::<S>(),
        checked(before, right, combined, plain),
        replaced(before, right, combined, after, compound),
    ensures
        match plain {
            Ok(dual) => compound is Ok && after == dual@,
            Err(error) => compound == Err::<(), MismatchedFamilyError>(error) && after == before,
        },
{
}

} // verus!
