//! The scalar interface a family of dual values is built over.

use vstd::prelude::*;

verus! {

/// A real number type usable as the real part and as every derivative slot of a
/// dual value: the constants `0` and `1`, the ring operations, and the three
/// elementary functions the dual-number rules are built from.
///
/// Nothing is asked of the arithmetic: rounding, infinities and not-a-number
/// values are whatever the scalar type makes of them.
///
/// Each operation has a model, the function of the same name ending in
/// `_spec`, over which the rules of the library are stated. Unless an
/// implementation says otherwise, the model of an operation names what the
/// operation returns. The operations themselves promise nothing: that they
/// compute their models is the condition [`faithful`], under which the rules
/// pin their results down.
pub trait Scalar: Copy {
    /// The constant `0`.
    fn zero() -> Self;

    /// The constant `1`.
    fn one() -> Self;

    /// `self + rhs`.
    fn add(self, rhs: Self) -> Self;

    /// `self - rhs`.
    fn sub(self, rhs: Self) -> Self;

    /// `self * rhs`.
    fn mul(self, rhs: Self) -> Self;

    /// `-self`.
    fn neg(self) -> Self;

    /// `self` raised to the power `exponent`.
    fn powf(self, exponent: Self) -> Self;

    /// The sine of `self`.
    fn sin(self) -> Self;

    /// The cosine of `self`.
    fn cos(self) -> Self;

    /// The value of [`Scalar::zero`].
    open spec fn zero_spec() -> Self {
        choose|out: Self| call_ensures(Self::zero, (), out)
    }

    /// The value of [`Scalar::one`].
    open spec fn one_spec() -> Self {
        choose|out: Self| call_ensures(Self::one, (), out)
    }

    /// The value of [`Scalar::add`].
    open spec fn add_spec(self, rhs: Self) -> Self {
        choose|out: Self| call_ensures(Self::add, (self, rhs), out)
    }

    /// The value of [`Scalar::sub`].
    open spec fn sub_spec(self, rhs: Self) -> Self {
        choose|out: Self| call_ensures(Self::sub, (self, rhs), out)
    }

    /// The value of [`Scalar::mul`].
    open spec fn mul_spec(self, rhs: Self) -> Self {
        choose|out: Self| call_ensures(Self::mul, (self, rhs), out)
    }

    /// The value of [`Scalar::neg`].
    open spec fn neg_spec(self) -> Self {
        choose|out: Self| call_ensures(Self::neg, (self,), out)
    }

    /// The value of [`Scalar::powf`].
    open spec fn powf_spec(self, exponent: Self) -> Self {
        choose|out: Self| call_ensures(Self::powf, (self, exponent), out)
    }

    /// The value of [`Scalar::sin`].
    open spec fn sin_spec(self) -> Self {
        choose|out: Self| call_ensures(Self::sin, (self,), out)
    }

    /// The value of [`Scalar::cos`].
    open spec fn cos_spec(self) -> Self {
        choose|out: Self| call_ensures(Self::cos, (self,), out)
    }
}

/// The operations of `S` compute their models: whatever a call returns is the
/// value that the model names for its arguments, so each operation is a
/// function of its arguments.
pub open spec fn faithful<S: Scalar>() -> bool {
    &&& forall|out: S| call_ensures(S::zero, (), out) ==> out == S::zero_spec()
    &&& forall|out: S| call_ensures(S::one, (), out) ==> out == S::one_spec()
    &&& forall|a: S, b: S, out: S| call_ensures(S::add, (a, b), out) ==> out == a.add_spec(b)
    &&& forall|a: S, b: S, out: S| call_ensures(S::sub, (a, b), out) ==> out == a.sub_spec(b)
    &&& forall|a: S, b: S, out: S| call_ensures(S::mul, (a, b), out) ==> out == a.mul_spec(b)
    &&& forall|a: S, out: S| call_ensures(S::neg, (a,), out) ==> out == a.neg_spec()
    &&& forall|a: S, p: S, out: S| call_ensures(S::powf, (a, p), out) ==> out == a.powf_spec(p)
    &&& forall|a: S, out: S| call_ensures(S::sin, (a,), out) ==> out == a.sin_spec()
    &&& forall|a: S, out: S| call_ensures(S::cos, (a,), out) ==> out == a.cos_spec()
}

/// For a faithful scalar type, two calls of one operation on the same
/// arguments return the same value.
pub proof fn lemma_faithful_calls_agree<S: Scalar>()
    requires
        faithful::<S>(),
    ensures
        forall|first: S, second: S|
            call_ensures(S::zero, (), first) && call_ensures(S::zero, (), second) ==> first
                == second,
        forall|first: S, second: S|
            call_ensures(S::one, (), first) && call_ensures(S::one, (), second) ==> first
                == second,
        forall|a: S, b: S, first: S, second: S|
            call_ensures(S::add, (a, b), first) && call_ensures(S::add, (a, b), second) ==> first
                == second,
        forall|a: S, b: S, first: S, second: S|
            call_ensures(S::sub, (a, b), first) && call_ensures(S::sub, (a, b), second) ==> first
                == second,
        forall|a: S, b: S, first: S, second: S|
            call_ensures(S::mul, (a, b), first) && call_ensures(S::mul, (a, b), second) ==> first
                == second,
        forall|a: S, first: S, second: S|
            call_ensures(S::neg, (a,), first) && call_ensures(S::neg, (a,), second) ==> first
                == second,
        forall|a: S, p: S, first: S, second: S|
            call_ensures(S::powf, (a, p), first) && call_ensures(S::powf, (a, p), second)
                ==> first == second,
        forall|a: S, first: S, second: S|
            call_ensures(S::sin, (a,), first) && call_ensures(S::sin, (a,), second) ==> first
                == second,
        forall|a: S, first: S, second: S|
            call_ensures(S::cos, (a,), first) && call_ensures(S::cos, (a,), second) ==> first
                == second,
{
}

} // verus!
