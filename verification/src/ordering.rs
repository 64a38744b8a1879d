//! The order of dual values: that of their real parts.

use crate::dual::Dual;
use crate::scalar::Scalar;
use core::cmp::Ordering;
use vstd::prelude::*;
use vstd::std_specs::cmp::PartialOrdSpec;

verus! {

impl<S: Scalar + PartialOrd> PartialOrd for Dual<S> {
    /// Compares the real parts; the derivatives take no part. Two values are
    /// incomparable exactly when their real parts are.
    fn partial_cmp(&self, other: &Self) -> (out: Option<Ordering>)
        ensures
            call_ensures(S::partial_cmp, (&self.real, &other.real), out),
    {
        self.real.partial_cmp(&other.real)
    }
}

impl<S: Scalar + PartialOrd> vstd::std_specs::cmp::PartialOrdSpecImpl for Dual<S> {
    open spec fn obeys_partial_cmp_spec() -> bool {
        S::obeys_partial_cmp_spec()
    }

    open spec fn partial_cmp_spec(&self, other: &Self) -> Option<Ordering> {
        self.real.partial_cmp_spec(&other.real)
    }
}

} // verus!
