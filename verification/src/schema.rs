//! The axis schema: the ordered, duplicate-free list of axis names that fixes
//! the shape of every dual value of one family.

use crate::dual::Dual;
use crate::model::{yields, DualValue};
use crate::scalar::Scalar;
use core::marker::PhantomData;
use vstd::prelude::*;

verus! {

/// Why a list of axis names does not define a family.
#[derive(Clone, Copy, Debug, PartialEq, Eq)]
pub enum SchemaError {
    /// The list names no axis at all.
    Empty,
    /// The name at `position` already occurs earlier in the list; no name before
    /// `position` does.
    Duplicate { position: usize },
}

/// The names as sequences of characters, in their order.
pub open spec fn names_of(list: Seq<String>) -> Seq<Seq<char>> {
    Seq::new(list.len(), |i: int| list[i]@)
}

/// The name at `position` is equal to one that stands before it.
pub open spec fn repeats_earlier(names: Seq<Seq<char>>, position: int) -> bool {
    exists|i: int| 0 <= i < position && #[trigger] names[i] == names[position]
}

/// `position` is the first place at which a name occurs for the second time.
pub open spec fn first_repeat(names: Seq<Seq<char>>, position: int) -> bool {
    &&& 0 <= position < names.len()
    &&& repeats_earlier(names, position)
    &&& forall|q: int| 0 <= q < position ==> !repeats_earlier(names, q)
}

/// No two places hold the same name.
pub open spec fn distinct(names: Seq<Seq<char>>) -> bool {
    forall|i: int, j: int| 0 <= i < j < names.len() ==> names[i] != names[j]
}

/// A list of names defines a family when it is not empty and repeats no name.
pub open spec fn defines_family(names: Seq<Seq<char>>) -> bool {
    names.len() > 0 && distinct(names)
}

/// `name` is one of `names`.
pub open spec fn names_axis(names: Seq<Seq<char>>, name: Seq<char>) -> bool {
    exists|i: int| 0 <= i < names.len() && #[trigger] names[i] == name
}

/// The place of the axis called `name` among `names`.
pub open spec fn axis_of(names: Seq<Seq<char>>, name: Seq<char>) -> int {
    choose|i: int| 0 <= i < names.len() && #[trigger] names[i] == name
}

/// In a list that repeats no name, looking up the name at a place gives that
/// place back: the mapping from names to places inverts the list.
pub proof fn lemma_axis_of_name(names: Seq<Seq<char>>, axis: int)
    requires
        distinct(names),
        0 <= axis < names.len(),
    ensures
        names_axis(names, names[axis]),
        axis_of(names, names[axis]) == axis,
{
}

/// The descriptor of one family: its axis names in order, and the scalar type
/// `S` of its values. Once made it never changes, and it always names at least
/// one axis and none twice.
#[derive(Debug)]
pub struct AxisSchema<S> {
    names: Vec<String>,
    scalar: PhantomData<S>,
}

impl<S> View for AxisSchema<S> {
    type V = Seq<Seq<char>>;

    closed spec fn view(&self) -> Seq<Seq<char>> {
        names_of(self.names@)
    }
}

impl<S> AxisSchema<S> {
    #[verifier::type_invariant]
    spec fn well_formed(&self) -> bool {
        defines_family(self@)
    }
}

impl<S: Scalar> AxisSchema<S> {
    /// Defines a family from its axis names. The list is checked once, here:
    /// an empty list and a list that repeats a name define nothing.
    pub fn define_family(axis_names: Vec<String>) -> (out: Result<AxisSchema<S>, SchemaError>)
        ensures
            match out {
                Ok(schema) => defines_family(names_of(axis_names@)) && schema@ == names_of(
                    axis_names@,
                ),
                Err(SchemaError::Empty) => axis_names@.len() == 0,
                Err(SchemaError::Duplicate { position }) => first_repeat(
                    names_of(axis_names@),
                    position as int,
                ),
            },
    {
        let count = axis_names.len();
        if count == 0 {
            return Err(SchemaError::Empty);
        }
        let ghost names = names_of(axis_names@);
        let mut j: usize = 0;
        while j < count
            invariant
                j <= count,
                count == axis_names@.len(),
                names == names_of(axis_names@),
                forall|q: int| 0 <= q < j ==> !repeats_earlier(names, q),
            decreases count - j,
        {
            let mut i: usize = 0;
            while i < j
                invariant
                    i <= j,
                    j < count,
                    count == axis_names@.len(),
                    names == names_of(axis_names@),
                    forall|q: int| 0 <= q < j ==> !repeats_earlier(names, q),
                    forall|k: int| 0 <= k < i ==> names[k] != names[j as int],
                decreases j - i,
            {
                if axis_names[i] == axis_names[j] {
                    assert(names[i as int] == names[j as int]);
                    return Err(SchemaError::Duplicate { position: j });
                }
                i += 1;
            }
            j += 1;
        }
        assert(distinct(names)) by {
            assert forall|a: int, b: int| 0 <= a < b < names.len() implies names[a] != names[b] by {
                assert(!repeats_earlier(names, b));
            }
        }
        Ok(AxisSchema { names: axis_names, scalar: PhantomData })
    }

    /// The number of axes of the family: at least one.
    pub fn axis_count(&self) -> (out: usize)
        ensures
            out == self@.len(),
            out > 0,
            defines_family(self@),
    {
        proof {
            use_type_invariant(self);
        }
        self.names.len()
    }

    /// The place of the axis called `name`, if the family has such an axis.
    pub fn index_of(&self, name: &str) -> (out: Option<usize>)
        ensures
            match out {
                Some(axis) => {
                    &&& axis < self@.len()
                    &&& self@[axis as int] == name@
                    &&& names_axis(self@, name@)
                    &&& axis == axis_of(self@, name@)
                },
                None => !names_axis(self@, name@),
            },
    {
        proof {
            use_type_invariant(self);
        }
        let wanted: String = name.to_owned();
        let count = self.names.len();
        let mut i: usize = 0;
        while i < count
            invariant
                i <= count,
                count == self.names@.len(),
                wanted@ == name@,
                defines_family(self@),
                forall|k: int| 0 <= k < i ==> self@[k] != name@,
            decreases count - i,
        {
            if self.names[i] == wanted {
                proof {
                    lemma_axis_of_name(self@, i as int);
                }
                return Some(i);
            }
            i += 1;
        }
        None
    }

    /// The constant `value` of this family.
    pub fn constant(&self, value: S) -> (out: Dual<S>)
        ensures
            out@.real == value,
            yields(out@, DualValue::constant(self@.len(), value)),
    {
        Dual::constant(self.names.len(), value)
    }

    /// A fresh independent variable along the axis called `name`, if the
    /// family has such an axis.
    pub fn variable_at(&self, name: &str, value: S) -> (out: Option<Dual<S>>)
        ensures
            match out {
                Some(dual) => {
                    &&& names_axis(self@, name@)
                    &&& dual@.real == value
                    &&& yields(
                        dual@,
                        DualValue::variable(self@.len(), axis_of(self@, name@), value),
                    )
                },
                None => !names_axis(self@, name@),
            },
    {
        match self.index_of(name) {
            Some(axis) => Dual::variable_at(self.names.len(), axis, value),
            None => None,
        }
    }

    /// The value `value` with the given derivative along the axis called `name`
    /// and the derivative zero along every other axis, if the family has an
    /// axis of that name.
    pub fn with_derivative(&self, name: &str, value: S, derivative: S) -> (out: Option<Dual<S>>)
        ensures
            match out {
                Some(dual) => {
                    &&& names_axis(self@, name@)
                    &&& dual@.real == value
                    &&& dual@.derivatives[axis_of(self@, name@)] == derivative
                    &&& yields(
                        dual@,
                        DualValue::seeded(self@.len(), axis_of(self@, name@), value, derivative),
                    )
                },
                None => !names_axis(self@, name@),
            },
    {
        match self.index_of(name) {
            Some(axis) => Dual::with_derivative(self.names.len(), axis, value, derivative),
            None => None,
        }
    }

    /// The derivative of `dual` along the axis called `name`. There is none
    /// when the family has no axis of that name, and none when `dual` has too
    /// few axes to belong to the family.
    pub fn extract_derivative(&self, dual: &Dual<S>, name: &str) -> (out: Option<S>)
        ensures
            out == if names_axis(self@, name@) && axis_of(self@, name@) < dual@.axis_count() {
                Some(dual@.derivatives[axis_of(self@, name@)])
            } else {
                None
            },
    {
        match self.index_of(name) {
            Some(axis) => dual.extract_derivative(axis),
            None => None,
        }
    }
}

} // verus!
