//! Forward-mode automatic differentiation with dual numbers.
//!
//! A dual number is a value together with its partial derivative along each
//! axis of a family: a fixed, ordered list of named input variables. Built from
//! constants and seeded variables and combined like plain numbers, dual
//! numbers carry the derivatives of an expression along with its value; no
//! graph of the computation is kept.
//!
//! - [`scalar`]: the number type a family is built over, and what it means for
//!   its operations to be functions of their arguments.
//! - [`schema`]: the axis names of a family, checked once when it is defined.
//! - [`model`]: what each operation computes, as mathematics.
//! - [`dual`]: the value type, its constructors and extractors.
//! - [`arithmetic`]: sum, difference, product, quotient, negation, the forms
//!   with a bare scalar on either side, and the compound forms.
//! - [`elementary`]: power, reciprocal, sine, cosine and tangent.
//! - [`ordering`]: the order of dual values, that of their real parts.
//! - [`laws`]: what holds of the rules taken together.

pub mod arithmetic;
pub mod dual;
pub mod elementary;
pub mod laws;
pub mod model;
pub mod ordering;
pub mod scalar;
pub mod schema;

pub use crate::arithmetic::MismatchedFamilyError;
pub use crate::dual::Dual;
pub use crate::model::DualValue;
pub use crate::scalar::Scalar;
pub use crate::schema::{AxisSchema, SchemaError};
