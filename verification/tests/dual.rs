use epsilon::{AxisSchema, Dual, MismatchedFamilyError, Scalar};

/// The double-precision reals as the scalar type of the families under test.
#[derive(Clone, Copy, Debug, PartialEq, PartialOrd)]
struct Real(f64);

impl Scalar for Real {
    fn zero() -> Self {
        Real(0.)
    }

    fn one() -> Self {
        Real(1.)
    }

    fn add(self, rhs: Self) -> Self {
        Real(self.0 + rhs.0)
    }

    fn sub(self, rhs: Self) -> Self {
        Real(self.0 - rhs.0)
    }

    fn mul(self, rhs: Self) -> Self {
        Real(self.0 * rhs.0)
    }

    fn neg(self) -> Self {
        Real(-self.0)
    }

    fn powf(self, exponent: Self) -> Self {
        Real(self.0.powf(exponent.0))
    }

    fn sin(self) -> Self {
        Real(self.0.sin())
    }

    fn cos(self) -> Self {
        Real(self.0.cos())
    }
}

fn family() -> AxisSchema<Real> {
    let names = vec!["x".to_string(), "y".to_string(), "z".to_string()];
    AxisSchema::define_family(names).unwrap()
}

fn sample(real: f64, eps_x: f64, eps_y: f64, eps_z: f64) -> Dual<Real> {
    Dual { real: Real(real), derivatives: vec![Real(eps_x), Real(eps_y), Real(eps_z)] }
}

fn x(real: f64) -> Dual<Real> {
    family().variable_at("x", Real(real)).unwrap()
}

fn y(real: f64) -> Dual<Real> {
    family().variable_at("y", Real(real)).unwrap()
}

fn z(real: f64) -> Dual<Real> {
    family().variable_at("z", Real(real)).unwrap()
}

fn eps_x(real: f64, eps: f64) -> Dual<Real> {
    family().with_derivative("x", Real(real), Real(eps)).unwrap()
}

fn eps_y(real: f64, eps: f64) -> Dual<Real> {
    family().with_derivative("y", Real(real), Real(eps)).unwrap()
}

fn d_dx(dual: &Dual<Real>) -> f64 {
    family().extract_derivative(dual, "x").unwrap().0
}

fn d_dy(dual: &Dual<Real>) -> f64 {
    family().extract_derivative(dual, "y").unwrap().0
}

fn d_dz(dual: &Dual<Real>) -> f64 {
    family().extract_derivative(dual, "z").unwrap().0
}

fn bits(dual: &Dual<Real>) -> Vec<u64> {
    let mut out = vec![dual.real.0.to_bits()];
    for slot in dual.derivatives.iter() {
        out.push(slot.0.to_bits());
    }
    out
}

#[test]
fn test_const_ops() {
    assert_eq!(x(5.).add_scalar(Real(3.)), x(8.));
    assert_eq!(y(5.).subtract_scalar(Real(3.)), y(2.));
    assert_eq!(Dual::scalar_subtract(Real(3.), &y(5.)), eps_y(-2., -1.));
    assert_eq!(z(2.).multiply_scalar(Real(3.)), sample(6., 0., 0., 3.));
    assert_eq!(x(10.).powf(Real(2.)), sample(100., 20., 0., 0.));
    assert_eq!(y(10.).invert(), sample(0.1, 0., -0.01, 0.));

    let mut v = x(3.);
    v.add_assign_scalar(Real(7.));
    assert_eq!(v, x(10.));
}

#[test]
fn test_dist() {
    let x = x(1.);
    let x_plus_1 = x.add_scalar(Real(1.));
    let x_minus_1 = x.subtract_scalar(Real(1.));
    let x_squared = x.multiply(&x).unwrap();
    assert_eq!(
        x_plus_1.multiply(&x_plus_1).unwrap(),
        x_squared.add(&Dual::scalar_multiply(Real(2.), &x)).unwrap().add_scalar(Real(1.))
    );
    assert_eq!(x_plus_1.multiply(&x_plus_1).unwrap(), x_plus_1.powf(Real(2.)));
    assert_eq!(x_plus_1.multiply(&x_minus_1).unwrap(), x_squared.subtract_scalar(Real(1.)));
}

#[test]
fn test_diff() {
    let x = x(1.);
    let z = x.multiply(&x).unwrap();
    assert_eq!(d_dx(&z), 2.);
}

#[test]
fn test_trig() {
    let x = x(0.);
    assert_eq!(x.sin(), eps_x(0., 1.));
    assert_eq!(x.cos(), eps_x(1., 0.));
    assert_eq!(x.tan(), eps_x(0., 1.));
}

#[test]
fn constant_has_zero_derivatives() {
    let c = family().constant(Real(4.5));
    assert_eq!(c, sample(4.5, 0., 0., 0.));
    assert_eq!(c.axis_count(), 3);
    assert_eq!(
        Dual::constant(2, Real(-1.)),
        Dual { real: Real(-1.), derivatives: vec![Real(0.); 2] }
    );
}

#[test]
fn constants_add_to_the_constant_of_the_sum() {
    let a = family().constant(Real(1.25));
    let b = family().constant(Real(2.5));
    let sum = a.add(&b).unwrap();
    assert_eq!(sum, family().constant(Real(3.75)));
    assert_eq!(sum.derivatives, vec![Real(0.); 3]);
}

#[test]
fn variable_is_seeded_along_its_own_axis_only() {
    let v = y(-3.5);
    assert_eq!(v.real, Real(-3.5));
    assert_eq!(d_dy(&v), 1.);
    assert_eq!(d_dx(&v), 0.);
    assert_eq!(d_dz(&v), 0.);
    assert_eq!(Dual::variable_at(3, 1, Real(-3.5)), Some(v));
}

#[test]
fn with_derivative_starts_from_zero() {
    let v = family().with_derivative("z", Real(2.), Real(-7.)).unwrap();
    assert_eq!(v, sample(2., 0., 0., -7.));
    assert_eq!(Dual::with_derivative(3, 2, Real(2.), Real(-7.)), Some(v));
}

#[test]
fn unknown_axis_gives_no_value() {
    assert_eq!(family().variable_at("w", Real(1.)), None);
    assert_eq!(family().with_derivative("w", Real(1.), Real(1.)), None);
    assert_eq!(family().extract_derivative(&x(1.), "w"), None);
    assert_eq!(Dual::variable_at(3, 3, Real(1.)), None);
    assert_eq!(Dual::with_derivative(3, 4, Real(1.), Real(1.)), None);
    assert_eq!(Dual::<Real>::variable_at(0, 0, Real(1.)), None);
}

#[test]
fn extract_derivative_reads_the_slot() {
    let v = sample(1., 2., 3., 4.);
    assert_eq!(v.extract_derivative(0), Some(Real(2.)));
    assert_eq!(v.extract_derivative(1), Some(Real(3.)));
    assert_eq!(v.extract_derivative(2), Some(Real(4.)));
    assert_eq!(v.extract_derivative(3), None);
    assert_eq!(family().extract_derivative(&v, "z"), Some(Real(4.)));
}

#[test]
fn extract_derivative_of_a_smaller_family_is_none() {
    let small = Dual::variable_at(2, 0, Real(1.)).unwrap();
    assert_eq!(family().extract_derivative(&small, "x"), Some(Real(1.)));
    assert_eq!(family().extract_derivative(&small, "z"), None);
}

#[test]
fn sum_rule_holds_slot_by_slot() {
    let f = sample(1., 2., -3., 0.5);
    let g = sample(10., 0.25, 8., -1.5);
    let sum = f.add(&g).unwrap();
    assert_eq!(sum, sample(11., 2.25, 5., -1.));
    for axis in 0..3 {
        let expected = f.derivatives[axis].0 + g.derivatives[axis].0;
        assert_eq!(sum.extract_derivative(axis), Some(Real(expected)));
    }
}

#[test]
fn product_rule_uses_the_real_parts_of_both_operands() {
    let f = sample(3., 1., 2., 0.);
    let g = sample(5., 0., 4., 7.);
    // d(f * g) = df * g + dg * f
    assert_eq!(f.multiply(&g).unwrap(), sample(15., 5., 22., 21.));
}

#[test]
fn square_of_a_variable_has_derivative_two_v() {
    for v in [0., 1., -2.5, 1e10, 3.0e-7] {
        let x = x(v);
        assert_eq!(d_dx(&x.multiply(&x).unwrap()), 2. * v);
    }
}

#[test]
fn second_power_of_a_variable_has_derivative_two_v() {
    for v in [1., -2.5, 4., 1024.] {
        assert_eq!(d_dx(&x(v).powf(Real(2.))), 2. * v);
    }
}

#[test]
fn power_rule_with_a_fractional_exponent() {
    let root = x(4.).powf(Real(0.5));
    assert_eq!(root.real, Real(2.));
    // 1 * 0.5 * 4^(-0.5)
    assert_eq!(d_dx(&root), 0.25);
    assert_eq!(d_dy(&root), 0.);
}

#[test]
fn power_one_gives_the_operand_back() {
    let v = sample(3.5, 1., -2., 0.25);
    assert_eq!(v.powf(Real(1.)), v);
}

#[test]
fn power_of_a_negative_base_to_a_fraction_is_not_a_number() {
    let out = x(-4.).powf(Real(0.5));
    assert!(out.real.0.is_nan());
    assert!(d_dx(&out).is_nan());
}

#[test]
fn reciprocal_of_zero_is_infinite() {
    let out = x(0.).invert();
    assert_eq!(out.real, Real(f64::INFINITY));
    assert_eq!(d_dx(&out), f64::NEG_INFINITY);
    assert!(d_dy(&out).is_nan());
}

#[test]
fn division_is_multiplication_by_the_reciprocal_bit_for_bit() {
    let cases = [
        (sample(1., 2., 3., 4.), sample(3., -1., 0.5, 7.)),
        (sample(0.1, 0.2, 0.3, 0.7), sample(-0.3, 1e-9, 1e9, 0.)),
        (sample(5., 1., 0., 0.), sample(0., 0., 1., 0.)),
        (sample(f64::NAN, 1., 0., 0.), sample(2., 0., 1., 0.)),
    ];
    for (a, b) in cases.iter() {
        let divided = a.divide(b).unwrap();
        let multiplied = a.multiply(&b.invert()).unwrap();
        assert_eq!(bits(&divided), bits(&multiplied));
    }
}

#[test]
fn quotient_rule_on_plain_values() {
    let f = x(6.);
    let g = sample(2., 0., 1., 0.);
    let q = f.divide(&g).unwrap();
    assert_eq!(q.real, Real(3.));
    // d/dx (x / y) = 1 / y, d/dy (x / y) = -x / y^2
    assert_eq!(d_dx(&q), 0.5);
    assert_eq!(d_dy(&q), -1.5);
}

#[test]
fn negation_is_multiplication_by_minus_one() {
    let v = sample(2., 1., -3., 0.);
    let negated = v.negate();
    assert_eq!(negated, sample(-2., -1., 3., 0.));
    assert_eq!(bits(&negated), bits(&v.multiply_scalar(Real(-1.))));
}

#[test]
fn subtraction_adds_the_negation() {
    let f = sample(5., 1., 2., 3.);
    let g = sample(1.5, 0.5, -2., 3.);
    let out = f.subtract(&g).unwrap();
    assert_eq!(out, sample(3.5, 0.5, 4., 0.));
    assert_eq!(bits(&out), bits(&f.add(&g.negate()).unwrap()));
}

#[test]
fn scalar_forms_lift_the_scalar_to_a_constant() {
    let v = sample(2., 1., -3., 0.5);
    let k = Real(4.);
    let c = family().constant(k);
    assert_eq!(bits(&v.add_scalar(k)), bits(&v.add(&c).unwrap()));
    assert_eq!(bits(&v.subtract_scalar(k)), bits(&v.subtract(&c).unwrap()));
    assert_eq!(bits(&v.multiply_scalar(k)), bits(&v.multiply(&c).unwrap()));
    assert_eq!(bits(&v.divide_scalar(k)), bits(&v.divide(&c).unwrap()));
    assert_eq!(bits(&Dual::scalar_add(k, &v)), bits(&c.add(&v).unwrap()));
    assert_eq!(bits(&Dual::scalar_subtract(k, &v)), bits(&c.subtract(&v).unwrap()));
    assert_eq!(bits(&Dual::scalar_multiply(k, &v)), bits(&c.multiply(&v).unwrap()));
    assert_eq!(bits(&Dual::scalar_divide(k, &v)), bits(&c.divide(&v).unwrap()));
}

#[test]
fn scalar_forms_on_plain_values() {
    let v = sample(2., 1., -3., 0.5);
    assert_eq!(v.add_scalar(Real(4.)), sample(6., 1., -3., 0.5));
    assert_eq!(v.subtract_scalar(Real(4.)), sample(-2., 1., -3., 0.5));
    assert_eq!(v.multiply_scalar(Real(4.)), sample(8., 4., -12., 2.));
    assert_eq!(v.divide_scalar(Real(4.)), sample(0.5, 0.25, -0.75, 0.125));
    assert_eq!(Dual::scalar_add(Real(4.), &v), sample(6., 1., -3., 0.5));
    assert_eq!(Dual::scalar_subtract(Real(4.), &v), sample(2., -1., 3., -0.5));
    assert_eq!(Dual::scalar_multiply(Real(4.), &v), sample(8., 4., -12., 2.));
    // d(4 / v) = -4 / v^2 * dv
    assert_eq!(Dual::scalar_divide(Real(4.), &v), sample(2., -1., 3., -0.5));
}

#[test]
fn compound_forms_with_a_dual_match_the_plain_operations() {
    let v = sample(2., 1., -3., 0.5);
    let k = sample(-4., 0.25, 2., 8.);

    let mut w = v.clone();
    assert_eq!(w.add_assign(&k), Ok(()));
    assert_eq!(bits(&w), bits(&v.add(&k).unwrap()));

    let mut w = v.clone();
    assert_eq!(w.subtract_assign(&k), Ok(()));
    assert_eq!(bits(&w), bits(&v.subtract(&k).unwrap()));

    let mut w = v.clone();
    assert_eq!(w.multiply_assign(&k), Ok(()));
    assert_eq!(bits(&w), bits(&v.multiply(&k).unwrap()));

    let mut w = v.clone();
    assert_eq!(w.divide_assign(&k), Ok(()));
    assert_eq!(bits(&w), bits(&v.divide(&k).unwrap()));
}

#[test]
fn compound_forms_with_a_scalar_match_the_plain_operations() {
    let v = sample(2., 1., -3., 0.5);
    let k = Real(-4.);

    let mut w = v.clone();
    w.add_assign_scalar(k);
    assert_eq!(bits(&w), bits(&v.add_scalar(k)));

    let mut w = v.clone();
    w.subtract_assign_scalar(k);
    assert_eq!(bits(&w), bits(&v.subtract_scalar(k)));

    let mut w = v.clone();
    w.multiply_assign_scalar(k);
    assert_eq!(bits(&w), bits(&v.multiply_scalar(k)));

    let mut w = v.clone();
    w.divide_assign_scalar(k);
    assert_eq!(bits(&w), bits(&v.divide_scalar(k)));
}

#[test]
fn operands_of_different_families_are_refused() {
    let three = sample(1., 2., 3., 4.);
    let two = Dual { real: Real(1.), derivatives: vec![Real(1.), Real(0.)] };
    let error = MismatchedFamilyError { left: 3, right: 2 };
    assert_eq!(three.add(&two), Err(error));
    assert_eq!(three.subtract(&two), Err(error));
    assert_eq!(three.multiply(&two), Err(error));
    assert_eq!(three.divide(&two), Err(error));
    assert_eq!(two.add(&three), Err(MismatchedFamilyError { left: 2, right: 3 }));
}

#[test]
fn refused_compound_forms_leave_the_left_operand_as_it_was() {
    let two = Dual { real: Real(1.), derivatives: vec![Real(1.), Real(0.)] };
    let error = MismatchedFamilyError { left: 3, right: 2 };

    let mut v = sample(1., 2., 3., 4.);
    assert_eq!(v.add_assign(&two), Err(error));
    assert_eq!(v, sample(1., 2., 3., 4.));
    assert_eq!(v.subtract_assign(&two), Err(error));
    assert_eq!(v, sample(1., 2., 3., 4.));
    assert_eq!(v.multiply_assign(&two), Err(error));
    assert_eq!(v, sample(1., 2., 3., 4.));
    assert_eq!(v.divide_assign(&two), Err(error));
    assert_eq!(v, sample(1., 2., 3., 4.));
}

#[test]
fn sine_and_cosine_scale_by_the_factor_of_the_real_part() {
    let v = sample(0.5, 2., -1., 0.);
    let sine = v.sin();
    assert_eq!(sine.real, Real(0.5f64.sin()));
    assert_eq!(d_dx(&sine), 2. * 0.5f64.cos());
    assert_eq!(d_dy(&sine), -1. * 0.5f64.cos());
    let cosine = v.cos();
    assert_eq!(cosine.real, Real(0.5f64.cos()));
    assert_eq!(d_dx(&cosine), 2. * -(0.5f64.sin()));
    assert_eq!(d_dy(&cosine), -1. * -(0.5f64.sin()));
}

#[test]
fn tangent_is_sine_over_cosine_bit_for_bit() {
    for v in [0., 0.3, -1.2, 2.5, std::f64::consts::FRAC_PI_2] {
        let x = x(v);
        assert_eq!(bits(&x.tan()), bits(&x.sin().divide(&x.cos()).unwrap()));
    }
}

#[test]
fn tangent_has_derivative_one_over_cosine_squared() {
    let v = 0.3f64;
    let out = x(v).tan();
    assert!((out.real.0 - v.tan()).abs() < 1e-15);
    assert!((d_dx(&out) - 1. / (v.cos() * v.cos())).abs() < 1e-14);
}

#[test]
fn end_to_end_gradient() {
    let (x, y) = (x(5.), y(7.));
    let z = x.powf(Real(2.)).add(&y.multiply(&y.sin()).unwrap()).unwrap();
    assert_eq!(d_dx(&z), 10.);
    let expected = 7. * 7f64.cos() + 7f64.sin();
    assert!((d_dy(&z) - expected).abs() < 1e-12);
    assert!((d_dy(&z) - 5.934302379121921).abs() < 1e-12);
    assert_eq!(d_dz(&z), 0.);
}

#[test]
fn order_is_that_of_the_real_parts() {
    let small = sample(1., 100., 100., 100.);
    let large = sample(2., -100., 0., 0.);
    assert!(small < large);
    assert!(large > small);
    assert!(small <= sample(1., 0., 0., 0.));
    assert_eq!(small.partial_cmp(&sample(1., 0., 0., 0.)), Some(std::cmp::Ordering::Equal));
}

#[test]
fn not_a_number_is_incomparable() {
    let nan = sample(f64::NAN, 0., 0., 0.);
    assert_eq!(nan.partial_cmp(&sample(1., 0., 0., 0.)), None);
    assert_eq!(sample(1., 0., 0., 0.).partial_cmp(&nan), None);
    assert!(!(nan < nan) && !(nan > nan));
}

#[test]
fn clone_copies_every_slot() {
    let v = sample(1., 2., 3., 4.);
    assert_eq!(v.clone(), v);
}
