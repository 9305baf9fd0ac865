use raytrace::ray_tracer::scalar::Scalar;
use raytrace::ray_tracer::tuple::Tuple;

fn s(x: f64) -> Scalar {
    Scalar::from_bits(x.to_bits())
}

fn f(x: Scalar) -> f64 {
    f64::from_bits(x.to_bits())
}

fn point(x: f64, y: f64, z: f64) -> Tuple {
    Tuple::point(s(x), s(y), s(z))
}

fn vector(x: f64, y: f64, z: f64) -> Tuple {
    Tuple::vector(s(x), s(y), s(z))
}

fn tuple(x: f64, y: f64, z: f64, w: f64) -> Tuple {
    Tuple { x: s(x), y: s(y), z: s(z), w: s(w) }
}

#[test]
fn test_a_tuple_with_w_1_is_a_point() {
    let a = point(4.3, -4.2, 3.1);

    assert_eq!(f(a.w), 1.0);
}

#[test]
fn test_a_tuple_with_w_0_is_a_vector() {
    let a = vector(4.3, -4.2, 3.1);

    assert_eq!(f(a.w), 0.0);
}

#[test]
fn test_adding_two_tuples() {
    let a1 = point(3.0, -2.0, 5.0);
    let a2 = vector(-2.0, 3.0, 1.0);

    assert_eq!(a1 + a2, tuple(1.0, 1.0, 6.0, 1.0));
    assert_eq!(&a1 + a2, tuple(1.0, 1.0, 6.0, 1.0));
    assert_eq!(&a1 + &a2, tuple(1.0, 1.0, 6.0, 1.0));
    assert_eq!(a1 + &a2, tuple(1.0, 1.0, 6.0, 1.0));
}

#[test]
fn test_subtracting_two_points() {
    let p1 = point(3.0, 2.0, 1.0);
    let p2 = point(5.0, 6.0, 7.0);

    assert_eq!(p1 - p2, vector(-2.0, -4.0, -6.0));
}

#[test]
fn test_subtracting_a_vector_from_a_point() {
    let p = point(3.0, 2.0, 1.0);
    let v = vector(5.0, 6.0, 7.0);

    assert_eq!(p - v, point(-2.0, -4.0, -6.0));
}

#[test]
fn test_subtracting_two_vectors() {
    let v1 = vector(3.0, 2.0, 1.0);
    let v2 = vector(5.0, 6.0, 7.0);

    assert_eq!(v1 - v2, vector(-2.0, -4.0, -6.0));
}

#[test]
fn test_subtracting_a_vector_from_the_zero_vector() {
    let z = vector(0.0, 0.0, 0.0);
    let v = vector(1.0, -2.0, 3.0);

    assert_eq!(z - v, vector(-1.0, 2.0, -3.0));
}

#[test]
fn test_negating_a_tuple() {
    let a = tuple(1.0, -2.0, 3.0, -4.0);

    assert_eq!(-a, tuple(-1.0, 2.0, -3.0, 4.0));
}

#[test]
fn test_multiplying_a_tuple_by_a_scalar() {
    let a = tuple(1.0, -2.0, 3.0, -4.0);

    assert_eq!(a * s(3.5), tuple(3.5, -7.0, 10.5, -14.0));
}

#[test]
fn test_multiplying_a_tuple_by_a_fraction() {
    let a = tuple(1.0, -2.0, 3.0, -4.0);

    assert_eq!(a * s(0.5), tuple(0.5, -1.0, 1.5, -2.0));
}

#[test]
fn test_dividing_a_tuple_by_a_scalar() {
    let a = tuple(1.0, -2.0, 3.0, -4.0);

    assert_eq!(a / s(2.0), tuple(0.5, -1.0, 1.5, -2.0));
}

#[test]
fn test_computing_the_magnitude_of_vector_along_x() {
    assert_eq!(f(vector(1.0, 0.0, 0.0).magnitude()), 1.0);
}

#[test]
fn test_computing_the_magnitude_of_vector_along_y() {
    assert_eq!(f(vector(0.0, 1.0, 0.0).magnitude()), 1.0);
}

#[test]
fn test_computing_the_magnitude_of_vector_along_z() {
    assert_eq!(f(vector(0.0, 0.0, 1.0).magnitude()), 1.0);
}

#[test]
fn test_computing_the_magnitude_of_vector_positive() {
    assert_eq!(f(vector(1.0, 2.0, 3.0).magnitude()), 14.0_f64.sqrt());
}

#[test]
fn test_computing_the_magnitude_of_vector_negative() {
    assert_eq!(f(vector(-1.0, -2.0, -3.0).magnitude()), 14.0_f64.sqrt());
}

#[test]
fn test_normalizing_vector_along_x() {
    assert_eq!(vector(4.0, 0.0, 0.0).normalize(), vector(1.0, 0.0, 0.0));
}

#[test]
fn test_normalizing_vector_general() {
    assert_eq!(vector(1.0, 2.0, 3.0).normalize(), vector(0.26726, 0.53452, 0.80178));
}

#[test]
fn test_magnitude_of_a_normalized_vector() {
    let v = vector(1.0, 2.0, 3.0);

    assert_eq!(f(v.normalize().magnitude()), 1.0);
}

#[test]
fn test_dot_product_of_two_tuples() {
    let a = vector(1.0, 2.0, 3.0);
    let b = vector(2.0, 3.0, 4.0);

    assert_eq!(f(a.dot(&b)), 20.0);
}

#[test]
fn test_cross_product_of_two_vectors() {
    let a = vector(1.0, 2.0, 3.0);
    let b = vector(2.0, 3.0, 4.0);

    assert_eq!(a.cross(&b), vector(-1.0, 2.0, -1.0));
    assert_eq!(b.cross(&a), vector(1.0, -2.0, 1.0));
}

#[test]
fn test_cross_product_is_a_vector_even_of_points() {
    let a = point(1.0, 2.0, 3.0);
    let b = point(2.0, 3.0, 4.0);

    assert_eq!(a.cross(&b).w.to_bits(), 0);
}

#[test]
fn test_every_pairing_of_owned_and_borrowed_operands() {
    let a = tuple(1.0, -2.0, 3.0, -4.0);
    let b = tuple(0.5, 0.25, -1.0, 2.0);
    let k = s(2.0);

    assert_eq!(&a - &b, a - b);
    assert_eq!(&a - b, a - b);
    assert_eq!(a - &b, a - b);
    assert_eq!(&a * &k, a * k);
    assert_eq!(&a * k, a * k);
    assert_eq!(a * &k, a * k);
    assert_eq!(&a / &k, a / k);
    assert_eq!(&a / k, a / k);
    assert_eq!(a / &k, a / k);
    assert_eq!(-&a, -a);
}

#[test]
fn test_tuple_arithmetic_is_exact_to_the_bit() {
    let a = tuple(0.1, 0.2, 0.3, 0.4);
    let b = tuple(0.7, -0.6, 1e-9, 3.0);

    let sum = a + b;
    assert_eq!(sum.x.to_bits(), (0.1f64 + 0.7).to_bits());
    assert_eq!(sum.y.to_bits(), (0.2f64 + -0.6).to_bits());
    assert_eq!(sum.z.to_bits(), (0.3f64 + 1e-9).to_bits());
    assert_eq!(sum.w.to_bits(), (0.4f64 + 3.0).to_bits());
    let difference = a - b;
    assert_eq!(difference.x.to_bits(), (0.1f64 - 0.7).to_bits());
    assert_eq!(difference.z.to_bits(), (0.3f64 - 1e-9).to_bits());
    let dot = 0.1f64 * 0.7 + 0.2 * -0.6 + 0.3 * 1e-9 + 0.4 * 3.0;
    assert_eq!(a.dot(&b).to_bits(), dot.to_bits());
    let magnitude = (0.1f64 * 0.1 + 0.2 * 0.2 + 0.3 * 0.3 + 0.4 * 0.4).sqrt();
    assert_eq!(a.magnitude().to_bits(), magnitude.to_bits());
    assert_eq!(a.normalize().y.to_bits(), (0.2f64 / magnitude).to_bits());
    let cross = a.cross(&b);
    assert_eq!(cross.x.to_bits(), (0.2f64 * 1e-9 - 0.3 * -0.6).to_bits());
    assert_eq!(cross.y.to_bits(), (0.3f64 * 0.7 - 0.1 * 1e-9).to_bits());
    assert_eq!(cross.z.to_bits(), (0.1f64 * -0.6 - 0.2 * 0.7).to_bits());
}

#[test]
fn test_equality_of_tuples_is_approximate_in_every_component() {
    let a = tuple(1.0, 2.0, 3.0, 1.0);

    assert!(a == tuple(1.000001, 2.0, 3.0, 1.0));
    assert!(a == tuple(1.0, 2.0, 3.000001, 1.0));
    assert!(a != tuple(1.0001, 2.0, 3.0, 1.0));
    assert!(a != tuple(1.0, 2.0001, 3.0, 1.0));
    assert!(a != tuple(1.0, 2.0, 3.0001, 1.0));
    assert!(a != tuple(1.0, 2.0, 3.0, 0.0));
    assert!(a != tuple(f64::NAN, 2.0, 3.0, 1.0));
}

#[test]
fn test_normalizing_the_zero_vector_is_not_guarded() {
    let n = vector(0.0, 0.0, 0.0).normalize();

    assert!(f(n.x).is_nan());
    assert!(f(n.y).is_nan());
    assert!(f(n.z).is_nan());
    assert!(f(n.w).is_nan());
}
