use float_cmp::{ApproxEq, F64Margin};
use ray_tracer::common::scalar::{abs, clamp, min};
use ray_tracer::common::{max, Color, GeometryError, Intersection, Ray, Vec3, VertexFormat};

/// Double precision numbers as the scalar of the library.
#[derive(Clone, Copy, Debug, PartialEq, PartialOrd)]
struct Real(f64);

impl VertexFormat for Real {
    fn from_u32(n: u32) -> Self {
        Real(f64::from(n))
    }

    fn infinity() -> Self {
        Real(f64::INFINITY)
    }

    fn add(self, rhs: Self) -> Self {
        Real(self.0 + rhs.0)
    }

    fn sub(self, rhs: Self) -> Self {
        Real(self.0 - rhs.0)
    }

    fn mul(self, rhs: Self) -> Self {
        Real(self.0 * rhs.0)
    }

    fn div(self, rhs: Self) -> Self {
        Real(self.0 / rhs.0)
    }

    fn neg(self) -> Self {
        Real(-self.0)
    }

    fn sqrt(self) -> Self {
        Real(self.0.sqrt())
    }

    fn tan(self) -> Self {
        Real(self.0.tan())
    }

    fn atan(self) -> Self {
        Real(self.0.atan())
    }

    fn powf(self, exponent: Self) -> Self {
        Real(self.0.powf(exponent.0))
    }

    fn lt(self, rhs: Self) -> bool {
        self.0 < rhs.0
    }

    fn to_u8(self) -> Option<u8> {
        if self.0 > -1.0 && self.0 < 256.0 {
            Some(self.0 as u8)
        } else {
            None
        }
    }
    // What the operations compute, for the contracts: an implementation has
    // to name these too, though nothing ever runs them.

    fn of_u32(n: u32) -> Self {
        Self::from_u32(n)
    }

    fn unbounded() -> Self {
        Self::infinity()
    }

    fn sum(self, rhs: Self) -> Self {
        self.add(rhs)
    }

    fn diff(self, rhs: Self) -> Self {
        self.sub(rhs)
    }

    fn prod(self, rhs: Self) -> Self {
        self.mul(rhs)
    }

    fn quot(self, rhs: Self) -> Self {
        self.div(rhs)
    }

    fn negated(self) -> Self {
        self.neg()
    }

    fn root(self) -> Self {
        self.sqrt()
    }

    fn tangent(self) -> Self {
        self.tan()
    }

    fn arctangent(self) -> Self {
        self.atan()
    }

    fn power(self, exponent: Self) -> Self {
        self.powf(exponent)
    }

    fn below(self, rhs: Self) -> bool {
        self.lt(rhs)
    }

    fn as_byte(self) -> Option<u8> {
        self.to_u8()
    }

    fn below_irreflexive(_a: Self) {}

    fn below_transitive(_a: Self, _b: Self, _c: Self) {}

    fn zero_below_one() {}
}

fn vec3(x: f64, y: f64, z: f64) -> Vec3<Real> {
    Vec3::new(Real(x), Real(y), Real(z))
}

fn color(red: f64, green: f64, blue: f64) -> Option<Color<Real>> {
    Color::new(Real(red), Real(green), Real(blue))
}

fn within_ulps(a: Real, b: Real, ulps: i64) -> bool {
    a.0.approx_eq(b.0, F64Margin { epsilon: 0.0, ulps })
}

// Vector tests

#[test]
fn common_normalize_unit_vectors() {
    let unit_x = vec3(-1.0, 0.0, 0.0);
    let expected = vec3(-1.0, 0.0, 0.0);

    assert_eq!(unit_x.normalize().unwrap(), expected);
}

#[test]
fn mod_normalize_unit_vectors() {
    let unit_x = vec3(-1.0, 0.0, 0.0);
    let expected = vec3(-1.0, 0.0, 0.0);

    assert_eq!(unit_x.normalize(), Ok(expected));
}

#[test]
fn common_normalize_vector() {
    let vector = vec3(1.0, 1.0, 0.0);

    let expected = vec3(1.0 / 2.0_f64.sqrt(), 1.0 / 2.0_f64.sqrt(), 0.0);

    let vector = vector.normalize().unwrap();

    assert!(within_ulps(vector.x, expected.x, 1));
    assert!(within_ulps(vector.y, expected.y, 1));
    assert!(within_ulps(vector.z, expected.z, 1));
}

#[test]
fn mod_normalize_vector() {
    let vector = vec3(1.0, 1.0, 0.0);

    let expected = vec3(1.0 / 2.0_f64.sqrt(), 1.0 / 2.0_f64.sqrt(), 0.0);

    let vector = vector.normalize().unwrap();

    assert!(within_ulps(vector.x, expected.x, 1));
    assert!(within_ulps(vector.y, expected.y, 1));
    assert!(within_ulps(vector.z, expected.z, 1));
}

#[test]
fn normalize_refuses_the_zero_vector() {
    assert_eq!(vec3(0.0, 0.0, 0.0).normalize(), Err(GeometryError::DegenerateVector));
}

#[test]
fn normalize_refuses_a_length_that_is_no_number() {
    assert_eq!(vec3(f64::NAN, 0.0, 0.0).normalize(), Err(GeometryError::DegenerateVector));
}

#[test]
fn normalize_gives_unit_length_and_keeps_direction() {
    let v = vec3(3.0, -4.0, 12.0);
    let n = v.normalize().unwrap();

    assert!(within_ulps(n.mag_sqrd(), Real(1.0), 4));
    assert_eq!(n, vec3(3.0 / 13.0, -4.0 / 13.0, 12.0 / 13.0));
}

#[test]
fn vector_arithmetic() {
    let a = vec3(1.0, 2.0, 3.0);
    let b = vec3(4.0, -5.0, 6.0);

    assert_eq!(a.add(&b), vec3(5.0, -3.0, 9.0));
    assert_eq!(a.sub(&b), vec3(-3.0, 7.0, -3.0));
    assert_eq!(a.mul(Real(2.0)), vec3(2.0, 4.0, 6.0));
    assert_eq!(a.div(Real(2.0)), vec3(0.5, 1.0, 1.5));
    assert_eq!(a.scalar_mul(&b), vec3(4.0, -10.0, 18.0));
    assert_eq!(a.dot(&b), Real(12.0));
    assert_eq!(a.mag_sqrd(), Real(14.0));
    assert_eq!(a.cross(&b), vec3(27.0, 6.0, -13.0));
}

#[test]
fn cross_of_axes_is_the_third_axis() {
    let x = vec3(1.0, 0.0, 0.0);
    let y = vec3(0.0, 1.0, 0.0);

    assert_eq!(x.cross(&y), vec3(0.0, 0.0, 1.0));
    assert_eq!(y.cross(&x), vec3(0.0, 0.0, -1.0));
}

#[test]
fn clip_cuts_down_to_the_maximum() {
    let mut v = vec3(0.5, 1.5, -2.0);
    v.clip(Real(1.0));

    assert_eq!(v, vec3(0.5, 1.0, -2.0));
}

#[test]
fn mut_add_accumulates() {
    let mut v = vec3(0.5, 1.5, -2.0);
    v.mut_add(&vec3(1.0, 1.0, 1.0));

    assert_eq!(v, vec3(1.5, 2.5, -1.0));
}

#[test]
fn max_picks_the_larger() {
    assert_eq!(max(Real(1.0), Real(2.0)), Real(2.0));
    assert_eq!(max(Real(2.0), Real(1.0)), Real(2.0));
    assert_eq!(max(Real(0.0), Real(-3.0)), Real(0.0));
}

#[test]
fn min_picks_the_smaller() {
    assert_eq!(min(Real(1.0), Real(2.0)), Real(1.0));
    assert_eq!(min(Real(2.0), Real(1.0)), Real(1.0));
}

#[test]
fn abs_drops_the_sign() {
    assert_eq!(abs(Real(-2.5)), Real(2.5));
    assert_eq!(abs(Real(2.5)), Real(2.5));
    assert_eq!(abs(Real(0.0)), Real(0.0));
}

#[test]
fn clamp_brings_into_the_unit_range() {
    assert_eq!(clamp(Real(-2.5)), Real(0.0));
    assert_eq!(clamp(Real(0.0)), Real(0.0));
    assert_eq!(clamp(Real(0.25)), Real(0.25));
    assert_eq!(clamp(Real(1.0)), Real(1.0));
    assert_eq!(clamp(Real(1.5)), Real(1.0));
}

#[test]
fn minus_sign_subtracts_vectors() {
    assert_eq!(vec3(1.0, 2.0, 3.0) - vec3(4.0, -5.0, 6.0), vec3(-3.0, 7.0, -3.0));
}

// Ray tests

#[test]
fn ray_direction_is_normalized() {
    let ray = Ray::new(vec3(1.0, 2.0, 3.0), vec3(0.0, 0.0, -5.0)).unwrap();

    assert_eq!(ray.origin, vec3(1.0, 2.0, 3.0));
    assert_eq!(ray.direction, vec3(0.0, 0.0, -1.0));
    assert_eq!(ray.point_at(Real(2.0)), vec3(1.0, 2.0, 1.0));
}

#[test]
fn ray_without_direction_is_refused() {
    assert_eq!(
        Ray::new(vec3(1.0, 2.0, 3.0), vec3(0.0, 0.0, 0.0)),
        Err(GeometryError::DegenerateVector)
    );
}

#[test]
fn epsilon_shift_moves_along_the_normal() {
    let mut intersection = Intersection {
        point: vec3(1.0, 0.0, 0.0),
        normal: vec3(0.0, 1.0, 0.0),
    };
    intersection.epsilon_shift();

    assert_eq!(intersection.point, vec3(1.0, 0.000001, 0.0));
    assert_eq!(intersection.normal, vec3(0.0, 1.0, 0.0));
}

// Color tests

#[test]
fn valid_lower_boundary_color() {
    let color_vector = vec3(0.0, 0.0, 0.0);
    let color = Color::from_color_vertex(color_vector.clone()).unwrap();

    assert_eq!(color.color_vector(), &color_vector)
}

#[test]
fn common_valid_middle_color() {
    let color_vector = vec3(0.5, 0.5, 0.5);
    let color = Color::from_color_vertex(color_vector.clone()).unwrap();

    assert_eq!(color.color_vector(), &color_vector)
}

#[test]
fn valid_upper_boundary_color() {
    let color_vector = vec3(1.0, 1.0, 1.0);
    let color = Color::from_color_vertex(color_vector.clone()).unwrap();

    assert_eq!(color.color_vector(), &color_vector)
}

#[test]
#[should_panic]
fn invalid_lower_boundary_color() {
    let color_vector = vec3(-0.0000000001, -0.0000000001, -0.0000000001);
    Color::from_color_vertex(color_vector.clone()).unwrap();
}

#[test]
#[should_panic]
fn invalid_upper_boundary_color() {
    let color_vector = vec3(1.0000000001, 1.0000000001, 1.0000000001);
    Color::from_color_vertex(color_vector.clone()).unwrap();
}

#[test]
#[should_panic]
fn invalid_lower_color() {
    let color_vector = vec3(-2.0, -2.0, -2.0);
    Color::from_color_vertex(color_vector.clone()).unwrap();
}

#[test]
#[should_panic]
fn invalid_upper_color() {
    let color_vector = vec3(2.0, 2.0, 2.0);
    Color::from_color_vertex(color_vector.clone()).unwrap();
}

#[test]
fn valid_lower_color() {
    let color_vector = vec3(0.0, 0.0, 0.0);
    let color = Color::from_color_vertex(color_vector.clone()).unwrap();

    assert_eq!(color.color_vector(), &color_vector)
}

#[test]
fn mod_valid_middle_color() {
    let color_vector = vec3(0.5, 0.5, 0.5);
    let color = Color::from_color_vertex(color_vector.clone()).unwrap();

    assert_eq!(color.color_vector(), &color_vector)
}

#[test]
fn valid_upper_color() {
    let color_vector = vec3(1.0, 1.0, 1.0);
    let color = Color::from_color_vertex(color_vector.clone()).unwrap();

    assert_eq!(color.color_vector(), &color_vector)
}

#[test]
fn one_channel_out_of_range_is_enough_to_refuse() {
    assert!(color(0.5, 0.5, 1.5).is_none());
    assert!(color(0.5, -0.5, 0.5).is_none());
    assert!(color(1.5, 0.5, 0.5).is_none());
    assert!(color(0.0, 1.0, 0.5).is_some());
}

#[test]
fn unclipped_color_keeps_its_channels() {
    let bright = Color::new_unclipped(Real(2.0), Real(2.0), Real(0.5));

    assert_eq!(bright.color_vector(), &vec3(2.0, 2.0, 0.5));
}

#[test]
fn clipped_color_lies_in_the_unit_range() {
    let clipped = Color::clipped(vec3(1.5, -0.25, 0.75));

    assert_eq!(clipped.color_vector(), &vec3(1.0, 0.0, 0.75));
}

#[test]
fn clip_add_accumulates_and_clamps() {
    let mut sum = color(0.5, 0.75, 0.0).unwrap();
    sum.clip_add(&color(0.25, 0.75, 0.0).unwrap());

    assert_eq!(sum.color_vector(), &vec3(0.75, 1.0, 0.0));
}

#[test]
fn clip_mul_scales_and_clamps() {
    let mut scaled = color(0.5, 0.75, 0.0).unwrap();
    scaled.clip_mul(Real(1.5));

    assert_eq!(scaled.color_vector(), &vec3(0.75, 1.0, 0.0));
}

#[test]
fn channels_as_bytes_are_cut_off_not_rounded() {
    assert_eq!(color(1.0, 0.5, 0.0).unwrap().to_rgb(), Some((255, 127, 0)));
    assert_eq!(color(0.999, 0.2, 0.004).unwrap().to_rgb(), Some((254, 51, 1)));
    assert_eq!(Color::new_unclipped(Real(2.0), Real(0.0), Real(0.0)).to_rgb(), None);
}
