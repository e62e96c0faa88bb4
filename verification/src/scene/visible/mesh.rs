use vstd::prelude::*;
use crate::common::error::GeometryError;
use crate::common::ray::{Intersection, Ray, Spacial};
use crate::common::scalar::{abs, magnitude, zero, VertexFormat};
use crate::common::vector::Vec3;
use crate::scene::visible::body::Intersectable;

verus! {

/// The coordinate axis left out when `normal` is the plane's normal: that of
/// its component with the largest magnitude, the earlier axis on a tie.
pub open spec fn dominant_axis<T: VertexFormat>(normal: Vec3<T>) -> u8 {
    let x = magnitude(normal.x);
    let y = magnitude(normal.y);
    let z = magnitude(normal.z);
    if !x.below(y) && !x.below(z) {
        0
    } else if !y.below(x) && !y.below(z) {
        1
    } else {
        2
    }
}

/// `vector` without the coordinate of the axis `axis_to_drop`.
pub open spec fn projected<T: VertexFormat>(vector: Vec3<T>, axis_to_drop: u8) -> (T, T) {
    if axis_to_drop == 0 {
        (vector.y, vector.z)
    } else if axis_to_drop == 1 {
        (vector.x, vector.z)
    } else {
        (vector.x, vector.y)
    }
}

/// Twice the signed area of the triangle with corners at the origin, `p` and
/// `q`: above zero where `q` lies to the left of `p`.
pub open spec fn turn<T: VertexFormat>(p: (T, T), q: (T, T)) -> T {
    p.0.prod(q.1).diff(p.1.prod(q.0))
}

/// Whether the origin lies in the triangle `a`, `b`, `c` or on its edge: seen
/// from the origin the three sides all turn one way.
pub open spec fn surrounds_origin<T: VertexFormat>(a: (T, T), b: (T, T), c: (T, T)) -> bool {
    let ab = turn(a, b);
    let bc = turn(b, c);
    let ca = turn(c, a);
    ||| !ab.below(zero::<T>()) && !bc.below(zero::<T>()) && !ca.below(zero::<T>())
    ||| !zero::<T>().below(ab) && !zero::<T>().below(bc) && !zero::<T>().below(ca)
}

/// A triangle, seen from the side its corners run counter-clockwise on.
#[derive(Debug, Clone, Copy)]
pub struct Triangle<T: VertexFormat> {
    v1: Vec3<T>,
    v2: Vec3<T>,
    v3: Vec3<T>,
    // unit normal of the triangle's plane
    normal: Vec3<T>,
    // distance of the plane to the origin
    d: T,
}

impl<T: VertexFormat> Triangle<T> {
    /// The three corners.
    pub closed spec fn vertices(&self) -> (Vec3<T>, Vec3<T>, Vec3<T>) {
        (self.v1, self.v2, self.v3)
    }

    /// The unit normal of the triangle's plane.
    pub closed spec fn normal(&self) -> Vec3<T> {
        self.normal
    }

    /// The distance of the triangle's plane to the origin.
    pub closed spec fn plane_distance(&self) -> T {
        self.d
    }

    /// The normal of the plane through three corners, before it is brought to
    /// unit length.
    pub open spec fn facing(v1: Vec3<T>, v2: Vec3<T>, v3: Vec3<T>) -> Vec3<T> {
        v2.minus(v1).cross_of(v3.minus(v1))
    }

    /// The distance to the origin of the plane through `v1` with unit normal
    /// `normal`.
    pub open spec fn plane_offset(v1: Vec3<T>, normal: Vec3<T>) -> T {
        magnitude((Vec3 { x: zero::<T>(), y: zero::<T>(), z: zero::<T>() }).minus(v1).dot_of(normal))
    }

    /// How the triangle with the given corners is built.
    pub open spec fn is_built_from(&self, v1: Vec3<T>, v2: Vec3<T>, v3: Vec3<T>) -> bool {
        &&& self.vertices() == (v1, v2, v3)
        &&& Self::facing(v1, v2, v3).normalized() == Ok::<Vec3<T>, GeometryError>(self.normal())
        &&& self.plane_distance() == Self::plane_offset(v1, self.normal())
    }

    /// The cosine of the angle between the plane's normal and the ray.
    pub open spec fn approach(&self, ray: Ray<T>) -> T {
        self.normal().dot_of(ray.direction)
    }

    /// The distance along the ray at which it meets the triangle's plane.
    pub open spec fn distance(&self, ray: Ray<T>) -> T {
        self.normal().dot_of(ray.origin).sum(self.plane_distance()).negated().quot(
            self.approach(ray),
        )
    }

    /// Whether `plane_intersection`, a point of the triangle's plane, lies in
    /// the triangle or on its edge. The test is made in two dimensions, in the
    /// coordinate plane the triangle is least inclined to.
    pub open spec fn contains(&self, plane_intersection: Vec3<T>) -> bool {
        let axis = dominant_axis(self.normal());
        surrounds_origin(
            projected(self.vertices().0.minus(plane_intersection), axis),
            projected(self.vertices().1.minus(plane_intersection), axis),
            projected(self.vertices().2.minus(plane_intersection), axis),
        )
    }

    /// The triangle with the given corners. Corners that lie on one line span
    /// no plane and are refused.
    pub fn new(v1: Vec3<T>, v2: Vec3<T>, v3: Vec3<T>) -> (r: Result<Triangle<T>, GeometryError>)
        ensures
            match r {
                Ok(triangle) => Self::facing(v1, v2, v3).has_direction() && triangle.is_built_from(
                    v1,
                    v2,
                    v3,
                ),
                Err(e) => !Self::facing(v1, v2, v3).has_direction() && e
                    == GeometryError::DegenerateVector,
            },
    {
        let vector1 = v2.sub(&v1);
        let vector2 = v3.sub(&v1);
        match vector1.cross(&vector2).normalize() {
            Ok(normal) => {
                let origin = Vec3::new(T::from_u32(0), T::from_u32(0), T::from_u32(0));
                let d = abs(origin.sub(&v1).dot(&normal));
                Ok(Triangle { v1, v2, v3, normal, d })
            },
            Err(e) => Err(e),
        }
    }

    /// The coordinate axis along which the triangle is projected.
    pub fn axis_to_drop(&self) -> (r: u8)
        ensures
            r == dominant_axis(self.normal()),
    {
        let x = abs(self.normal.x);
        let y = abs(self.normal.y);
        let z = abs(self.normal.z);
        if !x.lt(y) && !x.lt(z) {
            0
        } else if !y.lt(x) && !y.lt(z) {
            1
        } else {
            2
        }
    }

    /// Drops one coordinate of `vector`.
    pub fn project(&self, vector: &Vec3<T>, axis_to_drop: u8) -> (r: (T, T))
        ensures
            r == projected(*vector, axis_to_drop),
    {
        if axis_to_drop == 0 {
            (vector.y, vector.z)
        } else if axis_to_drop == 1 {
            (vector.x, vector.z)
        } else {
            (vector.x, vector.y)
        }
    }

    /// Whether a point of the triangle's plane lies in the triangle.
    pub fn projection_intersection(&self, plane_intersection: &Vec3<T>) -> (r: bool)
        ensures
            r == self.contains(*plane_intersection),
    {
        let axis_to_drop = self.axis_to_drop();
        let a = self.project(&self.v1.sub(plane_intersection), axis_to_drop);
        let b = self.project(&self.v2.sub(plane_intersection), axis_to_drop);
        let c = self.project(&self.v3.sub(plane_intersection), axis_to_drop);

        let ab = a.0.mul(b.1).sub(a.1.mul(b.0));
        let bc = b.0.mul(c.1).sub(b.1.mul(c.0));
        let ca = c.0.mul(a.1).sub(c.1.mul(a.0));

        let origin = T::from_u32(0);
        let none_right = !ab.lt(origin) && !bc.lt(origin) && !ca.lt(origin);
        let none_left = !origin.lt(ab) && !origin.lt(bc) && !origin.lt(ca);
        none_right || none_left
    }
}

impl<T: VertexFormat> Spacial<T> for Triangle<T> {
    open spec fn position(&self) -> Vec3<T> {
        self.vertices().0
    }

    fn location(&self) -> (r: &Vec3<T>) {
        &self.v1
    }
}

impl<T: VertexFormat> Intersectable<T> for Triangle<T> {
    /// The point where the ray meets the triangle from its front side, with
    /// the plane's normal. There is none where the ray runs along the plane or
    /// comes from behind it, where the plane lies behind the ray's origin, or
    /// where the ray meets the plane outside the triangle.
    open spec fn hit(&self, ray: Ray<T>) -> Option<Intersection<T>> {
        if self.approach(ray).below(zero::<T>()) && zero::<T>().below(self.distance(ray))
            && self.contains(ray.at(self.distance(ray))) {
            Some(Intersection { point: ray.at(self.distance(ray)), normal: self.normal() })
        } else {
            None
        }
    }

    fn intersect(&self, ray: &Ray<T>) -> (r: Option<Intersection<T>>) {
        let dot = self.normal.dot(&ray.direction);
        if !dot.lt(T::from_u32(0)) {
            return None;
        }
        let t = self.normal.dot(&ray.origin).add(self.d).neg().div(dot);
        if !T::from_u32(0).lt(t) {
            return None;
        }
        let intersection_point = ray.point_at(t);
        if self.projection_intersection(&intersection_point) {
            Some(Intersection { point: intersection_point, normal: self.normal })
        } else {
            None
        }
    }
}

} // verus!
