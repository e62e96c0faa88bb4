use vstd::prelude::*;
use crate::common::ray::{Intersection, Ray, Spacial};
use crate::common::scalar::{zero, VertexFormat};
use crate::common::vector::Vec3;
use crate::scene::visible::body::Intersectable;

verus! {

/// A sphere, given by its centre and radius.
#[derive(Debug, Clone, Copy)]
pub struct Sphere<T: VertexFormat> {
    center: Vec3<T>,
    radius: T,
}

impl<T: VertexFormat> Sphere<T> {
    pub closed spec fn center(&self) -> Vec3<T> {
        self.center
    }

    pub closed spec fn radius(&self) -> T {
        self.radius
    }

    /// The squared radius.
    pub open spec fn reach(&self) -> T {
        self.radius().prod(self.radius())
    }

    /// The vector from the ray's origin to the centre.
    pub open spec fn offset(&self, ray: Ray<T>) -> Vec3<T> {
        self.center().minus(ray.origin)
    }

    /// How far along the ray the point nearest to the centre lies.
    pub open spec fn closest_approach(&self, ray: Ray<T>) -> T {
        ray.direction.dot_of(self.offset(ray))
    }

    /// Whether the ray starts inside the sphere.
    pub open spec fn encloses(&self, ray: Ray<T>) -> bool {
        self.offset(ray).norm_sq().below(self.reach())
    }

    /// The squared half-length of the chord that the ray's line cuts out.
    pub open spec fn half_chord_sq(&self, ray: Ray<T>) -> T {
        self.reach().diff(self.offset(ray).norm_sq()).sum(
            self.closest_approach(ray).prod(self.closest_approach(ray)),
        )
    }

    /// The distance along the ray at which it meets the surface: the far
    /// root from inside, the near root from outside.
    pub open spec fn distance(&self, ray: Ray<T>) -> T {
        if self.encloses(ray) {
            self.closest_approach(ray).sum(self.half_chord_sq(ray).root())
        } else {
            self.closest_approach(ray).diff(self.half_chord_sq(ray).root())
        }
    }

    /// Whether the ray meets the surface in front of its origin.
    pub open spec fn is_met_by(&self, ray: Ray<T>) -> bool {
        &&& self.encloses(ray) || !self.closest_approach(ray).below(zero::<T>())
        &&& !self.half_chord_sq(ray).below(zero::<T>())
        &&& zero::<T>().below(self.distance(ray))
    }

    /// The outward direction at `point`, before it is brought to unit length.
    pub open spec fn outward(&self, point: Vec3<T>) -> Vec3<T> {
        point.minus(self.center()).divided(self.radius())
    }

    pub fn new(center: Vec3<T>, radius: T) -> (r: Sphere<T>)
        ensures
            r.center() == center,
            r.radius() == radius,
    {
        Sphere { center, radius }
    }
}

impl<T: VertexFormat> Spacial<T> for Sphere<T> {
    open spec fn position(&self) -> Vec3<T> {
        self.center()
    }

    fn location(&self) -> (r: &Vec3<T>) {
        &self.center
    }
}

impl<T: VertexFormat> Intersectable<T> for Sphere<T> {
    /// The nearest point in front of the ray's origin where the ray meets the
    /// sphere, with the unit normal there. There is none where the ray misses,
    /// where the sphere lies behind the origin, or where the surface has no
    /// normal at the point that was found.
    open spec fn hit(&self, ray: Ray<T>) -> Option<Intersection<T>> {
        if self.is_met_by(ray) {
            match self.outward(ray.at(self.distance(ray))).normalized() {
                Ok(normal) => Some(Intersection { point: ray.at(self.distance(ray)), normal }),
                Err(_) => None,
            }
        } else {
            None
        }
    }

    fn intersect(&self, ray: &Ray<T>) -> (r: Option<Intersection<T>>) {
        let oc = self.center.sub(&ray.origin);
        let tca = ray.direction.dot(&oc);
        let oc_d2 = oc.mag_sqrd();
        let radius_d2 = self.radius.mul(self.radius);
        let inside_sphere = oc_d2.lt(radius_d2);

        // The sphere lies behind a ray that starts outside it.
        if tca.lt(T::from_u32(0)) && !inside_sphere {
            return None;
        }
        let thc2 = radius_d2.sub(oc_d2).add(tca.mul(tca));
        // The ray's line passes the sphere by.
        if thc2.lt(T::from_u32(0)) {
            return None;
        }
        let t = if inside_sphere {
            tca.add(thc2.sqrt())
        } else {
            tca.sub(thc2.sqrt())
        };
        if !T::from_u32(0).lt(t) {
            return None;
        }
        let point = ray.point_at(t);
        match point.sub(&self.center).div(self.radius).normalize() {
            Ok(normal) => Some(Intersection { point, normal }),
            Err(_) => None,
        }
    }
}

} // verus!
