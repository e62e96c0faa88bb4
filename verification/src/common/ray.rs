use vstd::prelude::*;
use crate::common::error::GeometryError;
use crate::common::scalar::{epsilon, VertexFormat};
use crate::common::vector::Vec3;

verus! {

/// Something that has a place in the world.
pub trait Spacial<T: VertexFormat> {
    /// Where it is.
    spec fn position(&self) -> Vec3<T>;

    fn location(&self) -> (r: &Vec3<T>)
        ensures
            *r == self.position(),
    ;
}

/// A half-line: where it starts and which way it goes.
#[derive(PartialEq, Debug, Clone, Copy)]
pub struct Ray<T: VertexFormat> {
    pub origin: Vec3<T>,
    pub direction: Vec3<T>,
}

impl<T: VertexFormat> Ray<T> {
    /// The ray from `origin` along `direction` brought to unit length.
    pub open spec fn towards(origin: Vec3<T>, direction: Vec3<T>) -> Result<Ray<T>, GeometryError> {
        match direction.normalized() {
            Ok(unit) => Ok(Ray { origin, direction: unit }),
            Err(e) => Err(e),
        }
    }

    /// The point at distance `t` along the ray.
    pub open spec fn at(self, t: T) -> Vec3<T> {
        self.origin.plus(self.direction.scaled(t))
    }

    /// Builds a ray; the direction is normalized whatever its length, and a
    /// direction without length is refused.
    pub fn new(origin: Vec3<T>, direction: Vec3<T>) -> (r: Result<Ray<T>, GeometryError>)
        ensures
            r == Self::towards(origin, direction),
            r is Ok <==> direction.has_direction(),
    {
        match direction.normalize() {
            Ok(unit) => Ok(Ray { origin, direction: unit }),
            Err(e) => Err(e),
        }
    }

    /// The point at distance `t` along the ray.
    pub fn point_at(&self, t: T) -> (r: Vec3<T>)
        ensures
            r == self.at(t),
    {
        self.origin.add(&self.direction.mul(t))
    }
}

/// Where a ray met a surface, and the surface's unit normal there.
#[derive(PartialEq, Debug, Clone, Copy)]
pub struct Intersection<T: VertexFormat> {
    pub point: Vec3<T>,
    pub normal: Vec3<T>,
}

impl<T: VertexFormat> Intersection<T> {
    /// The intersection with its point moved along the normal by `epsilon`.
    pub open spec fn shifted(self) -> Intersection<T> {
        Intersection {
            point: self.point.plus(self.normal.scaled(epsilon::<T>())),
            normal: self.normal,
        }
    }

    /// Moves the point a little way off the surface, along the normal, so
    /// that a ray leaving from it does not meet the same surface again.
    pub fn epsilon_shift(&mut self)
        ensures
            *final(self) == old(self).shifted(),
    {
        let difference = T::from_u32(1).div(T::from_u32(1_000_000));
        let difference = self.normal.mul(difference);
        self.point = self.point.add(&difference);
    }
}

} // verus!
