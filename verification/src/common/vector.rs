use vstd::prelude::*;
use crate::common::error::GeometryError;
use crate::common::scalar::{lesser, min, zero, VertexFormat};

verus! {

/// A vector of three scalars.
#[derive(PartialEq, Debug, Clone, Copy)]
pub struct Vec3<T: VertexFormat> {
    pub x: T,
    pub y: T,
    pub z: T,
}

impl<T: VertexFormat> Vec3<T> {
    /// The squared length.
    pub open spec fn norm_sq(self) -> T {
        self.x.prod(self.x).sum(self.y.prod(self.y)).sum(self.z.prod(self.z))
    }

    /// The length.
    pub open spec fn length(self) -> T {
        self.norm_sq().root()
    }

    /// Each component times `k`.
    pub open spec fn scaled(self, k: T) -> Vec3<T> {
        Vec3 { x: self.x.prod(k), y: self.y.prod(k), z: self.z.prod(k) }
    }

    /// Each component over `k`.
    pub open spec fn divided(self, k: T) -> Vec3<T> {
        Vec3 { x: self.x.quot(k), y: self.y.quot(k), z: self.z.quot(k) }
    }

    /// The component-wise product.
    pub open spec fn hadamard(self, other: Vec3<T>) -> Vec3<T> {
        Vec3 { x: self.x.prod(other.x), y: self.y.prod(other.y), z: self.z.prod(other.z) }
    }

    /// The component-wise sum.
    pub open spec fn plus(self, other: Vec3<T>) -> Vec3<T> {
        Vec3 { x: self.x.sum(other.x), y: self.y.sum(other.y), z: self.z.sum(other.z) }
    }

    /// The component-wise difference.
    pub open spec fn minus(self, other: Vec3<T>) -> Vec3<T> {
        Vec3 { x: self.x.diff(other.x), y: self.y.diff(other.y), z: self.z.diff(other.z) }
    }

    /// The dot product.
    pub open spec fn dot_of(self, other: Vec3<T>) -> T {
        self.x.prod(other.x).sum(self.y.prod(other.y)).sum(self.z.prod(other.z))
    }

    /// The cross product.
    pub open spec fn cross_of(self, other: Vec3<T>) -> Vec3<T> {
        Vec3 {
            x: self.y.prod(other.z).diff(self.z.prod(other.y)),
            y: self.z.prod(other.x).diff(self.x.prod(other.z)),
            z: self.x.prod(other.y).diff(self.y.prod(other.x)),
        }
    }

    /// Each component cut down to `value` where it lies above it.
    pub open spec fn capped(self, value: T) -> Vec3<T> {
        Vec3 { x: lesser(value, self.x), y: lesser(value, self.y), z: lesser(value, self.z) }
    }

    /// Whether the vector has a length to divide by: one above zero.
    pub open spec fn has_direction(self) -> bool {
        zero::<T>().below(self.length())
    }

    /// The vector over its length, where it has a direction.
    pub open spec fn normalized(self) -> Result<Vec3<T>, GeometryError> {
        if self.has_direction() {
            Ok(self.divided(self.length()))
        } else {
            Err(GeometryError::DegenerateVector)
        }
    }

    /// The vector with the given components.
    pub fn new(x: T, y: T, z: T) -> (r: Vec3<T>)
        ensures
            r == (Vec3 { x, y, z }),
    {
        Vec3 { x, y, z }
    }

    /// The squared length of the vector.
    pub fn mag_sqrd(&self) -> (r: T)
        ensures
            r == self.norm_sq(),
    {
        self.x.mul(self.x).add(self.y.mul(self.y)).add(self.z.mul(self.z))
    }

    /// Scales the vector by a scalar.
    pub fn mul(&self, other: T) -> (r: Vec3<T>)
        ensures
            r == self.scaled(other),
    {
        Vec3 { x: self.x.mul(other), y: self.y.mul(other), z: self.z.mul(other) }
    }

    /// Multiplies component by component.
    pub fn scalar_mul(&self, other: &Vec3<T>) -> (r: Vec3<T>)
        ensures
            r == self.hadamard(*other),
    {
        Vec3 { x: self.x.mul(other.x), y: self.y.mul(other.y), z: self.z.mul(other.z) }
    }

    /// Subtracts component by component.
    pub fn sub(&self, other: &Vec3<T>) -> (r: Vec3<T>)
        ensures
            r == self.minus(*other),
    {
        Vec3 { x: self.x.sub(other.x), y: self.y.sub(other.y), z: self.z.sub(other.z) }
    }

    /// Divides each component by a scalar.
    pub fn div(&self, other: T) -> (r: Vec3<T>)
        ensures
            r == self.divided(other),
    {
        Vec3 { x: self.x.div(other), y: self.y.div(other), z: self.z.div(other) }
    }

    /// Adds component by component.
    pub fn add(&self, other: &Vec3<T>) -> (r: Vec3<T>)
        ensures
            r == self.plus(*other),
    {
        Vec3 { x: self.x.add(other.x), y: self.y.add(other.y), z: self.z.add(other.z) }
    }

    /// The dot product.
    pub fn dot(&self, other: &Vec3<T>) -> (r: T)
        ensures
            r == self.dot_of(*other),
    {
        self.x.mul(other.x).add(self.y.mul(other.y)).add(self.z.mul(other.z))
    }

    /// The cross product.
    pub fn cross(&self, other: &Vec3<T>) -> (r: Vec3<T>)
        ensures
            r == self.cross_of(*other),
    {
        Vec3 {
            x: self.y.mul(other.z).sub(self.z.mul(other.y)),
            y: self.z.mul(other.x).sub(self.x.mul(other.z)),
            z: self.x.mul(other.y).sub(self.y.mul(other.x)),
        }
    }

    /// Divides the vector by its length. A vector whose length is not above
    /// zero has no direction and is refused.
    pub fn normalize(self) -> (r: Result<Vec3<T>, GeometryError>)
        ensures
            r == self.normalized(),
            r is Ok <==> self.has_direction(),
    {
        let dist = self.mag_sqrd().sqrt();
        if T::from_u32(0).lt(dist) {
            Ok(Vec3 { x: self.x.div(dist), y: self.y.div(dist), z: self.z.div(dist) })
        } else {
            Err(GeometryError::DegenerateVector)
        }
    }

    /// Cuts every component down to `value` where it lies above it.
    pub fn clip(&mut self, value: T)
        ensures
            *final(self) == old(self).capped(value),
    {
        self.x = min(value, self.x);
        self.y = min(value, self.y);
        self.z = min(value, self.z);
    }

    /// Adds `other` to the vector in place.
    pub fn mut_add(&mut self, other: &Vec3<T>)
        ensures
            *final(self) == old(self).plus(*other),
    {
        self.x = self.x.add(other.x);
        self.y = self.y.add(other.y);
        self.z = self.z.add(other.z);
    }
}

/// `a - b` is the component-wise difference.
impl<T: VertexFormat> core::ops::Sub for Vec3<T> {
    type Output = Vec3<T>;

    fn sub(self, other: Vec3<T>) -> (r: Vec3<T>) {
        Vec3 { x: self.x.sub(other.x), y: self.y.sub(other.y), z: self.z.sub(other.z) }
    }
}

impl<T: VertexFormat> vstd::std_specs::ops::SubSpecImpl for Vec3<T> {
    open spec fn obeys_sub_spec() -> bool {
        true
    }

    open spec fn sub_req(self, other: Vec3<T>) -> bool {
        true
    }

    open spec fn sub_spec(self, other: Vec3<T>) -> Vec3<T> {
        self.minus(other)
    }
}

} // verus!
