use vstd::prelude::*;
use crate::common::color::Color;
use crate::common::error::GeometryError;
use crate::common::ray::Spacial;
use crate::common::scalar::VertexFormat;
use crate::common::vector::Vec3;

verus! {

/// A source of light: it has a colour and, seen from a point, a direction.
pub trait LightSource<T: VertexFormat>: Spacial<T> {
    /// The channels of the light's colour.
    spec fn tint(&self) -> Vec3<T>;

    /// The unit vector from `point` towards the light.
    spec fn incidence(&self, point: Vec3<T>) -> Result<Vec3<T>, GeometryError>;

    /// Whether the light lies beyond every body, so that any body on the way
    /// to it casts a shadow.
    spec fn is_distant(&self) -> bool;

    /// Gives the light another colour; where it is and how it shines stay.
    fn set_color(&mut self, color: Color<T>)
        ensures
            final(self).tint() == color@,
            final(self).position() == old(self).position(),
            final(self).is_distant() == old(self).is_distant(),
            forall|point: Vec3<T>| #[trigger] final(self).incidence(point) == old(self).incidence(point),
    ;

    fn color(&self) -> (r: &Color<T>)
        ensures
            r@ == self.tint(),
    ;

    /// The unit vector that points from `point` towards the light. It fails
    /// where the light has no direction from there.
    fn light_vector(&self, point: &Vec3<T>) -> (r: Result<Vec3<T>, GeometryError>)
        ensures
            r == self.incidence(*point),
    ;
}

/// A light at a fixed place that shines in all directions.
#[derive(Debug, Clone, Copy)]
pub struct PointLight<T: VertexFormat> {
    color: Color<T>,
    position: Vec3<T>,
}

impl<T: VertexFormat> PointLight<T> {
    pub fn new(color: Color<T>, position: Vec3<T>) -> (r: Self)
        ensures
            r.tint() == color@,
            r.position() == position,
    {
        PointLight { color, position }
    }

    /// Moves the light; its colour stays.
    pub fn set_position(&mut self, position: Vec3<T>)
        ensures
            final(self).position() == position,
            final(self).tint() == old(self).tint(),
    {
        self.position = position;
    }
}

impl<T: VertexFormat> Spacial<T> for PointLight<T> {
    closed spec fn position(&self) -> Vec3<T> {
        self.position
    }

    fn location(&self) -> (r: &Vec3<T>) {
        &self.position
    }
}

impl<T: VertexFormat> LightSource<T> for PointLight<T> {
    closed spec fn tint(&self) -> Vec3<T> {
        self.color@
    }

    open spec fn incidence(&self, point: Vec3<T>) -> Result<Vec3<T>, GeometryError> {
        self.position().minus(point).normalized()
    }

    open spec fn is_distant(&self) -> bool {
        false
    }

    fn set_color(&mut self, color: Color<T>) {
        self.color = color;
    }

    fn color(&self) -> (r: &Color<T>) {
        &self.color
    }

    fn light_vector(&self, point: &Vec3<T>) -> (r: Result<Vec3<T>, GeometryError>) {
        self.position.sub(point).normalize()
    }
}

/// A light infinitely far away: from every point it lies in the same
/// direction.
#[derive(Debug, Clone, Copy)]
pub struct DirectionalLight<T: VertexFormat> {
    color: Color<T>,
    position: Vec3<T>,
    light_direction: Vec3<T>,
}

impl<T: VertexFormat> DirectionalLight<T> {
    /// The unit vector towards the light.
    pub closed spec fn direction(&self) -> Vec3<T> {
        self.light_direction
    }

    /// A light in the direction `light_direction`, which is brought to unit
    /// length; a direction without length is refused.
    pub fn new(color: Color<T>, light_direction: Vec3<T>) -> (r: Result<DirectionalLight<T>, GeometryError>)
        ensures
            match r {
                Ok(light) => {
                    &&& light_direction.normalized() == Ok::<Vec3<T>, GeometryError>(light.direction())
                    &&& light.tint() == color@
                    &&& light.position() == (Vec3 {
                        x: T::unbounded(),
                        y: T::unbounded(),
                        z: T::unbounded(),
                    })
                },
                Err(e) => light_direction.normalized() == Err::<Vec3<T>, GeometryError>(e),
            },
    {
        match light_direction.normalize() {
            Ok(unit) => Ok(
                DirectionalLight {
                    color,
                    position: Vec3::new(T::infinity(), T::infinity(), T::infinity()),
                    light_direction: unit,
                },
            ),
            Err(e) => Err(e),
        }
    }
}

impl<T: VertexFormat> Spacial<T> for DirectionalLight<T> {
    closed spec fn position(&self) -> Vec3<T> {
        self.position
    }

    fn location(&self) -> (r: &Vec3<T>) {
        &self.position
    }
}

impl<T: VertexFormat> LightSource<T> for DirectionalLight<T> {
    closed spec fn tint(&self) -> Vec3<T> {
        self.color@
    }

    open spec fn incidence(&self, point: Vec3<T>) -> Result<Vec3<T>, GeometryError> {
        Ok(self.direction())
    }

    open spec fn is_distant(&self) -> bool {
        true
    }

    fn set_color(&mut self, color: Color<T>) {
        self.color = color;
    }

    fn color(&self) -> (r: &Color<T>) {
        &self.color
    }

    fn light_vector(&self, point: &Vec3<T>) -> (r: Result<Vec3<T>, GeometryError>) {
        Ok(self.light_direction)
    }
}

/// The lights a scene can hold.
#[derive(Debug, Clone, Copy)]
pub enum Light<T: VertexFormat> {
    Point(PointLight<T>),
    Directional(DirectionalLight<T>),
}

impl<T: VertexFormat> Spacial<T> for Light<T> {
    open spec fn position(&self) -> Vec3<T> {
        match self {
            Light::Point(light) => light.position(),
            Light::Directional(light) => light.position(),
        }
    }

    fn location(&self) -> (r: &Vec3<T>) {
        match self {
            Light::Point(light) => light.location(),
            Light::Directional(light) => light.location(),
        }
    }
}

impl<T: VertexFormat> LightSource<T> for Light<T> {
    open spec fn tint(&self) -> Vec3<T> {
        match self {
            Light::Point(light) => light.tint(),
            Light::Directional(light) => light.tint(),
        }
    }

    open spec fn incidence(&self, point: Vec3<T>) -> Result<Vec3<T>, GeometryError> {
        match self {
            Light::Point(light) => light.incidence(point),
            Light::Directional(light) => light.incidence(point),
        }
    }

    open spec fn is_distant(&self) -> bool {
        match self {
            Light::Point(light) => light.is_distant(),
            Light::Directional(light) => light.is_distant(),
        }
    }

    fn set_color(&mut self, color: Color<T>) {
        match self {
            Light::Point(light) => light.set_color(color),
            Light::Directional(light) => light.set_color(color),
        }
    }

    fn color(&self) -> (r: &Color<T>) {
        match self {
            Light::Point(light) => light.color(),
            Light::Directional(light) => light.color(),
        }
    }

    fn light_vector(&self, point: &Vec3<T>) -> (r: Result<Vec3<T>, GeometryError>) {
        match self {
            Light::Point(light) => light.light_vector(point),
            Light::Directional(light) => light.light_vector(point),
        }
    }
}

} // verus!
