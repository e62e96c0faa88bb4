use vstd::prelude::*;
use crate::common::color::Color;
use crate::common::error::GeometryError;
use crate::common::ray::Intersection;
use crate::common::scalar::{greater, max, zero, VertexFormat};
use crate::common::vector::Vec3;
use crate::scene::light::{Light, LightSource};

verus! {

/// The direction in which a surface with unit normal `normal` mirrors light
/// that comes from the direction `towards_light`.
pub open spec fn mirrored<T: VertexFormat>(normal: Vec3<T>, towards_light: Vec3<T>) -> Vec3<T> {
    normal.scaled(T::of_u32(2)).scaled(normal.dot_of(towards_light)).minus(towards_light)
}

/// How a surface answers to light: the coefficients and colours of the Phong
/// model, and how much the surface mirrors.
#[derive(Debug, Clone, Copy)]
pub struct Material<T: VertexFormat> {
    diffuse_coefficient: T,
    diffuse_color: Color<T>,
    ambient_coefficient: T,
    ambient_color: Color<T>,
    specular_coefficient: T,
    phong_exponent: T,
    specular_color: Color<T>,
    reflective_coefficient: T,
}

impl<T: VertexFormat> Material<T> {
    pub closed spec fn diffuse_coefficient(&self) -> T {
        self.diffuse_coefficient
    }

    pub closed spec fn diffuse_color(&self) -> Vec3<T> {
        self.diffuse_color@
    }

    pub closed spec fn ambient_coefficient(&self) -> T {
        self.ambient_coefficient
    }

    pub closed spec fn ambient_color(&self) -> Vec3<T> {
        self.ambient_color@
    }

    pub closed spec fn specular_coefficient(&self) -> T {
        self.specular_coefficient
    }

    pub closed spec fn phong_exponent(&self) -> T {
        self.phong_exponent
    }

    pub closed spec fn specular_color(&self) -> Vec3<T> {
        self.specular_color@
    }

    pub closed spec fn reflectance(&self) -> T {
        self.reflective_coefficient
    }

    /// Whether the material mirrors at all.
    pub open spec fn mirrors(&self) -> bool {
        zero::<T>().below(self.reflectance())
    }

    /// The light the surface gives off under the ambient light alone.
    pub open spec fn ambient_term(&self) -> Vec3<T> {
        self.ambient_color().hadamard(self.diffuse_color()).scaled(self.ambient_coefficient())
    }

    /// The diffuse answer at `hit` to light of colour `tint` that comes from
    /// the direction `towards_light`.
    pub open spec fn diffuse_towards(&self, hit: Intersection<T>, tint: Vec3<T>, towards_light: Vec3<T>) -> Vec3<T> {
        tint.hadamard(self.diffuse_color()).scaled(self.diffuse_coefficient()).scaled(
            greater(zero::<T>(), hit.normal.dot_of(towards_light)),
        )
    }

    /// The highlight at `hit`, seen along the unit vector `towards_eye`, of
    /// light of colour `tint` that comes from the direction `towards_light`.
    pub open spec fn specular_towards(
        &self,
        hit: Intersection<T>,
        tint: Vec3<T>,
        towards_light: Vec3<T>,
        towards_eye: Vec3<T>,
    ) -> Vec3<T> {
        self.specular_color().hadamard(tint).scaled(self.specular_coefficient()).scaled(
            greater(zero::<T>(), towards_eye.dot_of(mirrored(hit.normal, towards_light))).power(
                self.phong_exponent(),
            ),
        )
    }

    /// The diffuse answer at `hit` to one light.
    pub open spec fn diffuse_term<L: LightSource<T>>(&self, hit: Intersection<T>, light: L) -> Result<
        Vec3<T>,
        GeometryError,
    > {
        match light.incidence(hit.point) {
            Ok(towards_light) => Ok(self.diffuse_towards(hit, light.tint(), towards_light)),
            Err(e) => Err(e),
        }
    }

    /// The highlight at `hit` of one light, seen from `viewpoint`.
    pub open spec fn specular_term<L: LightSource<T>>(
        &self,
        hit: Intersection<T>,
        light: L,
        viewpoint: Vec3<T>,
    ) -> Result<Vec3<T>, GeometryError> {
        match light.incidence(hit.point) {
            Ok(towards_light) => match viewpoint.minus(hit.point).normalized() {
                Ok(towards_eye) => Ok(
                    self.specular_towards(hit, light.tint(), towards_light, towards_eye),
                ),
                Err(e) => Err(e),
            },
            Err(e) => Err(e),
        }
    }

    /// The ambient term and, on top of it, the diffuse and specular terms of
    /// each of `lights` in turn, not yet clamped. The first term that cannot
    /// be computed decides the error.
    pub open spec fn shade(&self, hit: Intersection<T>, lights: Seq<Light<T>>, viewpoint: Vec3<T>) -> Result<
        Vec3<T>,
        GeometryError,
    >
        decreases lights.len(),
    {
        if lights.len() == 0 {
            Ok(self.ambient_term())
        } else {
            match self.shade(hit, lights.drop_last(), viewpoint) {
                Ok(sum) => match self.diffuse_term(hit, lights.last()) {
                    Ok(diffuse) => match self.specular_term(hit, lights.last(), viewpoint) {
                        Ok(specular) => Ok(sum.plus(diffuse).plus(specular)),
                        Err(e) => Err(e),
                    },
                    Err(e) => Err(e),
                },
                Err(e) => Err(e),
            }
        }
    }

    pub fn new(
        diffuse_coefficient: T,
        diffuse_color: Color<T>,
        specular_coefficient: T,
        specular_color: Color<T>,
        phong_exponent: T,
        ambient_coefficient: T,
        ambient_color: Color<T>,
        reflective_coefficient: T,
    ) -> (r: Self)
        ensures
            r.diffuse_coefficient() == diffuse_coefficient,
            r.diffuse_color() == diffuse_color@,
            r.specular_coefficient() == specular_coefficient,
            r.specular_color() == specular_color@,
            r.phong_exponent() == phong_exponent,
            r.ambient_coefficient() == ambient_coefficient,
            r.ambient_color() == ambient_color@,
            r.reflectance() == reflective_coefficient,
    {
        Material {
            diffuse_coefficient,
            diffuse_color,
            ambient_coefficient,
            ambient_color,
            specular_coefficient,
            phong_exponent,
            specular_color,
            reflective_coefficient,
        }
    }

    /// The ambient term: the ambient colour times the diffuse colour, channel
    /// by channel, times the ambient coefficient.
    pub fn ambient(&self) -> (r: Vec3<T>)
        ensures
            r == self.ambient_term(),
    {
        self.ambient_color.color_vector().scalar_mul(self.diffuse_color.color_vector()).mul(
            self.ambient_coefficient,
        )
    }

    /// The diffuse term of one light: the light's colour times the diffuse
    /// colour, times the diffuse coefficient, times the cosine of the angle
    /// between the normal and the direction of the light, or zero where the
    /// light stands behind the surface.
    pub fn diffuse<L: LightSource<T>>(&self, intersection: &Intersection<T>, light_source: &L) -> (r: Result<
        Vec3<T>,
        GeometryError,
    >)
        ensures
            r == self.diffuse_term(*intersection, *light_source),
    {
        // unit vector from the intersection point to the light source
        match light_source.light_vector(&intersection.point) {
            Ok(l) => {
                let angle = max(T::from_u32(0), intersection.normal.dot(&l));
                Ok(
                    light_source.color().color_vector().scalar_mul(
                        self.diffuse_color.color_vector(),
                    ).mul(self.diffuse_coefficient).mul(angle),
                )
            },
            Err(e) => Err(e),
        }
    }

    /// The specular term of one light: the specular colour times the light's
    /// colour, times the specular coefficient, times the cosine of the angle
    /// between the mirrored light and the direction of the viewer, raised to
    /// the Phong exponent.
    pub fn specular<L: LightSource<T>>(
        &self,
        intersection: &Intersection<T>,
        light_source: &L,
        viewpoint: &Vec3<T>,
    ) -> (r: Result<Vec3<T>, GeometryError>)
        ensures
            r == self.specular_term(*intersection, *light_source, *viewpoint),
    {
        match light_source.light_vector(&intersection.point) {
            Ok(l) => {
                let r = intersection.normal.mul(T::from_u32(2)).mul(intersection.normal.dot(&l)).sub(
                    &l,
                );
                match viewpoint.sub(&intersection.point).normalize() {
                    Ok(v) => Ok(
                        self.specular_color.color_vector().scalar_mul(
                            light_source.color().color_vector(),
                        ).mul(self.specular_coefficient).mul(
                            max(T::from_u32(0), v.dot(&r)).powf(self.phong_exponent),
                        ),
                    ),
                    Err(e) => Err(e),
                }
            },
            Err(e) => Err(e),
        }
    }

    pub fn is_reflective(&self) -> (r: bool)
        ensures
            r == self.mirrors(),
    {
        T::from_u32(0).lt(self.reflective_coefficient)
    }

    pub fn reflective_coefficient(&self) -> (r: &T)
        ensures
            *r == self.reflectance(),
    {
        &self.reflective_coefficient
    }
}

} // verus!
