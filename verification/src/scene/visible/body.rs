use vstd::prelude::*;
use crate::common::color::{clamped, Color};
use crate::common::error::GeometryError;
use crate::common::ray::{Intersection, Ray, Spacial};
use crate::common::scalar::VertexFormat;
use crate::common::vector::Vec3;
use crate::scene::light::Light;
use crate::scene::visible::material::Material;
use crate::scene::visible::mesh::Triangle;
use crate::scene::visible::sphere::Sphere;

verus! {

/// Something a ray can meet.
pub trait Intersectable<T: VertexFormat>: Spacial<T> {
    /// The nearest point in front of the ray's origin where the ray meets the
    /// surface, if there is one.
    spec fn hit(&self, ray: Ray<T>) -> Option<Intersection<T>>;

    fn intersect(&self, ray: &Ray<T>) -> (r: Option<Intersection<T>>)
        ensures
            r == self.hit(*ray),
    ;
}

/// Something a ray can meet and that answers to light.
pub trait Visible<T: VertexFormat>: Intersectable<T> {
    /// The channels of the colour at `hit` under `lights`, seen from
    /// `viewpoint`.
    spec fn lighting(&self, hit: Intersection<T>, lights: Seq<Light<T>>, viewpoint: Vec3<T>) -> Result<
        Vec3<T>,
        GeometryError,
    >;

    /// The share of the mirrored colour in what is seen.
    spec fn reflectance(&self) -> T;

    /// Whether the surface mirrors at all.
    spec fn mirrors(&self) -> bool;

    /// The colour of the surface at `intersection`, lit by `lights` and seen
    /// from `viewpoint`.
    fn calculate_lighting(
        &self,
        intersection: &Intersection<T>,
        lights: &Vec<Light<T>>,
        viewpoint: &Vec3<T>,
    ) -> (r: Result<Color<T>, GeometryError>)
        ensures
            match r {
                Ok(color) => self.lighting(*intersection, lights@, *viewpoint) == Ok::<
                    Vec3<T>,
                    GeometryError,
                >(color@),
                Err(e) => self.lighting(*intersection, lights@, *viewpoint) == Err::<
                    Vec3<T>,
                    GeometryError,
                >(e),
            },
    ;

    fn reflection_coefficient(&self) -> (r: T)
        ensures
            r == self.reflectance(),
    ;

    fn is_reflective(&self) -> (r: bool)
        ensures
            r == self.mirrors(),
    ;
}

/// The shapes a body can have.
#[derive(Debug, Clone, Copy)]
pub enum Shape<T: VertexFormat> {
    Sphere(Sphere<T>),
    Triangle(Triangle<T>),
}

impl<T: VertexFormat> Spacial<T> for Shape<T> {
    open spec fn position(&self) -> Vec3<T> {
        match self {
            Shape::Sphere(sphere) => sphere.position(),
            Shape::Triangle(triangle) => triangle.position(),
        }
    }

    fn location(&self) -> (r: &Vec3<T>) {
        match self {
            Shape::Sphere(sphere) => sphere.location(),
            Shape::Triangle(triangle) => triangle.location(),
        }
    }
}

impl<T: VertexFormat> Intersectable<T> for Shape<T> {
    open spec fn hit(&self, ray: Ray<T>) -> Option<Intersection<T>> {
        match self {
            Shape::Sphere(sphere) => sphere.hit(ray),
            Shape::Triangle(triangle) => triangle.hit(ray),
        }
    }

    fn intersect(&self, ray: &Ray<T>) -> (r: Option<Intersection<T>>) {
        match self {
            Shape::Sphere(sphere) => sphere.intersect(ray),
            Shape::Triangle(triangle) => triangle.intersect(ray),
        }
    }
}

/// One shape and the material it is made of: what a scene is filled with.
#[derive(Debug, Clone, Copy)]
pub struct Body<T: VertexFormat> {
    shape: Shape<T>,
    material: Material<T>,
}

impl<T: VertexFormat> Body<T> {
    pub closed spec fn shape(&self) -> Shape<T> {
        self.shape
    }

    pub closed spec fn material(&self) -> Material<T> {
        self.material
    }

    pub fn new(shape: Shape<T>, material: Material<T>) -> (r: Body<T>)
        ensures
            r.shape() == shape,
            r.material() == material,
    {
        Body { shape, material }
    }
}

impl<T: VertexFormat> Spacial<T> for Body<T> {
    open spec fn position(&self) -> Vec3<T> {
        self.shape().position()
    }

    fn location(&self) -> (r: &Vec3<T>) {
        self.shape.location()
    }
}

impl<T: VertexFormat> Intersectable<T> for Body<T> {
    open spec fn hit(&self, ray: Ray<T>) -> Option<Intersection<T>> {
        self.shape().hit(ray)
    }

    fn intersect(&self, ray: &Ray<T>) -> (r: Option<Intersection<T>>) {
        self.shape.intersect(ray)
    }
}

/// An error among the terms of the first lights is the error of the whole
/// sum: more lights never mend it.
pub proof fn lemma_shade_error_persists<T: VertexFormat>(
    material: Material<T>,
    hit: Intersection<T>,
    lights: Seq<Light<T>>,
    viewpoint: Vec3<T>,
    n: int,
)
    requires
        0 <= n <= lights.len(),
        material.shade(hit, lights.take(n), viewpoint) is Err,
    ensures
        material.shade(hit, lights, viewpoint) == material.shade(hit, lights.take(n), viewpoint),
    decreases lights.len() - n,
{
    if n == lights.len() {
        assert(lights.take(n) =~= lights);
    } else {
        assert(lights.take(n + 1).drop_last() =~= lights.take(n));
        lemma_shade_error_persists(material, hit, lights, viewpoint, n + 1);
    }
}

impl<T: VertexFormat> Visible<T> for Body<T> {
    /// The ambient term and the terms of every light, summed and then
    /// clamped.
    open spec fn lighting(&self, hit: Intersection<T>, lights: Seq<Light<T>>, viewpoint: Vec3<T>) -> Result<
        Vec3<T>,
        GeometryError,
    > {
        match self.material().shade(hit, lights, viewpoint) {
            Ok(sum) => Ok(clamped(sum)),
            Err(e) => Err(e),
        }
    }

    open spec fn reflectance(&self) -> T {
        self.material().reflectance()
    }

    open spec fn mirrors(&self) -> bool {
        self.material().mirrors()
    }

    fn calculate_lighting(
        &self,
        intersection: &Intersection<T>,
        lights: &Vec<Light<T>>,
        viewpoint: &Vec3<T>,
    ) -> (r: Result<Color<T>, GeometryError>) {
        let mut color = self.material.ambient();
        let mut i: usize = 0;
        assert(lights@.take(0) =~= Seq::<Light<T>>::empty());
        while i < lights.len()
            invariant
                0 <= i <= lights.len(),
                self.material().shade(*intersection, lights@.take(i as int), *viewpoint) == Ok::<
                    Vec3<T>,
                    GeometryError,
                >(color),
            decreases lights.len() - i,
        {
            proof {
                assert(lights@.take(i + 1).drop_last() =~= lights@.take(i as int));
                assert(lights@.take(i + 1).last() == lights@[i as int]);
            }
            let light = &lights[i];
            match self.material.diffuse(intersection, light) {
                Ok(diffuse) => match self.material.specular(intersection, light, viewpoint) {
                    Ok(specular) => {
                        color.mut_add(&diffuse);
                        color.mut_add(&specular);
                    },
                    Err(e) => {
                        proof {
                            lemma_shade_error_persists(
                                self.material(),
                                *intersection,
                                lights@,
                                *viewpoint,
                                i + 1,
                            );
                        }
                        return Err(e);
                    },
                },
                Err(e) => {
                    proof {
                        lemma_shade_error_persists(
                            self.material(),
                            *intersection,
                            lights@,
                            *viewpoint,
                            i + 1,
                        );
                    }
                    return Err(e);
                },
            }
            i = i + 1;
        }
        assert(lights@.take(i as int) =~= lights@);
        Ok(Color::clipped(color))
    }

    fn reflection_coefficient(&self) -> (r: T) {
        *self.material.reflective_coefficient()
    }

    fn is_reflective(&self) -> (r: bool) {
        self.material.is_reflective()
    }
}

} // verus!
