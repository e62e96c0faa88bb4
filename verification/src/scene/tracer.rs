use vstd::prelude::*;
use crate::common::color::{clamped, Color};
use crate::common::error::GeometryError;
use crate::common::ray::{Intersection, Ray, Spacial};
use crate::common::scalar::{one, VertexFormat};
use crate::common::vector::Vec3;
use crate::image::Image;
use crate::scene::camera::Camera;
use crate::scene::light::{Light, LightSource};
use crate::scene::visible::body::{Body, Intersectable, Visible};

verus! {

/// How many times a ray is followed from mirror to mirror before the last
/// mirror is taken for a plain surface.
pub const MAX_REFLECTIONS: u32 = 5;

/// The mirror image of the direction `direction` at a surface with unit
/// normal `normal`, before it is brought to unit length.
pub open spec fn bounced<T: VertexFormat>(direction: Vec3<T>, normal: Vec3<T>) -> Vec3<T> {
    direction.minus(normal.scaled(T::of_u32(2)).scaled(direction.dot_of(normal)))
}

/// The ray that leaves `hit` as the mirror image of `ray`.
pub open spec fn reflected<T: VertexFormat>(hit: Intersection<T>, ray: Ray<T>) -> Result<
    Ray<T>,
    GeometryError,
> {
    match bounced(ray.direction, hit.normal).normalized() {
        Ok(direction) => Ray::towards(hit.point, direction),
        Err(e) => Err(e),
    }
}

/// The colour `local` of a surface and the colour `mirrored` that it
/// reflects, mixed in the proportion that the reflective coefficient `k`
/// gives: each share is clamped, and so is their sum.
pub open spec fn blend<T: VertexFormat>(local: Vec3<T>, mirrored: Vec3<T>, k: T) -> Vec3<T> {
    clamped(clamped(local.scaled(one::<T>().diff(k))).plus(clamped(mirrored.scaled(k))))
}

/// A camera, the bodies it sees, the lights that shine on them, and the
/// colours of the ambient light and of the background.
pub struct Scene<T: VertexFormat> {
    camera: Camera<T>,
    visibles: Vec<Body<T>>,
    ambient_color: Color<T>,
    background_color: Color<T>,
    lights: Vec<Light<T>>,
}

impl<T: VertexFormat> Scene<T> {
    pub closed spec fn camera(&self) -> Camera<T> {
        self.camera
    }

    /// The bodies, in the order in which they were added.
    pub closed spec fn bodies(&self) -> Seq<Body<T>> {
        self.visibles@
    }

    /// The lights, in the order in which they were added.
    pub closed spec fn lights(&self) -> Seq<Light<T>> {
        self.lights@
    }

    /// The channels of the ambient colour.
    pub closed spec fn ambient(&self) -> Vec3<T> {
        self.ambient_color@
    }

    /// The channels of the background colour.
    pub closed spec fn background(&self) -> Vec3<T> {
        self.background_color@
    }

    /// The squared distance from the camera to `point`.
    pub open spec fn remoteness(&self, point: Vec3<T>) -> T {
        point.minus(self.camera().position()).norm_sq()
    }

    /// The state of the search for the nearest hit after the first `n`
    /// bodies: the smallest squared distance from the camera so far, and the
    /// hit that has it, shifted off its surface, with the index of its body.
    /// The search starts above every distance, and a later hit replaces an
    /// earlier one only where it lies below it.
    pub open spec fn search(&self, ray: Ray<T>, n: nat) -> (T, Option<(Intersection<T>, int)>)
        decreases n,
    {
        if n == 0 {
            (T::unbounded(), None)
        } else {
            let before = self.search(ray, (n - 1) as nat);
            match self.bodies()[n - 1].hit(ray) {
                Some(hit) => if self.remoteness(hit.point).below(before.0) {
                    (self.remoteness(hit.point), Some((hit.shifted(), n - 1)))
                } else {
                    before
                },
                None => before,
            }
        }
    }

    /// The hit of `ray` nearest to the camera, shifted off its surface, and
    /// the index of the body it lies on.
    pub open spec fn nearest(&self, ray: Ray<T>) -> Option<(Intersection<T>, int)> {
        self.search(ray, self.bodies().len()).1
    }

    /// Whether `light` reaches `hit`: no body stands in the way to a light
    /// infinitely far away, and none stands nearer than the light in the way
    /// to another.
    pub open spec fn sees(&self, hit: Intersection<T>, light: Light<T>) -> Result<bool, GeometryError> {
        match light.incidence(hit.point) {
            Ok(towards_light) => match Ray::towards(hit.point, towards_light) {
                Ok(shadow_ray) => match self.nearest(shadow_ray) {
                    Some((occluder, _)) => Ok(
                        !light.is_distant() && !occluder.point.minus(hit.point).norm_sq().below(
                            light.position().minus(hit.point).norm_sq(),
                        ),
                    ),
                    None => Ok(true),
                },
                Err(e) => Err(e),
            },
            Err(e) => Err(e),
        }
    }

    /// Those of the first `n` lights that reach `hit`, in their order. The
    /// first light whose direction cannot be found decides the error.
    pub open spec fn visible_among(&self, hit: Intersection<T>, n: nat) -> Result<
        Seq<Light<T>>,
        GeometryError,
    >
        decreases n,
    {
        if n == 0 {
            Ok(Seq::empty())
        } else {
            match self.visible_among(hit, (n - 1) as nat) {
                Ok(found) => match self.sees(hit, self.lights()[n - 1]) {
                    Ok(reached) => if reached {
                        Ok(found.push(self.lights()[n - 1]))
                    } else {
                        Ok(found)
                    },
                    Err(e) => Err(e),
                },
                Err(e) => Err(e),
            }
        }
    }

    /// The lights that reach `hit`.
    pub open spec fn visible_from(&self, hit: Intersection<T>) -> Result<Seq<Light<T>>, GeometryError> {
        self.visible_among(hit, self.lights().len())
    }

    /// The colour of the body with index `k` at `hit` under the lights that
    /// reach it, without what it mirrors.
    pub open spec fn local_color(&self, hit: Intersection<T>, k: int) -> Result<Vec3<T>, GeometryError> {
        match self.visible_from(hit) {
            Ok(lights) => self.bodies()[k].lighting(hit, lights, self.camera().position()),
            Err(e) => Err(e),
        }
    }

    /// The colour that `ray` brings back, with at most `depth` reflections
    /// followed: the background where the ray meets nothing; else the colour
    /// of the nearest hit, mixed, where the body mirrors and `depth` is not
    /// used up, with the colour that the reflected ray brings back.
    pub open spec fn trace(&self, ray: Ray<T>, depth: nat) -> Result<Vec3<T>, GeometryError>
        decreases depth,
    {
        match self.nearest(ray) {
            Some((hit, k)) => match self.local_color(hit, k) {
                Ok(local) => if self.bodies()[k].mirrors() && depth > 0 {
                    match reflected(hit, ray) {
                        Ok(onward) => match self.trace(onward, (depth - 1) as nat) {
                            Ok(mirrored) => Ok(blend(local, mirrored, self.bodies()[k].reflectance())),
                            Err(e) => Err(e),
                        },
                        Err(e) => Err(e),
                    }
                } else {
                    Ok(local)
                },
                Err(e) => Err(e),
            },
            None => Ok(self.background()),
        }
    }

    /// An empty scene.
    pub fn new(camera: Camera<T>, ambient_color: Color<T>, background_color: Color<T>) -> (r: Scene<T>)
        ensures
            r.camera() == camera,
            r.ambient() == ambient_color@,
            r.background() == background_color@,
            r.bodies() == Seq::<Body<T>>::empty(),
            r.lights() == Seq::<Light<T>>::empty(),
    {
        Scene {
            camera,
            visibles: Vec::new(),
            ambient_color,
            background_color,
            lights: Vec::new(),
        }
    }

    /// Adds a body behind those that are there.
    pub fn add_visible(&mut self, visible: Body<T>)
        ensures
            final(self).bodies() == old(self).bodies().push(visible),
            final(self).lights() == old(self).lights(),
            final(self).camera() == old(self).camera(),
            final(self).ambient() == old(self).ambient(),
            final(self).background() == old(self).background(),
    {
        self.visibles.push(visible);
    }

    /// Adds a light behind those that are there.
    pub fn add_light(&mut self, light: Light<T>)
        ensures
            final(self).lights() == old(self).lights().push(light),
            final(self).bodies() == old(self).bodies(),
            final(self).camera() == old(self).camera(),
            final(self).ambient() == old(self).ambient(),
            final(self).background() == old(self).background(),
    {
        self.lights.push(light);
    }

    pub fn set_ambient_color(&mut self, color: Color<T>)
        ensures
            final(self).ambient() == color@,
            final(self).bodies() == old(self).bodies(),
            final(self).lights() == old(self).lights(),
            final(self).camera() == old(self).camera(),
            final(self).background() == old(self).background(),
    {
        self.ambient_color = color;
    }

    /// The ray that leaves `intersection` as the mirror image of `ray`. It
    /// starts at the point of the intersection, not where `ray` started.
    pub fn calculate_reflection(intersection: &Intersection<T>, ray: &Ray<T>) -> (r: Result<
        Ray<T>,
        GeometryError,
    >)
        ensures
            r == reflected(*intersection, *ray),
    {
        let along_normal = intersection.normal.mul(T::from_u32(2)).mul(
            ray.direction.dot(&intersection.normal),
        );
        match ray.direction.sub(&along_normal).normalize() {
            Ok(reflection) => Ray::new(intersection.point, reflection),
            Err(e) => Err(e),
        }
    }

    /// Meets `ray` with every body of the scene and returns the hit nearest
    /// to the camera, shifted off its surface, with the index of its body.
    pub fn intersect(&self, ray: &Ray<T>) -> (r: Option<(Intersection<T>, usize)>)
        ensures
            match r {
                Some((hit, k)) => k < self.bodies().len() && self.nearest(*ray) == Some(
                    (hit, k as int),
                ),
                None => self.nearest(*ray) is None,
            },
    {
        let mut dist = T::infinity();
        let mut nearest: Option<(Intersection<T>, usize)> = None;
        let mut i: usize = 0;
        while i < self.visibles.len()
            invariant
                0 <= i <= self.visibles.len(),
                self.search(*ray, i as nat).0 == dist,
                match nearest {
                    Some((hit, k)) => k < i && self.search(*ray, i as nat).1 == Some((hit, k as int)),
                    None => self.search(*ray, i as nat).1 is None,
                },
            decreases self.visibles.len() - i,
        {
            if let Some(mut hit) = self.visibles[i].intersect(ray) {
                let distance = hit.point.sub(self.camera.location()).mag_sqrd();
                if distance.lt(dist) {
                    dist = distance;
                    hit.epsilon_shift();
                    nearest = Some((hit, i));
                }
            }
            i = i + 1;
        }
        nearest
    }
}

/// An error at one of the first lights is the error of the whole search:
/// more lights never mend it.
pub proof fn lemma_visible_error_persists<T: VertexFormat>(
    scene: Scene<T>,
    hit: Intersection<T>,
    n: nat,
    m: nat,
)
    requires
        n <= m,
        scene.visible_among(hit, n) is Err,
    ensures
        scene.visible_among(hit, m) == scene.visible_among(hit, n),
    decreases m - n,
{
    if n < m {
        lemma_visible_error_persists(scene, hit, n, (m - 1) as nat);
    }
}

impl<T: VertexFormat> Scene<T> {
    /// The lights that reach `intersection`: from its point a ray is sent
    /// towards each light, and the light counts where the ray meets no body
    /// before it meets the light.
    pub fn visible_lights(&self, intersection: &Intersection<T>) -> (r: Result<
        Vec<Light<T>>,
        GeometryError,
    >)
        ensures
            match r {
                Ok(lights) => self.visible_from(*intersection) == Ok::<Seq<Light<T>>, GeometryError>(
                    lights@,
                ),
                Err(e) => self.visible_from(*intersection) == Err::<Seq<Light<T>>, GeometryError>(e),
            },
    {
        let mut lights: Vec<Light<T>> = Vec::new();
        let mut i: usize = 0;
        while i < self.lights.len()
            invariant
                0 <= i <= self.lights.len(),
                self.visible_among(*intersection, i as nat) == Ok::<Seq<Light<T>>, GeometryError>(
                    lights@,
                ),
            decreases self.lights.len() - i,
        {
            let light = self.lights[i];
            let reached = match light.light_vector(&intersection.point) {
                Ok(light_vector) => match Ray::new(intersection.point, light_vector) {
                    Ok(ray) => match self.intersect(&ray) {
                        Some((occluder, _)) => match light {
                            Light::Point(_) => {
                                let dist_to_light = light.location().sub(
                                    &intersection.point,
                                ).mag_sqrd();
                                let dist_to_occluder = occluder.point.sub(
                                    &intersection.point,
                                ).mag_sqrd();
                                Ok(!dist_to_occluder.lt(dist_to_light))
                            },
                            Light::Directional(_) => Ok(false),
                        },
                        None => Ok(true),
                    },
                    Err(e) => Err(e),
                },
                Err(e) => Err(e),
            };
            match reached {
                Ok(reached) => {
                    if reached {
                        lights.push(light);
                    }
                },
                Err(e) => {
                    proof {
                        lemma_visible_error_persists(
                            *self,
                            *intersection,
                            (i + 1) as nat,
                            self.lights().len(),
                        );
                    }
                    return Err(e);
                },
            }
            i = i + 1;
        }
        Ok(lights)
    }

    /// The colour that `ray` brings back. A ray that meets no body brings
    /// back the background colour. Of a mirroring body the reflected ray is
    /// followed, from mirror to mirror at most `depth` times.
    pub fn trace_ray(&self, ray: Ray<T>, depth: u32) -> (r: Result<Color<T>, GeometryError>)
        ensures
            match r {
                Ok(color) => self.trace(ray, depth as nat) == Ok::<Vec3<T>, GeometryError>(color@),
                Err(e) => self.trace(ray, depth as nat) == Err::<Vec3<T>, GeometryError>(e),
            },
        decreases depth,
    {
        match self.intersect(&ray) {
            Some((intersection, k)) => {
                let visible = &self.visibles[k];
                let visible_lights = match self.visible_lights(&intersection) {
                    Ok(lights) => lights,
                    Err(e) => {
                        return Err(e);
                    },
                };
                let mut color = match visible.calculate_lighting(
                    &intersection,
                    &visible_lights,
                    self.camera.location(),
                ) {
                    Ok(color) => color,
                    Err(e) => {
                        return Err(e);
                    },
                };
                if visible.is_reflective() && depth > 0 {
                    let reflection_ray = match Scene::calculate_reflection(&intersection, &ray) {
                        Ok(reflection_ray) => reflection_ray,
                        Err(e) => {
                            return Err(e);
                        },
                    };
                    let mut reflection_color = match self.trace_ray(reflection_ray, depth - 1) {
                        Ok(reflection_color) => reflection_color,
                        Err(e) => {
                            return Err(e);
                        },
                    };
                    // weigh the two colours
                    let weight = visible.reflection_coefficient();
                    reflection_color.clip_mul(weight);
                    color.clip_mul(T::from_u32(1).sub(weight));

                    color.clip_add(&reflection_color);
                }
                Ok(color)
            },
            None => Ok(self.background_color),
        }
    }
}

/// Whether the pixel `i2`, `j2` is rendered before the pixel `i`, `j`:
/// rendering goes column by column, and in each column from the bottom up.
pub open spec fn rendered_before(i2: u32, j2: u32, i: u32, j: u32) -> bool {
    i2 < i || (i2 == i && j2 < j)
}

impl<T: VertexFormat> Scene<T> {
    /// The colour of the pixel in column `i` of row `j`, rows counted from
    /// the bottom: what the camera's ray through the pixel brings back.
    pub open spec fn pixel_color(&self, i: u32, j: u32) -> Result<Vec3<T>, GeometryError> {
        match self.camera().ray_through(T::of_u32(i), T::of_u32(j)) {
            Ok(ray) => self.trace(ray, MAX_REFLECTIONS as nat),
            Err(e) => Err(e),
        }
    }

    /// Renders the scene: a picture of the camera's resolution in which
    /// every pixel has the colour that the camera's ray through it brings
    /// back. Where a pixel's colour cannot be computed, the error of the
    /// first such pixel is returned.
    pub fn render(&self) -> (r: Result<Image<T>, GeometryError>)
        requires
            self.camera().columns() * self.camera().rows() <= usize::MAX,
        ensures
            match r {
                Ok(image) => {
                    &&& image.columns() == self.camera().columns()
                    &&& image.rows() == self.camera().rows()
                    &&& forall|i: u32, j: u32|
                        i < image.columns() && j < image.rows() ==> #[trigger] self.pixel_color(i, j)
                            == Ok::<Vec3<T>, GeometryError>(image.at(i as int, j as int))
                },
                Err(e) => exists|i: u32, j: u32|
                    {
                        &&& i < self.camera().columns()
                        &&& j < self.camera().rows()
                        &&& #[trigger] self.pixel_color(i, j) == Err::<Vec3<T>, GeometryError>(e)
                        &&& forall|i2: u32, j2: u32|
                            i2 < self.camera().columns() && j2 < self.camera().rows()
                                && rendered_before(i2, j2, i, j) ==> (#[trigger] self.pixel_color(
                                i2,
                                j2,
                            )) is Ok
                    },
            },
    {
        let width = self.camera.width();
        let height = self.camera.height();
        let mut image = Image::new(width, height);

        let mut i: u32 = 0;
        while i < width
            invariant
                0 <= i <= width,
                width == self.camera().columns(),
                height == self.camera().rows(),
                image.columns() == width,
                image.rows() == height,
                forall|i2: u32, j2: u32|
                    i2 < i && j2 < height ==> #[trigger] self.pixel_color(i2, j2) == Ok::<
                        Vec3<T>,
                        GeometryError,
                    >(image.at(i2 as int, j2 as int)),
            decreases width - i,
        {
            let mut j: u32 = 0;
            while j < height
                invariant
                    0 <= i < width,
                    0 <= j <= height,
                    width == self.camera().columns(),
                    height == self.camera().rows(),
                    image.columns() == width,
                    image.rows() == height,
                    forall|i2: u32, j2: u32|
                        i2 < width && j2 < height && rendered_before(i2, j2, i, j)
                            ==> #[trigger] self.pixel_color(i2, j2) == Ok::<Vec3<T>, GeometryError>(
                            image.at(i2 as int, j2 as int),
                        ),
                decreases height - j,
            {
                let ray = match self.camera.ray(T::from_u32(i), T::from_u32(j)) {
                    Ok(ray) => ray,
                    Err(e) => {
                        assert(self.pixel_color(i, j) == Err::<Vec3<T>, GeometryError>(e));
                        return Err(e);
                    },
                };
                let pixel = match self.trace_ray(ray, MAX_REFLECTIONS) {
                    Ok(pixel) => pixel,
                    Err(e) => {
                        assert(self.pixel_color(i, j) == Err::<Vec3<T>, GeometryError>(e));
                        return Err(e);
                    },
                };
                image.set_pixel(i, j, pixel);
                j = j + 1;
            }
            i = i + 1;
        }
        Ok(image)
    }
}

} // verus!
