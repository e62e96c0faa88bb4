//! What holds of every scene: laws of the nearest-hit search, of shadows and
//! of reflection, each proved from the definitions of the tracer.

use vstd::prelude::*;
use crate::common::color::{clamped, is_valid_color};
use crate::common::error::GeometryError;
use crate::common::ray::{Intersection, Ray, Spacial};
use crate::common::scalar::{lemma_clamp_in_unit_range, zero, VertexFormat};
use crate::common::vector::Vec3;
use crate::scene::light::Light;
use crate::scene::tracer::{blend, Scene};
use crate::scene::visible::body::{Intersectable, Visible};

verus! {

/// A vector that can be normalized comes out as itself over a scalar above
/// zero: normalizing keeps the direction.
pub proof fn lemma_normalize_keeps_direction<T: VertexFormat>(v: Vec3<T>)
    requires
        v.normalized() is Ok,
    ensures
        exists|d: T| zero::<T>().below(d) && v.normalized() == Ok::<Vec3<T>, GeometryError>(
            #[trigger] v.divided(d),
        ),
{
    assert(v.normalized() == Ok::<Vec3<T>, GeometryError>(v.divided(v.length())));
}

/// What comes out of clamping is a valid colour.
pub proof fn lemma_clamped_is_valid<T: VertexFormat>(v: Vec3<T>)
    ensures
        is_valid_color(clamped(v)),
        is_valid_color(v) ==> clamped(v) == v,
{
    lemma_clamp_in_unit_range(v.x);
    lemma_clamp_in_unit_range(v.y);
    lemma_clamp_in_unit_range(v.z);
}

/// The search for the nearest hit, after any number of bodies, holds a hit of
/// one of them, and no body among them is met nearer to the camera.
pub proof fn lemma_search_finds_a_nearest<T: VertexFormat>(scene: Scene<T>, ray: Ray<T>, n: nat)
    requires
        n <= scene.bodies().len(),
    ensures
        match scene.search(ray, n).1 {
            Some((hit, k)) => {
                &&& 0 <= k < n
                &&& scene.bodies()[k].hit(ray) is Some
                &&& hit == scene.bodies()[k].hit(ray)->0.shifted()
                &&& scene.search(ray, n).0 == scene.remoteness(scene.bodies()[k].hit(ray)->0.point)
            },
            None => scene.search(ray, n).0 == T::unbounded(),
        },
        forall|j: int|
            0 <= j < n && (#[trigger] scene.bodies()[j].hit(ray)) is Some ==> !scene.remoteness(
                scene.bodies()[j].hit(ray)->0.point,
            ).below(scene.search(ray, n).0),
    decreases n,
{
    if n > 0 {
        let before = scene.search(ray, (n - 1) as nat);
        lemma_search_finds_a_nearest(scene, ray, (n - 1) as nat);
        match scene.bodies()[n - 1].hit(ray) {
            Some(hit) => {
                let d = scene.remoteness(hit.point);
                T::below_irreflexive(d);
                if d.below(before.0) {
                    assert forall|j: int|
                        0 <= j < n && (#[trigger] scene.bodies()[j].hit(ray)) is Some implies !scene.remoteness(
                        scene.bodies()[j].hit(ray)->0.point,
                    ).below(d) by {
                        let dj = scene.remoteness(scene.bodies()[j].hit(ray)->0.point);
                        if j < n - 1 && dj.below(d) {
                            T::below_transitive(dj, d, before.0);
                        }
                    }
                }
            },
            None => {},
        }
    }
}

/// The hit that a ray brings back lies on a body of the scene, and no body of
/// the scene is met nearer to the camera.
pub proof fn lemma_nearest_is_nearest<T: VertexFormat>(scene: Scene<T>, ray: Ray<T>)
    ensures
        match scene.nearest(ray) {
            Some((hit, k)) => {
                &&& 0 <= k < scene.bodies().len()
                &&& scene.bodies()[k].hit(ray) is Some
                &&& hit == scene.bodies()[k].hit(ray)->0.shifted()
                &&& forall|j: int|
                    0 <= j < scene.bodies().len() && (#[trigger] scene.bodies()[j].hit(ray)) is Some
                        ==> !scene.remoteness(scene.bodies()[j].hit(ray)->0.point).below(
                        scene.remoteness(scene.bodies()[k].hit(ray)->0.point),
                    )
            },
            None => forall|j: int|
                0 <= j < scene.bodies().len() && (#[trigger] scene.bodies()[j].hit(ray)) is Some
                    ==> !scene.remoteness(scene.bodies()[j].hit(ray)->0.point).below(T::unbounded()),
        },
{
    lemma_search_finds_a_nearest(scene, ray, scene.bodies().len());
}

/// While no body is met, the search holds nothing.
pub proof fn lemma_search_without_hit<T: VertexFormat>(scene: Scene<T>, ray: Ray<T>, n: nat)
    requires
        n <= scene.bodies().len(),
        forall|j: int| 0 <= j < n ==> (#[trigger] scene.bodies()[j].hit(ray)) is None,
    ensures
        scene.search(ray, n) == (T::unbounded(), None::<(Intersection<T>, int)>),
    decreases n,
{
    if n > 0 {
        lemma_search_without_hit(scene, ray, (n - 1) as nat);
    }
}

/// A ray that meets no body brings back the background colour, whatever the
/// lights are and however many reflections may be followed.
pub proof fn lemma_miss_shows_background<T: VertexFormat>(scene: Scene<T>, ray: Ray<T>, depth: nat)
    requires
        forall|j: int|
            0 <= j < scene.bodies().len() ==> (#[trigger] scene.bodies()[j].hit(ray)) is None,
    ensures
        scene.trace(ray, depth) == Ok::<Vec3<T>, GeometryError>(scene.background()),
{
    lemma_search_without_hit(scene, ray, scene.bodies().len());
}

/// A body whose reflective coefficient is zero shows the colour that the
/// lights give it and nothing else: nothing of a reflection is mixed in,
/// however many reflections may be followed.
pub proof fn lemma_dull_body_shows_local_color<T: VertexFormat>(
    scene: Scene<T>,
    ray: Ray<T>,
    depth: nat,
    hit: Intersection<T>,
    k: int,
)
    requires
        scene.nearest(ray) == Some((hit, k)),
        scene.bodies()[k].reflectance() == zero::<T>(),
    ensures
        scene.trace(ray, depth) == scene.local_color(hit, k),
{
    T::below_irreflexive(zero::<T>());
    lemma_nearest_is_nearest(scene, ray);
}

/// With no reflections left to follow, a ray brings back the colour that the
/// lights give to what it meets.
pub proof fn lemma_last_bounce_shows_local_color<T: VertexFormat>(
    scene: Scene<T>,
    ray: Ray<T>,
    hit: Intersection<T>,
    k: int,
)
    requires
        scene.nearest(ray) == Some((hit, k)),
    ensures
        scene.trace(ray, 0) == scene.local_color(hit, k),
{
}

/// The colour of a body that a ray meets is a valid colour: each channel lies
/// between zero and one.
pub proof fn lemma_traced_hit_is_valid_color<T: VertexFormat>(scene: Scene<T>, ray: Ray<T>, depth: nat)
    requires
        scene.nearest(ray) is Some,
        scene.trace(ray, depth) is Ok,
    ensures
        is_valid_color(scene.trace(ray, depth)->Ok_0),
{
    let (hit, k) = scene.nearest(ray)->0;
    lemma_nearest_is_nearest(scene, ray);
    let local = scene.local_color(hit, k);
    assert(local is Ok);
    let lights = scene.visible_from(hit)->Ok_0;
    let sum = scene.bodies()[k].material().shade(hit, lights, scene.camera().position())->Ok_0;
    assert(local->Ok_0 == clamped(sum));
    lemma_clamped_is_valid(sum);
    if scene.bodies()[k].mirrors() && depth > 0 {
        let onward = crate::scene::tracer::reflected(hit, ray)->Ok_0;
        let mirrored = scene.trace(onward, (depth - 1) as nat)->Ok_0;
        let weight = scene.bodies()[k].reflectance();
        lemma_clamped_is_valid(
            clamped(local->Ok_0.scaled(T::of_u32(1).diff(weight))).plus(
                clamped(mirrored.scaled(weight)),
            ),
        );
        assert(scene.trace(ray, depth)->Ok_0 == blend(local->Ok_0, mirrored, weight));
    }
}

/// The search for the nearest hit looks at the bodies and the camera alone.
pub proof fn lemma_search_ignores_lights<T: VertexFormat>(
    scene: Scene<T>,
    other: Scene<T>,
    ray: Ray<T>,
    n: nat,
)
    requires
        other.bodies() == scene.bodies(),
        other.camera() == scene.camera(),
    ensures
        other.search(ray, n) == scene.search(ray, n),
    decreases n,
{
    if n > 0 {
        lemma_search_ignores_lights(scene, other, ray, (n - 1) as nat);
    }
}

/// Whether a light reaches a point is decided by the bodies and the camera,
/// not by the other lights.
pub proof fn lemma_sees_ignores_lights<T: VertexFormat>(
    scene: Scene<T>,
    other: Scene<T>,
    hit: Intersection<T>,
    light: Light<T>,
)
    requires
        other.bodies() == scene.bodies(),
        other.camera() == scene.camera(),
    ensures
        other.sees(hit, light) == scene.sees(hit, light),
{
    assert forall|ray: Ray<T>| other.nearest(ray) == scene.nearest(ray) by {
        lemma_search_ignores_lights(scene, other, ray, scene.bodies().len());
    }
}

/// The lights found among the first `n` of a scene are those found in the
/// scene without its light `i`, where that light does not reach the point.
pub proof fn lemma_visible_without<T: VertexFormat>(
    scene: Scene<T>,
    other: Scene<T>,
    hit: Intersection<T>,
    i: int,
    n: nat,
)
    requires
        other.bodies() == scene.bodies(),
        other.camera() == scene.camera(),
        0 <= i < scene.lights().len(),
        other.lights() == scene.lights().remove(i),
        scene.sees(hit, scene.lights()[i]) == Ok::<bool, GeometryError>(false),
        n <= scene.lights().len(),
    ensures
        n <= i ==> scene.visible_among(hit, n) == other.visible_among(hit, n),
        n > i ==> scene.visible_among(hit, n) == other.visible_among(hit, (n - 1) as nat),
    decreases n,
{
    if n > 0 {
        lemma_visible_without(scene, other, hit, i, (n - 1) as nat);
        if n - 1 < i {
            assert(other.lights()[n - 1] == scene.lights()[n - 1]);
            lemma_sees_ignores_lights(scene, other, hit, scene.lights()[n - 1]);
        } else if n - 1 > i {
            assert(other.lights()[n - 2] == scene.lights()[n - 1]);
            lemma_sees_ignores_lights(scene, other, hit, scene.lights()[n - 1]);
        }
    }
}

/// A light that is hidden from a point by a body gives nothing to the colour
/// there: the colour is that of the same scene without the light.
pub proof fn lemma_occluded_light_adds_nothing<T: VertexFormat>(
    scene: Scene<T>,
    other: Scene<T>,
    hit: Intersection<T>,
    i: int,
    k: int,
)
    requires
        other.bodies() == scene.bodies(),
        other.camera() == scene.camera(),
        0 <= i < scene.lights().len(),
        other.lights() == scene.lights().remove(i),
        scene.sees(hit, scene.lights()[i]) == Ok::<bool, GeometryError>(false),
    ensures
        scene.visible_from(hit) == other.visible_from(hit),
        scene.local_color(hit, k) == other.local_color(hit, k),
{
    lemma_visible_without(scene, other, hit, i, scene.lights().len());
}

/// While no light reaches the point, none is found.
pub proof fn lemma_visible_in_the_dark<T: VertexFormat>(scene: Scene<T>, hit: Intersection<T>, n: nat)
    requires
        n <= scene.lights().len(),
        forall|i: int|
            0 <= i < n ==> scene.sees(hit, #[trigger] scene.lights()[i]) == Ok::<bool, GeometryError>(
                false,
            ),
    ensures
        scene.visible_among(hit, n) == Ok::<Seq<Light<T>>, GeometryError>(Seq::empty()),
    decreases n,
{
    if n > 0 {
        lemma_visible_in_the_dark(scene, hit, (n - 1) as nat);
    }
}

/// Where every light is hidden, a body shows its ambient term alone.
pub proof fn lemma_all_lights_occluded_leaves_ambient<T: VertexFormat>(
    scene: Scene<T>,
    hit: Intersection<T>,
    k: int,
)
    requires
        forall|i: int|
            0 <= i < scene.lights().len() ==> scene.sees(hit, #[trigger] scene.lights()[i]) == Ok::<
                bool,
                GeometryError,
            >(false),
    ensures
        scene.local_color(hit, k) == Ok::<Vec3<T>, GeometryError>(
            clamped(scene.bodies()[k].material().ambient_term()),
        ),
{
    lemma_visible_in_the_dark(scene, hit, scene.lights().len());
}

} // verus!
