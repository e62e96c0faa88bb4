use float_cmp::{ApproxEq, F64Margin};
use ray_tracer::common::{Color, GeometryError, Intersection, Ray, Spacial, Vec3, VertexFormat};
use ray_tracer::scene::light::{DirectionalLight, Light, LightSource, PointLight};
use ray_tracer::scene::visible::material::Material;
use ray_tracer::scene::visible::mesh::Triangle;
use ray_tracer::scene::visible::sphere::Sphere;
use ray_tracer::scene::visible::{Body, Intersectable, Shape, Visible};

/// Double precision numbers as the scalar of the library.
#[derive(Clone, Copy, Debug, PartialEq, PartialOrd)]
struct Real(f64);

impl VertexFormat for Real {
    fn from_u32(n: u32) -> Self {
        Real(f64::from(n))
    }

    fn infinity() -> Self {
        Real(f64::INFINITY)
    }

    fn add(self, rhs: Self) -> Self {
        Real(self.0 + rhs.0)
    }

    fn sub(self, rhs: Self) -> Self {
        Real(self.0 - rhs.0)
    }

    fn mul(self, rhs: Self) -> Self {
        Real(self.0 * rhs.0)
    }

    fn div(self, rhs: Self) -> Self {
        Real(self.0 / rhs.0)
    }

    fn neg(self) -> Self {
        Real(-self.0)
    }

    fn sqrt(self) -> Self {
        Real(self.0.sqrt())
    }

    fn tan(self) -> Self {
        Real(self.0.tan())
    }

    fn atan(self) -> Self {
        Real(self.0.atan())
    }

    fn powf(self, exponent: Self) -> Self {
        Real(self.0.powf(exponent.0))
    }

    fn lt(self, rhs: Self) -> bool {
        self.0 < rhs.0
    }

    fn to_u8(self) -> Option<u8> {
        if self.0 > -1.0 && self.0 < 256.0 {
            Some(self.0 as u8)
        } else {
            None
        }
    }
    // What the operations compute, for the contracts: an implementation has
    // to name these too, though nothing ever runs them.

    fn of_u32(n: u32) -> Self {
        Self::from_u32(n)
    }

    fn unbounded() -> Self {
        Self::infinity()
    }

    fn sum(self, rhs: Self) -> Self {
        self.add(rhs)
    }

    fn diff(self, rhs: Self) -> Self {
        self.sub(rhs)
    }

    fn prod(self, rhs: Self) -> Self {
        self.mul(rhs)
    }

    fn quot(self, rhs: Self) -> Self {
        self.div(rhs)
    }

    fn negated(self) -> Self {
        self.neg()
    }

    fn root(self) -> Self {
        self.sqrt()
    }

    fn tangent(self) -> Self {
        self.tan()
    }

    fn arctangent(self) -> Self {
        self.atan()
    }

    fn power(self, exponent: Self) -> Self {
        self.powf(exponent)
    }

    fn below(self, rhs: Self) -> bool {
        self.lt(rhs)
    }

    fn as_byte(self) -> Option<u8> {
        self.to_u8()
    }

    fn below_irreflexive(_a: Self) {}

    fn below_transitive(_a: Self, _b: Self, _c: Self) {}

    fn zero_below_one() {}
}

fn vec3(x: f64, y: f64, z: f64) -> Vec3<Real> {
    Vec3::new(Real(x), Real(y), Real(z))
}

fn color(red: f64, green: f64, blue: f64) -> Option<Color<Real>> {
    Color::new(Real(red), Real(green), Real(blue))
}

fn within_ulps(a: Real, b: Real, ulps: i64) -> bool {
    a.0.approx_eq(b.0, F64Margin { epsilon: 0.0, ulps })
}

fn red_material(reflective_coefficient: f64) -> Material<Real> {
    Material::new(
        Real(0.3),
        color(1.0, 0.0, 0.0).unwrap(),
        Real(0.3),
        color(1.0, 0.1, 0.1).unwrap(),
        Real(32.0),
        Real(0.1),
        color(0.2, 0.2, 0.2).unwrap(),
        Real(reflective_coefficient),
    )
}

// Light tests

#[test]
fn point_light_vector_is_normalized() {
    let color = Color::from_color_vertex(vec3(0.5, 0.5, 0.5)).unwrap();
    let position = vec3(10.0, 10.0, 10.0);
    let intersection_point = vec3(0.0, 0.0, 0.0);

    let point_light = PointLight::new(color, position);

    assert_eq!(
        Real(1.0),
        point_light
            .light_vector(&intersection_point)
            .unwrap()
            .mag_sqrd()
    )
}

#[test]
fn point_light_vector_is_correct() {
    let color = Color::from_color_vertex(vec3(0.5, 0.5, 0.5)).unwrap();
    let position = vec3(10.0, 10.0, 10.0);
    let intersection_point = vec3(0.0, 0.0, 0.0);

    let point_light = PointLight::new(color, position);

    let expected_light_vector =
        vec3(1.0 / 3_f64.sqrt(), 1.0 / 3_f64.sqrt(), 1.0 / 3_f64.sqrt());
    let light_vector = point_light.light_vector(&intersection_point).unwrap();

    assert!(within_ulps(expected_light_vector.x, light_vector.x, 2));
    assert!(within_ulps(expected_light_vector.y, light_vector.y, 2));
    assert!(within_ulps(expected_light_vector.z, light_vector.z, 2));
}

#[test]
fn point_light_on_the_point_has_no_direction() {
    let light = PointLight::new(color(0.5, 0.5, 0.5).unwrap(), vec3(1.0, 2.0, 3.0));

    assert_eq!(
        light.light_vector(&vec3(1.0, 2.0, 3.0)),
        Err(GeometryError::DegenerateVector)
    );
}

#[test]
fn point_light_can_be_moved_and_recoloured() {
    let mut light = PointLight::new(color(0.5, 0.5, 0.5).unwrap(), vec3(1.0, 2.0, 3.0));
    light.set_position(vec3(0.0, 5.0, 0.0));
    light.set_color(color(1.0, 0.0, 0.0).unwrap());

    assert_eq!(light.location(), &vec3(0.0, 5.0, 0.0));
    assert_eq!(light.color().color_vector(), &vec3(1.0, 0.0, 0.0));
    assert_eq!(light.light_vector(&vec3(0.0, 0.0, 0.0)), Ok(vec3(0.0, 1.0, 0.0)));
}

#[test]
fn directional_light_shines_from_one_direction() {
    let light =
        DirectionalLight::new(Color::new_unclipped(Real(2.0), Real(2.0), Real(2.0)), vec3(3.0, 0.0, 4.0))
            .unwrap();

    assert_eq!(light.light_vector(&vec3(0.0, 0.0, 0.0)), Ok(vec3(0.6, 0.0, 0.8)));
    assert_eq!(light.light_vector(&vec3(7.0, -1.0, 2.0)), Ok(vec3(0.6, 0.0, 0.8)));
    assert_eq!(light.color().color_vector(), &vec3(2.0, 2.0, 2.0));
    assert_eq!(
        light.location(),
        &vec3(f64::INFINITY, f64::INFINITY, f64::INFINITY)
    );
}

#[test]
fn directional_light_without_direction_is_refused() {
    let light = DirectionalLight::new(color(1.0, 1.0, 1.0).unwrap(), vec3(0.0, 0.0, 0.0));

    assert_eq!(light.err(), Some(GeometryError::DegenerateVector));
}

#[test]
fn light_of_either_kind_answers_as_its_kind() {
    let point = Light::Point(PointLight::new(color(0.5, 0.5, 0.5).unwrap(), vec3(0.0, 0.0, 4.0)));
    let directional = Light::Directional(
        DirectionalLight::new(color(0.25, 0.25, 0.25).unwrap(), vec3(0.0, 2.0, 0.0)).unwrap(),
    );

    assert_eq!(point.light_vector(&vec3(0.0, 0.0, 1.0)), Ok(vec3(0.0, 0.0, 1.0)));
    assert_eq!(directional.light_vector(&vec3(0.0, 0.0, 1.0)), Ok(vec3(0.0, 1.0, 0.0)));
    assert_eq!(point.color().color_vector(), &vec3(0.5, 0.5, 0.5));
    assert_eq!(directional.color().color_vector(), &vec3(0.25, 0.25, 0.25));
    assert_eq!(point.location(), &vec3(0.0, 0.0, 4.0));
}

// Sphere tests

#[test]
// tests that a ray along the x-axis intersects a sphere at the origin at the correct place
fn intersect_origin_x_axis() {
    let ray = Ray::new(vec3(10.0, 0.0, 0.0), vec3(-1.0, 0.0, 0.0)).unwrap();

    let sphere = Sphere::new(vec3(0.0, 0.0, 0.0), Real(1.0));

    let expected_point = vec3(1.0, 0.0, 0.0);

    let intersection_point = sphere.intersect(&ray).unwrap();

    assert_eq!(expected_point, intersection_point.point)
}

#[test]
// tests a ray intersection that does not pass through the origin of the sphere
fn intersect() {
    let ray = Ray::new(vec3(10.0, 0.5, 0.0), vec3(-1.0, 0.0, 0.0)).unwrap();

    let sphere = Sphere::new(vec3(0.0, 0.0, 0.0), Real(1.0));

    let expected_point = vec3(0.8660254037844393, 0.5, 0.0);

    let intersection_point = sphere.intersect(&ray).unwrap();

    assert_eq!(expected_point, intersection_point.point)
}

#[test]
fn sphere_off_axis_in_z() {
    let ray = Ray::new(vec3(10.0, 0.0, 0.5), vec3(-1.0, 0.0, 0.0)).unwrap();

    let sphere = Sphere::new(vec3(0.0, 0.0, 0.0), Real(1.0));

    let intersection = sphere.intersect(&ray).unwrap();

    assert_eq!(vec3(0.8660254037844393, 0.0, 0.5), intersection.point);
    assert!(within_ulps(intersection.normal.mag_sqrd(), Real(1.0), 4));
}

#[test]
fn sphere_missed_by_a_ray_that_passes_by() {
    let ray = Ray::new(vec3(10.0, 0.0, 0.0), vec3(0.0, 0.0, -1.0)).unwrap();

    let sphere = Sphere::new(vec3(0.0, 0.0, 0.0), Real(1.0));

    assert_eq!(None, sphere.intersect(&ray));
}

#[test]
fn sphere_behind_the_ray_is_not_hit() {
    let ray = Ray::new(vec3(10.0, 0.0, 0.0), vec3(1.0, 0.0, 0.0)).unwrap();

    let sphere = Sphere::new(vec3(0.0, 0.0, 0.0), Real(1.0));

    assert_eq!(None, sphere.intersect(&ray));
}

#[test]
fn sphere_hit_from_inside_is_the_far_root() {
    let ray = Ray::new(vec3(0.5, 0.0, 0.0), vec3(1.0, 0.0, 0.0)).unwrap();

    let sphere = Sphere::new(vec3(0.0, 0.0, 0.0), Real(2.0));

    let intersection = sphere.intersect(&ray).unwrap();

    assert_eq!(vec3(2.0, 0.0, 0.0), intersection.point);
    assert_eq!(vec3(1.0, 0.0, 0.0), intersection.normal);
}

#[test]
fn sphere_normal_points_outward_at_the_hit() {
    let ray = Ray::new(vec3(10.0, 0.0, 0.0), vec3(-1.0, 0.0, 0.0)).unwrap();

    let sphere = Sphere::new(vec3(0.0, 0.0, 0.0), Real(1.0));

    assert_eq!(
        sphere.intersect(&ray),
        Some(Intersection {
            point: vec3(1.0, 0.0, 0.0),
            normal: vec3(1.0, 0.0, 0.0),
        })
    );
    assert_eq!(sphere.location(), &vec3(0.0, 0.0, 0.0));
}

// Triangle tests

#[test]
fn ray_plane_intersection() {
    let v1 = vec3(-1.0, -1.0, -1.0);
    let v2 = vec3(1.0, -1.0, -1.0);
    let v3 = vec3(0.0, 1.0, -1.0);

    let mesh = Triangle::new(v1, v2, v3).unwrap();

    let ray = Ray::new(vec3(0.0, 0.0, 10.0), vec3(0.0, 0.0, -1.0)).unwrap();

    let exptected_intersection = Intersection {
        point: vec3(0.0, 0.0, -1.0),
        normal: vec3(0.0, 0.0, 1.0),
    };

    assert_eq!(exptected_intersection, mesh.intersect(&ray).unwrap());
}

#[test]
fn ray_plane_miss() {
    let v1 = vec3(-1.0, -1.0, -1.0);
    let v2 = vec3(1.0, -1.0, -1.0);
    let v3 = vec3(0.0, 1.0, -1.0);

    let mesh = Triangle::new(v1, v2, v3).unwrap();

    let ray = Ray::new(vec3(10.0, 0.0, 0.0), vec3(0.0, 0.0, -1.0)).unwrap();

    assert_eq!(None, mesh.intersect(&ray));
}

#[test]
fn triangle_is_not_hit_from_behind() {
    let mesh = Triangle::new(
        vec3(-1.0, -1.0, -1.0),
        vec3(1.0, -1.0, -1.0),
        vec3(0.0, 1.0, -1.0),
    )
    .unwrap();

    let ray = Ray::new(vec3(0.0, 0.0, -10.0), vec3(0.0, 0.0, 1.0)).unwrap();

    assert_eq!(None, mesh.intersect(&ray));
}

#[test]
fn triangle_is_not_hit_along_its_plane() {
    let mesh = Triangle::new(
        vec3(-1.0, -1.0, -1.0),
        vec3(1.0, -1.0, -1.0),
        vec3(0.0, 1.0, -1.0),
    )
    .unwrap();

    let ray = Ray::new(vec3(-10.0, 0.0, -1.0), vec3(1.0, 0.0, 0.0)).unwrap();

    assert_eq!(None, mesh.intersect(&ray));
}

#[test]
fn triangle_is_missed_beside_an_edge_and_hit_on_it() {
    let mesh = Triangle::new(
        vec3(-1.0, -1.0, -1.0),
        vec3(1.0, -1.0, -1.0),
        vec3(0.0, 1.0, -1.0),
    )
    .unwrap();

    let below = Ray::new(vec3(0.0, -1.5, 10.0), vec3(0.0, 0.0, -1.0)).unwrap();
    let on_edge = Ray::new(vec3(0.0, -1.0, 10.0), vec3(0.0, 0.0, -1.0)).unwrap();
    let beside = Ray::new(vec3(0.75, 0.0, 10.0), vec3(0.0, 0.0, -1.0)).unwrap();

    assert_eq!(None, mesh.intersect(&below));
    assert_eq!(
        Some(vec3(0.0, -1.0, -1.0)),
        mesh.intersect(&on_edge).map(|hit| hit.point)
    );
    assert_eq!(None, mesh.intersect(&beside));
}

#[test]
fn triangle_with_corners_on_a_line_is_refused() {
    let mesh = Triangle::new(
        vec3(0.0, 0.0, 0.0),
        vec3(1.0, 1.0, 1.0),
        vec3(2.0, 2.0, 2.0),
    );

    assert_eq!(mesh.err(), Some(GeometryError::DegenerateVector));
}

#[test]
fn triangle_drops_the_axis_of_its_largest_normal_component() {
    let facing_z = Triangle::new(
        vec3(-1.0, -1.0, -1.0),
        vec3(1.0, -1.0, -1.0),
        vec3(0.0, 1.0, -1.0),
    )
    .unwrap();
    let facing_minus_x = Triangle::new(
        vec3(2.0, 0.0, 0.0),
        vec3(2.0, 0.0, 1.0),
        vec3(2.0, 1.0, 0.0),
    )
    .unwrap();
    let facing_y = Triangle::new(
        vec3(0.0, 3.0, 0.0),
        vec3(0.0, 3.0, 1.0),
        vec3(1.0, 3.0, 0.0),
    )
    .unwrap();

    assert_eq!(facing_z.axis_to_drop(), 2);
    assert_eq!(facing_minus_x.axis_to_drop(), 0);
    assert_eq!(facing_y.axis_to_drop(), 1);
    assert_eq!(facing_z.project(&vec3(1.0, 2.0, 3.0), 0), (Real(2.0), Real(3.0)));
    assert_eq!(facing_z.project(&vec3(1.0, 2.0, 3.0), 1), (Real(1.0), Real(3.0)));
    assert_eq!(facing_z.project(&vec3(1.0, 2.0, 3.0), 2), (Real(1.0), Real(2.0)));
    assert!(facing_z.projection_intersection(&vec3(0.0, 0.0, -1.0)));
    assert!(!facing_z.projection_intersection(&vec3(10.0, 0.0, -1.0)));
    assert_eq!(facing_z.location(), &vec3(-1.0, -1.0, -1.0));
}

// Material tests

#[test]
fn correct_ambient_light_calculation() {
    let material = red_material(0.0);

    let expected_diffuse = color(0.2 * 0.1, 0.0, 0.0).unwrap();

    assert_eq!(expected_diffuse.color_vector(), &material.ambient());
}

#[test]
fn correct_diffuse_light_calculation() {
    let material = red_material(0.0);

    let intersection = Intersection {
        point: vec3(0.0, 0.0, 1.0),
        normal: vec3(0.0, 0.0, -1.0),
    };

    let light = PointLight::new(color(0.5, 0.5, 0.5).unwrap(), vec3(0.0, 0.0, 0.0));

    // l dot n = 1
    // diffuse color * light color: (1.0, 0.0, 0.0) * (0.5, 0.5, 0.5) = (0.5, 0.0, 0.0)
    // (0.5, 0.0, 0.0) * 1 * 0.3 = (0.5 * 0.3, 0.0, 0.0)

    let expected_diffuse = color(0.5 * 0.3, 0.0, 0.0).unwrap();

    assert_eq!(
        expected_diffuse.color_vector(),
        &material.diffuse(&intersection, &light).unwrap()
    );
}

#[test]
fn correct_specular_light_calculation() {
    let material = red_material(0.0);

    let intersection = Intersection {
        point: vec3(0.0, 0.0, 1.0),
        normal: vec3(0.0, 0.0, -1.0),
    };

    let light = PointLight::new(color(0.5, 0.5, 0.5).unwrap(), vec3(0.0, 0.0, 0.0));

    let viewpoint = vec3(0.0, 0.0, 0.0);

    // L dot N = 1
    // R = (0.0, 0.0, -2.0)(1) - (0.0, 0.0, -1.0) = (0.0, 0.0, -1.0)
    // V = (0.0, 0.0, -1.0)
    // max(0.0, V dot R) = 1.0
    // 1.0 ^ phong_exponent = 1.0
    // 0.3 (0.5, 0.5, 0.5) (1.0, 0.1, 0.1)

    let expected_specular = color(0.3 * 0.5 * 1.0, 0.3 * 0.5 * 0.1, 0.3 * 0.5 * 0.1).unwrap();

    assert_eq!(
        expected_specular.color_vector(),
        &material.specular(&intersection, &light, &viewpoint).unwrap()
    )
}

#[test]
fn light_behind_the_surface_gives_no_diffuse_term() {
    let material = red_material(0.0);

    let intersection = Intersection {
        point: vec3(0.0, 0.0, 1.0),
        normal: vec3(0.0, 0.0, 1.0),
    };

    let light = PointLight::new(color(0.5, 0.5, 0.5).unwrap(), vec3(0.0, 0.0, 0.0));

    assert_eq!(
        material.diffuse(&intersection, &light),
        Ok(vec3(0.0, 0.0, 0.0))
    );
}

#[test]
fn viewer_on_the_point_has_no_highlight() {
    let material = red_material(0.0);

    let intersection = Intersection {
        point: vec3(0.0, 0.0, 1.0),
        normal: vec3(0.0, 0.0, -1.0),
    };

    let light = PointLight::new(color(0.5, 0.5, 0.5).unwrap(), vec3(0.0, 0.0, 0.0));

    assert_eq!(
        material.specular(&intersection, &light, &vec3(0.0, 0.0, 1.0)),
        Err(GeometryError::DegenerateVector)
    );
}

#[test]
fn material_mirrors_only_with_a_coefficient_above_zero() {
    assert!(!red_material(0.0).is_reflective());
    assert!(!red_material(-0.5).is_reflective());
    assert!(red_material(0.25).is_reflective());
    assert_eq!(red_material(0.25).reflective_coefficient(), &Real(0.25));
}

// Body tests

#[test]
fn body_is_met_where_its_shape_is() {
    let body = Body::new(
        Shape::Sphere(Sphere::new(vec3(0.0, 0.0, 0.0), Real(1.0))),
        red_material(0.5),
    );
    let ray = Ray::new(vec3(10.0, 0.0, 0.0), vec3(-1.0, 0.0, 0.0)).unwrap();

    assert_eq!(
        body.intersect(&ray).map(|hit| hit.point),
        Some(vec3(1.0, 0.0, 0.0))
    );
    assert_eq!(body.location(), &vec3(0.0, 0.0, 0.0));
    assert!(body.is_reflective());
    assert_eq!(body.reflection_coefficient(), Real(0.5));
}

#[test]
fn body_without_light_shows_its_ambient_term() {
    let body = Body::new(
        Shape::Sphere(Sphere::new(vec3(0.0, 0.0, 0.0), Real(1.0))),
        red_material(0.0),
    );
    let intersection = Intersection {
        point: vec3(0.0, 0.0, 1.0),
        normal: vec3(0.0, 0.0, 1.0),
    };

    let lit = body
        .calculate_lighting(&intersection, &Vec::new(), &vec3(0.0, 0.0, 5.0))
        .unwrap();

    assert_eq!(lit.color_vector(), &vec3(0.2 * 0.1, 0.0, 0.0));
}

#[test]
fn body_sums_the_terms_of_its_lights_and_clamps() {
    let body = Body::new(
        Shape::Sphere(Sphere::new(vec3(0.0, 0.0, 0.0), Real(1.0))),
        red_material(0.0),
    );
    let intersection = Intersection {
        point: vec3(0.0, 0.0, 1.0),
        normal: vec3(0.0, 0.0, 1.0),
    };
    let above = Light::Point(PointLight::new(
        Color::new_unclipped(Real(0.5), Real(0.5), Real(0.5)),
        vec3(0.0, 0.0, 3.0),
    ));
    let glaring = Light::Point(PointLight::new(
        Color::new_unclipped(Real(8.0), Real(8.0), Real(8.0)),
        vec3(0.0, 0.0, 3.0),
    ));
    let viewpoint = vec3(0.0, 0.0, 5.0);

    let one = body
        .calculate_lighting(&intersection, &vec![above], &viewpoint)
        .unwrap();
    let two = body
        .calculate_lighting(&intersection, &vec![above, glaring], &viewpoint)
        .unwrap();

    // ambient (0.02, 0, 0), diffuse (0.15, 0, 0), specular (0.15, 0.015, 0.015)
    assert_eq!(
        one.color_vector(),
        &vec3(0.2 * 0.1 + 0.5 * 0.3 + 0.5 * 0.3, 0.0 + 0.0 + 0.1 * 0.5 * 0.3, 0.0 + 0.0 + 0.1 * 0.5 * 0.3)
    );
    assert_eq!(two.color_vector().x, Real(1.0));
}

#[test]
fn body_reports_a_light_without_direction() {
    let body = Body::new(
        Shape::Sphere(Sphere::new(vec3(0.0, 0.0, 0.0), Real(1.0))),
        red_material(0.0),
    );
    let intersection = Intersection {
        point: vec3(0.0, 0.0, 1.0),
        normal: vec3(0.0, 0.0, 1.0),
    };
    let on_the_point = Light::Point(PointLight::new(
        color(0.5, 0.5, 0.5).unwrap(),
        vec3(0.0, 0.0, 1.0),
    ));

    let lit = body.calculate_lighting(&intersection, &vec![on_the_point], &vec3(0.0, 0.0, 5.0));

    assert_eq!(lit.err(), Some(GeometryError::DegenerateVector));
}
