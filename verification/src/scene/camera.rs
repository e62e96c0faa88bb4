use vstd::prelude::*;
use crate::common::error::GeometryError;
use crate::common::ray::{Ray, Spacial};
use crate::common::scalar::{zero, VertexFormat};
use crate::common::vector::Vec3;

verus! {

/// The tangent of half the angle `fov`, times the square root of two: how far
/// the view plane reaches to either side of its middle.
pub open spec fn half_extent<T: VertexFormat>(fov: T) -> T {
    fov.quot(T::of_u32(2)).tangent().prod(T::of_u32(2).root())
}

/// The vertical field of view that goes with the horizontal one on a view of
/// `x_res` by `y_res` pixels.
pub open spec fn vertical_fov_of<T: VertexFormat>(horizontal_fov: T, x_res: T, y_res: T) -> T {
    T::of_u32(2).prod(
        horizontal_fov.quot(T::of_u32(2)).tangent().prod(y_res.quot(x_res)).arctangent(),
    )
}

/// Where on the view plane, between `low` and `high`, the pixel coordinate
/// `i` of `res` lies.
pub open spec fn view_coordinate<T: VertexFormat>(i: T, low: T, high: T, res: T) -> T {
    i.diff(zero::<T>()).prod(high.diff(low).quot(res)).sum(low)
}

/// The three unit vectors of the view: to the right, upwards, and from the
/// scene back to the eye.
pub struct ViewBasis<T: VertexFormat> {
    pub u: Vec3<T>,
    pub v: Vec3<T>,
    pub w: Vec3<T>,
}

/// The view basis of an eye at `look_from` that looks at `look_at`, with `up`
/// pointing upwards. There is none where the eye sits on the point it looks
/// at, or where `up` runs along the line of sight.
pub open spec fn view_basis<T: VertexFormat>(look_at: Vec3<T>, look_from: Vec3<T>, up: Vec3<T>) -> Option<
    ViewBasis<T>,
> {
    match look_from.minus(look_at).normalized() {
        Ok(w) => match up.cross_of(w).normalized() {
            Ok(u) => match w.cross_of(u).normalized() {
                Ok(v) => Some(ViewBasis { u, v, w }),
                Err(_) => None,
            },
            Err(_) => None,
        },
        Err(_) => None,
    }
}

/// A pinhole camera: an eye, the point it looks at, and a view plane through
/// that point, divided into pixels.
#[derive(Debug, Clone, Copy)]
pub struct Camera<T: VertexFormat> {
    look_from: Vec3<T>,
    look_at: Vec3<T>,
    up: Vec3<T>,
    aspect_ratio: T,
    horizontal_fov: T,
    vertical_fov: T,
    view_min: Vec3<T>,
    view_max: Vec3<T>,
    x_res: T,
    y_res: T,
    width: u32,
    height: u32,
    u: Vec3<T>,
    v: Vec3<T>,
    w: Vec3<T>,
}

impl<T: VertexFormat> Camera<T> {
    pub closed spec fn look_from(&self) -> Vec3<T> {
        self.look_from
    }

    pub closed spec fn look_at(&self) -> Vec3<T> {
        self.look_at
    }

    pub closed spec fn up(&self) -> Vec3<T> {
        self.up
    }

    pub closed spec fn aspect_ratio(&self) -> T {
        self.aspect_ratio
    }

    pub closed spec fn horizontal_fov(&self) -> T {
        self.horizontal_fov
    }

    pub closed spec fn vertical_fov(&self) -> T {
        self.vertical_fov
    }

    /// The lower left corner of the view plane, in view coordinates.
    pub closed spec fn view_min(&self) -> Vec3<T> {
        self.view_min
    }

    /// The upper right corner of the view plane, in view coordinates.
    pub closed spec fn view_max(&self) -> Vec3<T> {
        self.view_max
    }

    pub closed spec fn basis(&self) -> ViewBasis<T> {
        ViewBasis { u: self.u, v: self.v, w: self.w }
    }

    /// The number of pixel columns.
    pub closed spec fn columns(&self) -> u32 {
        self.width
    }

    /// The number of pixel rows.
    pub closed spec fn rows(&self) -> u32 {
        self.height
    }

    /// The number of pixel columns, as a scalar.
    pub closed spec fn x_extent(&self) -> T {
        self.x_res
    }

    /// The number of pixel rows, as a scalar.
    pub closed spec fn y_extent(&self) -> T {
        self.y_res
    }

    /// How a camera is made from what `new` is given.
    pub open spec fn is_built_from(
        &self,
        look_at: Vec3<T>,
        look_from: Vec3<T>,
        up: Vec3<T>,
        width: u32,
        height: u32,
        horizontal_fov: T,
    ) -> bool {
        let x_res = T::of_u32(width);
        let y_res = T::of_u32(height);
        let vertical_fov = vertical_fov_of(horizontal_fov, x_res, y_res);
        let horizontal_distance = half_extent(horizontal_fov);
        let vertical_distance = half_extent(vertical_fov);
        &&& self.look_at() == look_at
        &&& self.look_from() == look_from
        &&& self.up() == up
        &&& self.columns() == width
        &&& self.rows() == height
        &&& self.x_extent() == x_res
        &&& self.y_extent() == y_res
        &&& self.aspect_ratio() == x_res.quot(y_res)
        &&& self.horizontal_fov() == horizontal_fov
        &&& self.vertical_fov() == vertical_fov
        &&& self.view_min() == (Vec3 {
            x: horizontal_distance.negated(),
            y: vertical_distance.negated(),
            z: zero::<T>(),
        })
        &&& self.view_max() == (Vec3 { x: horizontal_distance, y: vertical_distance, z: zero::<T>() })
        &&& view_basis(look_at, look_from, up) == Some(self.basis())
    }

    /// The point of the view plane that the pixel coordinates `i`, `j` stand
    /// for: `i` runs from zero at the left edge to the number of columns at
    /// the right edge, `j` from zero at the lower edge to the number of rows
    /// at the upper edge.
    pub open spec fn pixel_point(&self, i: T, j: T) -> Vec3<T> {
        self.look_at().plus(
            self.basis().u.scaled(
                view_coordinate(i, self.view_min().x, self.view_max().x, self.x_extent()),
            ),
        ).plus(
            self.basis().v.scaled(
                view_coordinate(j, self.view_min().y, self.view_max().y, self.y_extent()),
            ),
        ).plus(self.basis().w.scaled(zero::<T>()))
    }

    /// The ray from the eye through the point of the view plane that `i`, `j`
    /// stand for.
    pub open spec fn ray_through(&self, i: T, j: T) -> Result<Ray<T>, GeometryError> {
        match self.pixel_point(i, j).minus(self.look_from()).normalized() {
            Ok(direction) => Ray::towards(self.look_from(), direction),
            Err(e) => Err(e),
        }
    }

    /// A camera at `look_from` that looks at `look_at`, with a view of
    /// `width` by `height` pixels that spans the angle `horizontal_fov`, in
    /// radians, from left to right. It is refused where the three vectors
    /// give no view basis.
    pub fn new(
        look_at: Vec3<T>,
        look_from: Vec3<T>,
        up: Vec3<T>,
        width: u32,
        height: u32,
        horizontal_fov: T,
    ) -> (r: Result<Camera<T>, GeometryError>)
        ensures
            match r {
                Ok(camera) => camera.is_built_from(
                    look_at,
                    look_from,
                    up,
                    width,
                    height,
                    horizontal_fov,
                ),
                Err(e) => view_basis(look_at, look_from, up) is None && e
                    == GeometryError::DegenerateCamera,
            },
    {
        let x_res = T::from_u32(width);
        let y_res = T::from_u32(height);
        let aspect_ratio = x_res.div(y_res);
        let two = T::from_u32(2);

        let vertical_fov = two.mul(horizontal_fov.div(two).tan().mul(y_res.div(x_res)).atan());

        let horizontal_distance = horizontal_fov.div(two).tan().mul(two.sqrt());
        let vertical_distance = vertical_fov.div(two).tan().mul(two.sqrt());

        let vpn = match look_from.sub(&look_at).normalize() {
            Ok(vpn) => vpn,
            Err(_) => {
                return Err(GeometryError::DegenerateCamera);
            },
        };
        let u = match up.cross(&vpn).normalize() {
            Ok(u) => u,
            Err(_) => {
                return Err(GeometryError::DegenerateCamera);
            },
        };
        let v = match vpn.cross(&u).normalize() {
            Ok(v) => v,
            Err(_) => {
                return Err(GeometryError::DegenerateCamera);
            },
        };

        Ok(
            Camera {
                look_at,
                look_from,
                up,
                aspect_ratio,
                horizontal_fov,
                vertical_fov,
                view_min: Vec3::new(
                    horizontal_distance.neg(),
                    vertical_distance.neg(),
                    T::from_u32(0),
                ),
                view_max: Vec3::new(horizontal_distance, vertical_distance, T::from_u32(0)),
                x_res,
                y_res,
                width,
                height,
                w: vpn,
                u,
                v,
            },
        )
    }

    /// The ray from the eye through the pixel coordinates `i`, `j`. It fails
    /// where the point of the view plane coincides with the eye.
    pub fn ray(&self, i: T, j: T) -> (r: Result<Ray<T>, GeometryError>)
        ensures
            r == self.ray_through(i, j),
    {
        let origin_of_view = T::from_u32(0);
        let u = i.sub(origin_of_view).mul(self.view_max.x.sub(self.view_min.x).div(self.x_res)).add(
            self.view_min.x,
        );
        let v = j.sub(origin_of_view).mul(self.view_max.y.sub(self.view_min.y).div(self.y_res)).add(
            self.view_min.y,
        );
        let w = T::from_u32(0);

        // where the pixel lies in the world
        let pixel_loc = self.look_at.add(&self.u.mul(u)).add(&self.v.mul(v)).add(&self.w.mul(w));

        let origin = self.look_from;

        match pixel_loc.sub(&origin).normalize() {
            Ok(direction) => Ray::new(origin, direction),
            Err(e) => Err(e),
        }
    }

    pub fn width(&self) -> (r: u32)
        ensures
            r == self.columns(),
    {
        self.width
    }

    pub fn height(&self) -> (r: u32)
        ensures
            r == self.rows(),
    {
        self.height
    }

    pub fn x_res(&self) -> (r: &T)
        ensures
            *r == self.x_extent(),
    {
        &self.x_res
    }

    pub fn y_res(&self) -> (r: &T)
        ensures
            *r == self.y_extent(),
    {
        &self.y_res
    }
}

impl<T: VertexFormat> Spacial<T> for Camera<T> {
    open spec fn position(&self) -> Vec3<T> {
        self.look_from()
    }

    fn location(&self) -> (r: &Vec3<T>) {
        &self.look_from
    }
}

} // verus!
