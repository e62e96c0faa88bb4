//! The picture that a scene is rendered into.

use vstd::prelude::*;
use crate::common::color::Color;
use crate::common::scalar::{zero, VertexFormat};
use crate::common::vector::Vec3;

verus! {

/// Where in a picture of `width` columns and `height` rows, stored row by row
/// from the top, the pixel in column `x` of row `y` lies; rows are counted
/// from the bottom.
pub open spec fn pixel_index(width: int, height: int, x: int, y: int) -> int {
    (height - y - 1) * width + x
}

/// Every pixel has a place in the picture, and no two share one.
pub proof fn lemma_pixel_index(width: int, height: int, x: int, y: int, x2: int, y2: int)
    requires
        0 <= x < width,
        0 <= y < height,
        0 <= x2 < width,
        0 <= y2 < height,
    ensures
        0 <= pixel_index(width, height, x, y) < width * height,
        pixel_index(width, height, x, y) == pixel_index(width, height, x2, y2) ==> x == x2 && y
            == y2,
{
    let row = height - y - 1;
    let row2 = height - y2 - 1;
    assert(0 <= row * width && row * width + width <= height * width && (row < row2 ==> row * width
        + width <= row2 * width) && (row2 < row ==> row2 * width + width <= row * width)
        && height * width == width * height) by (nonlinear_arith)
        requires
            0 <= row < height,
            0 <= row2 < height,
            0 < width,
    ;
}

/// A picture of `width` by `height` pixels. Its view is the sequence of the
/// pixels' colours, each as its vector of channels, row by row from the top
/// row down and from left to right in each row.
pub struct Image<T: VertexFormat> {
    width: u32,
    height: u32,
    buffer: Vec<Color<T>>,
}

impl<T: VertexFormat> View for Image<T> {
    type V = Seq<Vec3<T>>;

    closed spec fn view(&self) -> Seq<Vec3<T>> {
        Seq::new(self.buffer@.len(), |i: int| self.buffer@[i]@)
    }
}

impl<T: VertexFormat> Image<T> {
    #[verifier::type_invariant]
    spec fn filled(&self) -> bool {
        self.buffer@.len() == self.width * self.height
    }

    /// The number of columns.
    pub closed spec fn columns(&self) -> u32 {
        self.width
    }

    /// The number of rows.
    pub closed spec fn rows(&self) -> u32 {
        self.height
    }

    /// The channels of the pixel in column `x` of row `y`, rows counted from
    /// the bottom.
    pub open spec fn at(&self, x: int, y: int) -> Vec3<T> {
        self@[pixel_index(self.columns() as int, self.rows() as int, x, y)]
    }

    /// A black picture.
    pub fn new(width: u32, height: u32) -> (r: Image<T>)
        requires
            width * height <= usize::MAX,
        ensures
            r.columns() == width,
            r.rows() == height,
            r@ == Seq::new(
                (width * height) as nat,
                |i: int| (Vec3 { x: zero::<T>(), y: zero::<T>(), z: zero::<T>() }),
            ),
    {
        let black = Color::new_unclipped(T::from_u32(0), T::from_u32(0), T::from_u32(0));
        let size: usize = (width as usize) * (height as usize);
        let mut buffer: Vec<Color<T>> = Vec::new();
        let mut i: usize = 0;
        while i < size
            invariant
                0 <= i <= size,
                buffer@.len() == i,
                forall|k: int| 0 <= k < i ==> (#[trigger] buffer@[k])@ == black@,
            decreases size - i,
        {
            buffer.push(black);
            i = i + 1;
        }
        let image = Image { width, height, buffer };
        assert(image@ =~= Seq::new(
            (width * height) as nat,
            |i: int| (Vec3 { x: zero::<T>(), y: zero::<T>(), z: zero::<T>() }),
        ));
        image
    }

    /// Where in the buffer the pixel in column `x` of row `y` lies.
    fn index(&self, x: u32, y: u32) -> (r: usize)
        requires
            x < self.columns(),
            y < self.rows(),
        ensures
            r == pixel_index(self.columns() as int, self.rows() as int, x as int, y as int),
            r < self.columns() * self.rows(),
    {
        proof {
            use_type_invariant(self);
            lemma_pixel_index(
                self.width as int,
                self.height as int,
                x as int,
                y as int,
                x as int,
                y as int,
            );
            assert(self.buffer.len() == self.buffer@.len());
        }
        let row = self.height - y - 1;
        assert(0 <= row * self.width <= (self.height - 1) * self.width && (self.height - 1)
            * self.width + self.width == self.width * self.height) by (nonlinear_arith)
            requires
                0 <= row <= self.height - 1,
                0 <= self.width,
        ;
        (row as usize) * (self.width as usize) + (x as usize)
    }

    /// Gives the pixel in column `x` of row `y`, rows counted from the
    /// bottom, the colour `color`. Every other pixel keeps its colour.
    pub fn set_pixel(&mut self, x: u32, y: u32, color: Color<T>)
        requires
            x < old(self).columns(),
            y < old(self).rows(),
        ensures
            final(self).columns() == old(self).columns(),
            final(self).rows() == old(self).rows(),
            final(self)@ == old(self)@.update(
                pixel_index(old(self).columns() as int, old(self).rows() as int, x as int, y as int),
                color@,
            ),
            final(self).at(x as int, y as int) == color@,
            forall|x2: int, y2: int|
                0 <= x2 < old(self).columns() && 0 <= y2 < old(self).rows() && !(x2 == x && y2 == y)
                    ==> #[trigger] final(self).at(x2, y2) == old(self).at(x2, y2),
    {
        proof {
            use_type_invariant(&*self);
            lemma_pixel_index(
                self.width as int,
                self.height as int,
                x as int,
                y as int,
                x as int,
                y as int,
            );
            assert forall|x2: int, y2: int|
                0 <= x2 < self.width && 0 <= y2 < self.height && !(x2 == x && y2 == y) implies {
                &&& 0 <= #[trigger] pixel_index(self.width as int, self.height as int, x2, y2)
                    < self.width * self.height
                &&& pixel_index(self.width as int, self.height as int, x2, y2) != pixel_index(
                    self.width as int,
                    self.height as int,
                    x as int,
                    y as int,
                )
            } by {
                lemma_pixel_index(self.width as int, self.height as int, x2, y2, x as int, y as int);
            }
        }
        let index = self.index(x, y);
        let ghost before = self@;
        self.buffer[index] = color;
        assert(self@ =~= before.update(index as int, color@));
    }

    /// The colour of the pixel in column `x` of row `y`, rows counted from
    /// the bottom.
    pub fn pixel(&self, x: u32, y: u32) -> (r: Color<T>)
        requires
            x < self.columns(),
            y < self.rows(),
        ensures
            r@ == self.at(x as int, y as int),
    {
        proof {
            use_type_invariant(self);
            lemma_pixel_index(
                self.width as int,
                self.height as int,
                x as int,
                y as int,
                x as int,
                y as int,
            );
        }
        let index = self.index(x, y);
        self.buffer[index]
    }

    /// The colours of all pixels, row by row from the top row down and from
    /// left to right in each row.
    pub fn colors(&self) -> (r: &Vec<Color<T>>)
        ensures
            r@.len() == self@.len(),
            r@.len() == self.columns() * self.rows(),
            forall|i: int| 0 <= i < r@.len() ==> (#[trigger] r@[i])@ == self@[i],
    {
        proof {
            use_type_invariant(self);
        }
        &self.buffer
    }

    pub fn width(&self) -> (r: u32)
        ensures
            r == self.columns(),
            self@.len() == self.columns() * self.rows(),
    {
        proof {
            use_type_invariant(self);
        }
        self.width
    }

    pub fn height(&self) -> (r: u32)
        ensures
            r == self.rows(),
            self@.len() == self.columns() * self.rows(),
    {
        proof {
            use_type_invariant(self);
        }
        self.height
    }
}

} // verus!
