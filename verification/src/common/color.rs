use vstd::prelude::*;
use crate::common::scalar::{clamp, clamp_unit, in_unit_range, lemma_clamp_in_unit_range, VertexFormat};
use crate::common::vector::Vec3;

verus! {

/// Whether every channel of `v` lies in the range from zero to one.
pub open spec fn is_valid_color<T: VertexFormat>(v: Vec3<T>) -> bool {
    in_unit_range(v.x) && in_unit_range(v.y) && in_unit_range(v.z)
}

/// `v` with every channel brought into the range from zero to one.
pub open spec fn clamped<T: VertexFormat>(v: Vec3<T>) -> Vec3<T> {
    Vec3 { x: clamp_unit(v.x), y: clamp_unit(v.y), z: clamp_unit(v.z) }
}

/// One channel as a byte: 255 times the channel, cut off towards zero.
pub open spec fn channel_byte<T: VertexFormat>(a: T) -> Option<u8> {
    T::of_u32(255).prod(a).as_byte()
}

/// A colour: red, green and blue, each meant to lie between zero and one.
/// The view of a colour is the vector of its channels.
#[derive(Debug, Clone, Copy)]
pub struct Color<T: VertexFormat> {
    color: Vec3<T>,
}

impl<T: VertexFormat> View for Color<T> {
    type V = Vec3<T>;

    closed spec fn view(&self) -> Vec3<T> {
        self.color
    }
}

impl<T: VertexFormat> Color<T> {
    /// The colour with the given channels, where each lies between zero and
    /// one; the ends of the range are accepted.
    pub fn new(red: T, green: T, blue: T) -> (r: Option<Color<T>>)
        ensures
            r is Some <==> is_valid_color(Vec3 { x: red, y: green, z: blue }),
            r is Some ==> r.unwrap()@ == (Vec3 { x: red, y: green, z: blue }),
    {
        Color::from_color_vertex(Vec3::new(red, green, blue))
    }

    /// The colour with the given channels, whatever they are: for the
    /// intensity of a light, which may exceed one.
    pub fn new_unclipped(red: T, green: T, blue: T) -> (r: Color<T>)
        ensures
            r@ == (Vec3 { x: red, y: green, z: blue }),
    {
        Color { color: Vec3::new(red, green, blue) }
    }

    /// The colour nearest to `color` whose channels lie between zero and one.
    pub fn clipped(color: Vec3<T>) -> (r: Color<T>)
        ensures
            r@ == clamped(color),
            is_valid_color(r@),
            is_valid_color(color) ==> r@ == color,
    {
        proof {
            lemma_clamp_in_unit_range(color.x);
            lemma_clamp_in_unit_range(color.y);
            lemma_clamp_in_unit_range(color.z);
        }
        Color { color: Vec3 { x: clamp(color.x), y: clamp(color.y), z: clamp(color.z) } }
    }

    /// The colour whose channels are those of `color`, where each lies
    /// between zero and one; the ends of the range are accepted.
    pub fn from_color_vertex(color: Vec3<T>) -> (r: Option<Color<T>>)
        ensures
            r is Some <==> is_valid_color(color),
            r is Some ==> r.unwrap()@ == color,
    {
        let upper_threshhold = T::from_u32(1);
        let lower_threshhold = T::from_u32(0);
        if upper_threshhold.lt(color.x) || upper_threshhold.lt(color.y) || upper_threshhold.lt(
            color.z,
        ) {
            return None;
        } else if color.x.lt(lower_threshhold) || color.y.lt(lower_threshhold) || color.z.lt(
            lower_threshhold,
        ) {
            return None;
        }
        Some(Color { color })
    }

    pub fn color_vector(&self) -> (r: &Vec3<T>)
        ensures
            *r == self@,
    {
        &self.color
    }

    /// Adds `other` channel by channel and clamps the sum.
    pub fn clip_add(&mut self, other: &Color<T>)
        ensures
            final(self)@ == clamped(old(self)@.plus(other@)),
            is_valid_color(final(self)@),
    {
        let sum = self.color.add(&other.color);
        let clipped = Color::clipped(sum);
        self.color = clipped.color;
    }

    /// Scales every channel by `value` and clamps the product.
    pub fn clip_mul(&mut self, value: T)
        ensures
            final(self)@ == clamped(old(self)@.scaled(value)),
            is_valid_color(final(self)@),
    {
        let product = self.color.mul(value);
        let clipped = Color::clipped(product);
        self.color = clipped.color;
    }

    /// The channels as bytes: each is 255 times the channel, cut off towards
    /// zero. `None` where a product does not fit into a byte.
    pub fn to_rgb(&self) -> (r: Option<(u8, u8, u8)>)
        ensures
            r == rgb_of(self@),
    {
        let scale = T::from_u32(255);
        match scale.mul(self.color.x).to_u8() {
            Some(red) => match scale.mul(self.color.y).to_u8() {
                Some(green) => match scale.mul(self.color.z).to_u8() {
                    Some(blue) => Some((red, green, blue)),
                    None => None,
                },
                None => None,
            },
            None => None,
        }
    }
}

/// The three channels of `v` as bytes, where all three fit.
pub open spec fn rgb_of<T: VertexFormat>(v: Vec3<T>) -> Option<(u8, u8, u8)> {
    match (channel_byte(v.x), channel_byte(v.y), channel_byte(v.z)) {
        (Some(red), Some(green), Some(blue)) => Some((red, green, blue)),
        _ => None,
    }
}

} // verus!
