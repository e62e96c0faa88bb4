use vstd::prelude::*;

verus! {

/// The scalar that vectors, colours and scenes are built from.
///
/// An implementation is a floating-point number or something that behaves
/// like one. The library never looks inside a scalar. It knows each
/// operation only as a function of its arguments, named by the spec function
/// beside it, and the order `below` only as a strict partial order in which
/// zero lies below one. It relies on nothing else: not on associativity, not
/// on distributivity, and not on the order being total, so that a value
/// which compares with nothing, such as a NaN, is a scalar like any other.
///
/// The library holds no implementation of its own, so what it proves holds
/// of an implementation only as far as that meets the contracts below: each
/// executable method returns the same value for the same arguments, and `lt`
/// is irreflexive and transitive and puts zero below one.
pub trait VertexFormat: Sized + Copy + core::fmt::Debug {
    /// The scalar nearest to the integer `n`.
    spec fn of_u32(n: u32) -> Self;

    /// The scalar above every finite one.
    spec fn unbounded() -> Self;

    /// `self + rhs`.
    spec fn sum(self, rhs: Self) -> Self;

    /// `self - rhs`.
    spec fn diff(self, rhs: Self) -> Self;

    /// `self * rhs`.
    spec fn prod(self, rhs: Self) -> Self;

    /// `self / rhs`.
    spec fn quot(self, rhs: Self) -> Self;

    /// `-self`.
    spec fn negated(self) -> Self;

    /// The square root of `self`.
    spec fn root(self) -> Self;

    /// The tangent of the angle `self`, in radians.
    spec fn tangent(self) -> Self;

    /// The angle, in radians, whose tangent is `self`.
    spec fn arctangent(self) -> Self;

    /// `self` raised to `exponent`.
    spec fn power(self, exponent: Self) -> Self;

    /// `self < rhs`.
    spec fn below(self, rhs: Self) -> bool;

    /// `self` cut off towards zero, if that fits into a byte.
    spec fn as_byte(self) -> Option<u8>;

    /// No scalar lies below itself.
    proof fn below_irreflexive(a: Self)
        ensures
            !a.below(a),
    ;

    /// The order is transitive.
    proof fn below_transitive(a: Self, b: Self, c: Self)
        requires
            a.below(b),
            b.below(c),
        ensures
            a.below(c),
    ;

    /// Zero lies below one.
    proof fn zero_below_one()
        ensures
            Self::of_u32(0).below(Self::of_u32(1)),
    ;

    fn from_u32(n: u32) -> (r: Self)
        ensures
            r == Self::of_u32(n),
    ;

    fn infinity() -> (r: Self)
        ensures
            r == Self::unbounded(),
    ;

    fn add(self, rhs: Self) -> (r: Self)
        ensures
            r == self.sum(rhs),
    ;

    fn sub(self, rhs: Self) -> (r: Self)
        ensures
            r == self.diff(rhs),
    ;

    fn mul(self, rhs: Self) -> (r: Self)
        ensures
            r == self.prod(rhs),
    ;

    fn div(self, rhs: Self) -> (r: Self)
        ensures
            r == self.quot(rhs),
    ;

    fn neg(self) -> (r: Self)
        ensures
            r == self.negated(),
    ;

    fn sqrt(self) -> (r: Self)
        ensures
            r == self.root(),
    ;

    fn tan(self) -> (r: Self)
        ensures
            r == self.tangent(),
    ;

    fn atan(self) -> (r: Self)
        ensures
            r == self.arctangent(),
    ;

    fn powf(self, exponent: Self) -> (r: Self)
        ensures
            r == self.power(exponent),
    ;

    fn lt(self, rhs: Self) -> (r: bool)
        ensures
            r == self.below(rhs),
    ;

    fn to_u8(self) -> (r: Option<u8>)
        ensures
            r == self.as_byte(),
    ;
}

/// The scalar zero.
pub open spec fn zero<T: VertexFormat>() -> T {
    T::of_u32(0)
}

/// The scalar one.
pub open spec fn one<T: VertexFormat>() -> T {
    T::of_u32(1)
}

/// The shift that moves a hit point off its surface: one millionth.
pub open spec fn epsilon<T: VertexFormat>() -> T {
    T::of_u32(1).quot(T::of_u32(1_000_000))
}

/// `v1` where it lies above `v2`, else `v2`.
pub open spec fn greater<T: VertexFormat>(v1: T, v2: T) -> T {
    if v2.below(v1) {
        v1
    } else {
        v2
    }
}

/// `v1` where it lies below `v2`, else `v2`.
pub open spec fn lesser<T: VertexFormat>(v1: T, v2: T) -> T {
    if v1.below(v2) {
        v1
    } else {
        v2
    }
}

/// `a` without its sign.
pub open spec fn magnitude<T: VertexFormat>(a: T) -> T {
    if a.below(zero::<T>()) {
        a.negated()
    } else {
        a
    }
}

/// `a` brought into the range from zero to one.
pub open spec fn clamp_unit<T: VertexFormat>(a: T) -> T {
    greater(zero::<T>(), lesser(one::<T>(), a))
}

/// Whether `a` lies in the range from zero to one, both ends included.
pub open spec fn in_unit_range<T: VertexFormat>(a: T) -> bool {
    !a.below(zero::<T>()) && !one::<T>().below(a)
}

/// The larger of two scalars; the second where neither is larger.
pub fn max<T: VertexFormat>(v1: T, v2: T) -> (r: T)
    ensures
        r == greater(v1, v2),
{
    if v2.lt(v1) {
        v1
    } else {
        v2
    }
}

/// The smaller of two scalars; the second where neither is smaller.
pub fn min<T: VertexFormat>(v1: T, v2: T) -> (r: T)
    ensures
        r == lesser(v1, v2),
{
    if v1.lt(v2) {
        v1
    } else {
        v2
    }
}

/// The absolute value.
pub fn abs<T: VertexFormat>(a: T) -> (r: T)
    ensures
        r == magnitude(a),
{
    if a.lt(T::from_u32(0)) {
        a.neg()
    } else {
        a
    }
}

/// Clamps a scalar to the range from zero to one.
pub fn clamp<T: VertexFormat>(a: T) -> (r: T)
    ensures
        r == clamp_unit(a),
{
    max(T::from_u32(0), min(T::from_u32(1), a))
}

/// Whatever goes into `clamp`, what comes out lies in the unit range; and a
/// scalar of the unit range comes out as it went in.
pub proof fn lemma_clamp_in_unit_range<T: VertexFormat>(a: T)
    ensures
        in_unit_range(clamp_unit(a)),
        in_unit_range(a) ==> clamp_unit(a) == a,
{
    T::zero_below_one();
    T::below_irreflexive(zero::<T>());
    T::below_irreflexive(one::<T>());
    if one::<T>().below(zero::<T>()) {
        T::below_transitive(zero::<T>(), one::<T>(), zero::<T>());
    }
}

/// The unit range includes its ends.
pub proof fn lemma_unit_range_has_its_ends<T: VertexFormat>()
    ensures
        in_unit_range(zero::<T>()),
        in_unit_range(one::<T>()),
{
    T::zero_below_one();
    T::below_irreflexive(zero::<T>());
    T::below_irreflexive(one::<T>());
    if one::<T>().below(zero::<T>()) {
        T::below_transitive(zero::<T>(), one::<T>(), zero::<T>());
    }
}

} // verus!
