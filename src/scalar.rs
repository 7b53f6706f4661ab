use vstd::prelude::*;

verus! {

/// The entries of a matrix: a ring whose operations are described by spec
/// functions, so that matrix results can be stated exactly.
pub trait Scalar: Sized + Copy {
    spec fn zero_spec() -> Self;

    spec fn one_spec() -> Self;

    spec fn plus_spec(a: Self, b: Self) -> Self;

    spec fn times_spec(a: Self, b: Self) -> Self;

    fn zero() -> (r: Self)
        ensures
            r == Self::zero_spec(),
    ;

    fn one() -> (r: Self)
        ensures
            r == Self::one_spec(),
    ;

    fn plus(&self, o: &Self) -> (r: Self)
        ensures
            r == Self::plus_spec(*self, *o),
    ;

    fn times(&self, o: &Self) -> (r: Self)
        ensures
            r == Self::times_spec(*self, *o),
    ;
}

/// A complex number with integer parts (a Gaussian integer), with arithmetic
/// that wraps on overflow of either part. Its arithmetic is exact, so two
/// compositions can be compared entry by entry.
#[derive(Clone, Copy, Debug, PartialEq, Eq, Structural)]
pub struct GaussianInt {
    pub re: i64,
    pub im: i64,
}

impl GaussianInt {
    pub fn new(re: i64, im: i64) -> (r: GaussianInt)
        ensures
            r.re == re,
            r.im == im,
    {
        GaussianInt { re, im }
    }
}

impl Scalar for GaussianInt {
    open spec fn zero_spec() -> GaussianInt {
        GaussianInt { re: 0, im: 0 }
    }

    open spec fn one_spec() -> GaussianInt {
        GaussianInt { re: 1, im: 0 }
    }

    open spec fn plus_spec(a: GaussianInt, b: GaussianInt) -> GaussianInt {
        GaussianInt { re: a.re.wrapping_add(b.re), im: a.im.wrapping_add(b.im) }
    }

    open spec fn times_spec(a: GaussianInt, b: GaussianInt) -> GaussianInt {
        GaussianInt {
            re: a.re.wrapping_mul(b.re).wrapping_sub(a.im.wrapping_mul(b.im)),
            im: a.re.wrapping_mul(b.im).wrapping_add(a.im.wrapping_mul(b.re)),
        }
    }

    fn zero() -> (r: GaussianInt) {
        GaussianInt { re: 0, im: 0 }
    }

    fn one() -> (r: GaussianInt) {
        GaussianInt { re: 1, im: 0 }
    }

    fn plus(&self, o: &GaussianInt) -> (r: GaussianInt) {
        GaussianInt { re: self.re.wrapping_add(o.re), im: self.im.wrapping_add(o.im) }
    }

    fn times(&self, o: &GaussianInt) -> (r: GaussianInt) {
        GaussianInt {
            re: self.re.wrapping_mul(o.re).wrapping_sub(self.im.wrapping_mul(o.im)),
            im: self.re.wrapping_mul(o.im).wrapping_add(self.im.wrapping_mul(o.re)),
        }
    }
}

} // verus!
