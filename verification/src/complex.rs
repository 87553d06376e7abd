//! Complex amplitudes in fixed point, and the complex arithmetic of `num`
//! that the leapfrog scheme is written with.

use vstd::prelude::*;
use crate::utils::{cap, Rectified};

verus! {

/// A complex amplitude: a real and an imaginary part in fixed point.
#[derive(Clone, Copy, Debug, PartialEq, Eq, Structural)]
pub struct Complex {
    pub re: i32,
    pub im: i32,
}

/// A sum of complex amplitudes, with room for what a stencil adds up.
#[derive(Clone, Copy, Debug, PartialEq, Eq, Structural)]
pub struct Wide {
    pub re: i64,
    pub im: i64,
}

impl Complex {
    /// The amplitude zero.
    pub open spec fn zero() -> Complex {
        Complex { re: 0, im: 0 }
    }

    /// The same number with 64-bit parts.
    pub open spec fn wide(self) -> Wide {
        Wide { re: self.re as i64, im: self.im as i64 }
    }

    /// The same number with 64-bit parts.
    pub fn widen(self) -> (w: Wide)
        ensures
            w == self.wide(),
    {
        Wide { re: self.re as i64, im: self.im as i64 }
    }
}

impl Rectified for Complex {
    open spec fn capped(self) -> Complex {
        Complex { re: cap(self.re as int) as i32, im: cap(self.im as int) as i32 }
    }

    fn apply_cap(self) -> (r: Complex) {
        Complex { re: self.re.apply_cap(), im: self.im.apply_cap() }
    }
}

/// The difference of two complex numbers as `num` computes it: `Sub` of
/// `num::complex::Complex` subtracts the real parts and the imaginary parts.
/// Differences that do not fit in 64 bits are left out.
#[verifier::external_body]
pub(crate) fn wide_sub(a: Wide, b: Wide) -> (d: Wide)
    requires
        i64::MIN <= a.re - b.re <= i64::MAX,
        i64::MIN <= a.im - b.im <= i64::MAX,
    ensures
        d.re == a.re - b.re,
        d.im == a.im - b.im,
{
    let d = num::complex::Complex::new(a.re, a.im) - num::complex::Complex::new(b.re, b.im);
    Wide { re: d.re, im: d.im }
}

/// A complex number times a real factor as `num` computes it: `Mul` of an
/// `i64` with a `num::complex::Complex` multiplies both parts by the factor.
/// Products that do not fit in 64 bits are left out.
#[verifier::external_body]
pub(crate) fn wide_scale(k: i64, a: Wide) -> (p: Wide)
    requires
        i64::MIN <= k * a.re <= i64::MAX,
        i64::MIN <= k * a.im <= i64::MAX,
    ensures
        p.re == k * a.re,
        p.im == k * a.im,
{
    let p = k * num::complex::Complex::new(a.re, a.im);
    Wide { re: p.re, im: p.im }
}

} // verus!
