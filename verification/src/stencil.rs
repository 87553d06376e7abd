//! What one step does to one cell: the arithmetic of the two schemes, over
//! integers, and the facts about shifts that keep it inside 64 bits.

use vstd::prelude::*;
use vstd::arithmetic::div_mod::{
    lemma_fundamental_div_mod,
    lemma_fundamental_div_mod_converse,
    lemma_mod_bound,
};
use vstd::arithmetic::power2::{lemma_pow2_pos, pow2};
use vstd::bits::lemma_u64_shr_is_div;
use crate::complex::Complex;
use crate::utils::{cap, Arena};

verus! {

/// `x` shifted right by `s` bits with its sign kept, for an `x` that fits in
/// 64 bits: `x` divided by 2^`s` and rounded down.
pub open spec fn shifted(x: int, s: u8) -> int {
    ((x as i64) >> s) as int
}

/// Second difference of the displacement `u` along one axis, `a` and `b`
/// being the two neighbours of `c`: the mean of the neighbours less the cell.
pub open spec fn curvature(a: i32, c: i32, b: i32) -> int {
    shifted(a + b, 1) - c
}

/// The velocity of cell `i` after a step of the damped wave equation on a
/// grid of width `w`: the old velocity plus half of each curvature, less its
/// share `2^-damping` where `damping` is positive, capped.
pub open spec fn next_velocity(u: Seq<i32>, v: Seq<i32>, w: int, i: int, damping: u8) -> int {
    let uxx = curvature(u[i - 1], u[i], u[i + 1]);
    let uyy = curvature(u[i - w], u[i], u[i + w]);
    let vel = v[i] + shifted(uxx, 1) + shifted(uyy, 1);
    if damping > 0 {
        cap(vel - shifted(vel, damping))
    } else {
        cap(vel)
    }
}

/// The displacement of a cell after a step: the old one moved by the new
/// velocity and capped, then pushed by the force and capped again.
pub open spec fn next_displacement(u: i32, vel: int, force: i32) -> int {
    cap(force + cap(u + vel))
}

/// The force on a cell after a step: it loses its share `2^-shift`.
pub open spec fn next_force(force: i32, shift: u8) -> int {
    force - shifted(force as int, shift)
}

/// Real part of the discrete Laplacian of `psi` at cell `i`: along each axis
/// the two neighbours less twice the cell.
pub open spec fn laplacian_re(psi: Seq<Complex>, w: int, i: int) -> int {
    (psi[i - 1].re + psi[i + 1].re - 2 * psi[i].re) + (psi[i + w].re + psi[i - w].re - 2
        * psi[i].re)
}

/// Imaginary part of the discrete Laplacian of `psi` at cell `i`.
pub open spec fn laplacian_im(psi: Seq<Complex>, w: int, i: int) -> int {
    (psi[i - 1].im + psi[i + 1].im - 2 * psi[i].im) + (psi[i + w].im + psi[i - w].im - 2
        * psi[i].im)
}

/// The amplitude of cell `i` after a leapfrog step: the amplitude of the step
/// before, moved by `i` times the Laplacian of the present one, scaled down by
/// `shift` bits. Multiplying by `i` swaps the parts and flips one sign.
pub open spec fn leap(psi: Seq<Complex>, prev: Seq<Complex>, w: int, i: int, shift: u8) -> Complex {
    Complex {
        re: cap(prev[i].re - shifted(laplacian_im(psi, w, i), shift)) as i32,
        im: cap(prev[i].im + shifted(laplacian_re(psi, w, i), shift)) as i32,
    }
}

/// A right shift brings a 64-bit value no further from zero, and keeps its
/// sign.
pub proof fn shifted_between(x: i64, s: u8)
    requires
        s < 64,
    ensures
        x >= 0 ==> 0 <= shifted(x as int, s) <= x,
        x < 0 ==> x <= shifted(x as int, s) < 0,
{
    assert(x >= 0 ==> (x >> s) >= 0 && (x >> s) <= x) by (bit_vector)
        requires
            s < 64,
    ;
    assert(x < 0 ==> (x >> s) < 0 && (x >> s) >= x) by (bit_vector)
        requires
            s < 64,
    ;
}

/// What `shifted` is in plain arithmetic: a 64-bit `x` shifted right by `s`
/// bits is `x` divided by 2^`s` and rounded down, also where `x` is negative.
pub proof fn shifted_is_floor_division(x: i64, s: u8)
    requires
        s < 64,
    ensures
        shifted(x as int, s) == x as int / pow2(s as nat) as int,
{
    let p = pow2(s as nat) as int;
    lemma_pow2_pos(s as nat);
    if x >= 0 {
        let ux = x as u64;
        let us = s as u64;
        assert((x >> s) == (ux >> us)) by (bit_vector)
            requires
                x >= 0,
                s < 64,
                ux == x as u64,
                us == s as u64,
        ;
        lemma_u64_shr_is_div(ux, us);
    } else {
        let y: i64 = (-1 - x) as i64;
        let uy = y as u64;
        let us = s as u64;
        assert((x >> s) == -1 - (uy >> us)) by (bit_vector)
            requires
                x < 0,
                s < 64,
                y == -1 - x,
                uy == y as u64,
                us == s as u64,
        ;
        lemma_u64_shr_is_div(uy, us);
        let q = y as int / p;
        let r = y as int % p;
        lemma_fundamental_div_mod(y as int, p);
        lemma_mod_bound(y as int, p);
        assert(x as int == (-1 - q) * p + (p - 1 - r)) by (nonlinear_arith)
            requires
                y as int == p * q + r,
                y as int == -1 - x as int,
        ;
        lemma_fundamental_div_mod_converse(x as int, p, -1 - q, p - 1 - r);
    }
}

/// A cell inside the wall has its four neighbours on the grid.
pub proof fn interior_has_neighbours(arena: Arena, i: int)
    requires
        arena.wf(),
        arena.interior(i),
    ensures
        0 <= i - arena.width,
        i + arena.width < arena.size(),
        0 <= i - 1,
        i + 1 < arena.size(),
{
    let w = arena.width as int;
    let h = arena.height as int;
    assert(i == (i / w) * w + i % w) by (nonlinear_arith)
        requires
            w > 0,
    ;
    assert(0 <= i / w) by (nonlinear_arith)
        requires
            w > 0,
            i >= 0,
    ;
    let row = i / w;
    assert(row < h) by (nonlinear_arith)
        requires
            row == i / w,
            0 <= i < w * h,
            w > 0,
    ;
    assert(row * w >= w && (row + 1) * w + w <= w * h) by (nonlinear_arith)
        requires
            1 <= row <= h - 2,
            w > 0,
    ;
    assert((row + 1) * w == row * w + w) by (nonlinear_arith);
}

} // verus!
