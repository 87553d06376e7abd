//! A quantum field with its grid, and the point writes that let a caller
//! disturb it.

use vstd::prelude::*;
use crate::complex::Complex;
use crate::quantum::{delta_seed, QWave, QuantumState, DELTA};
use crate::utils::{Arena, WaveError};

verus! {

/// The cell in row `row` and column `col` of a grid of width `width`, rows
/// counted from the top.
pub open spec fn cell(width: int, row: int, col: int) -> int {
    row * width + col
}

/// Whether every point of `points` names a row and a column of the grid.
pub open spec fn all_on_grid(arena: Arena, points: Seq<(u32, u32, Complex)>) -> bool {
    forall|k: int|
        0 <= k < points.len() ==> (#[trigger] points[k]).0 < arena.height && points[k].1
            < arena.width
}

/// The field after the amplitudes of `points` are written, one after the
/// other, so that the last write to a cell is the one that stays.
pub open spec fn written(
    state: QuantumState,
    width: int,
    points: Seq<(u32, u32, Complex)>,
) -> QuantumState
    decreases points.len(),
{
    if points.len() == 0 {
        state
    } else {
        let last = points.last();
        written(state, width, points.drop_last()).with_psi(
            cell(width, last.0 as int, last.1 as int),
            last.2,
        )
    }
}

/// A quantum field together with the grid it lives on.
pub struct Laboratory {
    arena: Arena,
    wave: QWave,
}

impl Laboratory {
    /// The grid.
    pub closed spec fn arena(&self) -> Arena {
        self.arena
    }

    /// The field.
    pub closed spec fn state(&self) -> QuantumState {
        self.wave@
    }

    /// The grid is well formed and the field has one amplitude for each of
    /// its cells.
    pub open spec fn wf(&self) -> bool {
        &&& self.arena().wf()
        &&& self.state().fits(self.arena())
    }

    /// A `width` by `height` grid with a point excitation at its centre. A
    /// grid with fewer than three rows or columns is turned down. The number
    /// of cells has to fit in a `usize`.
    pub fn new(width: u32, height: u32) -> (made: Result<Laboratory, WaveError>)
        requires
            width as int * height as int <= usize::MAX,
        ensures
            width < 3 || height < 3 <==> (made matches Err(e) && e == WaveError::GridTooSmall),
            width >= 3 && height >= 3 <==> made is Ok,
            made is Ok ==> {
                let lab = made->Ok_0;
                &&& lab.wf()
                &&& lab.arena().width == width
                &&& lab.arena().height == height
                &&& lab.state() == QuantumState::seeded(lab.arena(), delta_seed(lab.arena()))
            },
    {
        match Arena::new(width, height) {
            Ok(arena) => {
                let wave = QWave::new(&arena);
                Ok(Laboratory { arena, wave })
            },
            Err(e) => Err(e),
        }
    }

    /// One leapfrog step of the field. `shift` shifts a 32-bit amplitude, so
    /// it is less than 32.
    pub fn step(&mut self, shift: u8)
        requires
            old(self).wf(),
            shift < 32,
        ensures
            final(self).wf(),
            final(self).arena() == old(self).arena(),
            final(self).state() == old(self).state().step(old(self).arena(), shift),
    {
        self.wave.step(&self.arena, shift);
    }

    /// The number of columns.
    pub fn width(&self) -> (w: u32)
        ensures
            w == self.arena().width,
    {
        self.arena.width
    }

    /// The number of rows.
    pub fn height(&self) -> (h: u32)
        ensures
            h == self.arena().height,
    {
        self.arena.height
    }

    /// The present amplitude of every cell, row by row.
    pub fn get_psi(&self) -> (psi: &[Complex])
        ensures
            psi@ == self.state().psi,
    {
        self.wave.psi().as_slice()
    }

    /// The cell in row `row` and column `col`.
    fn get_index(&self, row: u32, col: u32) -> (idx: usize)
        requires
            self.wf(),
            row < self.arena().height,
            col < self.arena().width,
        ensures
            idx == cell(self.arena().width as int, row as int, col as int),
            idx < self.arena().size(),
    {
        let w: usize = self.arena.width as usize;
        let r: usize = row as usize;
        let c: usize = col as usize;
        assert(r * w + c < w * self.arena.height && r * w >= 0) by (nonlinear_arith)
            requires
                0 <= r < self.arena.height,
                0 <= c < w,
        ;
        r * w + c
    }

    /// Writes the amplitudes of `psi`, each given with its row and column,
    /// one after the other. If any point lies outside the grid nothing is
    /// written and the request is turned down.
    pub fn set_psi(&mut self, psi: &[(u32, u32, Complex)]) -> (done: Result<(), WaveError>)
        requires
            old(self).wf(),
        ensures
            final(self).wf(),
            final(self).arena() == old(self).arena(),
            all_on_grid(old(self).arena(), psi@) ==> done is Ok && final(self).state() == written(
                old(self).state(),
                old(self).arena().width as int,
                psi@,
            ),
            !all_on_grid(old(self).arena(), psi@) ==> done == Err::<(), WaveError>(
                WaveError::OutOfBounds,
            ) && final(self).state() == old(self).state(),
    {
        let n: usize = psi.len();
        let mut k: usize = 0;
        while k < n
            invariant
                k <= n,
                n == psi@.len(),
                *self == *old(self),
                self.wf(),
                forall|j: int|
                    0 <= j < k ==> (#[trigger] psi@[j]).0 < self.arena.height && psi@[j].1
                        < self.arena.width,
            decreases n - k,
        {
            if psi[k].0 >= self.arena.height || psi[k].1 >= self.arena.width {
                return Err(WaveError::OutOfBounds);
            }
            k += 1;
        }
        let ghost before = self.wave@;
        let ghost width = self.arena.width as int;
        k = 0;
        while k < n
            invariant
                k <= n,
                n == psi@.len(),
                self.wf(),
                self.arena == old(self).arena,
                width == self.arena.width,
                all_on_grid(self.arena, psi@),
                self.wave@ == written(before, width, psi@.take(k as int)),
            decreases n - k,
        {
            let point: (u32, u32, Complex) = psi[k];
            let idx: usize = self.get_index(point.0, point.1);
            self.wave.set(idx, point.2);
            proof {
                assert(psi@.take(k + 1).drop_last() =~= psi@.take(k as int));
                assert(psi@.take(k + 1).last() == psi@[k as int]);
            }
            k += 1;
        }
        assert(psi@.take(n as int) =~= psi@);
        Ok(())
    }

    /// Writes a point excitation, the real amplitude `DELTA`, at the row and
    /// the column that `point` gives. A point outside the grid is turned
    /// down and nothing is written.
    pub fn delta_psi(&mut self, point: &(u32, u32)) -> (done: Result<(), WaveError>)
        requires
            old(self).wf(),
        ensures
            final(self).wf(),
            final(self).arena() == old(self).arena(),
            point.0 < old(self).arena().height && point.1 < old(self).arena().width ==> done is Ok
                && final(self).state() == old(self).state().with_psi(
                cell(old(self).arena().width as int, point.0 as int, point.1 as int),
                Complex { re: DELTA, im: 0 },
            ),
            !(point.0 < old(self).arena().height && point.1 < old(self).arena().width) ==> done
                == Err::<(), WaveError>(WaveError::OutOfBounds) && final(self).state() == old(
                self,
            ).state(),
    {
        if point.0 >= self.arena.height || point.1 >= self.arena.width {
            return Err(WaveError::OutOfBounds);
        }
        let idx: usize = self.get_index(point.0, point.1);
        self.wave.set(idx, Complex { re: DELTA, im: 0 });
        Ok(())
    }
}

} // verus!
