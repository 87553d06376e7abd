//! Fixed-point wave fields on a walled grid, and the colours they are drawn in.

pub mod utils;
pub mod complex;
pub mod colors;
pub mod stencil;
pub mod waves;
pub mod quantum;
pub mod laboratory;

use vstd::prelude::*;
use crate::utils::{Arena, WaveError};
use crate::waves::{walls_transparent, CWave, ClassicalState};

verus! {

/// A classical field with its grid and its picture, which is drawn anew
/// after every step.
pub struct Canvas {
    arena: Arena,
    image: Vec<u32>,
    wave: CWave,
}

impl Canvas {
    /// The grid.
    pub closed spec fn arena(&self) -> Arena {
        self.arena
    }

    /// The field.
    pub closed spec fn state(&self) -> ClassicalState {
        self.wave@
    }

    /// The picture: one packed colour for each cell, row by row.
    pub closed spec fn picture(&self) -> Seq<u32> {
        self.image@
    }

    /// The grid is well formed, the field has one value for each of its
    /// cells, and the picture shows the field as it is.
    pub open spec fn wf(&self) -> bool {
        &&& self.arena().wf()
        &&& self.state().fits(self.arena())
        &&& self.picture() == self.state().render(self.arena())
    }

    /// A `width` by `height` grid with the field at rest but for the square
    /// stimulus, and its picture. A grid with fewer than three rows or
    /// columns is turned down. The number of cells has to fit in a `usize`.
    pub fn new(width: u32, height: u32) -> (made: Result<Canvas, WaveError>)
        requires
            width as int * height as int <= usize::MAX,
        ensures
            width < 3 || height < 3 <==> (made matches Err(e) && e == WaveError::GridTooSmall),
            width >= 3 && height >= 3 <==> made is Ok,
            made is Ok ==> {
                let canvas = made->Ok_0;
                &&& canvas.wf()
                &&& canvas.arena().width == width
                &&& canvas.arena().height == height
                &&& canvas.state() == ClassicalState::initial(canvas.arena())
            },
    {
        match Arena::new(width, height) {
            Ok(arena) => {
                let wave = CWave::new(&arena);
                let image = wave.render(&arena, false);
                Ok(Canvas { arena, image, wave })
            },
            Err(e) => Err(e),
        }
    }

    /// One step of the field, then its picture anew. `damping_bit_shift`
    /// shifts a 32-bit amplitude, so it is less than 32; `norm_only` is handed
    /// on to the drawing, where a real field has no use for it.
    pub fn step(&mut self, damping_bit_shift: u8, norm_only: bool)
        requires
            old(self).wf(),
            damping_bit_shift < 32,
        ensures
            final(self).wf(),
            final(self).arena() == old(self).arena(),
            final(self).state() == old(self).state().step(old(self).arena(), damping_bit_shift),
    {
        self.wave.step(&self.arena, damping_bit_shift);
        self.image = self.wave.render(&self.arena, norm_only);
    }

    /// The picture as it was drawn last.
    pub fn image(&self) -> (image: &Vec<u32>)
        ensures
            image@ == self.picture(),
    {
        &self.image
    }

    /// The number of columns.
    pub fn width(&self) -> (w: u32)
        ensures
            w == self.arena().width,
    {
        self.arena.width
    }

    /// The number of rows.
    pub fn height(&self) -> (h: u32)
        ensures
            h == self.arena().height,
    {
        self.arena.height
    }
}

/// In the picture of a canvas, whatever steps it has made, a cell of the wall
/// is fully transparent and a cell inside the wall is not.
pub proof fn picture_shows_walls(canvas: Canvas, i: int)
    requires
        canvas.wf(),
        0 <= i < canvas.arena().size(),
    ensures
        canvas.picture().len() == canvas.arena().size(),
        !canvas.arena().interior(i) ==> canvas.picture()[i] == 0,
        canvas.arena().interior(i) ==> canvas.picture()[i] != 0,
{
    walls_transparent(canvas.state(), canvas.arena(), i);
}

} // verus!
