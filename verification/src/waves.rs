//! The classical field: a damped wave equation in fixed point.

use vstd::prelude::*;
use crate::colors::{scalar_color, scalar_color_opaque, HexColor};
use crate::stencil::{
    interior_has_neighbours,
    next_displacement,
    next_force,
    next_velocity,
    shifted_between,
};
use crate::utils::{saturate, Arena, Status, ALPHA, I32_CAP_MAX, I32_CAP_MIN};

verus! {

/// By how many bits the force on a cell is shifted to find what it loses in
/// a step.
pub const FORCE_DAMPING_BIT_SHIFT: u8 = 4;

/// The displacement that the square stimulus starts with.
pub const STIMULUS: i32 = I32_CAP_MAX;

/// First row and column past which the square stimulus begins.
pub const STIMULUS_LOW: usize = 50;

/// Row and column before which the square stimulus ends.
pub const STIMULUS_HIGH: usize = 100;

/// What a classical field holds, cell by cell: displacement, velocity and
/// outside force.
pub struct ClassicalState {
    pub u: Seq<i32>,
    pub v: Seq<i32>,
    pub force: Seq<i32>,
}

/// The displacement that cell `i` starts with: the stimulus on the cells
/// inside the wall whose row and column lie between the two stimulus bounds,
/// zero elsewhere.
pub open spec fn initial_displacement(arena: Arena, i: int) -> i32 {
    let col = i % (arena.width as int);
    let row = i / (arena.width as int);
    if arena.interior(i) && STIMULUS_LOW < col < STIMULUS_HIGH && STIMULUS_LOW < row
        < STIMULUS_HIGH {
        STIMULUS
    } else {
        0
    }
}

impl ClassicalState {
    /// Each of the three fields has one value for each cell of the grid.
    pub open spec fn fits(self, arena: Arena) -> bool {
        &&& self.u.len() == arena.size()
        &&& self.v.len() == arena.size()
        &&& self.force.len() == arena.size()
    }

    /// The field at rest but for the square stimulus.
    pub open spec fn initial(arena: Arena) -> ClassicalState {
        ClassicalState {
            u: Seq::new(arena.size() as nat, |i: int| initial_displacement(arena, i)),
            v: Seq::new(arena.size() as nat, |i: int| 0i32),
            force: Seq::new(arena.size() as nat, |i: int| 0i32),
        }
    }

    /// The velocity of cell `i` after one step.
    pub open spec fn velocity_after(self, arena: Arena, damping: u8, i: int) -> i32 {
        if arena.interior(i) {
            next_velocity(self.u, self.v, arena.width as int, i, damping) as i32
        } else {
            self.v[i]
        }
    }

    /// The displacement of cell `i` after one step.
    pub open spec fn displacement_after(self, arena: Arena, damping: u8, i: int) -> i32 {
        if arena.interior(i) {
            next_displacement(
                self.u[i],
                self.velocity_after(arena, damping, i) as int,
                self.force[i],
            ) as i32
        } else {
            self.u[i]
        }
    }

    /// The force on cell `i` after one step.
    pub open spec fn force_after(self, arena: Arena, i: int) -> i32 {
        if arena.interior(i) {
            next_force(self.force[i], FORCE_DAMPING_BIT_SHIFT) as i32
        } else {
            self.force[i]
        }
    }

    /// The field after one step: every cell inside the wall moves, every cell
    /// of the wall stays as it is.
    pub open spec fn step(self, arena: Arena, damping: u8) -> ClassicalState {
        ClassicalState {
            u: Seq::new(self.u.len(), |i: int| self.displacement_after(arena, damping, i)),
            v: Seq::new(self.v.len(), |i: int| self.velocity_after(arena, damping, i)),
            force: Seq::new(self.force.len(), |i: int| self.force_after(arena, i)),
        }
    }

    /// The field after `n` steps.
    pub open spec fn steps(self, arena: Arena, damping: u8, n: nat) -> ClassicalState
        decreases n,
    {
        if n == 0 {
            self
        } else {
            self.steps(arena, damping, (n - 1) as nat).step(arena, damping)
        }
    }

    /// The colour of cell `i`: a cell of the wall is fully transparent, a cell
    /// inside it has the colour of its displacement.
    pub open spec fn color_at(self, arena: Arena, i: int) -> u32 {
        if arena.interior(i) {
            scalar_color(self.u[i])
        } else {
            0
        }
    }

    /// The field with the force on cell `i` replaced.
    pub open spec fn with_force(self, i: int, force: i32) -> ClassicalState {
        ClassicalState { u: self.u, v: self.v, force: self.force.update(i, force) }
    }

    /// The picture of the field, one colour for each cell.
    pub open spec fn render(self, arena: Arena) -> Seq<u32> {
        Seq::new(self.u.len(), |i: int| self.color_at(arena, i))
    }
}

/// A classical field on a grid.
pub struct CWave {
    u: Vec<i32>,
    v: Vec<i32>,
    force: Vec<i32>,
}

impl View for CWave {
    type V = ClassicalState;

    closed spec fn view(&self) -> ClassicalState {
        ClassicalState { u: self.u@, v: self.v@, force: self.force@ }
    }
}

impl CWave {
    /// The field at rest on `arena`, but for the square stimulus.
    pub fn new(arena: &Arena) -> (wave: CWave)
        requires
            arena.wf(),
        ensures
            wave@ == ClassicalState::initial(*arena),
            wave@.fits(*arena),
    {
        let w: usize = arena.width as usize;
        let h: usize = arena.height as usize;
        assert(w * h == arena.size()) by (nonlinear_arith)
            requires
                w == arena.width,
                h == arena.height,
                arena.size() == arena.width as int * arena.height as int,
        ;
        let n: usize = w * h;
        let mut u: Vec<i32> = Vec::with_capacity(n);
        let mut v: Vec<i32> = Vec::with_capacity(n);
        let mut force: Vec<i32> = Vec::with_capacity(n);
        let mut i: usize = 0;
        while i < n
            invariant
                i <= n,
                n == arena.size(),
                w == arena.width,
                arena.wf(),
                u@.len() == i,
                v@.len() == i,
                force@.len() == i,
                forall|k: int| 0 <= k < i ==> #[trigger] u@[k] == initial_displacement(*arena, k),
                forall|k: int| 0 <= k < i ==> #[trigger] v@[k] == 0,
                forall|k: int| 0 <= k < i ==> #[trigger] force@[k] == 0,
            decreases n - i,
        {
            let col: usize = i % w;
            let row: usize = i / w;
            let inside: bool = match arena.status[i] {
                Status::Default => true,
                Status::Wall => false,
            };
            if inside && STIMULUS_LOW < col && col < STIMULUS_HIGH && STIMULUS_LOW < row && row
                < STIMULUS_HIGH {
                u.push(STIMULUS);
            } else {
                u.push(0);
            }
            v.push(0);
            force.push(0);
            i += 1;
        }
        let wave = CWave { u, v, force };
        assert(wave@.u =~= ClassicalState::initial(*arena).u);
        assert(wave@.v =~= ClassicalState::initial(*arena).v);
        assert(wave@.force =~= ClassicalState::initial(*arena).force);
        wave
    }

    /// One step of the damped wave equation. The first pass finds the new
    /// velocity of every cell inside the wall from the displacements as they
    /// were; the second moves each displacement by its new velocity and lets
    /// the force decay. `damping` shifts a 32-bit amplitude, so it is less
    /// than 32; zero leaves the velocity undamped.
    pub fn step(&mut self, arena: &Arena, damping: u8)
        requires
            arena.wf(),
            old(self)@.fits(*arena),
            damping < 32,
        ensures
            final(self)@ == old(self)@.step(*arena, damping),
            final(self)@.fits(*arena),
    {
        let w: usize = arena.width as usize;
        let n: usize = self.u.len();
        let ghost before = self@;
        let mut i: usize = 0;
        while i < n
            invariant
                i <= n,
                n == arena.size(),
                w == arena.width,
                arena.wf(),
                damping < 32,
                before.fits(*arena),
                self.u@ == before.u,
                self.force@ == before.force,
                self.v@.len() == n,
                forall|k: int|
                    0 <= k < i ==> #[trigger] self.v@[k] == before.velocity_after(
                        *arena,
                        damping,
                        k,
                    ),
                forall|k: int| i <= k < n ==> #[trigger] self.v@[k] == before.v[k],
            decreases n - i,
        {
            match arena.status[i] {
                Status::Default => {
                    proof {
                        interior_has_neighbours(*arena, i as int);
                    }
                    let u_cen: i64 = self.u[i] as i64;
                    let we: i64 = self.u[i - 1] as i64 + self.u[i + 1] as i64;
                    let ns: i64 = self.u[i - w] as i64 + self.u[i + w] as i64;
                    proof {
                        shifted_between(we, 1);
                        shifted_between(ns, 1);
                    }
                    let uxx: i64 = (we >> 1u8) - u_cen;
                    let uyy: i64 = (ns >> 1u8) - u_cen;
                    proof {
                        shifted_between(uxx, 1);
                        shifted_between(uyy, 1);
                    }
                    let mut vel: i64 = self.v[i] as i64 + (uxx >> 1u8) + (uyy >> 1u8);
                    if damping > 0 {
                        proof {
                            shifted_between(vel, damping);
                        }
                        vel = vel - (vel >> damping);
                    }
                    self.v.set(i, saturate(vel));
                },
                Status::Wall => {},
            }
            i += 1;
        }
        let ghost moving = self@;
        i = 0;
        while i < n
            invariant
                i <= n,
                n == arena.size(),
                arena.wf(),
                before.fits(*arena),
                self.v@ == moving.v,
                moving.v.len() == n,
                forall|k: int|
                    0 <= k < n ==> #[trigger] moving.v[k] == before.velocity_after(
                        *arena,
                        damping,
                        k,
                    ),
                self.u@.len() == n,
                self.force@.len() == n,
                forall|k: int|
                    0 <= k < i ==> #[trigger] self.u@[k] == before.displacement_after(
                        *arena,
                        damping,
                        k,
                    ),
                forall|k: int| i <= k < n ==> #[trigger] self.u@[k] == before.u[k],
                forall|k: int|
                    0 <= k < i ==> #[trigger] self.force@[k] == before.force_after(*arena, k),
                forall|k: int| i <= k < n ==> #[trigger] self.force@[k] == before.force[k],
            decreases n - i,
        {
            match arena.status[i] {
                Status::Default => {
                    let f: i64 = self.force[i] as i64;
                    let moved: i32 = saturate(self.u[i] as i64 + self.v[i] as i64);
                    self.u.set(i, saturate(f + moved as i64));
                    proof {
                        shifted_between(f, FORCE_DAMPING_BIT_SHIFT);
                    }
                    let left: i64 = f - (f >> FORCE_DAMPING_BIT_SHIFT);
                    self.force.set(i, left as i32);
                },
                Status::Wall => {},
            }
            i += 1;
        }
        assert(self@.u =~= before.step(*arena, damping).u);
        assert(self@.v =~= before.step(*arena, damping).v);
        assert(self@.force =~= before.step(*arena, damping).force);
    }

    /// The picture of the field: one packed colour for each cell, a cell of
    /// the wall fully transparent. A real field has no phase to show, so
    /// `norm_only` changes nothing.
    pub fn render(&self, arena: &Arena, norm_only: bool) -> (image: Vec<u32>)
        requires
            arena.wf(),
            self@.fits(*arena),
        ensures
            image@ == self@.render(*arena),
    {
        let n: usize = self.u.len();
        let mut image: Vec<u32> = Vec::with_capacity(n);
        let mut i: usize = 0;
        while i < n
            invariant
                i <= n,
                n == arena.size(),
                n == self.u@.len(),
                arena.wf(),
                image@.len() == i,
                forall|k: int| 0 <= k < i ==> #[trigger] image@[k] == self@.color_at(*arena, k),
            decreases n - i,
        {
            match arena.status[i] {
                Status::Default => {
                    image.push(self.u[i].to_rgba(false));
                },
                Status::Wall => {
                    image.push(0);
                },
            }
            i += 1;
        }
        assert(image@ =~= self@.render(*arena));
        image
    }

    /// Lays the outside force `force` on cell `idx`, as it is. The steps that
    /// follow let it decay.
    pub fn set_force(&mut self, idx: usize, force: i32)
        requires
            idx < old(self)@.force.len(),
        ensures
            final(self)@ == old(self)@.with_force(idx as int, force),
    {
        self.force.set(idx, force);
    }

    /// The displacement of every cell.
    pub fn u(&self) -> (u: &Vec<i32>)
        ensures
            u@ == self@.u,
    {
        &self.u
    }

    /// The velocity of every cell.
    pub fn v(&self) -> (v: &Vec<i32>)
        ensures
            v@ == self@.v,
    {
        &self.v
    }

    /// The outside force on every cell.
    pub fn force(&self) -> (force: &Vec<i32>)
        ensures
            force@ == self@.force,
    {
        &self.force
    }
}

/// Stepping keeps one value for each cell in every field.
pub proof fn steps_fit(state: ClassicalState, arena: Arena, damping: u8, n: nat)
    requires
        state.fits(arena),
    ensures
        state.steps(arena, damping, n).fits(arena),
    decreases n,
{
    if n > 0 {
        steps_fit(state, arena, damping, (n - 1) as nat);
    }
}

/// A cell of the wall holds after any number of steps what it held before
/// the first: displacement, velocity and force.
pub proof fn walls_stay(state: ClassicalState, arena: Arena, damping: u8, n: nat, i: int)
    requires
        state.fits(arena),
        0 <= i < arena.size(),
        !arena.interior(i),
    ensures
        state.steps(arena, damping, n).u[i] == state.u[i],
        state.steps(arena, damping, n).v[i] == state.v[i],
        state.steps(arena, damping, n).force[i] == state.force[i],
    decreases n,
{
    if n > 0 {
        walls_stay(state, arena, damping, (n - 1) as nat, i);
        steps_fit(state, arena, damping, (n - 1) as nat);
    }
}

/// After a step every cell inside the wall has its displacement and its
/// velocity in the amplitude range.
pub proof fn step_is_capped(state: ClassicalState, arena: Arena, damping: u8, i: int)
    requires
        state.fits(arena),
        arena.interior(i),
    ensures
        I32_CAP_MIN <= state.step(arena, damping).u[i] <= I32_CAP_MAX,
        I32_CAP_MIN <= state.step(arena, damping).v[i] <= I32_CAP_MAX,
{
}

/// A step brings the force on a cell inside the wall no further from zero,
/// and keeps its sign.
pub proof fn force_decays(state: ClassicalState, arena: Arena, damping: u8, i: int)
    requires
        state.fits(arena),
        arena.interior(i),
    ensures
        state.force[i] >= 0 ==> 0 <= state.step(arena, damping).force[i] <= state.force[i],
        state.force[i] <= 0 ==> state.force[i] <= state.step(arena, damping).force[i] <= 0,
{
    shifted_between(state.force[i] as i64, FORCE_DAMPING_BIT_SHIFT);
}

/// In the picture of a field a cell of the wall is fully transparent, and a
/// cell inside the wall is opaque, so never fully transparent.
pub proof fn walls_transparent(state: ClassicalState, arena: Arena, i: int)
    requires
        state.fits(arena),
        0 <= i < arena.size(),
    ensures
        !arena.interior(i) ==> state.render(arena)[i] == 0,
        arena.interior(i) ==> state.render(arena)[i] & ALPHA == ALPHA,
        arena.interior(i) ==> state.render(arena)[i] != 0,
{
    scalar_color_opaque(state.u[i]);
}

/// The same of the field that a grid starts with, after any number of steps.
pub proof fn walls_transparent_after(arena: Arena, damping: u8, n: nat, i: int)
    requires
        arena.wf(),
        0 <= i < arena.size(),
    ensures
        !arena.interior(i) ==> ClassicalState::initial(arena).steps(arena, damping, n).render(
            arena,
        )[i] == 0,
        arena.interior(i) ==> ClassicalState::initial(arena).steps(arena, damping, n).render(
            arena,
        )[i] != 0,
{
    steps_fit(ClassicalState::initial(arena), arena, damping, n);
    walls_transparent(ClassicalState::initial(arena).steps(arena, damping, n), arena, i);
}

} // verus!
