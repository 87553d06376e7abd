//! The quantum field: a complex wave stepped by the leapfrog scheme, which
//! holds two moments of the field at once.

use vstd::prelude::*;
use crate::complex::{wide_scale, wide_sub, Complex, Wide};
use crate::stencil::{
    interior_has_neighbours,
    laplacian_im,
    laplacian_re,
    leap,
    shifted,
    shifted_between,
};
use crate::utils::{cap, saturate, Arena, Rectified, Status, I32_CAP_MAX, I32_CAP_MIN};

verus! {

/// The shift that the scheme is stable with on a field of full amplitude.
pub const STABILITY_PARAM: u8 = 6;

/// The real amplitude of a point excitation: one unit of the fixed-point
/// scale.
pub const DELTA: i32 = 1;

/// What a quantum field holds, cell by cell: the amplitude now and the
/// amplitude one step ago.
pub struct QuantumState {
    pub psi: Seq<Complex>,
    pub psi_prev: Seq<Complex>,
}

/// The amplitude that cell `i` gets from a seed: the capped seed inside the
/// wall, zero on the wall.
pub open spec fn seeded_at(arena: Arena, seed: Seq<Complex>, i: int) -> Complex {
    if arena.interior(i) {
        seed[i].capped()
    } else {
        Complex::zero()
    }
}

/// The cell at the centre of the grid.
pub open spec fn centre(arena: Arena) -> int {
    arena.index_of(0, 0)
}

/// A seed that is zero but for the excitation `DELTA` at the centre.
pub open spec fn delta_seed(arena: Arena) -> Seq<Complex> {
    Seq::new(
        arena.size() as nat,
        |i: int|
            if i == centre(arena) {
                Complex { re: DELTA, im: 0 }
            } else {
                Complex::zero()
            },
    )
}

impl QuantumState {
    /// Both moments have one amplitude for each cell of the grid.
    pub open spec fn fits(self, arena: Arena) -> bool {
        &&& self.psi.len() == arena.size()
        &&& self.psi_prev.len() == arena.size()
    }

    /// The field that starts from `seed`: the seed inside the wall, zero on
    /// it, and the same one step ago.
    pub open spec fn seeded(arena: Arena, seed: Seq<Complex>) -> QuantumState {
        QuantumState {
            psi: Seq::new(arena.size() as nat, |i: int| seeded_at(arena, seed, i)),
            psi_prev: Seq::new(arena.size() as nat, |i: int| seeded_at(arena, seed, i)),
        }
    }

    /// The amplitude of cell `i` after one step.
    pub open spec fn psi_after(self, arena: Arena, shift: u8, i: int) -> Complex {
        if arena.interior(i) {
            leap(self.psi, self.psi_prev, arena.width as int, i, shift)
        } else {
            self.psi[i]
        }
    }

    /// What cell `i` holds as the amplitude of one step ago after one step:
    /// the present amplitude, capped.
    pub open spec fn prev_after(self, arena: Arena, i: int) -> Complex {
        if arena.interior(i) {
            self.psi[i].capped()
        } else {
            self.psi_prev[i]
        }
    }

    /// The field after one leapfrog step: every cell inside the wall moves,
    /// every cell of the wall stays as it is.
    pub open spec fn step(self, arena: Arena, shift: u8) -> QuantumState {
        QuantumState {
            psi: Seq::new(self.psi.len(), |i: int| self.psi_after(arena, shift, i)),
            psi_prev: Seq::new(self.psi_prev.len(), |i: int| self.prev_after(arena, i)),
        }
    }

    /// The field after `n` steps.
    pub open spec fn steps(self, arena: Arena, shift: u8, n: nat) -> QuantumState
        decreases n,
    {
        if n == 0 {
            self
        } else {
            self.steps(arena, shift, (n - 1) as nat).step(arena, shift)
        }
    }

    /// The field with the present amplitude of cell `i` replaced.
    pub open spec fn with_psi(self, i: int, value: Complex) -> QuantumState {
        QuantumState { psi: self.psi.update(i, value), psi_prev: self.psi_prev }
    }
}

/// A quantum field on a grid.
#[derive(Debug)]
pub struct QWave {
    psi: Vec<Complex>,
    psi_prev: Vec<Complex>,
}

impl View for QWave {
    type V = QuantumState;

    closed spec fn view(&self) -> QuantumState {
        QuantumState { psi: self.psi@, psi_prev: self.psi_prev@ }
    }
}

impl QWave {
    /// The field that starts from `seed`, which gives one amplitude for each
    /// cell: the capped seed inside the wall, zero on it, and the same one
    /// step ago.
    pub fn seeded(arena: &Arena, seed: &Vec<Complex>) -> (wave: QWave)
        requires
            arena.wf(),
            seed@.len() == arena.size(),
        ensures
            wave@ == QuantumState::seeded(*arena, seed@),
            wave@.fits(*arena),
    {
        let n: usize = seed.len();
        let mut psi: Vec<Complex> = Vec::with_capacity(n);
        let mut psi_prev: Vec<Complex> = Vec::with_capacity(n);
        let mut i: usize = 0;
        while i < n
            invariant
                i <= n,
                n == arena.size(),
                n == seed@.len(),
                arena.wf(),
                psi@.len() == i,
                psi_prev@.len() == i,
                forall|k: int| 0 <= k < i ==> #[trigger] psi@[k] == seeded_at(*arena, seed@, k),
                forall|k: int|
                    0 <= k < i ==> #[trigger] psi_prev@[k] == seeded_at(*arena, seed@, k),
            decreases n - i,
        {
            let amp: Complex = match arena.status[i] {
                Status::Default => seed[i].apply_cap(),
                Status::Wall => Complex { re: 0, im: 0 },
            };
            psi.push(amp);
            psi_prev.push(amp);
            i += 1;
        }
        let wave = QWave { psi, psi_prev };
        assert(wave@.psi =~= QuantumState::seeded(*arena, seed@).psi);
        assert(wave@.psi_prev =~= QuantumState::seeded(*arena, seed@).psi_prev);
        wave
    }

    /// The field that starts from a point excitation at the centre of the
    /// grid.
    pub fn new(arena: &Arena) -> (wave: QWave)
        requires
            arena.wf(),
        ensures
            wave@ == QuantumState::seeded(*arena, delta_seed(*arena)),
            wave@.fits(*arena),
    {
        let mid: usize = arena.to_idx(0, 0);
        let n: usize = arena.status.len();
        let mut seed: Vec<Complex> = Vec::with_capacity(n);
        let mut i: usize = 0;
        while i < n
            invariant
                i <= n,
                n == arena.size(),
                mid == centre(*arena),
                seed@.len() == i,
                forall|k: int| 0 <= k < i ==> #[trigger] seed@[k] == delta_seed(*arena)[k],
            decreases n - i,
        {
            if i == mid {
                seed.push(Complex { re: DELTA, im: 0 });
            } else {
                seed.push(Complex { re: 0, im: 0 });
            }
            i += 1;
        }
        assert(seed@ =~= delta_seed(*arena));
        QWave::seeded(arena, &seed)
    }

    /// One leapfrog step. Every cell inside the wall gets the amplitude that
    /// the scheme gives it from the two moments held, and keeps its present
    /// amplitude as that of one step ago. `shift` shifts a 32-bit amplitude,
    /// so it is less than 32.
    pub fn step(&mut self, arena: &Arena, shift: u8)
        requires
            arena.wf(),
            old(self)@.fits(*arena),
            shift < 32,
        ensures
            final(self)@ == old(self)@.step(*arena, shift),
            final(self)@.fits(*arena),
    {
        let w: usize = arena.width as usize;
        let n: usize = self.psi.len();
        let ghost before = self@;
        let mut next: Vec<Complex> = Vec::with_capacity(n);
        let mut i: usize = 0;
        while i < n
            invariant
                i <= n,
                n == arena.size(),
                w == arena.width,
                arena.wf(),
                shift < 32,
                before.fits(*arena),
                self.psi@ == before.psi,
                self.psi_prev@.len() == n,
                next@.len() == i,
                forall|k: int|
                    0 <= k < i ==> #[trigger] next@[k] == before.psi_after(*arena, shift, k),
                forall|k: int|
                    0 <= k < i ==> #[trigger] self.psi_prev@[k] == before.prev_after(*arena, k),
                forall|k: int| i <= k < n ==> #[trigger] self.psi_prev@[k] == before.psi_prev[k],
            decreases n - i,
        {
            match arena.status[i] {
                Status::Default => {
                    proof {
                        interior_has_neighbours(*arena, i as int);
                    }
                    let u_cen: Complex = self.psi[i];
                    let u_west: Complex = self.psi[i - 1];
                    let u_east: Complex = self.psi[i + 1];
                    let u_north: Complex = self.psi[i - w];
                    let u_south: Complex = self.psi[i + w];
                    let prev: Complex = self.psi_prev[i];
                    let twice: Wide = wide_scale(2, u_cen.widen());
                    let uxx: Wide = wide_sub(
                        Wide {
                            re: u_west.re as i64 + u_east.re as i64,
                            im: u_west.im as i64 + u_east.im as i64,
                        },
                        twice,
                    );
                    let uyy: Wide = wide_sub(
                        Wide {
                            re: u_south.re as i64 + u_north.re as i64,
                            im: u_south.im as i64 + u_north.im as i64,
                        },
                        twice,
                    );
                    let lap_re: i64 = uxx.re + uyy.re;
                    let lap_im: i64 = uxx.im + uyy.im;
                    proof {
                        shifted_between(lap_re, shift);
                        shifted_between(lap_im, shift);
                        assert(lap_re == laplacian_re(before.psi, w as int, i as int));
                        assert(lap_im == laplacian_im(before.psi, w as int, i as int));
                    }
                    let re: i64 = prev.re as i64 - (lap_im >> shift);
                    let im: i64 = prev.im as i64 + (lap_re >> shift);
                    next.push(Complex { re: saturate(re), im: saturate(im) });
                    self.psi_prev.set(i, u_cen.apply_cap());
                },
                Status::Wall => {
                    next.push(self.psi[i]);
                },
            }
            i += 1;
        }
        self.psi = next;
        assert(self@.psi =~= before.step(*arena, shift).psi);
        assert(self@.psi_prev =~= before.step(*arena, shift).psi_prev);
    }

    /// Writes `value` as the present amplitude of cell `idx`, as it is.
    pub fn set(&mut self, idx: usize, value: Complex)
        requires
            idx < old(self)@.psi.len(),
        ensures
            final(self)@ == old(self)@.with_psi(idx as int, value),
    {
        self.psi.set(idx, value);
    }

    /// The present amplitude of every cell.
    pub fn psi(&self) -> (psi: &Vec<Complex>)
        ensures
            psi@ == self@.psi,
    {
        &self.psi
    }

    /// The amplitude that every cell had one step ago.
    pub fn psi_prev(&self) -> (psi_prev: &Vec<Complex>)
        ensures
            psi_prev@ == self@.psi_prev,
    {
        &self.psi_prev
    }
}

/// Stepping keeps one amplitude for each cell in both moments.
pub proof fn steps_fit(state: QuantumState, arena: Arena, shift: u8, n: nat)
    requires
        state.fits(arena),
    ensures
        state.steps(arena, shift, n).fits(arena),
    decreases n,
{
    if n > 0 {
        steps_fit(state, arena, shift, (n - 1) as nat);
    }
}

/// A cell of the wall holds after any number of steps what it held before
/// the first, in both moments.
pub proof fn walls_stay(state: QuantumState, arena: Arena, shift: u8, n: nat, i: int)
    requires
        state.fits(arena),
        0 <= i < arena.size(),
        !arena.interior(i),
    ensures
        state.steps(arena, shift, n).psi[i] == state.psi[i],
        state.steps(arena, shift, n).psi_prev[i] == state.psi_prev[i],
    decreases n,
{
    if n > 0 {
        walls_stay(state, arena, shift, (n - 1) as nat, i);
        steps_fit(state, arena, shift, (n - 1) as nat);
    }
}

/// After a step every cell inside the wall has both parts of both moments in
/// the amplitude range.
pub proof fn step_is_capped(state: QuantumState, arena: Arena, shift: u8, i: int)
    requires
        state.fits(arena),
        arena.interior(i),
    ensures
        I32_CAP_MIN <= state.step(arena, shift).psi[i].re <= I32_CAP_MAX,
        I32_CAP_MIN <= state.step(arena, shift).psi[i].im <= I32_CAP_MAX,
        I32_CAP_MIN <= state.step(arena, shift).psi_prev[i].re <= I32_CAP_MAX,
        I32_CAP_MIN <= state.step(arena, shift).psi_prev[i].im <= I32_CAP_MAX,
{
}

/// A seed that is zero but for the real amplitude `d` at cell `c`.
pub open spec fn point_seed(arena: Arena, c: int, d: i32) -> Seq<Complex> {
    Seq::new(
        arena.size() as nat,
        |i: int|
            if i == c {
                Complex { re: d, im: 0 }
            } else {
                Complex::zero()
            },
    )
}

/// Whether cells `i` and `c` of a grid of width `w` are neighbours along an
/// axis.
pub open spec fn beside(w: int, i: int, c: int) -> bool {
    i == c - 1 || i == c + 1 || i == c - w || i == c + w
}

/// How a point excitation spreads. A field starts from the real amplitude
/// `d` at one cell `c` inside the wall and zero elsewhere. After one step the
/// cell keeps its real part and gets the imaginary part `-4 d` shifted; each
/// neighbour of `c` along an axis that lies inside the wall gets the
/// imaginary part `d` shifted, the same for all four, and no real part; every
/// other cell is still zero.
pub proof fn delta_impulse_spreads(arena: Arena, c: int, d: i32, shift: u8, i: int)
    requires
        arena.wf(),
        arena.interior(c),
        I32_CAP_MIN <= d <= I32_CAP_MAX,
        shift < 64,
        0 <= i < arena.size(),
    ensures
        ({
            let after = QuantumState::seeded(arena, point_seed(arena, c, d)).step(arena, shift);
            let w = arena.width as int;
            &&& i == c ==> after.psi[i] == Complex {
                re: d,
                im: cap(shifted(-4 * d, shift)) as i32,
            }
            &&& arena.interior(i) && beside(w, i, c) ==> after.psi[i] == Complex {
                re: 0,
                im: cap(shifted(d as int, shift)) as i32,
            }
            &&& i != c && !(arena.interior(i) && beside(w, i, c)) ==> after.psi[i]
                == Complex::zero()
        }),
{
    let seed = point_seed(arena, c, d);
    let start = QuantumState::seeded(arena, seed);
    let w = arena.width as int;
    assert(shifted(0, shift) == 0) by {
        shifted_between(0i64, shift);
    }
    assert forall|k: int| 0 <= k < arena.size() implies #[trigger] start.psi[k] == (if k == c {
        Complex { re: d, im: 0 }
    } else {
        Complex::zero()
    }) by {}
    if arena.interior(i) {
        interior_has_neighbours(arena, i);
        assert(start.psi[i - 1] == seeded_at(arena, seed, i - 1));
        assert(start.psi[i + 1] == seeded_at(arena, seed, i + 1));
        assert(start.psi[i - w] == seeded_at(arena, seed, i - w));
        assert(start.psi[i + w] == seeded_at(arena, seed, i + w));
        assert(start.psi[i] == seeded_at(arena, seed, i));
    }
}

} // verus!
