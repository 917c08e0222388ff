//! Jittered-grid noise: a fixed-extent cube of independent uniform scalars in
//! the unit interval, drawn once per material from a caller-seeded generator.
//!
//! A scalar is stored as a 24-bit numerator `v`, standing for the value
//! `v / 2^24` in `[0, 1)`; the consumer divides by [`NOISE_ONE`] when it
//! uploads the buffer.

use vstd::prelude::*;

verus! {

/// Denominator of a noise scalar: a stored cell `v` stands for `v / 2^24`,
/// so every cell is strictly below `NOISE_ONE`.
pub const NOISE_ONE: u32 = 1u32 << 24;

/// Multiplier of the linear congruential step.
pub const LCG_MUL: u64 = 6364136223846793005;

/// Increment of the linear congruential step.
pub const LCG_INC: u64 = 1442695040888963407;

/// One step of the generator: a full-period linear congruential map on
/// 64-bit state.
pub open spec fn lcg_next(s: u64) -> u64 {
    s.wrapping_mul(LCG_MUL).wrapping_add(LCG_INC)
}

/// The state after `k` steps from `s`.
pub open spec fn lcg_iter(s: u64, k: nat) -> u64
    decreases k,
{
    if k == 0 {
        s
    } else {
        lcg_next(lcg_iter(s, (k - 1) as nat))
    }
}

/// The scalar drawn from a state: its top 24 bits, always below
/// [`NOISE_ONE`].
pub open spec fn sample_of(s: u64) -> u32 {
    (s >> 40) as u32
}

/// A fixed-extent cube of noise scalars, row-major (slice, then row, then
/// column). Generated once and immutable thereafter; each volumetric
/// material owns its own cube, never shared.
pub struct NoiseField {
    pub extent: usize,
    pub cells: Vec<u32>,
}

/// Row-major position of cell `(slice, row, col)` in a cube of `extent`.
pub open spec fn cube_index(extent: usize, slice: usize, row: usize, col: usize) -> int {
    (slice * extent + row) * extent + col
}

impl NoiseField {
    /// Well-formed: exactly `extent` cubed cells, each below [`NOISE_ONE`].
    pub open spec fn wf(&self) -> bool {
        &&& self.extent * self.extent * self.extent <= usize::MAX
        &&& self.cells@.len() == self.extent * self.extent * self.extent
        &&& forall|i: int| 0 <= i < self.cells@.len() ==> self.cells@[i] < NOISE_ONE
    }

    /// The cell at `(slice, row, col)`, row-major.
    pub fn cell_at(&self, slice: usize, row: usize, col: usize) -> (v: u32)
        requires
            self.wf(),
            slice < self.extent,
            row < self.extent,
            col < self.extent,
        ensures
            v == self.cells@[cube_index(self.extent, slice, row, col)],
            v < NOISE_ONE,
    {
        proof {
            lemma_cube_index_in_range(self.extent, slice, row, col);
        }
        let i = (slice * self.extent + row) * self.extent + col;
        self.cells[i]
    }
}

/// A row-major index lands inside the cube.
pub proof fn lemma_cube_index_in_range(extent: usize, slice: usize, row: usize, col: usize)
    requires
        slice < extent,
        row < extent,
        col < extent,
    ensures
        0 <= cube_index(extent, slice, row, col) < extent * extent * extent,
        slice * extent + row < extent * extent,
        extent * extent <= extent * extent * extent,
{
    assert((slice * extent + row) * extent + col < extent * extent * extent && slice * extent + row
        < extent * extent && extent * extent <= extent * extent * extent) by (nonlinear_arith)
        requires
            slice < extent,
            row < extent,
            col < extent,
    ;
}

/// Source of noise fields. The caller seeds it once (reproducibility across
/// runs is not a goal; any entropy will do) and every draw advances the
/// state, so fields generated in sequence are drawn from disjoint runs of
/// the stream.
pub struct NoiseFieldGenerator {
    pub state: u64,
}

impl NoiseFieldGenerator {
    pub fn from_seed(seed: u64) -> (g: NoiseFieldGenerator)
        ensures
            g.state == seed,
    {
        NoiseFieldGenerator { state: seed }
    }

    /// Draw one scalar: advance the state once and take its top 24 bits.
    #[verifier::rlimit(30)]
    pub fn next_sample(&mut self) -> (v: u32)
        ensures
            final(self).state == lcg_next(old(self).state),
            v == sample_of(final(self).state),
            v < NOISE_ONE,
    {
        let s = self.state.wrapping_mul(LCG_MUL).wrapping_add(LCG_INC);
        self.state = s;
        proof {
            assert(s >> 40u64 < 0x1000000) by (bit_vector);
            assert(1u32 << 24 == 0x1000000) by (bit_vector);
        }
        (s >> 40) as u32
    }

    /// Generate a cube of `extent * extent * extent` independent scalars,
    /// each in the unit interval. The cells are exactly the next
    /// `extent` cubed draws of the stream, in order, so a second call never
    /// reuses the draws of the first.
    pub fn generate(&mut self, extent: usize) -> (field: NoiseField)
        requires
            extent * extent * extent <= usize::MAX,
        ensures
            field.wf(),
            field.extent == extent,
            field.cells@.len() == extent * extent * extent,
            forall|i: int|
                0 <= i < field.cells@.len() ==> field.cells@[i] == sample_of(
                    lcg_iter(old(self).state, (i + 1) as nat),
                ),
            final(self).state == lcg_iter(old(self).state, (extent * extent * extent) as nat),
    {
        proof {
            if extent != 0 {
                assert(extent * extent <= extent * extent * extent) by (nonlinear_arith)
                    requires
                        1 <= extent,
                ;
            }
        }
        let count = extent * extent * extent;
        let mut cells: Vec<u32> = Vec::new();
        let mut k: usize = 0;
        while k < count
            invariant
                k <= count,
                cells@.len() == k,
                self.state == lcg_iter(old(self).state, k as nat),
                forall|i: int|
                    0 <= i < k ==> cells@[i] == sample_of(lcg_iter(old(self).state, (i + 1) as nat)),
                forall|i: int| 0 <= i < k ==> cells@[i] < NOISE_ONE,
            decreases count - k,
        {
            let v = self.next_sample();
            cells.push(v);
            k = k + 1;
        }
        NoiseField { extent, cells }
    }
}

} // verus!
