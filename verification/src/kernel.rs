//! The quadratic B-spline interpolation kernel.
//!
//! Given a continuous position, the kernel yields the base cell of its 3x3
//! stencil, three weights per axis, the nine neighbor coordinates, and nine
//! signed distance vectors. Weights are held as integers in units of
//! `2^-35` (`WEIGHT_SCALE`), chosen so that the three weights of one axis
//! sum to `WEIGHT_SCALE` *exactly* — the partition of unity is an integer
//! identity, not an approximation — and the nine two-axis products sum to
//! `WEIGHT_SCALE^2` exactly, which is what makes the particle-to-grid mass
//! scatter conserve mass exactly.

use vstd::prelude::*;
use crate::fixed::{Fx, FX_ONE, FX_HALF};
use crate::linalg::Vec2;

verus! {

/// The integer denoting weight 1.0: `2^35`.
pub const WEIGHT_SCALE: u64 = 0x8_0000_0000;

/// `WEIGHT_SCALE` squared, the unit of two-axis weights: `2^70`.
pub const WEIGHT_SCALE_SQ: u128 = 0x40_0000_0000_0000_0000;

/// The fractional part of a raw position within its unit cell.
pub open spec fn spec_frac(p: int) -> int {
    p - FX_ONE as int * (p / FX_ONE as int)
}

/// The signed offset of a position from its cell center, in raw units;
/// always in `[-2^15, 2^15)`, denoting `[-0.5, 0.5)`.
pub open spec fn spec_doffset(p: int) -> int {
    spec_frac(p) - FX_HALF as int
}

/// First axis weight `0.5 * (0.5 - d)^2`, in `WEIGHT_SCALE` units, for a
/// cell-center offset of `n` raw units.
pub open spec fn spec_w0(n: int) -> int {
    4 * ((FX_HALF as int - n) * (FX_HALF as int - n))
}

/// Middle axis weight `0.75 - d^2` in `WEIGHT_SCALE` units.
pub open spec fn spec_w1(n: int) -> int {
    3 * 0x2_0000_0000 - 8 * (n * n)
}

/// Last axis weight `0.5 * (0.5 + d)^2` in `WEIGHT_SCALE` units.
pub open spec fn spec_w2(n: int) -> int {
    4 * ((FX_HALF as int + n) * (FX_HALF as int + n))
}

/// The axis weight of stencil column or row `i` for a raw position `p`.
pub open spec fn spec_axis_weight(p: int, i: int) -> int {
    if i == 0 {
        spec_w0(spec_doffset(p))
    } else if i == 1 {
        spec_w1(spec_doffset(p))
    } else {
        spec_w2(spec_doffset(p))
    }
}

/// The three weights of one axis always sum to exactly `WEIGHT_SCALE`,
/// whatever the offset: the kernel is a partition of unity, per axis.
pub proof fn lemma_axis_partition_of_unity(n: int)
    ensures
        spec_w0(n) + spec_w1(n) + spec_w2(n) == WEIGHT_SCALE as int,
{
    assert(4 * ((FX_HALF as int - n) * (FX_HALF as int - n)) + (3 * 0x2_0000_0000 - 8 * (n * n))
        + 4 * ((FX_HALF as int + n) * (FX_HALF as int + n)) == 0x8_0000_0000)
        by (nonlinear_arith);
}

/// The two-axis weight of stencil slot `k` (row-major): the product of the
/// axis weights, in `WEIGHT_SCALE_SQ` units.
pub open spec fn spec_weight9(px: int, py: int, k: int) -> int {
    spec_axis_weight(px, k % 3) * spec_axis_weight(py, k / 3)
}

/// Sum of the two-axis weights of stencil slots `k..9`.
pub open spec fn spec_weight9_sum_from(px: int, py: int, k: int) -> int
    decreases 9 - k,
{
    if k < 0 || k >= 9 {
        0
    } else {
        spec_weight9(px, py, k) + spec_weight9_sum_from(px, py, k + 1)
    }
}

/// Kernel partition of unity: for any position, the nine two-axis weights
/// sum to exactly `WEIGHT_SCALE_SQ` — the scaled-integer statement of
/// "the 9 interpolation weights sum to 1.0".
pub proof fn lemma_kernel_partition_of_unity(px: int, py: int)
    ensures
        spec_weight9_sum_from(px, py, 0) == WEIGHT_SCALE_SQ as int,
{
    let nx = spec_doffset(px);
    let ny = spec_doffset(py);
    let a0 = spec_w0(nx);
    let a1 = spec_w1(nx);
    let a2 = spec_w2(nx);
    let b0 = spec_w0(ny);
    let b1 = spec_w1(ny);
    let b2 = spec_w2(ny);
    lemma_axis_partition_of_unity(nx);
    lemma_axis_partition_of_unity(ny);
    assert(spec_weight9_sum_from(px, py, 0) == a0 * b0 + a1 * b0 + a2 * b0 + a0 * b1 + a1 * b1
        + a2 * b1 + a0 * b2 + a1 * b2 + a2 * b2) by {
        reveal_with_fuel(spec_weight9_sum_from, 11);
    }
    assert(a0 * b0 + a1 * b0 + a2 * b0 + a0 * b1 + a1 * b1 + a2 * b1 + a0 * b2 + a1 * b2 + a2
        * b2 == (a0 + a1 + a2) * (b0 + b1 + b2)) by (nonlinear_arith);
    assert((a0 + a1 + a2) * (b0 + b1 + b2) == 0x8_0000_0000int * 0x8_0000_0000int)
        by (nonlinear_arith)
        requires
            a0 + a1 + a2 == 0x8_0000_0000int,
            b0 + b1 + b2 == 0x8_0000_0000int,
    ;
}

/// Axis weights are non-negative and never exceed one weight unit.
pub proof fn lemma_axis_weight_bounds(p: int, i: int)
    ensures
        0 <= spec_axis_weight(p, i) <= WEIGHT_SCALE,
{
    vstd::arithmetic::div_mod::lemma_fundamental_div_mod(p, FX_ONE as int);
    let n = spec_doffset(p);
    assert(-(FX_HALF as int) <= n < FX_HALF as int);
    assert(0 <= spec_w0(n) <= 0x4_0000_0000int) by (nonlinear_arith)
        requires
            -(0x8000int) <= n < 0x8000int,
    ;
    assert(0 <= spec_w1(n) <= 0x8_0000_0000int) by (nonlinear_arith)
        requires
            -(0x8000int) <= n < 0x8000int,
    ;
    assert(0 <= spec_w2(n) <= 0x4_0000_0000int) by (nonlinear_arith)
        requires
            -(0x8000int) <= n < 0x8000int,
    ;
}

/// Two-axis weights are non-negative and never exceed one squared weight
/// unit.
pub proof fn lemma_weight9_bounds(px: int, py: int, k: int)
    ensures
        0 <= spec_weight9(px, py, k) <= WEIGHT_SCALE_SQ,
{
    lemma_axis_weight_bounds(px, k % 3);
    lemma_axis_weight_bounds(py, k / 3);
    let a = spec_axis_weight(px, k % 3);
    let b = spec_axis_weight(py, k / 3);
    assert(0 <= a * b <= 0x8_0000_0000int * 0x8_0000_0000int) by (nonlinear_arith)
        requires
            0 <= a <= 0x8_0000_0000int,
            0 <= b <= 0x8_0000_0000int,
    ;
}

/// Suffix sums of the two-axis weights stay between zero and the full
/// squared weight unit.
pub proof fn lemma_weight9_sum_bounds(px: int, py: int, k: int)
    ensures
        0 <= spec_weight9_sum_from(px, py, k),
        spec_weight9_sum_from(px, py, k) <= WEIGHT_SCALE_SQ,
    decreases 9 - k,
{
    if k < 0 || k >= 9 {
    } else {
        lemma_weight9_bounds(px, py, k);
        lemma_weight9_sum_bounds(px, py, k + 1);
        assert(spec_weight9_sum_from(px, py, k) <= WEIGHT_SCALE_SQ) by {
            lemma_kernel_partition_of_unity(px, py);
            lemma_weight9_suffix_le_total(px, py, k);
        }
    }
}

/// A suffix sum never exceeds the total of all nine weights.
proof fn lemma_weight9_suffix_le_total(px: int, py: int, k: int)
    requires
        0 <= k <= 9,
    ensures
        spec_weight9_sum_from(px, py, k) <= spec_weight9_sum_from(px, py, 0),
    decreases k,
{
    if k > 0 {
        lemma_weight9_suffix_le_total(px, py, k - 1);
        lemma_weight9_bounds(px, py, k - 1);
        if k - 1 < 9 {
            assert(spec_weight9_sum_from(px, py, k - 1) == spec_weight9(px, py, k - 1)
                + spec_weight9_sum_from(px, py, k));
        }
    }
}

/// The base cell of the stencil: one below the floor of the position.
pub open spec fn spec_base(p: int) -> int {
    p / FX_ONE as int - 1
}

/// The raw signed distance `(neighbor - position) + 0.5` of stencil column
/// or row `i`.
pub open spec fn spec_dist(p: int, i: int) -> int {
    (spec_base(p) + i) * FX_ONE as int - p + FX_HALF as int
}

/// The cell a position sorts into: its coordinates divided by the cell
/// width, rounded to the nearest grid line (halves up).
pub open spec fn spec_cell_of(p: int, w: int) -> int {
    (Fx::spec_div(p, w) + FX_HALF as int) / FX_ONE as int
}

/// Convert a particle position into its associated grid cell coordinate.
pub fn cell_from_position(position: Vec2, cell_width: Fx) -> (r: (i64, i64))
    requires
        position.wf(),
        cell_width.wf(),
        cell_width@ > 0,
    ensures
        r.0 as int == spec_cell_of(position.x@, cell_width@),
        r.1 as int == spec_cell_of(position.y@, cell_width@),
{
    let cx = position.x.div_safe(cell_width).round_units();
    let cy = position.y.div_safe(cell_width).round_units();
    (cx, cy)
}

/// The fixed MLS normalization constant `4 / cell_width^2` of the quadratic
/// kernel.
pub fn inv_d(cell_width: Fx) -> (r: Fx)
    requires
        cell_width.wf(),
    ensures
        r@ == Fx::spec_div(4 * FX_ONE as int, Fx::spec_mul(cell_width@, cell_width@)),
        r.wf(),
{
    Fx::from_units(4).div_safe(cell_width.mul(cell_width))
}

/// The three quadratic B-spline weights of one axis, in `WEIGHT_SCALE`
/// units, for an offset of `d` from the cell center (`|d| <= 0.5`).
pub fn quadratic_bspline_weights(d: Fx) -> (r: (u64, u64, u64))
    requires
        -(FX_HALF as int) <= d@ <= FX_HALF as int,
    ensures
        r.0 as int == spec_w0(d@),
        r.1 as int == spec_w1(d@),
        r.2 as int == spec_w2(d@),
{
    let a: i64 = FX_HALF - d.raw;
    let b: i64 = FX_HALF + d.raw;
    proof {
        assert(0 <= a * a <= 0x1_0000_0000int) by (nonlinear_arith)
            requires
                0 <= a as int <= 0x1_0000int,
        ;
        assert(0 <= b * b <= 0x1_0000_0000int) by (nonlinear_arith)
            requires
                0 <= b as int <= 0x1_0000int,
        ;
        assert(0 <= d.raw * d.raw <= 0x4000_0000int) by (nonlinear_arith)
            requires
                -0x8000int <= d.raw as int <= 0x8000int,
        ;
    }
    let w0: u64 = (4 * (a * a)) as u64;
    let w2: u64 = (4 * (b * b)) as u64;
    let w1: u64 = (3 * 0x2_0000_0000i64 - 8 * (d.raw * d.raw)) as u64;
    (w0, w1, w2)
}

/// The cell a raw position rounds to at unit cell width.
pub open spec fn spec_round_cell(p: int) -> int {
    (p + FX_HALF as int) / FX_ONE as int
}

/// At unit cell width, the sort cell of a position is exactly its rounded
/// cell.
pub proof fn lemma_unit_cell_is_round(p: int)
    requires
        -(crate::fixed::FX_MAX_RAW as int) <= p <= crate::fixed::FX_MAX_RAW as int,
    ensures
        spec_cell_of(p, FX_ONE as int) == spec_round_cell(p),
{
    if p >= 0 {
        vstd::arithmetic::div_mod::lemma_div_by_multiple(p, FX_ONE as int);
        assert(p * FX_ONE as int == p * 65536) by (nonlinear_arith);
    } else {
        vstd::arithmetic::div_mod::lemma_div_by_multiple(-p, FX_ONE as int);
        assert(-(p * FX_ONE as int) == (-p) * 65536) by (nonlinear_arith);
    }
}

/// The stencil base sits one or two cells below the rounded cell, so the
/// nine scatter targets span at most four cells per axis around it.
pub proof fn lemma_base_near_round(p: int)
    ensures
        spec_round_cell(p) - 2 <= spec_base(p) <= spec_round_cell(p) - 1,
{
    vstd::arithmetic::div_mod::lemma_div_is_ordered(p, p + FX_HALF as int, FX_ONE as int);
    vstd::arithmetic::div_mod::lemma_div_plus_one(p, FX_ONE as int);
    vstd::arithmetic::div_mod::lemma_div_is_ordered(
        p + FX_HALF as int,
        p + FX_ONE as int,
        FX_ONE as int,
    );
}

/// Colour safety of the parallel scatter: when two positions' rounded
/// cells share a checkerboard colour but lie in distinct blocks, the two
/// 3x3 scatter stencils are disjoint — no grid node receives writes from
/// both particles.
pub proof fn lemma_colour_scatter_safety(px: int, py: int, qx: int, qy: int)
    requires
        crate::coords::spec_colour(spec_round_cell(px), spec_round_cell(py))
            == crate::coords::spec_colour(spec_round_cell(qx), spec_round_cell(qy)),
        (
            crate::coords::spec_block(spec_round_cell(px)),
            crate::coords::spec_block(spec_round_cell(py)),
        ) != (
            crate::coords::spec_block(spec_round_cell(qx)),
            crate::coords::spec_block(spec_round_cell(qy)),
        ),
    ensures
        forall|i: int, j: int|
            #![trigger i % 3, j % 3]
            0 <= i < 9 && 0 <= j < 9 ==> (spec_base(px) + i % 3, spec_base(py) + i / 3) != (
                spec_base(qx) + j % 3,
                spec_base(qy) + j / 3,
            ),
{
    crate::coords::lemma_same_colour_distinct_blocks_gap(
        spec_round_cell(px),
        spec_round_cell(py),
        spec_round_cell(qx),
        spec_round_cell(qy),
    );
    lemma_base_near_round(px);
    lemma_base_near_round(py);
    lemma_base_near_round(qx);
    lemma_base_near_round(qy);
    assert forall|i: int, j: int| #![trigger i % 3, j % 3] 0 <= i < 9 && 0 <= j < 9 implies (
        spec_base(px) + i % 3,
        spec_base(py) + i / 3,
    ) != (spec_base(qx) + j % 3, spec_base(qy) + j / 3) by {
        assert(0 <= i % 3 <= 2 && 0 <= j % 3 <= 2);
        assert(0 <= i / 3 <= 2 && 0 <= j / 3 <= 2);
    }
}

/// One entry of a particle's cached stencil: a neighbor cell, the two axis
/// weights whose product is the transfer weight, and the signed distance
/// vector to that neighbor.
#[derive(Clone, Copy, PartialEq, Eq, Structural, Debug)]
pub struct NeighborEntry {
    pub cx: i32,
    pub cy: i32,
    pub wx: u64,
    pub wy: u64,
    pub dist: Vec2,
}

/// What the stencil entry of slot `k` must hold for a particle at raw
/// position `(px, py)`.
pub open spec fn spec_neighbor_entry(px: int, py: int, k: int) -> NeighborEntry {
    NeighborEntry {
        cx: (spec_base(px) + k % 3) as i32,
        cy: (spec_base(py) + k / 3) as i32,
        wx: spec_axis_weight(px, k % 3) as u64,
        wy: spec_axis_weight(py, k / 3) as u64,
        dist: Vec2 {
            x: Fx { raw: spec_dist(px, k % 3) as i64 },
            y: Fx { raw: spec_dist(py, k / 3) as i64 },
        },
    }
}

/// The full cached stencil of a particle at raw position `(px, py)`.
pub open spec fn spec_transfer_cache(px: int, py: int) -> Seq<NeighborEntry> {
    Seq::new(9, |k: int| spec_neighbor_entry(px, py, k))
}

/// Per-particle cache of the nine stencil entries, computed once per step
/// during the spatial rebuild and shared by the two transfer passes.
#[derive(Debug)]
pub struct ParticleTransferCache {
    pub entries: Vec<NeighborEntry>,
}

impl ParticleTransferCache {
    /// An empty placeholder cache (used for failed particles, which never
    /// scatter).
    pub fn empty() -> (r: ParticleTransferCache)
        ensures
            r.entries@ == Seq::<NeighborEntry>::empty(),
    {
        ParticleTransferCache { entries: Vec::new() }
    }
}

/// The dense interpolation result for one particle: its nine stencil
/// entries, ready for both transfer passes.
#[derive(Debug)]
pub struct GridInterpolation {
    /// The nine stencil entries, row-major over the 3x3 stencil.
    pub entries: Vec<NeighborEntry>,
}

impl GridInterpolation {
    /// Compute the interpolation kernel for a particle position.
    pub fn compute_for_particle(position: Vec2) -> (r: GridInterpolation)
        requires
            position.wf(),
            -(0x8000_0000int) < spec_base(position.x@),
            spec_base(position.x@) + 2 < 0x8000_0000int,
            -(0x8000_0000int) < spec_base(position.y@),
            spec_base(position.y@) + 2 < 0x8000_0000int,
        ensures
            r.entries@ == spec_transfer_cache(position.x@, position.y@),
    {
        GridInterpolation { entries: populate_transfer_cache(position).entries }
    }

    /// The two axis weights of stencil slot `k`; their product, in
    /// `WEIGHT_SCALE_SQ` units, is the transfer weight.
    pub fn weight_for_neighbor(&self, neighbor_idx: usize) -> (r: (u64, u64))
        requires
            neighbor_idx < self.entries@.len(),
        ensures
            r.0 == self.entries@[neighbor_idx as int].wx,
            r.1 == self.entries@[neighbor_idx as int].wy,
    {
        let e = &self.entries[neighbor_idx];
        (e.wx, e.wy)
    }

    /// The neighbor cell coordinate of stencil slot `k`.
    pub fn neighbor_coord(&self, neighbor_idx: usize) -> (r: (i32, i32))
        requires
            neighbor_idx < self.entries@.len(),
        ensures
            r.0 == self.entries@[neighbor_idx as int].cx,
            r.1 == self.entries@[neighbor_idx as int].cy,
    {
        let e = &self.entries[neighbor_idx];
        (e.cx, e.cy)
    }
}

/// Compute one axis of the stencil: the base coordinate, the offset from
/// the cell center, and the three axis weights.
fn axis_kernel(p: Fx) -> (r: (i64, Fx, (u64, u64, u64)))
    requires
        p.wf(),
    ensures
        r.0 as int == spec_base(p@),
        r.1@ == spec_doffset(p@),
        -(FX_HALF as int) <= r.1@ < FX_HALF as int,
        r.2.0 as int == spec_axis_weight(p@, 0),
        r.2.1 as int == spec_axis_weight(p@, 1),
        r.2.2 as int == spec_axis_weight(p@, 2),
{
    let fl: i64 = p.floor_units();
    proof {
        vstd::arithmetic::div_mod::lemma_fundamental_div_mod(p@, FX_ONE as int);
    }
    let frac: i64 = p.raw - fl * FX_ONE;
    let n: Fx = Fx { raw: frac - FX_HALF };
    let w = quadratic_bspline_weights(n);
    (fl - 1, n, w)
}

/// Populate a particle's transfer cache with the nine `(neighbor, weights,
/// distance)` entries of its stencil.
pub fn populate_transfer_cache(position: Vec2) -> (r: ParticleTransferCache)
    requires
        position.wf(),
        -(0x8000_0000int) < spec_base(position.x@),
        spec_base(position.x@) + 2 < 0x8000_0000int,
        -(0x8000_0000int) < spec_base(position.y@),
        spec_base(position.y@) + 2 < 0x8000_0000int,
    ensures
        r.entries@ == spec_transfer_cache(position.x@, position.y@),
{
    let (base_x, _nx, wx) = axis_kernel(position.x);
    let (base_y, _ny, wy) = axis_kernel(position.y);
    let mut entries: Vec<NeighborEntry> = Vec::new();
    let mut k: usize = 0;
    while k < 9
        invariant
            0 <= k <= 9,
            position.wf(),
            base_x as int == spec_base(position.x@),
            base_y as int == spec_base(position.y@),
            -(0x8000_0000int) < base_x as int && base_x as int + 2 < 0x8000_0000int,
            -(0x8000_0000int) < base_y as int && base_y as int + 2 < 0x8000_0000int,
            wx.0 as int == spec_axis_weight(position.x@, 0),
            wx.1 as int == spec_axis_weight(position.x@, 1),
            wx.2 as int == spec_axis_weight(position.x@, 2),
            wy.0 as int == spec_axis_weight(position.y@, 0),
            wy.1 as int == spec_axis_weight(position.y@, 1),
            wy.2 as int == spec_axis_weight(position.y@, 2),
            entries@.len() == k as int,
            forall|j: int|
                0 <= j < k as int ==> entries@[j] == spec_neighbor_entry(
                    position.x@,
                    position.y@,
                    j,
                ),
        decreases 9 - k,
    {
        let gx: usize = k % 3;
        let gy: usize = k / 3;
        let wxk: u64 = if gx == 0 {
            wx.0
        } else if gx == 1 {
            wx.1
        } else {
            wx.2
        };
        let wyk: u64 = if gy == 0 {
            wy.0
        } else if gy == 1 {
            wy.1
        } else {
            wy.2
        };
        let cx: i32 = (base_x + gx as i64) as i32;
        let cy: i32 = (base_y + gy as i64) as i32;
        proof {
            vstd::arithmetic::div_mod::lemma_fundamental_div_mod(position.x@, FX_ONE as int);
            vstd::arithmetic::div_mod::lemma_fundamental_div_mod(position.y@, FX_ONE as int);
        }
        let dist_x: Fx = Fx { raw: (cx as i64) * FX_ONE - position.x.raw + FX_HALF };
        let dist_y: Fx = Fx { raw: (cy as i64) * FX_ONE - position.y.raw + FX_HALF };
        let entry = NeighborEntry { cx, cy, wx: wxk, wy: wyk, dist: Vec2 { x: dist_x, y: dist_y } };
        proof {
            assert(entry == spec_neighbor_entry(position.x@, position.y@, k as int));
        }
        entries.push(entry);
        k = k + 1;
    }
    proof {
        assert(entries@ =~= spec_transfer_cache(position.x@, position.y@));
    }
    ParticleTransferCache { entries }
}

} // verus!
