//! Integer grid coordinates: packing, the valid range, neighborhood safety,
//! and the checkerboard colouring that licenses conflict-free parallel
//! scatter.
//!
//! A cell coordinate is a pair of signed 32-bit axes packed into one 64-bit
//! key (high half x, low half y), so negative coordinates order and hash
//! like any others. Cells are grouped into 4x4 blocks; a block's colour is
//! the mod-2 checkerboard over block coordinates. A particle's scatter
//! stencil spans at most four cells per axis around its sort cell (the
//! stencil is centered on the floor of the position, the sort cell on its
//! rounding), while two distinct same-colour blocks keep their cells at
//! least five apart on some axis — so same-colour particles from different
//! blocks can never write a common grid node.

use vstd::prelude::*;

verus! {

/// Grid dimensions (cells per axis of the valid coordinate range).
pub const GRID_RESOLUTION: usize = 128;

/// Number of neighbors in the quadratic (3x3) kernel stencil.
pub const NEIGHBOR_COUNT: usize = 9;

/// Side length of the quadratic kernel stencil.
pub const KERNEL_SIZE: usize = 3;

/// A packed cell coordinate.
pub type PackedCell = u64;

/// Exact specification of coordinate packing.
pub open spec fn spec_pack(ix: i32, iy: i32) -> u64 {
    (((ix as u32) as u64) << 32u64) | ((iy as u32) as u64)
}

/// Exact specification of unpacking the x axis.
pub open spec fn spec_unpack_x(id: u64) -> i32 {
    ((id >> 32u64) as u32) as i32
}

/// Exact specification of unpacking the y axis.
pub open spec fn spec_unpack_y(id: u64) -> i32 {
    (id as u32) as i32
}

/// Pack two signed axis coordinates into one 64-bit cell key.
pub fn pack_coords(ix: i32, iy: i32) -> (r: PackedCell)
    ensures
        r == spec_pack(ix, iy),
{
    (((ix as u32) as u64) << 32u64) | ((iy as u32) as u64)
}

/// Recover the two signed axis coordinates from a packed cell key.
pub fn unpack_coords(id: PackedCell) -> (r: (i32, i32))
    ensures
        r.0 == spec_unpack_x(id),
        r.1 == spec_unpack_y(id),
{
    (((id >> 32u64) as u32) as i32, (id as u32) as i32)
}

/// Packing loses nothing: unpacking recovers both axes exactly.
pub proof fn lemma_pack_unpack(ix: i32, iy: i32)
    ensures
        spec_unpack_x(spec_pack(ix, iy)) == ix,
        spec_unpack_y(spec_pack(ix, iy)) == iy,
{
    let a = ix as u32;
    let b = iy as u32;
    assert(((((a as u64) << 32u64) | (b as u64)) >> 32u64) as u32 == a && ((((a as u64)
        << 32u64) | (b as u64)) as u32) == b) by (bit_vector);
    assert(((ix as u32) as i32) == ix) by (bit_vector);
    assert(((iy as u32) as i32) == iy) by (bit_vector);
}

/// Distinct coordinates pack to distinct keys.
pub proof fn lemma_pack_injective(ax: i32, ay: i32, bx: i32, by: i32)
    requires
        spec_pack(ax, ay) == spec_pack(bx, by),
    ensures
        ax == bx && ay == by,
{
    lemma_pack_unpack(ax, ay);
    lemma_pack_unpack(bx, by);
}

/// A coordinate inside the tracked (valid) range.
pub open spec fn spec_valid_grid_coord(ix: int, iy: int) -> bool {
    0 <= ix < GRID_RESOLUTION as int && 0 <= iy < GRID_RESOLUTION as int
}

/// Whether `coord` lies inside the tracked grid range.
pub fn is_valid_grid_coord(ix: i32, iy: i32) -> (r: bool)
    ensures
        r == spec_valid_grid_coord(ix as int, iy as int),
{
    ix >= 0 && ix < GRID_RESOLUTION as i32 && iy >= 0 && iy < GRID_RESOLUTION as i32
}

/// The 3x3 stencil centered at `(ix, iy)` lies wholly in the valid range.
pub open spec fn spec_neighborhood_safe(ix: int, iy: int) -> bool {
    forall|dx: int, dy: int|
        -1 <= dx <= 1 && -1 <= dy <= 1 ==> #[trigger] spec_valid_grid_coord(ix + dx, iy + dy)
}

/// Whether the whole 3x3 stencil centered at `coord` stays in the valid
/// range; a particle whose stencil leaves the range must not scatter.
pub fn is_coord_neighborhood_safe(ix: i32, iy: i32) -> (r: bool)
    ensures
        r == spec_neighborhood_safe(ix as int, iy as int),
{
    let r = ix >= 1 && ix <= GRID_RESOLUTION as i32 - 2 && iy >= 1 && iy <= GRID_RESOLUTION as i32
        - 2;
    proof {
        let xi = ix as int;
        let yi = iy as int;
        if r {
            assert forall|dx: int, dy: int|
                -1 <= dx <= 1 && -1 <= dy <= 1 implies #[trigger] spec_valid_grid_coord(
                xi + dx,
                yi + dy,
            ) by {}
        } else {
            if !(ix >= 1) {
                assert(!spec_valid_grid_coord(xi + (-1), yi + 0));
            } else if !(ix <= GRID_RESOLUTION as i32 - 2) {
                assert(!spec_valid_grid_coord(xi + 1, yi + 0));
            } else if !(iy >= 1) {
                assert(!spec_valid_grid_coord(xi + 0, yi + (-1)));
            } else {
                assert(!spec_valid_grid_coord(xi + 0, yi + 1));
            }
            assert(!spec_neighborhood_safe(xi, yi));
        }
    }
    r
}

/// The x offset of stencil slot `k` (row-major over the 3x3 stencil).
pub open spec fn spec_offset_x(k: int) -> int {
    k % 3 - 1
}

/// The y offset of stencil slot `k`.
pub open spec fn spec_offset_y(k: int) -> int {
    k / 3 - 1
}

/// The block (4x4 cell tile) a cell axis belongs to.
pub open spec fn spec_block(c: int) -> int {
    c / 4
}

/// The checkerboard colour of a cell, in `{0, 1, 2, 3}`: the mod-2 parity of
/// its block coordinates.
pub open spec fn spec_colour(ix: int, iy: int) -> int {
    (spec_block(ix) % 2) * 2 + spec_block(iy) % 2
}

/// The scatter colour class of a cell inside the valid range.
pub fn colour_of_cell(ix: i32, iy: i32) -> (r: u8)
    requires
        0 <= ix,
        0 <= iy,
    ensures
        r as int == spec_colour(ix as int, iy as int),
        r < 4,
{
    let bx = (ix as u32) / 4 % 2;
    let by = (iy as u32) / 4 % 2;
    (bx * 2 + by) as u8
}

/// Two same-parity distinct block axes are at least two blocks apart, so
/// their cells are at least five cells apart.
pub proof fn lemma_same_parity_axis_gap(a: int, b: int)
    requires
        spec_block(a) % 2 == spec_block(b) % 2,
        spec_block(a) != spec_block(b),
    ensures
        a - b >= 5 || b - a >= 5,
{
    let ba = spec_block(a);
    let bb = spec_block(b);
    assert(ba - bb >= 2 || bb - ba >= 2) by {
        vstd::arithmetic::div_mod::lemma_fundamental_div_mod(ba, 2);
        vstd::arithmetic::div_mod::lemma_fundamental_div_mod(bb, 2);
    }
    vstd::arithmetic::div_mod::lemma_fundamental_div_mod(a, 4);
    vstd::arithmetic::div_mod::lemma_fundamental_div_mod(b, 4);
}

/// When two cells share a colour but sit in distinct blocks, some axis
/// keeps them at least five cells apart.
pub proof fn lemma_same_colour_distinct_blocks_gap(ax: int, ay: int, bx: int, by: int)
    requires
        spec_colour(ax, ay) == spec_colour(bx, by),
        (spec_block(ax), spec_block(ay)) != (spec_block(bx), spec_block(by)),
    ensures
        ax - bx >= 5 || bx - ax >= 5 || ay - by >= 5 || by - ay >= 5,
{
    let cx = spec_block(ax) % 2;
    let dx = spec_block(bx) % 2;
    let cy = spec_block(ay) % 2;
    let dy = spec_block(by) % 2;
    assert(0 <= cx < 2 && 0 <= dx < 2 && 0 <= cy < 2 && 0 <= dy < 2);
    assert(cx * 2 + cy == dx * 2 + dy);
    assert(cx == dx && cy == dy) by (nonlinear_arith)
        requires
            0 <= cx < 2 && 0 <= dx < 2 && 0 <= cy < 2 && 0 <= dy < 2,
            cx * 2 + cy == dx * 2 + dy,
    ;
    if spec_block(ax) != spec_block(bx) {
        lemma_same_parity_axis_gap(ax, bx);
    } else {
        lemma_same_parity_axis_gap(ay, by);
    }
}

} // verus!
