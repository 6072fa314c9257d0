//! Tests of the fixed-point scalars, coordinate packing, the interpolation
//! kernel, and the checkerboard colouring.

use mpm2d::fixed::{Fx, FX_ONE, FX_HALF, FX_MAX_RAW};
use mpm2d::coords::{
    pack_coords, unpack_coords, is_valid_grid_coord, is_coord_neighborhood_safe, colour_of_cell,
};
use mpm2d::kernel::{quadratic_bspline_weights, cell_from_position, inv_d, WEIGHT_SCALE};
use mpm2d::linalg::{Vec2, Mat2, outer_product, DecomposedTensor};

#[test]
fn fx_basic_arithmetic_is_exact() {
    let two = Fx::from_units(2);
    let three = Fx::from_units(3);
    assert_eq!(two.add(three).raw, 5 * FX_ONE);
    assert_eq!(two.sub(three).raw, -FX_ONE);
    assert_eq!(two.mul(three).raw, 6 * FX_ONE);
    assert_eq!(three.div_safe(two).raw, FX_ONE + FX_HALF);
    assert_eq!(two.neg().raw, -2 * FX_ONE);
    assert_eq!(two.neg().abs().raw, 2 * FX_ONE);
    assert_eq!(two.max(three).raw, 3 * FX_ONE);
    assert_eq!(two.min(three).raw, 2 * FX_ONE);
}

#[test]
fn fx_division_by_zero_is_safe() {
    let x = Fx::from_units(7);
    assert_eq!(x.div_safe(Fx::zero()).raw, 0);
}

#[test]
fn fx_addition_saturates() {
    let big = Fx { raw: FX_MAX_RAW };
    assert_eq!(big.add(big).raw, FX_MAX_RAW);
    assert_eq!(big.neg().sub(big).raw, -FX_MAX_RAW);
}

#[test]
fn fx_fourth_root_of_perfect_powers() {
    // 1.0^(1/4) == 1.0; 16.0^(1/4) == 2.0
    assert_eq!(Fx::one().fourth_root().raw, FX_ONE);
    assert_eq!(Fx::from_units(16).fourth_root().raw, 2 * FX_ONE);
    assert_eq!(Fx::zero().fourth_root().raw, 0);
}

#[test]
fn fx_rounding_to_units() {
    assert_eq!(Fx { raw: 3 * FX_HALF }.round_units(), 2); // 1.5 rounds up
    assert_eq!(Fx { raw: -3 * FX_HALF }.floor_units(), -2); // floor(-1.5)
    assert_eq!(Fx { raw: 5 * FX_ONE + 123 }.floor_units(), 5);
}

#[test]
fn pack_coords_round_trips_signed_axes() {
    for &(x, y) in &[(0i32, 0i32), (5, -7), (-1, -1), (127, 127), (-2000, 31)] {
        let id = pack_coords(x, y);
        assert_eq!(unpack_coords(id), (x, y));
    }
    assert_eq!(pack_coords(0, 0), 0u64);
    assert_eq!(pack_coords(-1, -1), u64::MAX);
}

#[test]
fn valid_range_and_neighborhood_checks() {
    assert!(is_valid_grid_coord(0, 0));
    assert!(is_valid_grid_coord(127, 127));
    assert!(!is_valid_grid_coord(128, 0));
    assert!(!is_valid_grid_coord(0, -1));
    assert!(is_coord_neighborhood_safe(1, 1));
    assert!(is_coord_neighborhood_safe(126, 126));
    assert!(!is_coord_neighborhood_safe(0, 5));
    assert!(!is_coord_neighborhood_safe(5, 127));
}

#[test]
fn kernel_weights_sum_to_one_exactly() {
    // Kernel partition of unity at several offsets, including the extremes:
    // the three scaled weights always sum to exactly WEIGHT_SCALE.
    for &d in &[0i64, 1, -1, 100, -100, 12345, -32768, 32767] {
        let (w0, w1, w2) = quadratic_bspline_weights(Fx { raw: d });
        assert_eq!(w0 + w1 + w2, WEIGHT_SCALE);
    }
    // centered: 0.125, 0.75, 0.125 in WEIGHT_SCALE units
    let (w0, w1, w2) = quadratic_bspline_weights(Fx::zero());
    assert_eq!(w0, WEIGHT_SCALE / 8);
    assert_eq!(w1, 3 * WEIGHT_SCALE / 4);
    assert_eq!(w2, WEIGHT_SCALE / 8);
}

#[test]
fn cell_from_position_rounds_to_nearest() {
    let one = Fx::one();
    let p = Vec2 { x: Fx { raw: 32 * FX_ONE + 100 }, y: Fx { raw: 7 * FX_ONE - 100 } };
    assert_eq!(cell_from_position(p, one), (32, 7));
    // halves round up
    let q = Vec2 { x: Fx { raw: 2 * FX_ONE + FX_HALF }, y: Fx { raw: 0 } };
    assert_eq!(cell_from_position(q, one), (3, 0));
}

#[test]
fn inv_d_at_unit_width_is_four() {
    assert_eq!(inv_d(Fx::one()).raw, 4 * FX_ONE);
}

#[test]
fn colour_classes_follow_block_checkerboard() {
    assert_eq!(colour_of_cell(0, 0), 0);
    assert_eq!(colour_of_cell(3, 3), 0); // same 4x4 block
    assert_eq!(colour_of_cell(4, 0), 2);
    assert_eq!(colour_of_cell(0, 4), 1);
    assert_eq!(colour_of_cell(4, 4), 3);
    assert_eq!(colour_of_cell(8, 0), 0); // two blocks over: same colour again
    assert_eq!(colour_of_cell(8, 8), 0);
}

#[test]
fn matrix_operations_are_componentwise_exact() {
    let a = Mat2 {
        m00: Fx::from_units(1),
        m01: Fx::from_units(2),
        m10: Fx::from_units(3),
        m11: Fx::from_units(4),
    };
    let det = a.determinant();
    assert_eq!(det.raw, -2 * FX_ONE);
    let t = a.transpose();
    assert_eq!(t.m01.raw, 3 * FX_ONE);
    assert_eq!(a.trace().raw, 5 * FX_ONE);
    let v = Vec2 { x: Fx::from_units(1), y: Fx::from_units(1) };
    let av = a.mul_vec(v);
    assert_eq!(av.x.raw, 3 * FX_ONE);
    assert_eq!(av.y.raw, 7 * FX_ONE);
    let o = outer_product(v, Vec2 { x: Fx::from_units(5), y: Fx::from_units(6) });
    assert_eq!(o.m00.raw, 5 * FX_ONE);
    assert_eq!(o.m11.raw, 6 * FX_ONE);
}

#[test]
fn tensor_decomposition_recomposes() {
    let a = Mat2 {
        m00: Fx::from_units(3),
        m01: Fx::from_units(1),
        m10: Fx::from_units(-1),
        m11: Fx::from_units(5),
    };
    let d = DecomposedTensor::decompose(&a);
    assert_eq!(d.spherical_part.raw, 4 * FX_ONE);
    assert_eq!(d.deviatoric_part.m00.raw, -FX_ONE);
    assert_eq!(d.deviatoric_part.m11.raw, FX_ONE);
    let r = d.recompose();
    assert_eq!(r.m00.raw, a.m00.raw);
    assert_eq!(r.m01.raw, a.m01.raw);
    assert_eq!(r.m10.raw, a.m10.raw);
    assert_eq!(r.m11.raw, a.m11.raw);
}
