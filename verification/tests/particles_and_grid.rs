//! Tests of the particle set (rebuild, sorting, bins, compaction), the
//! sparse grid, the health check, and the boundary policies.

use mpm2d::fixed::{Fx, FX_ONE, FX_MAX_RAW};
use mpm2d::linalg::{Vec2, Mat2};
use mpm2d::particle::{Particle, MaterialType};
use mpm2d::particle_set::ParticleSet;
use mpm2d::grid::{Grid, GridNode, BoundaryHandling, apply_boundary_conditions};
use mpm2d::coords::pack_coords;
use mpm2d::sorting::sort_indices;

fn particle_at(units_x: i32, units_y: i32) -> Particle {
    Particle::new(
        Vec2 { x: Fx::from_units(units_x), y: Fx::from_units(units_y) },
        MaterialType::water(),
    )
}

#[test]
fn sort_indices_orders_by_key_then_index() {
    let keys: Vec<u64> = vec![5, 3, 3, 1];
    let order = sort_indices(&keys);
    assert_eq!(order, vec![3, 1, 2, 0]);
}

#[test]
fn rebuild_assigns_keys_and_marks_out_of_range_failed() {
    let mut set = ParticleSet::new();
    set.insert(particle_at(10, 20));
    set.insert(particle_at(300, 20)); // outside the valid range
    set.insert(particle_at(1, 1));
    set.rebuild_bins(Fx::one());
    let ps = &set.particles;
    assert_eq!(ps[0].grid_index, pack_coords(10, 20));
    assert!(!ps[0].failed);
    assert_eq!(ps[1].grid_index, u64::MAX);
    assert!(ps[1].failed);
    assert_eq!(ps[2].grid_index, pack_coords(1, 1));
    // failed particles get an empty stencil cache; live ones a 9-entry one
    assert_eq!(set.transfer_cache[0].entries.len(), 9);
    assert_eq!(set.transfer_cache[1].entries.len(), 0);
    // the sorted order lists the live indices only, by cell then index
    assert_eq!(set.order, vec![2, 0]);
}

#[test]
fn regions_and_order_exclude_failed_particles() {
    let mut set = ParticleSet::new();
    set.insert(particle_at(10, 10));
    let mut sick = particle_at(10, 10); // in range, but failed by health
    sick.failed = true;
    set.insert(sick);
    set.insert(particle_at(10, 10));
    set.insert(particle_at(500, 2)); // out of range: failed at rebuild
    set.rebuild_bins(Fx::one());
    // only the two live particles appear, and the single region covers
    // exactly their positions in the order — no failed tail, no failed
    // particle inside a run
    assert_eq!(set.order, vec![0, 2]);
    assert_eq!(set.regions, vec![(pack_coords(10, 10), 0, 2)]);
    assert_eq!(set.particle_bins.len(), 1);
    assert_eq!(set.particle_bins[0].indices, vec![0, 2]);
}

#[test]
fn rebuild_is_idempotent() {
    let mut set = ParticleSet::new();
    set.insert(particle_at(10, 20));
    set.insert(particle_at(10, 20));
    set.insert(particle_at(3, 90));
    set.insert(particle_at(500, 2));
    set.insert(particle_at(64, 64));
    set.rebuild_bins(Fx::one());
    let order1 = set.order.clone();
    let regions1 = set.regions.clone();
    let cells1 = set.active_cells.clone();
    let bins1: Vec<(Vec<usize>, u64, u8)> = set
        .particle_bins
        .iter()
        .map(|b| (b.indices.clone(), b.cell, b.colour))
        .collect();

    set.rebuild_bins(Fx::one());
    assert_eq!(set.order, order1);
    assert_eq!(set.regions, regions1);
    assert_eq!(set.active_cells, cells1);
    let bins2: Vec<(Vec<usize>, u64, u8)> = set
        .particle_bins
        .iter()
        .map(|b| (b.indices.clone(), b.cell, b.colour))
        .collect();
    assert_eq!(bins2, bins1);
}

#[test]
fn regions_and_bins_group_by_cell() {
    let mut set = ParticleSet::new();
    // five particles in one cell, one in another
    for _ in 0..5 {
        set.insert(particle_at(10, 10));
    }
    set.insert(particle_at(20, 10));
    set.rebuild_bins(Fx::one());
    let cell_a = pack_coords(10, 10);
    let cell_b = pack_coords(20, 10);
    assert_eq!(set.regions.len(), 2);
    assert_eq!(set.regions[0], (cell_a, 0, 5));
    assert_eq!(set.regions[1], (cell_b, 5, 6));
    // bins are at most four wide: 4 + 1 for cell A, 1 for cell B
    assert_eq!(set.particle_bins.len(), 3);
    assert_eq!(set.particle_bins[0].indices, vec![0, 1, 2, 3]);
    assert_eq!(set.particle_bins[0].cell, cell_a);
    assert_eq!(set.particle_bins[1].indices, vec![4]);
    assert_eq!(set.particle_bins[1].cell, cell_a);
    assert_eq!(set.particle_bins[2].indices, vec![5]);
    assert_eq!(set.particle_bins[2].cell, cell_b);
}

#[test]
fn same_colour_distinct_blocks_never_share_nodes() {
    // cells (1,1) and (9,1): blocks 0 and 2 on x, same checkerboard colour
    let mut set = ParticleSet::new();
    set.insert(particle_at(1, 1));
    set.insert(particle_at(9, 1));
    set.rebuild_bins(Fx::one());
    assert_eq!(set.particle_bins.len(), 2);
    assert_eq!(set.particle_bins[0].colour, set.particle_bins[1].colour);
    let c0 = &set.transfer_cache[0].entries;
    let c1 = &set.transfer_cache[1].entries;
    for e0 in c0.iter() {
        for e1 in c1.iter() {
            assert!((e0.cx, e0.cy) != (e1.cx, e1.cy));
        }
    }
}

#[test]
fn remove_failed_is_stable_and_remaps() {
    let mut set = ParticleSet::new();
    // [A, B*, C, D*, E] with * marking failed
    let mut a = particle_at(10, 1);
    let mut b = particle_at(11, 1);
    let mut c = particle_at(12, 1);
    let mut d = particle_at(13, 1);
    let mut e = particle_at(14, 1);
    b.failed = true;
    d.failed = true;
    for p in [a, b, c, d, e] {
        set.insert(p);
    }
    set.rebuild_bins(Fx::one());
    a = set.particles[0];
    c = set.particles[2];
    e = set.particles[4];
    let mapping = set.remove_failed();
    assert_eq!(mapping, vec![Some(0), None, Some(1), None, Some(2)]);
    assert_eq!(set.particles.len(), 3);
    assert_eq!(set.particles[0], a);
    assert_eq!(set.particles[1], c);
    assert_eq!(set.particles[2], e);
}

#[test]
fn remove_failed_with_no_failures_is_a_no_op() {
    let mut set = ParticleSet::new();
    set.insert(particle_at(10, 1));
    set.insert(particle_at(11, 1));
    let mapping = set.remove_failed();
    assert_eq!(mapping.len(), 0);
    assert_eq!(set.particles.len(), 2);
}

#[test]
fn grid_lookup_and_cleanup() {
    let mut grid = Grid::new();
    let ka = pack_coords(5, 6);
    let kb = pack_coords(7, 8);
    let ia = grid.ensure_cell_index(ka);
    let ib = grid.ensure_cell_index(kb);
    let mut na = grid.node_at(ia);
    na.mass = 42;
    grid.set_node(ia, na);
    assert_eq!(grid.active_cell_count(), 2);
    assert_eq!(grid.get_packed(ka).unwrap().mass, 42);
    assert_eq!(grid.get_cell_coord(7, 8).unwrap().mass, 0);
    assert!(grid.get_cell_coord(1, 1).is_none());
    let _ = ib;
    // reclaim drops the zero-mass node and demotes the survivor's flag
    grid.cleanup_empty_cells();
    assert_eq!(grid.active_cell_count(), 1);
    let survivor = grid.get_packed(ka).unwrap();
    assert_eq!(survivor.mass, 42);
    assert!(!survivor.active);
    assert!(grid.get_packed(kb).is_none());
}

#[test]
fn lookup_or_create_marks_the_node_active() {
    let mut grid = Grid::new();
    let k = pack_coords(9, 9);
    // creation marks active
    let i = grid.ensure_cell_index(k);
    assert!(grid.node_at(i).active);
    // demote it, as the start-of-step clear and the reclaim do
    let mut n = grid.node_at(i);
    n.active = false;
    n.mass = 3;
    grid.set_node(i, n);
    assert!(!grid.node_at(i).active);
    // a later lookup-or-create of the same cell re-marks it
    let j = grid.ensure_cell_index(k);
    assert_eq!(j, i);
    assert!(grid.node_at(j).active);
    assert_eq!(grid.node_at(j).mass, 3);
    assert_eq!(grid.active_cell_count(), 1);
}

#[test]
fn zero_active_cells_resets_without_deallocating() {
    let mut grid = Grid::new();
    let k = pack_coords(3, 3);
    let i = grid.ensure_cell_index(k);
    let mut n = grid.node_at(i);
    n.mass = 7;
    n.velocity = Vec2 { x: Fx::one(), y: Fx::one() };
    grid.set_node(i, n);
    grid.zero_active_cells();
    assert_eq!(grid.active_cell_count(), 1);
    let n2 = grid.get_packed(k).unwrap();
    assert_eq!(n2.mass, 0);
    assert_eq!(n2.velocity.x.raw, 0);
    assert!(!n2.active);
}

fn boundary_node_with_velocity(vx: i32, vy: i32) -> GridNode {
    let mut n = GridNode::default();
    n.mass = 1;
    n.velocity = Vec2 { x: Fx::from_units(vx), y: Fx::from_units(vy) };
    n
}

#[test]
fn boundary_policies_near_minimum_edge() {
    // a node one cell inside the minimum x boundary with inward velocity
    let (ix, iy) = (1, 64);
    let mut stick = boundary_node_with_velocity(-5, 3);
    apply_boundary_conditions(&mut stick, ix, iy, BoundaryHandling::Stick);
    assert_eq!(stick.velocity.x.raw, 0);
    assert_eq!(stick.velocity.y.raw, 0);

    let mut slip = boundary_node_with_velocity(-5, 3);
    apply_boundary_conditions(&mut slip, ix, iy, BoundaryHandling::Slip);
    assert_eq!(slip.velocity.x.raw, 0);
    assert_eq!(slip.velocity.y.raw, 3 * FX_ONE);

    let mut open = boundary_node_with_velocity(-5, 3);
    apply_boundary_conditions(&mut open, ix, iy, BoundaryHandling::Open);
    assert_eq!(open.velocity.x.raw, -5 * FX_ONE);
    assert_eq!(open.velocity.y.raw, 3 * FX_ONE);

    // far from any boundary nothing changes, whatever the policy
    let mut interior = boundary_node_with_velocity(-5, 3);
    apply_boundary_conditions(&mut interior, 64, 64, BoundaryHandling::Stick);
    assert_eq!(interior.velocity.x.raw, -5 * FX_ONE);
    assert_eq!(interior.velocity.y.raw, 3 * FX_ONE);
}

#[test]
fn health_check_flags_ill_conditioned_affine_state() {
    let mut p = particle_at(10, 10);
    // zero affine matrix: a particle at rest is healthy
    p.update_health();
    assert!(!p.failed);
    assert_eq!(p.condition_number.raw, 0);

    // large trace with vanishing determinant: condition number saturates
    let mut q = particle_at(10, 10);
    q.affine_momentum_matrix = Mat2 {
        m00: Fx::from_units(1000),
        m01: Fx::zero(),
        m10: Fx::zero(),
        m11: Fx::zero(),
    };
    q.update_health();
    assert!(q.failed);
    assert_eq!(q.condition_number.raw, FX_MAX_RAW);

    // non-positive mass fails the particle
    let mut r = particle_at(10, 10);
    r.mass = Fx::zero();
    r.update_health();
    assert!(r.failed);
}

#[test]
fn health_keeps_well_conditioned_particles() {
    let mut p = particle_at(10, 10);
    p.affine_momentum_matrix = Mat2 {
        m00: Fx::from_units(2),
        m01: Fx::zero(),
        m10: Fx::zero(),
        m11: Fx::from_units(2),
    };
    p.update_health();
    assert!(!p.failed);
    // |trace|/|det| = 4/4 = 1
    assert_eq!(p.condition_number.raw, FX_ONE);
}
