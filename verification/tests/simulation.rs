//! End-to-end tests of the transfer passes, the step lifecycle, the
//! material model, and the constraint pass.

use mpm2d::fixed::{Fx, FX_ONE};
use mpm2d::linalg::{Vec2, Mat2};
use mpm2d::particle::{Particle, MaterialType, FluidParams};
use mpm2d::params::{SolverParams, PbmpmConfig};
use mpm2d::state::MpmState;
use mpm2d::materials::calculate_stress;
use mpm2d::pbmpm::solve_constraints_pbmpm;

/// A fluid whose rest density equals the density a single unit-mass
/// particle at a cell center gathers from its own scatter (0.25), so the
/// equation of state is exactly at equilibrium.
fn equilibrium_water() -> MaterialType {
    MaterialType::fluid(FluidParams::new(
        Fx { raw: FX_ONE / 4 },
        Fx::from_units(2),
        4,
    ))
}

fn centered_particle() -> Particle {
    Particle::new(
        Vec2 { x: Fx::from_units(32), y: Fx::from_units(32) },
        equilibrium_water(),
    )
}

fn total_grid_mass(state: &MpmState) -> i128 {
    let mut total: i128 = 0;
    for node in state.grid.nodes.iter() {
        total += node.mass;
    }
    total
}

#[test]
fn mass_scatter_conserves_total_mass_exactly() {
    let mut state = MpmState::new(SolverParams::new_default(), Vec2::zero());
    let masses: [i64; 3] = [FX_ONE, 5 * FX_ONE / 2, FX_ONE / 2];
    let positions = [(10, 10), (50, 80), (100, 30)];
    for (m, (x, y)) in masses.iter().zip(positions.iter()) {
        let p = Particle::new(
            Vec2 { x: Fx::from_units(*x), y: Fx::from_units(*y) },
            MaterialType::water(),
        )
        .with_mass(Fx { raw: *m });
        state.add_particle(p);
    }
    state.particle_to_grid(Fx { raw: 1024 });
    let expected: i128 = ((FX_ONE + 5 * FX_ONE / 2 + FX_ONE / 2) as i128) << 70;
    assert_eq!(total_grid_mass(&state), expected);
}

#[test]
fn out_of_range_particles_never_scatter() {
    let mut state = MpmState::new(SolverParams::new_default(), Vec2::zero());
    state.add_particle(centered_particle());
    let stray = Particle::new(
        Vec2 { x: Fx::from_units(500), y: Fx::from_units(5) },
        MaterialType::water(),
    );
    state.add_particle(stray);
    state.particle_to_grid(Fx { raw: 1024 });
    // only the in-range unit mass arrives on the grid
    assert_eq!(total_grid_mass(&state), (FX_ONE as i128) << 70);
}

#[test]
fn stationary_particle_at_rest_density_stays_put() {
    // a single stationary particle of mass one at rest density, one step,
    // zero gravity: velocity stays zero and the position does not drift
    let mut state = MpmState::new(SolverParams::new_default(), Vec2::zero());
    state.add_particle(centered_particle());
    let remap = state.advance(Fx { raw: 1092 });
    assert_eq!(remap.len(), 0);
    assert_eq!(state.particle_count(), 1);
    let p = state.particles()[0];
    assert!(!p.failed);
    assert_eq!(p.velocity.x.raw, 0);
    assert_eq!(p.velocity.y.raw, 0);
    assert_eq!(p.position.x.raw, 32 * FX_ONE);
    assert_eq!(p.position.y.raw, 32 * FX_ONE);
    // the deformation gradient stays exactly the identity
    assert_eq!(p.deformation_gradient.m00.raw, FX_ONE);
    assert_eq!(p.deformation_gradient.m11.raw, FX_ONE);
    assert_eq!(p.deformation_gradient.m01.raw, 0);
    assert_eq!(p.deformation_gradient.m10.raw, 0);
}

#[test]
fn gravity_accelerates_a_free_particle_exactly() {
    // dt = 1/64 and gravity -80 give velocity -1.25, exactly representable
    let gravity = Vec2 { x: Fx::zero(), y: Fx::from_units(-80) };
    let mut state = MpmState::new(SolverParams::new_default(), gravity);
    state.set_boundary_mode(mpm2d::grid::BoundaryHandling::Open);
    state.add_particle(centered_particle());
    let dt = Fx { raw: 1024 };
    let remap = state.advance(dt);
    assert_eq!(remap.len(), 0);
    let p = state.particles()[0];
    assert!(!p.failed);
    assert_eq!(p.velocity.x.raw, 0);
    assert_eq!(p.velocity.y.raw, -80 * 1024);
    // position moved by velocity * dt
    assert_eq!(p.position.x.raw, 32 * FX_ONE);
    assert_eq!(p.position.y.raw, 32 * FX_ONE - 80 * 1024 * 1024 / FX_ONE);
}

#[test]
fn advance_reports_removals_through_the_remap_table() {
    let mut state = MpmState::new(SolverParams::new_default(), Vec2::zero());
    state.add_particle(centered_particle());
    let stray = Particle::new(
        Vec2 { x: Fx::from_units(500), y: Fx::from_units(5) },
        MaterialType::water(),
    );
    state.add_particle(stray);
    let remap = state.advance(Fx { raw: 1024 });
    assert_eq!(remap, vec![Some(0), None]);
    assert_eq!(state.particle_count(), 1);
    // a second step with no failures reports nothing
    let remap2 = state.advance(Fx { raw: 1024 });
    assert_eq!(remap2.len(), 0);
}

#[test]
fn fluid_stress_vanishes_at_rest_density() {
    let p = centered_particle();
    let params = SolverParams::new_default();
    let fluid = FluidParams::new(Fx::from_units(2), Fx::from_units(2), 4);
    let s = calculate_stress(&p, Fx::from_units(2), &params, &fluid);
    assert_eq!(s.m00.raw, 0);
    assert_eq!(s.m01.raw, 0);
    assert_eq!(s.m10.raw, 0);
    assert_eq!(s.m11.raw, 0);
}

#[test]
fn fluid_stress_pushes_back_under_compression() {
    // density twice the rest density: eos = 2 * (2^4 - 1) = 30, so the
    // stress is -30 on the diagonal (the Jacobian is one)
    let p = centered_particle();
    let params = SolverParams::new_default();
    let fluid = FluidParams::new(Fx::from_units(2), Fx::from_units(2), 4);
    let s = calculate_stress(&p, Fx::from_units(4), &params, &fluid);
    assert_eq!(s.m00.raw, -30 * FX_ONE);
    assert_eq!(s.m11.raw, -30 * FX_ONE);
    assert_eq!(s.m01.raw, 0);
    assert_eq!(s.m10.raw, 0);
}

#[test]
fn eos_pressure_is_floored_under_tension() {
    // density far below rest: the pressure term clamps near -0.1 instead
    // of imploding; stress is the negated floor on the diagonal
    let p = centered_particle();
    let params = SolverParams::new_default();
    let fluid = FluidParams::new(Fx::from_units(2), Fx::from_units(2), 4);
    let s = calculate_stress(&p, Fx { raw: 100 }, &params, &fluid);
    assert_eq!(s.m00.raw, 6554);
    assert_eq!(s.m11.raw, 6554);
}

#[test]
fn deformation_projection_is_a_pure_uniform_scaling() {
    // whatever sheared state preceded it, projection leaves a diagonal
    // matrix with equal entries and zero off-diagonals
    let mut p = centered_particle();
    p.deformation_gradient = Mat2 {
        m00: Fx::from_units(4),
        m01: Fx { raw: 12345 },
        m10: Fx { raw: -321 },
        m11: Fx::from_units(4),
    };
    let mt = p.material_type;
    mt.project_deformation(&mut p);
    assert_eq!(p.deformation_gradient.m01.raw, 0);
    assert_eq!(p.deformation_gradient.m10.raw, 0);
    assert_eq!(p.deformation_gradient.m00.raw, p.deformation_gradient.m11.raw);

    // a perfect fourth power: det(diag(16,16)) = 256, 256^(1/4) = 4
    let mut q = centered_particle();
    q.deformation_gradient = Mat2 {
        m00: Fx::from_units(16),
        m01: Fx::zero(),
        m10: Fx::zero(),
        m11: Fx::from_units(16),
    };
    mt.project_deformation(&mut q);
    assert_eq!(q.deformation_gradient.m00.raw, 4 * FX_ONE);
    assert_eq!(q.deformation_gradient.m11.raw, 4 * FX_ONE);
}

#[test]
fn constraint_pass_leaves_balanced_particles_alone() {
    // liquid density one, zero displacement: the volume error is zero and
    // nothing moves
    let mut particles = vec![centered_particle()];
    let config = PbmpmConfig {
        iteration_count: 1,
        relaxation_factor: Fx { raw: FX_ONE / 2 },
        warm_start_weight: Fx::zero(),
    };
    solve_constraints_pbmpm(&mut particles, &config);
    assert_eq!(particles[0].deformation_displacement.m00.raw, 0);
    assert_eq!(particles[0].deformation_displacement.m11.raw, 0);
    assert_eq!(particles[0].liquid_density.raw, FX_ONE);
    assert_eq!(
        particles[0].prev_deformation_displacement.m00.raw,
        particles[0].deformation_displacement.m00.raw
    );
}

#[test]
fn constraint_pass_corrects_compressed_liquid() {
    // liquid density one half: volume error 1/0.5 - 1 = 1, relaxation one
    // half, so both diagonals gain 0.5; a second iteration then finds the
    // strain consistent (1/0.5 - 1 - 1 = 0) and converges
    let mut p = centered_particle();
    p.liquid_density = Fx { raw: FX_ONE / 2 };
    let mut particles = vec![p];
    let config = PbmpmConfig {
        iteration_count: 2,
        relaxation_factor: Fx { raw: FX_ONE / 2 },
        warm_start_weight: Fx::zero(),
    };
    solve_constraints_pbmpm(&mut particles, &config);
    let q = particles[0];
    assert_eq!(q.deformation_displacement.m00.raw, FX_ONE / 2);
    assert_eq!(q.deformation_displacement.m11.raw, FX_ONE / 2);
    assert_eq!(q.deformation_displacement.m01.raw, 0);
    // the density was advanced by the volumetric strain back to one
    assert_eq!(q.liquid_density.raw, FX_ONE);
    // and the affine matrix carries the constrained displacement
    assert_eq!(q.affine_momentum_matrix.m00.raw, FX_ONE / 2);
}

#[test]
fn builders_set_particle_fields() {
    let p = Particle::with_density(Fx::from_units(2), Fx::from_units(3));
    // volume = pi * r^2 with the fixed-point pi; mass = volume * density
    let pi_raw: i64 = 205887;
    let volume = Fx { raw: pi_raw }.mul(Fx::from_units(2)).mul(Fx::from_units(2));
    assert_eq!(p.volume0.raw, volume.raw);
    assert_eq!(p.mass.raw, volume.mul(Fx::from_units(3)).raw);
    let q = Particle::zeroed(MaterialType::water())
        .with_velocity(Vec2 { x: Fx::one(), y: Fx::zero() })
        .with_mass(Fx::from_units(2))
        .with_radius(Fx::from_units(3));
    assert_eq!(q.velocity.x.raw, FX_ONE);
    assert_eq!(q.mass.raw, 2 * FX_ONE);
    assert_eq!(q.radius0.raw, 3 * FX_ONE);
    assert!(q.material_type.is_fluid());
}
