//! The optional position-based constraint pass (PBMPM).
//!
//! For a configured number of iterations, each particle's working
//! deformation displacement is blended with the previous frame's converged
//! solution (warm start, first iteration only), the tracked liquid density
//! is advanced by the volumetric strain, and the closed-form
//! incompressibility correction is added to the diagonal. The final
//! displacement is stored as the next frame's warm-start seed. Each
//! particle evolves independently of the others.

use vstd::prelude::*;
use crate::fixed::{Fx, FX_ONE, fx_clip};
use crate::linalg::Mat2;
use crate::particle::Particle;
use crate::params::PbmpmConfig;
use crate::materials::inv_exact;

verus! {

/// Raw fixed-point floor (about 0.05) the tracked liquid density is
/// clamped to, avoiding divide-by-zero cascades.
pub const LIQUID_DENSITY_FLOOR_RAW: i64 = 3277;

/// One incompressibility-constraint solve on a working deformation: the
/// tracked density advanced by the volumetric strain (clamped to the
/// floor), and the volume-error residual times the relaxation factor added
/// to both diagonal entries.
pub open spec fn spec_constraint_solved(p: Particle, d: Mat2, relaxation: Fx) -> (
    Particle,
    Mat2,
) {
    let trace = fx_clip(d.m00@ + d.m11@);
    let factor = fx_clip(FX_ONE as int + trace);
    let nd0 = Fx::spec_mul(p.liquid_density@, factor);
    let nd = if nd0 >= LIQUID_DENSITY_FLOOR_RAW as int {
        nd0
    } else {
        LIQUID_DENSITY_FLOOR_RAW as int
    };
    let verr = fx_clip(fx_clip(Fx::spec_div(FX_ONE as int, p.liquid_density@) - FX_ONE as int)
        - trace);
    let lambda = Fx::spec_mul(verr, relaxation@);
    (
        Particle { liquid_density: Fx { raw: nd as i64 }, ..p },
        Mat2 {
            m00: Fx { raw: fx_clip(d.m00@ + lambda) as i64 },
            m01: d.m01,
            m10: d.m10,
            m11: Fx { raw: fx_clip(d.m11@ + lambda) as i64 },
        },
    )
}

/// The absolute volume-error residual the solve reports.
pub open spec fn spec_constraint_error(p: Particle, d: Mat2) -> int {
    let trace = fx_clip(d.m00@ + d.m11@);
    let verr = fx_clip(fx_clip(Fx::spec_div(FX_ONE as int, p.liquid_density@) - FX_ONE as int)
        - trace);
    if verr >= 0 {
        verr
    } else {
        -verr
    }
}

/// Solve the incompressibility constraint on one particle's working
/// deformation: update the tracked liquid density from the volumetric
/// strain and apply the closed-form diagonal correction; returns the
/// absolute constraint error for convergence monitoring.
pub fn solve_incompressibility_constraint(
    particle: &mut Particle,
    deformation: &mut Mat2,
    relaxation_factor: Fx,
) -> (r: Fx)
    requires
        old(particle).wf(),
        old(deformation).wf(),
        relaxation_factor.wf(),
    ensures
        (*final(particle), *final(deformation)) == spec_constraint_solved(
            *old(particle),
            *old(deformation),
            relaxation_factor,
        ),
        r@ == spec_constraint_error(*old(particle), *old(deformation)),
        final(particle).wf(),
        final(deformation).wf(),
{
    let trace = deformation.trace();
    let current_density = particle.liquid_density;
    let factor = Fx::one().add(trace);
    let new_density = current_density.mul(factor).max(Fx { raw: LIQUID_DENSITY_FLOOR_RAW });
    particle.liquid_density = new_density;
    let volume_error = inv_exact(current_density).sub(Fx::one()).sub(trace);
    let lambda = volume_error.mul(relaxation_factor);
    deformation.m00 = deformation.m00.add(lambda);
    deformation.m11 = deformation.m11.add(lambda);
    volume_error.abs()
}

/// One full constraint iteration on one particle: blend the working
/// displacement with the warm-start seed, solve the constraint, and store
/// the result in both the displacement and the affine matrix.
pub open spec fn spec_pbmpm_iteration(p: Particle, warm: Fx, relaxation: Fx) -> Particle {
    let blended = Mat2::spec_madd(
        Mat2::spec_mscale(
            p.deformation_displacement,
            Fx { raw: fx_clip(FX_ONE as int - warm@) as i64 },
        ),
        Mat2::spec_mscale(p.prev_deformation_displacement, warm),
    );
    let solved = spec_constraint_solved(p, blended, relaxation);
    Particle {
        deformation_displacement: solved.1,
        affine_momentum_matrix: solved.1,
        ..solved.0
    }
}

/// A particle after `it` constraint iterations: the warm-start weight
/// seeds only the first.
pub open spec fn spec_pbmpm_iterated(p: Particle, config: PbmpmConfig, it: int) -> Particle
    decreases it,
{
    if it <= 0 {
        p
    } else {
        spec_pbmpm_iteration(
            spec_pbmpm_iterated(p, config, it - 1),
            if it == 1 {
                config.warm_start_weight
            } else {
                Fx { raw: 0 }
            },
            config.relaxation_factor,
        )
    }
}

/// A particle after the whole constraint pass: the configured number of
/// iterations, then the converged displacement stored as the next frame's
/// warm-start seed.
pub open spec fn spec_pbmpm_solved(p: Particle, config: PbmpmConfig) -> Particle {
    let q = spec_pbmpm_iterated(p, config, config.iteration_count as int);
    Particle { prev_deformation_displacement: q.deformation_displacement, ..q }
}

/// Run the configured number of constraint iterations over every particle,
/// with warm starting on the first iteration, then store each particle's
/// converged displacement as the next frame's warm-start seed.
pub fn solve_constraints_pbmpm(particles: &mut Vec<Particle>, config: &PbmpmConfig)
    requires
        forall|i: int| 0 <= i < old(particles)@.len() ==> (#[trigger] old(particles)@[i]).wf(),
        config.wf(),
    ensures
        final(particles)@.len() == old(particles)@.len(),
        forall|i: int|
            0 <= i < final(particles)@.len() ==> final(particles)@[i] == spec_pbmpm_solved(
                #[trigger] old(particles)@[i],
                *config,
            ),
        forall|i: int|
            0 <= i < final(particles)@.len() ==> (#[trigger] final(particles)@[i]).wf(),
{
    let n = particles.len();
    let iters = config.iteration_count;
    let mut it: u32 = 0;
    while it < iters
        invariant
            0 <= it <= iters,
            n == particles@.len(),
            n == old(particles)@.len(),
            iters == config.iteration_count,
            config.wf(),
            forall|j: int| 0 <= j < n as int ==> (#[trigger] old(particles)@[j]).wf(),
            forall|j: int|
                0 <= j < n as int ==> particles@[j] == spec_pbmpm_iterated(
                    #[trigger] old(particles)@[j],
                    *config,
                    it as int,
                ),
            forall|j: int| 0 <= j < n as int ==> (#[trigger] particles@[j]).wf(),
        decreases iters - it,
    {
        let warm_start_weight: Fx = if it == 0 {
            config.warm_start_weight
        } else {
            Fx::zero()
        };
        let ghost pre = particles@;
        let mut i: usize = 0;
        while i < n
            invariant
                0 <= i <= n,
                n == particles@.len(),
                config.wf(),
                warm_start_weight.wf(),
                warm_start_weight == if it == 0 {
                    config.warm_start_weight
                } else {
                    Fx { raw: 0 }
                },
                forall|j: int| i as int <= j < n as int ==> particles@[j] == pre[j],
                forall|j: int| 0 <= j < n as int ==> (#[trigger] pre[j]).wf(),
                forall|j: int|
                    0 <= j < i as int ==> particles@[j] == spec_pbmpm_iteration(
                        #[trigger] pre[j],
                        warm_start_weight,
                        config.relaxation_factor,
                    ),
                forall|j: int| 0 <= j < i as int ==> (#[trigger] particles@[j]).wf(),
            decreases n - i,
        {
            let mut p = particles[i];
            proof {
                assert(p == pre[i as int]);
            }
            let one_minus = Fx::one().sub(warm_start_weight);
            let mut deformation = p.deformation_displacement.scale(one_minus).add(
                p.prev_deformation_displacement.scale(warm_start_weight),
            );
            let _err = solve_incompressibility_constraint(
                &mut p,
                &mut deformation,
                config.relaxation_factor,
            );
            p.deformation_displacement = deformation;
            p.affine_momentum_matrix = deformation;
            proof {
                assert(p == spec_pbmpm_iteration(
                    pre[i as int],
                    warm_start_weight,
                    config.relaxation_factor,
                ));
            }
            particles.set(i, p);
            i = i + 1;
        }
        it = it + 1;
    }
    let mut i2: usize = 0;
    let ghost done = particles@;
    while i2 < n
        invariant
            0 <= i2 <= n,
            n == particles@.len(),
            done.len() == n,
            forall|j: int| i2 as int <= j < n as int ==> particles@[j] == done[j],
            forall|j: int| 0 <= j < n as int ==> (#[trigger] done[j]).wf(),
            forall|j: int|
                0 <= j < i2 as int ==> particles@[j] == (Particle {
                    prev_deformation_displacement: done[j].deformation_displacement,
                    ..done[j]
                }),
            forall|j: int| 0 <= j < i2 as int ==> (#[trigger] particles@[j]).wf(),
        decreases n - i2,
    {
        let mut p = particles[i2];
        proof {
            assert(p == done[i2 as int]);
        }
        p.prev_deformation_displacement = p.deformation_displacement;
        particles.set(i2, p);
        i2 = i2 + 1;
    }
}

} // verus!
