//! The aggregate simulation state and the per-step lifecycle.
//!
//! [`MpmState`] bundles the grid, the particle set, the solver parameters,
//! gravity and the boundary mode, and exposes the lifecycle operations:
//! adding particles, rebuilding the spatial index, the transfer passes,
//! the grid update, the health check, and failed-particle compaction with
//! its index-remap table. [`MpmState::advance`] runs one full step in the
//! fixed order: rebuild, grid clear, mass scatter, momentum scatter,
//! velocity derivation, gravity and boundary integration, empty-cell
//! reclaim, grid-to-particle gather, health update, and compaction.

use vstd::prelude::*;
use crate::fixed::Fx;
use crate::linalg::Vec2;
use crate::grid::{Grid, BoundaryHandling, spec_total_mass, lemma_total_mass_all_zero};
use crate::particle::{Particle, update_particles_health};
use crate::particle_set::{ParticleSet, spec_live_flags};
use crate::params::SolverParams;
use crate::solver::{
    scatter_mass,
    scatter_momentum,
    derive_grid_velocities,
    grid_update,
    grid_to_particle,
    spec_live_mass_sum,
    lemma_live_mass_sum_bounds,
    PARTICLE_LIMIT,
};
use crate::kernel::{inv_d, WEIGHT_SCALE_SQ};
use crate::compact::{spec_count_kept, lemma_count_kept_bounds};

verus! {

/// The per-step remap table published to external id-bearing
/// collaborators: old particle index to new index, or nothing when the
/// particle was removed. Consumers must clear it before the next step.
pub struct ParticleRemap {
    /// The mapping of the last step; empty when nothing was removed.
    pub map: Vec<Option<usize>>,
}

impl ParticleRemap {
    /// An empty remap table.
    pub fn new() -> (r: ParticleRemap)
        ensures
            r.map@.len() == 0,
    {
        ParticleRemap { map: Vec::new() }
    }

    /// Clear the table; consumers call this once they applied it.
    pub fn clear(&mut self)
        ensures
            final(self).map@.len() == 0,
    {
        self.map.clear();
    }
}

/// Aggregate simulation state.
pub struct MpmState {
    /// The particle set with its derived spatial index.
    pub particle_set: ParticleSet,
    /// The sparse background grid.
    pub grid: Grid,
    /// Fluid and volume-preservation parameters.
    pub solver_params: SolverParams,
    /// Gravity, as an acceleration.
    pub gravity: Vec2,
    /// The boundary policy applied by the grid update.
    pub boundary: BoundaryHandling,
}

impl MpmState {
    /// Well-formedness: components well formed, and every particle's mass
    /// positive and inside the scatter bound.
    pub open spec fn wf(self) -> bool {
        &&& self.particle_set.wf()
        &&& forall|i: int|
            0 <= i < self.particle_set.particles@.len() ==> 0 < (
            #[trigger] self.particle_set.particles@[i]).mass@ <= 0x8000_0000
        &&& self.grid.wf()
        &&& self.solver_params.wf()
        &&& self.gravity.wf()
    }

    /// A fresh state with an empty particle set, a unit-cell grid, and the
    /// sliding boundary policy.
    pub fn new(solver_params: SolverParams, gravity: Vec2) -> (r: MpmState)
        requires
            solver_params.wf(),
            gravity.wf(),
        ensures
            r.particle_set.particles@.len() == 0,
            r.grid.spec_keys().len() == 0,
            r.grid.spec_cell_width()@ == crate::fixed::FX_ONE as int,
            r.solver_params == solver_params,
            r.gravity == gravity,
            r.boundary == BoundaryHandling::Slip,
            r.wf(),
    {
        MpmState {
            particle_set: ParticleSet::new(),
            grid: Grid::new(),
            solver_params,
            gravity,
            boundary: BoundaryHandling::Slip,
        }
    }

    /// Number of particles, live or failed.
    pub fn particle_count(&self) -> (r: usize)
        ensures
            r == self.particle_set.particles@.len(),
    {
        self.particle_set.len()
    }

    /// Read access to the particle array (for rendering and diagnostics).
    pub fn particles(&self) -> (r: &Vec<Particle>)
        ensures
            r@ == self.particle_set.particles@,
    {
        &self.particle_set.particles
    }

    /// Read access to the grid.
    pub fn grid(&self) -> (r: &Grid)
        ensures
            r == &self.grid,
    {
        &self.grid
    }

    /// Read access to the particle set.
    pub fn particle_set(&self) -> (r: &ParticleSet)
        ensures
            r == &self.particle_set,
    {
        &self.particle_set
    }

    /// The colour-coded bins of the last rebuild.
    pub fn particle_bins(&self) -> (r: &Vec<crate::particle_set::ParticleBin>)
        ensures
            r@ == self.particle_set.particle_bins@,
    {
        &self.particle_set.particle_bins
    }

    /// The `(cell, start, end)` runs of the last rebuild.
    pub fn particle_regions(&self) -> (r: &Vec<(u64, usize, usize)>)
        ensures
            r@ == self.particle_set.regions@,
    {
        &self.particle_set.regions
    }

    /// The sorted live particle indices of the last rebuild.
    pub fn particle_order(&self) -> (r: &Vec<usize>)
        ensures
            r@ == self.particle_set.order@,
    {
        &self.particle_set.order
    }

    /// The per-particle cached stencils of the last rebuild.
    pub fn particle_transfer_cache(&self) -> (r: &Vec<crate::kernel::ParticleTransferCache>)
        ensures
            r@ == self.particle_set.transfer_cache@,
    {
        &self.particle_set.transfer_cache
    }

    /// Number of currently allocated grid cells (diagnostics).
    pub fn grid_active_cell_count(&self) -> (r: usize)
        ensures
            r as int == self.grid.spec_keys().len(),
    {
        self.grid.active_cell_count()
    }

    /// The configured gravity.
    pub fn gravity(&self) -> (r: Vec2)
        ensures
            r == self.gravity,
    {
        self.gravity
    }

    /// Replace the gravity vector.
    pub fn set_gravity(&mut self, gravity: Vec2)
        requires
            old(self).wf(),
            gravity.wf(),
        ensures
            *final(self) == (MpmState { gravity, ..*old(self) }),
            final(self).wf(),
    {
        self.gravity = gravity;
    }

    /// The configured boundary policy.
    pub fn boundary_mode(&self) -> (r: BoundaryHandling)
        ensures
            r == self.boundary,
    {
        self.boundary
    }

    /// Replace the boundary policy.
    pub fn set_boundary_mode(&mut self, boundary: BoundaryHandling)
        requires
            old(self).wf(),
        ensures
            *final(self) == (MpmState { boundary, ..*old(self) }),
            final(self).wf(),
    {
        self.boundary = boundary;
    }

    /// The solver parameters.
    pub fn solver_params(&self) -> (r: SolverParams)
        ensures
            r == self.solver_params,
    {
        self.solver_params
    }

    /// Replace the solver parameters.
    pub fn set_solver_params(&mut self, solver_params: SolverParams)
        requires
            old(self).wf(),
            solver_params.wf(),
        ensures
            *final(self) == (MpmState { solver_params, ..*old(self) }),
            final(self).wf(),
    {
        self.solver_params = solver_params;
    }

    /// Add a particle; returns its index. The spatial index becomes stale
    /// until the next rebuild.
    pub fn add_particle(&mut self, particle: Particle) -> (r: usize)
        requires
            old(self).wf(),
            particle.wf(),
            0 < particle.mass@ <= 0x8000_0000,
        ensures
            r as int == old(self).particle_set.particles@.len(),
            final(self).particle_set.particles@ == old(self).particle_set.particles@.push(
                particle,
            ),
            final(self).particle_set.spec_index_invalidated(),
            final(self).grid == old(self).grid,
            final(self).solver_params == old(self).solver_params,
            final(self).gravity == old(self).gravity,
            final(self).boundary == old(self).boundary,
            final(self).wf(),
    {
        self.particle_set.push(particle)
    }

    /// Rebuild the spatial index at the grid's cell width.
    pub fn rebuild_particle_bins(&mut self)
        requires
            old(self).wf(),
        ensures
            final(self).particle_set.particles@ == crate::particle_set::spec_rebuilt_particles(
                old(self).particle_set.particles@,
                old(self).grid.spec_cell_width(),
            ),
            final(self).particle_set.spec_index_fresh(old(self).grid.spec_cell_width()),
            final(self).grid == old(self).grid,
            final(self).solver_params == old(self).solver_params,
            final(self).gravity == old(self).gravity,
            final(self).boundary == old(self).boundary,
            final(self).wf(),
    {
        let w = self.grid.cell_width();
        self.particle_set.rebuild_bins(w);
    }

    /// Reset every allocated grid node to the default (cheap start-of-step
    /// clear).
    pub fn zero_grid(&mut self)
        requires
            old(self).wf(),
        ensures
            final(self).grid.spec_keys() == old(self).grid.spec_keys(),
            forall|i: int|
                0 <= i < final(self).grid.spec_nodes().len() ==> final(self).grid.spec_nodes()[i]
                    == crate::grid::GridNode::spec_default(),
            spec_total_mass(final(self).grid.spec_nodes()) == 0,
            final(self).particle_set == old(self).particle_set,
            final(self).solver_params == old(self).solver_params,
            final(self).gravity == old(self).gravity,
            final(self).boundary == old(self).boundary,
            final(self).grid.spec_cell_width() == old(self).grid.spec_cell_width(),
            final(self).wf(),
    {
        self.grid.zero_active_cells();
        proof {
            lemma_total_mass_all_zero(self.grid.spec_nodes());
        }
    }

    /// Reclaim grid nodes whose mass dropped to zero.
    pub fn cleanup_grid(&mut self)
        requires
            old(self).wf(),
        ensures
            final(self).grid.spec_keys() == crate::grid::spec_compact_walk(
                old(self).grid.spec_keys(),
                old(self).grid.spec_nodes(),
                0,
                Seq::empty(),
                Seq::empty(),
            ).0,
            final(self).grid.spec_nodes() == crate::grid::spec_compact_walk(
                old(self).grid.spec_keys(),
                old(self).grid.spec_nodes(),
                0,
                Seq::empty(),
                Seq::empty(),
            ).1,
            final(self).grid.spec_keys().len() == spec_count_kept(
                crate::grid::spec_keep_flags(old(self).grid.spec_nodes()),
                old(self).grid.spec_nodes().len() as int,
            ),
            forall|i: int|
                0 <= i < old(self).grid.spec_nodes().len() && (
                #[trigger] old(self).grid.spec_nodes()[i]).mass > 0 ==> {
                    let p = spec_count_kept(
                        crate::grid::spec_keep_flags(old(self).grid.spec_nodes()),
                        i,
                    );
                    final(self).grid.spec_keys()[p] == old(self).grid.spec_keys()[i] && final(self).grid.spec_nodes()[p] == (crate::grid::GridNode {
                        active: false,
                        ..old(self).grid.spec_nodes()[i]
                    })
                },
            final(self).particle_set == old(self).particle_set,
            final(self).solver_params == old(self).solver_params,
            final(self).gravity == old(self).gravity,
            final(self).boundary == old(self).boundary,
            final(self).grid.spec_cell_width() == old(self).grid.spec_cell_width(),
            final(self).wf(),
    {
        self.grid.cleanup_empty_cells();
    }

    /// Grid update: gravity and the boundary policy on every massive node.
    pub fn integrate_grid_velocities(&mut self, dt: Fx)
        requires
            old(self).wf(),
            dt.wf(),
        ensures
            final(self).grid.spec_keys() == old(self).grid.spec_keys(),
            final(self).grid.spec_nodes().len() == old(self).grid.spec_nodes().len(),
            forall|i: int|
                0 <= i < final(self).grid.spec_nodes().len() ==> final(self).grid.spec_nodes()[i]
                    == crate::solver::spec_grid_updated(
                    #[trigger] old(self).grid.spec_nodes()[i],
                    old(self).grid.spec_keys()[i],
                    old(self).gravity,
                    dt,
                    old(self).boundary,
                ),
            final(self).particle_set == old(self).particle_set,
            final(self).solver_params == old(self).solver_params,
            final(self).gravity == old(self).gravity,
            final(self).boundary == old(self).boundary,
            final(self).grid.spec_cell_width() == old(self).grid.spec_cell_width(),
            final(self).wf(),
    {
        let g = self.gravity;
        let b = self.boundary;
        grid_update(&mut self.grid, g, dt, b);
    }

    /// Run the end-of-step health check over every particle.
    pub fn update_particle_health(&mut self)
        requires
            old(self).wf(),
        ensures
            final(self).particle_set.particles@.len() == old(self).particle_set.particles@.len(),
            forall|i: int|
                0 <= i < final(self).particle_set.particles@.len() ==> final(self).particle_set.particles@[i] == crate::particle::spec_health_updated(
                    #[trigger] old(self).particle_set.particles@[i],
                ),
            final(self).grid == old(self).grid,
            final(self).solver_params == old(self).solver_params,
            final(self).gravity == old(self).gravity,
            final(self).boundary == old(self).boundary,
            final(self).particle_set.transfer_cache@ == old(self).particle_set.transfer_cache@,
            final(self).wf(),
    {
        update_particles_health(&mut self.particle_set.particles);
        proof {
            assert forall|i: int| 0 <= i < self.particle_set.particles@.len() implies 0 < (
            #[trigger] self.particle_set.particles@[i]).mass@ <= 0x8000_0000 by {
                assert(self.particle_set.particles@[i] == crate::particle::spec_health_updated(
                    old(self).particle_set.particles@[i],
                ));
            }
        }
    }

    /// Remove failed particles and return the remap table (empty when no
    /// particle had failed); rebuilds the spatial index after a removal.
    pub fn remove_failed_particles(&mut self) -> (r: Vec<Option<usize>>)
        requires
            old(self).wf(),
            old(self).particle_set.transfer_cache@.len() == old(self).particle_set.particles@.len(),
        ensures
            final(self).wf(),
            ({
                let ps = old(self).particle_set.particles@;
                let live = spec_live_flags(ps);
                let n = ps.len() as int;
                if spec_count_kept(live, n) == n {
                    r@.len() == 0 && final(self).particle_set.particles@ == ps
                } else {
                    &&& r@.len() == n
                    &&& forall|i: int|
                        0 <= i < n ==> r@[i] == (if ps[i].failed {
                            Option::<usize>::None
                        } else {
                            Option::Some(spec_count_kept(live, i) as usize)
                        })
                    &&& final(self).particle_set.particles@.len() == spec_count_kept(live, n)
                    &&& final(self).particle_set.particles@.len() < n
                    &&& forall|i: int|
                        0 <= i < n && !ps[i].failed ==> (#[trigger] spec_count_kept(live, i))
                            < final(self).particle_set.particles@.len()
                    &&& forall|i: int|
                        0 <= i < n && !ps[i].failed ==> final(self).particle_set.particles@[spec_count_kept(live, i)]
                            == crate::particle_set::spec_rebuilt_particle(
                            ps[i],
                            old(self).grid.spec_cell_width(),
                        )
                    &&& final(self).particle_set.spec_index_fresh(
                        old(self).grid.spec_cell_width(),
                    )
                }
            }),
            final(self).grid == old(self).grid,
            final(self).grid.spec_cell_width() == old(self).grid.spec_cell_width(),
            final(self).solver_params == old(self).solver_params,
            final(self).gravity == old(self).gravity,
            final(self).boundary == old(self).boundary,
    {
        let ghost ps = old(self).particle_set.particles@;
        let ghost live = spec_live_flags(ps);
        let ghost n = ps.len() as int;
        let mapping = self.particle_set.remove_failed();
        if mapping.len() == 0 {
            proof {
                lemma_count_kept_bounds(live, n);
                if spec_count_kept(live, n) != n {
                    assert(false);
                }
            }
            return mapping;
        }
        proof {
            lemma_count_kept_bounds(live, n);
            assert forall|j: int|
                0 <= j < self.particle_set.particles@.len() implies 0 < (
            #[trigger] self.particle_set.particles@[j]).mass@ <= 0x8000_0000 by {
                crate::compact::lemma_count_kept_surjective(live, n, j);
                let i = choose|i: int|
                    0 <= i < n && live[i] && #[trigger] spec_count_kept(live, i) == j;
                assert(self.particle_set.particles@[j] == ps[i]);
            }
        }
        proof {
            assert forall|i: int|
                0 <= i < n && !ps[i].failed implies (#[trigger] spec_count_kept(live, i))
                    < self.particle_set.particles@.len() by {
                crate::compact::lemma_count_kept_injective(live, i, n);
            }
        }
        let ghost mid = self.particle_set.particles@;
        let w = self.grid.cell_width();
        self.particle_set.rebuild_bins(w);
        proof {
            assert forall|i: int|
                0 <= i < n && !ps[i].failed implies self.particle_set.particles@[spec_count_kept(
                live,
                i,
            )] == crate::particle_set::spec_rebuilt_particle(
                ps[i],
                old(self).grid.spec_cell_width(),
            ) by {
                crate::compact::lemma_count_kept_bounds(live, i);
                crate::compact::lemma_count_kept_injective(live, i, n);
                let j = spec_count_kept(live, i);
                assert(mid[j] == ps[i]);
                assert(self.particle_set.particles@[j]
                    == crate::particle_set::spec_rebuilt_particle(mid[j], w));
            }
        }
        mapping
    }

    /// The grid contents a full particle-to-grid pass derives: the mass
    /// fold over the zeroed grid, then the momentum fold, then the
    /// momentum-to-velocity derivation, all over the rebuilt particles.
    pub open spec fn spec_p2g_cells(self, dt: Fx) -> (Seq<u64>, Seq<crate::grid::GridNode>) {
        let w = self.grid.spec_cell_width();
        let ps = crate::particle_set::spec_rebuilt_particles(self.particle_set.particles@, w);
        let zeroed = Seq::new(
            self.grid.spec_nodes().len(),
            |i: int| crate::grid::GridNode::spec_default(),
        );
        let invd = Fx {
            raw: Fx::spec_div(
                4 * crate::fixed::FX_ONE as int,
                Fx::spec_mul(w@, w@),
            ) as i64,
        };
        let massed = crate::solver::spec_mass_pass(
            self.grid.spec_keys(),
            zeroed,
            ps,
            ps.len() as int,
        );
        let pushed = crate::solver::spec_momentum_pass(
            massed.0,
            massed.1,
            ps,
            self.solver_params,
            dt,
            invd,
            ps.len() as int,
        );
        (massed.0, Seq::new(pushed.len(), |i: int| crate::solver::spec_velocity_derived(pushed[i])))
    }

    /// Particle-to-grid: rebuild the spatial index, then run the mass
    /// scatter, the momentum and stress scatter, and the velocity
    /// derivation. The resulting grid contents are exactly the composed
    /// pass folds over the rebuilt particles, and the total
    /// extended-precision grid mass is exactly `WEIGHT_SCALE_SQ` times the
    /// sum of the live particles' masses.
    pub fn particle_to_grid(&mut self, dt: Fx)
        requires
            old(self).wf(),
            dt.wf(),
            old(self).particle_set.particles@.len() <= PARTICLE_LIMIT,
        ensures
            final(self).wf(),
            final(self).grid.spec_keys() == old(self).spec_p2g_cells(dt).0,
            final(self).grid.spec_nodes() == old(self).spec_p2g_cells(dt).1,
            final(self).particle_set.particles@ == crate::particle_set::spec_rebuilt_particles(
                old(self).particle_set.particles@,
                old(self).grid.spec_cell_width(),
            ),
            final(self).particle_set.spec_index_fresh(old(self).grid.spec_cell_width()),
            spec_total_mass(final(self).grid.spec_nodes()) == WEIGHT_SCALE_SQ
                * spec_live_mass_sum(
                final(self).particle_set.particles@,
                final(self).particle_set.particles@.len() as int,
            ),
            final(self).solver_params == old(self).solver_params,
            final(self).gravity == old(self).gravity,
            final(self).boundary == old(self).boundary,
            final(self).grid.spec_cell_width() == old(self).grid.spec_cell_width(),
    {
        self.rebuild_particle_bins();
        self.zero_grid();
        proof {
            let ps = self.particle_set.particles@;
            lemma_live_mass_sum_bounds(ps, ps.len() as int);
            assert(WEIGHT_SCALE_SQ * spec_live_mass_sum(ps, ps.len() as int) <= WEIGHT_SCALE_SQ
                * (0x10_0000int * 0x8000_0000int)) by (nonlinear_arith)
                requires
                    0 <= spec_live_mass_sum(ps, ps.len() as int) <= ps.len() * 0x8000_0000,
                    ps.len() <= 0x10_0000,
            ;
        }
        let w = self.grid.cell_width();
        let invd = inv_d(w);
        proof {
            let zeroed = Seq::new(
                old(self).grid.spec_nodes().len(),
                |i: int| crate::grid::GridNode::spec_default(),
            );
            assert(self.grid.spec_nodes() =~= zeroed);
            assert(invd == (Fx {
                raw: Fx::spec_div(
                    4 * crate::fixed::FX_ONE as int,
                    Fx::spec_mul(w@, w@),
                ) as i64,
            }));
        }
        scatter_mass(&mut self.grid, &self.particle_set.particles, &self.particle_set.transfer_cache);
        let ghost keys1 = self.grid.spec_keys();
        let ghost nodes1 = self.grid.spec_nodes();
        scatter_momentum(
            &mut self.grid,
            &self.particle_set.particles,
            &self.particle_set.transfer_cache,
            &self.solver_params,
            dt,
            invd,
        );
        proof {
            crate::solver::lemma_momentum_pass_preserves_mass(
                keys1,
                nodes1,
                self.particle_set.particles@,
                self.solver_params,
                dt,
                invd,
                self.particle_set.particles@.len() as int,
            );
        }
        let ghost nodes2 = self.grid.spec_nodes();
        derive_grid_velocities(&mut self.grid);
        proof {
            assert forall|j: int| 0 <= j < nodes2.len() implies (
            #[trigger] self.grid.spec_nodes()[j]).mass == nodes2[j].mass by {}
            crate::grid::lemma_total_mass_pointwise(self.grid.spec_nodes(), nodes2);
            let target = old(self).spec_p2g_cells(dt);
            assert(self.grid.spec_keys() == target.0);
            assert(self.grid.spec_nodes() =~= target.1);
        }
    }

    /// Grid-to-particle: gather velocities and gradients back onto the
    /// particles, advance their deformation state and positions.
    pub fn grid_to_particle_pass(&mut self, dt: Fx)
        requires
            old(self).wf(),
            dt.wf(),
            old(self).particle_set.spec_index_fresh(old(self).grid.spec_cell_width()),
        ensures
            final(self).wf(),
            final(self).particle_set.particles@.len() == old(self).particle_set.particles@.len(),
            forall|i: int|
                0 <= i < final(self).particle_set.particles@.len() ==> final(self).particle_set.particles@[i] == (if old(self).particle_set.particles@[i].failed {
                    old(self).particle_set.particles@[i]
                } else {
                    crate::solver::spec_g2p_particle(
                        old(self).grid.spec_keys(),
                        old(self).grid.spec_nodes(),
                        #[trigger] old(self).particle_set.particles@[i],
                        dt,
                        crate::fixed::Fx {
                            raw: crate::fixed::Fx::spec_div(
                                4 * crate::fixed::FX_ONE as int,
                                crate::fixed::Fx::spec_mul(
                                    old(self).grid.spec_cell_width()@,
                                    old(self).grid.spec_cell_width()@,
                                ),
                            ) as i64,
                        },
                    )
                }),
            final(self).grid == old(self).grid,
            final(self).solver_params == old(self).solver_params,
            final(self).gravity == old(self).gravity,
            final(self).boundary == old(self).boundary,
            final(self).particle_set.transfer_cache@ == old(self).particle_set.transfer_cache@,
    {
        let w = self.grid.cell_width();
        let invd = inv_d(w);
        grid_to_particle(
            &self.grid,
            &mut self.particle_set.particles,
            &self.particle_set.transfer_cache,
            dt,
            invd,
        );
        proof {
            assert forall|i: int| 0 <= i < self.particle_set.particles@.len() implies 0 < (
            #[trigger] self.particle_set.particles@[i]).mass@ <= 0x8000_0000 by {
                if !old(self).particle_set.particles@[i].failed {
                    assert(self.particle_set.particles@[i].mass == old(
                        self,
                    ).particle_set.particles@[i].mass);
                }
            }
        }
    }

    /// The grid cells a full step leaves behind: the particle-to-grid
    /// folds, then gravity and the boundary policy on every massive node,
    /// then the empty-cell reclaim. The grid-to-particle gather reads but
    /// never writes the grid, so this is also the step's final grid.
    pub open spec fn spec_step_cells(self, dt: Fx) -> (Seq<u64>, Seq<crate::grid::GridNode>) {
        let p2g = self.spec_p2g_cells(dt);
        let updated = Seq::new(
            p2g.1.len(),
            |i: int|
                crate::solver::spec_grid_updated(
                    p2g.1[i],
                    p2g.0[i],
                    self.gravity,
                    dt,
                    self.boundary,
                ),
        );
        crate::grid::spec_compact_walk(p2g.0, updated, 0, Seq::empty(), Seq::empty())
    }

    /// The particles a full step carries to the compaction boundary: each
    /// rebuilt particle, gathered back from the step's final grid when
    /// live, then health-checked.
    pub open spec fn spec_step_particles(self, dt: Fx) -> Seq<Particle> {
        let w = self.grid.spec_cell_width();
        let ps = crate::particle_set::spec_rebuilt_particles(self.particle_set.particles@, w);
        let cells = self.spec_step_cells(dt);
        let invd = Fx {
            raw: Fx::spec_div(
                4 * crate::fixed::FX_ONE as int,
                Fx::spec_mul(w@, w@),
            ) as i64,
        };
        Seq::new(
            ps.len(),
            |i: int|
                crate::particle::spec_health_updated(
                    if ps[i].failed {
                        ps[i]
                    } else {
                        crate::solver::spec_g2p_particle(cells.0, cells.1, ps[i], dt, invd)
                    },
                ),
        )
    }

    /// Advance the simulation by one step: rebuild the spatial index,
    /// clear the grid, scatter mass then momentum, derive grid velocities,
    /// integrate gravity and the boundary policy, reclaim empty cells,
    /// gather back onto the particles, refresh particle health, and remove
    /// failed particles. Returns the remap table (empty when nothing was
    /// removed; otherwise one entry per pre-compaction particle).
    pub fn advance(&mut self, dt: Fx) -> (r: Vec<Option<usize>>)
        requires
            old(self).wf(),
            dt.wf(),
            old(self).particle_set.particles@.len() <= PARTICLE_LIMIT,
        ensures
            final(self).wf(),
            final(self).solver_params == old(self).solver_params,
            final(self).gravity == old(self).gravity,
            final(self).boundary == old(self).boundary,
            final(self).grid.spec_cell_width() == old(self).grid.spec_cell_width(),
            final(self).grid.spec_keys() == old(self).spec_step_cells(dt).0,
            final(self).grid.spec_nodes() == old(self).spec_step_cells(dt).1,
            ({
                let mid = old(self).spec_step_particles(dt);
                let live = spec_live_flags(mid);
                let n = mid.len() as int;
                if spec_count_kept(live, n) == n {
                    r@.len() == 0 && final(self).particle_set.particles@ == mid
                } else {
                    &&& r@.len() == n
                    &&& forall|i: int|
                        0 <= i < n ==> r@[i] == (if mid[i].failed {
                            Option::<usize>::None
                        } else {
                            Option::Some(spec_count_kept(live, i) as usize)
                        })
                    &&& final(self).particle_set.particles@.len() == spec_count_kept(live, n)
                    &&& forall|i: int|
                        0 <= i < n && !mid[i].failed
                            ==> final(self).particle_set.particles@[spec_count_kept(live, i)]
                            == crate::particle_set::spec_rebuilt_particle(
                            mid[i],
                            old(self).grid.spec_cell_width(),
                        )
                    &&& final(self).particle_set.spec_index_fresh(
                        old(self).grid.spec_cell_width(),
                    )
                }
            }),
            r@.len() == 0 || r@.len() == old(self).particle_set.particles@.len(),
            r@.len() == 0 ==> final(self).particle_set.particles@.len() == old(self).particle_set.particles@.len(),
            r@.len() != 0 ==> final(self).particle_set.particles@.len() < old(self).particle_set.particles@.len(),
            forall|i: int|
                0 <= i < r@.len() ==> ((#[trigger] r@[i]) is Some ==> (r@[i]->0 as int) < final(self).particle_set.particles@.len()),
    {
        let ghost w = old(self).grid.spec_cell_width();
        let ghost rebuilt = crate::particle_set::spec_rebuilt_particles(
            old(self).particle_set.particles@,
            w,
        );
        let ghost p2g = old(self).spec_p2g_cells(dt);

        self.particle_to_grid(dt);
        proof {
            assert(self.grid.spec_keys() == p2g.0);
            assert(self.grid.spec_nodes() == p2g.1);
            assert(self.particle_set.particles@ == rebuilt);
        }
        self.integrate_grid_velocities(dt);
        proof {
            let updated = Seq::new(
                p2g.1.len(),
                |i: int|
                    crate::solver::spec_grid_updated(
                        p2g.1[i],
                        p2g.0[i],
                        old(self).gravity,
                        dt,
                        old(self).boundary,
                    ),
            );
            assert(self.grid.spec_nodes() =~= updated);
            assert(self.grid.spec_keys() == p2g.0);
        }
        self.cleanup_grid();
        let ghost cells = old(self).spec_step_cells(dt);
        proof {
            assert(self.grid.spec_keys() == cells.0);
            assert(self.grid.spec_nodes() == cells.1);
        }
        self.grid_to_particle_pass(dt);
        self.update_particle_health();
        proof {
            assert(self.particle_set.particles@ =~= old(self).spec_step_particles(dt));
        }
        let ghost midps = self.particle_set.particles@;
        let r = self.remove_failed_particles();
        proof {
            let live = spec_live_flags(midps);
            if r@.len() != 0 {
                assert forall|i: int|
                    0 <= i < r@.len() implies ((#[trigger] r@[i]) is Some ==> (r@[i]->0 as int)
                    < self.particle_set.particles@.len()) by {
                    if r@[i] is Some {
                        assert(!midps[i].failed);
                        crate::compact::lemma_count_kept_bounds(live, i);
                        assert(r@[i] == Option::Some(spec_count_kept(live, i) as usize));
                    }
                }
            }
        }
        r
    }
}

} // verus!
