//! The per-step transfer passes.
//!
//! Particle-to-grid runs in three passes: the mass scatter, the momentum
//! and stress scatter (which re-gathers local density from the masses just
//! written, so the passes cannot be fused), and the momentum-to-velocity
//! derivation. The grid update integrates gravity and applies the boundary
//! policy; grid-to-particle gathers velocities and gradients back, updates
//! the deformation state and advances positions.
//!
//! The mass scatter conserves mass *exactly*: the total extended-precision
//! grid mass grows by precisely `WEIGHT_SCALE_SQ` times the sum of the
//! live particles' masses, because each particle's nine two-axis weights
//! sum to exactly `WEIGHT_SCALE_SQ`.

use vstd::prelude::*;
use crate::fixed::{Fx, fx_clip, tdiv};
use crate::linalg::Vec2;
use crate::particle::Particle;
use crate::kernel::{
    ParticleTransferCache,
    spec_transfer_cache,
    spec_weight9,
    spec_weight9_sum_from,
    lemma_weight9_bounds,
    lemma_weight9_sum_bounds,
    lemma_axis_weight_bounds,
    lemma_kernel_partition_of_unity,
    WEIGHT_SCALE_SQ,
};
use crate::coords::pack_coords;
use crate::grid::{
    Grid,
    GridNode,
    NODE_MASS_LIMIT,
    spec_find,
    spec_total_mass,
    lemma_total_mass_push,
    lemma_total_mass_update,
    lemma_total_mass_bounds,
    BoundaryHandling,
    spec_boundary_velocity,
};

verus! {

/// Most particles a single scatter may process; together with the
/// per-particle mass bound this keeps the extended-precision node
/// accumulators inside their budget.
pub const PARTICLE_LIMIT: usize = 0x10_0000;

/// Sum of the masses of the live (non-failed) particles among the first
/// `i`, in raw scalar units.
pub open spec fn spec_live_mass_sum(ps: Seq<Particle>, i: int) -> int
    decreases i,
{
    if i <= 0 {
        0
    } else {
        spec_live_mass_sum(ps, i - 1) + if !ps[i - 1].failed {
            ps[i - 1].mass@
        } else {
            0int
        }
    }
}

/// The live mass sum is non-negative and bounded by the prefix length
/// times the per-particle mass bound.
pub proof fn lemma_live_mass_sum_bounds(ps: Seq<Particle>, i: int)
    requires
        0 <= i <= ps.len(),
        forall|j: int|
            0 <= j < ps.len() && !(#[trigger] ps[j]).failed ==> 0 < ps[j].mass@ <= 0x8000_0000,
    ensures
        0 <= spec_live_mass_sum(ps, i) <= i * 0x8000_0000,
    decreases i,
{
    if i > 0 {
        lemma_live_mass_sum_bounds(ps, i - 1);
        assert((i - 1) * 0x8000_0000 + 0x8000_0000 == i * 0x8000_0000) by (nonlinear_arith);
    }
}

/// The live mass sum never decreases as the prefix grows.
pub proof fn lemma_live_mass_sum_mono(ps: Seq<Particle>, a: int, b: int)
    requires
        0 <= a <= b <= ps.len(),
        forall|j: int|
            0 <= j < ps.len() && !(#[trigger] ps[j]).failed ==> 0 < ps[j].mass@ <= 0x8000_0000,
    ensures
        spec_live_mass_sum(ps, a) <= spec_live_mass_sum(ps, b),
    decreases b - a,
{
    if a < b {
        lemma_live_mass_sum_mono(ps, a, b - 1);
    }
}

/// The scatter leaves every field of a node except the mass and active
/// flag exactly as in `base`.
pub open spec fn spec_node_untouched(n: GridNode, base: GridNode) -> bool {
    &&& n.momentum == base.momentum
    &&& n.velocity == base.velocity
    &&& n.psi_momentum == base.psi_momentum
    &&& n.psi_mass == base.psi_mass
    &&& n.boundary == base.boundary
}

/// Where a scatter lands for a packed cell id: the existing slot (marked
/// active, as every lookup-or-create does), or a fresh default (active)
/// cell appended at the end.
pub open spec fn spec_mass_target(keys: Seq<u64>, nodes: Seq<GridNode>, id: u64) -> (
    Seq<u64>,
    Seq<GridNode>,
    int,
) {
    let f = spec_find(keys, id);
    if f >= 0 {
        (keys, nodes.update(f, GridNode { active: true, ..nodes[f] }), f)
    } else {
        (
            keys.push(id),
            nodes.push(GridNode { active: true, ..GridNode::spec_default() }),
            keys.len() as int,
        )
    }
}

/// The cells after one particle's mass is scattered over its stencil
/// entries from `k` on: each entry's target cell gains
/// `wx * wy * mass` on its extended-precision accumulator.
pub open spec fn spec_mass_entries(
    keys: Seq<u64>,
    nodes: Seq<GridNode>,
    e: Seq<crate::kernel::NeighborEntry>,
    m: int,
    k: int,
) -> (Seq<u64>, Seq<GridNode>)
    decreases e.len() - k,
{
    if k < 0 || k >= e.len() {
        (keys, nodes)
    } else {
        let t = spec_mass_target(keys, nodes, crate::coords::spec_pack(e[k].cx, e[k].cy));
        let node = t.1[t.2];
        let node2 = GridNode { mass: (node.mass + e[k].wx * e[k].wy * m) as i128, ..node };
        spec_mass_entries(t.0, t.1.update(t.2, node2), e, m, k + 1)
    }
}

/// The cells after the whole mass pass over the first `i` particles,
/// live particles in index order, failed particles skipped.
pub open spec fn spec_mass_pass(
    keys: Seq<u64>,
    nodes: Seq<GridNode>,
    ps: Seq<Particle>,
    i: int,
) -> (Seq<u64>, Seq<GridNode>)
    decreases i,
{
    if i <= 0 {
        (keys, nodes)
    } else {
        let prev = spec_mass_pass(keys, nodes, ps, i - 1);
        if ps[i - 1].failed {
            prev
        } else {
            spec_mass_entries(
                prev.0,
                prev.1,
                spec_transfer_cache(ps[i - 1].position.x@, ps[i - 1].position.y@),
                ps[i - 1].mass@,
                0,
            )
        }
    }
}

/// Particle-to-grid pass one: for every live particle, accumulate
/// `weight * mass` into each of its nine cached stencil neighbors,
/// creating nodes on first touch. Total grid mass grows by exactly
/// `WEIGHT_SCALE_SQ` times the sum of the live particles' masses — mass
/// is conserved exactly. Nodes' momentum, velocity, phase accumulators
/// and boundary flags are untouched; newly created nodes are default
/// (active) apart from their accumulated mass, and no node's mass shrinks.
pub fn scatter_mass(grid: &mut Grid, particles: &Vec<Particle>, cache: &Vec<
    ParticleTransferCache,
>)
    requires
        old(grid).wf(),
        particles@.len() <= PARTICLE_LIMIT,
        cache@.len() == particles@.len(),
        forall|i: int| 0 <= i < particles@.len() ==> (#[trigger] particles@[i]).wf(),
        forall|i: int|
            0 <= i < particles@.len() && !(#[trigger] particles@[i]).failed ==> 0
                < particles@[i].mass@ <= 0x8000_0000,
        forall|i: int|
            0 <= i < particles@.len() && !(#[trigger] particles@[i]).failed
                ==> cache@[i].entries@ == spec_transfer_cache(
                particles@[i].position.x@,
                particles@[i].position.y@,
            ),
        spec_total_mass(old(grid).spec_nodes()) + WEIGHT_SCALE_SQ * spec_live_mass_sum(
            particles@,
            particles@.len() as int,
        ) <= NODE_MASS_LIMIT,
    ensures
        final(grid).wf(),
        final(grid).spec_cell_width() == old(grid).spec_cell_width(),
        old(grid).spec_keys().is_prefix_of(final(grid).spec_keys()),
        final(grid).spec_keys() == spec_mass_pass(
            old(grid).spec_keys(),
            old(grid).spec_nodes(),
            particles@,
            particles@.len() as int,
        ).0,
        final(grid).spec_nodes() == spec_mass_pass(
            old(grid).spec_keys(),
            old(grid).spec_nodes(),
            particles@,
            particles@.len() as int,
        ).1,
        spec_total_mass(final(grid).spec_nodes()) == spec_total_mass(old(grid).spec_nodes())
            + WEIGHT_SCALE_SQ * spec_live_mass_sum(particles@, particles@.len() as int),
        forall|i: int|
            0 <= i < old(grid).spec_nodes().len() ==> spec_node_untouched(
                #[trigger] final(grid).spec_nodes()[i],
                old(grid).spec_nodes()[i],
            ),
        forall|i: int|
            old(grid).spec_nodes().len() <= i < final(grid).spec_nodes().len()
                ==> spec_node_untouched(
                #[trigger] final(grid).spec_nodes()[i],
                GridNode { active: true, ..GridNode::spec_default() },
            ) && final(grid).spec_nodes()[i].active,
        forall|i: int|
            0 <= i < final(grid).spec_nodes().len()
                ==> (#[trigger] final(grid).spec_nodes()[i]).mass >= if i < old(
                grid,
            ).spec_nodes().len() {
                old(grid).spec_nodes()[i].mass as int
            } else {
                0int
            },
{
    let n = particles.len();
    let ghost base_total = spec_total_mass(old(grid).spec_nodes());
    let mut i: usize = 0;
    while i < n
        invariant
            0 <= i <= n,
            n == particles@.len(),
            n <= PARTICLE_LIMIT,
            cache@.len() == n,
            forall|j: int| 0 <= j < n as int ==> (#[trigger] particles@[j]).wf(),
            forall|j: int|
                0 <= j < n as int && !(#[trigger] particles@[j]).failed ==> 0
                    < particles@[j].mass@ <= 0x8000_0000,
            forall|j: int|
                0 <= j < n as int && !(#[trigger] particles@[j]).failed ==> cache@[j].entries@
                    == spec_transfer_cache(
                    particles@[j].position.x@,
                    particles@[j].position.y@,
                ),
            base_total == spec_total_mass(old(grid).spec_nodes()),
            base_total + WEIGHT_SCALE_SQ * spec_live_mass_sum(particles@, n as int)
                <= NODE_MASS_LIMIT,
            old(grid).wf(),
            grid.wf(),
            grid.spec_cell_width() == old(grid).spec_cell_width(),
            old(grid).spec_keys().is_prefix_of(grid.spec_keys()),
            grid.spec_keys() == spec_mass_pass(
                old(grid).spec_keys(),
                old(grid).spec_nodes(),
                particles@,
                i as int,
            ).0,
            grid.spec_nodes() == spec_mass_pass(
                old(grid).spec_keys(),
                old(grid).spec_nodes(),
                particles@,
                i as int,
            ).1,
            spec_total_mass(grid.spec_nodes()) == base_total + WEIGHT_SCALE_SQ
                * spec_live_mass_sum(particles@, i as int),
            forall|j: int|
                0 <= j < old(grid).spec_nodes().len() ==> spec_node_untouched(
                    #[trigger] grid.spec_nodes()[j],
                    old(grid).spec_nodes()[j],
                ),
            forall|j: int|
                old(grid).spec_nodes().len() <= j < grid.spec_nodes().len()
                    ==> spec_node_untouched(
                    #[trigger] grid.spec_nodes()[j],
                    GridNode { active: true, ..GridNode::spec_default() },
                ) && grid.spec_nodes()[j].active,
            forall|j: int|
                0 <= j < grid.spec_nodes().len() ==> (#[trigger] grid.spec_nodes()[j]).mass >= if j
                    < old(grid).spec_nodes().len() {
                    old(grid).spec_nodes()[j].mass as int
                } else {
                    0int
                },
        decreases n - i,
    {
        let p = particles[i];
        if !p.failed {
            let ghost px = p.position.x@;
            let ghost py = p.position.y@;
            let m_u: u64 = p.mass.raw as u64;
            let ghost m = p.mass@;
            let ghost start_keys = grid.spec_keys();
            let ghost start_nodes = grid.spec_nodes();
            let ghost e_seq = spec_transfer_cache(p.position.x@, p.position.y@);
            let ghost mid_total = spec_total_mass(grid.spec_nodes());
            proof {
                lemma_kernel_partition_of_unity(px, py);
                assert(spec_live_mass_sum(particles@, i as int + 1) == spec_live_mass_sum(
                    particles@,
                    i as int,
                ) + m);
                lemma_live_mass_sum_mono(particles@, i as int + 1, n as int);
                lemma_weight9_sum_bounds(px, py, 0);
                assert((WEIGHT_SCALE_SQ - spec_weight9_sum_from(px, py, 0)) * m == 0)
                    by (nonlinear_arith)
                    requires
                        spec_weight9_sum_from(px, py, 0) == WEIGHT_SCALE_SQ,
                ;
            }
            let mut k: usize = 0;
            while k < 9
                invariant
                    0 <= k <= 9,
                    0 <= i < n,
                    n == particles@.len(),
                    n <= PARTICLE_LIMIT,
                    cache@.len() == n,
                    particles@[i as int] == p,
                    !p.failed,
                    p.wf(),
                    0 < m <= 0x8000_0000,
                    m == p.mass@,
                    m_u as int == m,
                    px == p.position.x@,
                    py == p.position.y@,
                    cache@[i as int].entries@ == spec_transfer_cache(px, py),
                    forall|j: int|
                        0 <= j < n as int && !(#[trigger] particles@[j]).failed ==> 0
                            < particles@[j].mass@ <= 0x8000_0000,
                    base_total == spec_total_mass(old(grid).spec_nodes()),
                    base_total + WEIGHT_SCALE_SQ * spec_live_mass_sum(particles@, n as int)
                        <= NODE_MASS_LIMIT,
                    old(grid).wf(),
                    e_seq == spec_transfer_cache(px, py),
                    spec_mass_entries(grid.spec_keys(), grid.spec_nodes(), e_seq, m, k as int)
                        == spec_mass_entries(start_keys, start_nodes, e_seq, m, 0),
                    (start_keys, start_nodes) == spec_mass_pass(
                        old(grid).spec_keys(),
                        old(grid).spec_nodes(),
                        particles@,
                        i as int,
                    ),
                    mid_total == base_total + WEIGHT_SCALE_SQ * spec_live_mass_sum(
                        particles@,
                        i as int,
                    ),
                    spec_live_mass_sum(particles@, i as int + 1) == spec_live_mass_sum(
                        particles@,
                        i as int,
                    ) + m,
                    spec_live_mass_sum(particles@, i as int + 1) <= spec_live_mass_sum(
                        particles@,
                        n as int,
                    ),
                    grid.wf(),
                    grid.spec_cell_width() == old(grid).spec_cell_width(),
                    old(grid).spec_keys().is_prefix_of(grid.spec_keys()),
                    spec_total_mass(grid.spec_nodes()) == mid_total + (WEIGHT_SCALE_SQ
                        - spec_weight9_sum_from(px, py, k as int)) * m,
                    forall|j: int|
                        0 <= j < old(grid).spec_nodes().len() ==> spec_node_untouched(
                            #[trigger] grid.spec_nodes()[j],
                            old(grid).spec_nodes()[j],
                        ),
                    forall|j: int|
                        old(grid).spec_nodes().len() <= j < grid.spec_nodes().len()
                            ==> spec_node_untouched(
                            #[trigger] grid.spec_nodes()[j],
                            GridNode { active: true, ..GridNode::spec_default() },
                        ) && grid.spec_nodes()[j].active,
                    forall|j: int|
                        0 <= j < grid.spec_nodes().len() ==> (
                        #[trigger] grid.spec_nodes()[j]).mass >= if j < old(
                            grid,
                        ).spec_nodes().len() {
                            old(grid).spec_nodes()[j].mass as int
                        } else {
                            0int
                        },
                decreases 9 - k,
            {
                let e = cache[i].entries[k];
                proof {
                    assert(e == crate::kernel::spec_neighbor_entry(px, py, k as int));
                    lemma_axis_weight_bounds(px, k as int % 3);
                    lemma_axis_weight_bounds(py, k as int / 3);
                    lemma_weight9_bounds(px, py, k as int);
                    lemma_weight9_sum_bounds(px, py, k as int + 1);
                    assert(e.wx as int == crate::kernel::spec_axis_weight(px, k as int % 3));
                    assert(e.wy as int == crate::kernel::spec_axis_weight(py, k as int / 3));
                    assert(e.wx as int * e.wy as int == spec_weight9(px, py, k as int));
                    assert(e.wx as int * e.wy as int <= 0x40_0000_0000_0000_0000int)
                        by (nonlinear_arith)
                        requires
                            0 <= e.wx as int <= 0x8_0000_0000int,
                            0 <= e.wy as int <= 0x8_0000_0000int,
                    ;
                }
                let id = pack_coords(e.cx, e.cy);
                let ghost pre_nodes = grid.spec_nodes();
                let ghost pre_keys = grid.spec_keys();
                let idx = grid.ensure_cell_index(id);
                proof {
                    assert(old(grid).spec_keys().len() <= pre_keys.len());
                    assert(pre_keys.len() == pre_nodes.len());
                    if spec_find(pre_keys, id) >= 0 {
                        // an existing cell was found: only its active flag
                        // changed, so the total is untouched
                        lemma_total_mass_update(
                            pre_nodes,
                            idx as int,
                            GridNode { active: true, ..pre_nodes[idx as int] },
                        );
                    } else {
                        // a fresh cell was allocated: its zero mass leaves
                        // the total unchanged and every older node alone
                        lemma_total_mass_push(
                            pre_nodes,
                            GridNode { active: true, ..GridNode::spec_default() },
                        );
                    }
                    assert forall|j: int|
                        0 <= j < old(grid).spec_nodes().len() implies spec_node_untouched(
                        #[trigger] grid.spec_nodes()[j],
                        old(grid).spec_nodes()[j],
                    ) by {
                        if j != idx as int {
                            assert(grid.spec_nodes()[j] == pre_nodes[j]);
                        } else {
                            assert(grid.spec_nodes()[j] == (GridNode {
                                active: true,
                                ..pre_nodes[j]
                            }));
                        }
                    }
                    assert forall|j: int|
                        old(grid).spec_nodes().len() <= j < grid.spec_nodes().len()
                            implies spec_node_untouched(
                        #[trigger] grid.spec_nodes()[j],
                        GridNode { active: true, ..GridNode::spec_default() },
                    ) && grid.spec_nodes()[j].active by {
                        if j != idx as int && j < pre_nodes.len() {
                            assert(grid.spec_nodes()[j] == pre_nodes[j]);
                        }
                        if j == idx as int && j < pre_nodes.len() {
                            assert(grid.spec_nodes()[j] == (GridNode {
                                active: true,
                                ..pre_nodes[j]
                            }));
                        }
                    }
                    assert forall|j: int| 0 <= j < grid.spec_nodes().len() implies (
                    #[trigger] grid.spec_nodes()[j]).mass >= if j < old(
                        grid,
                    ).spec_nodes().len() {
                        old(grid).spec_nodes()[j].mass as int
                    } else {
                        0int
                    } by {
                        if j != idx as int && j < pre_nodes.len() {
                            assert(grid.spec_nodes()[j] == pre_nodes[j]);
                        }
                        if j == idx as int && j < pre_nodes.len() {
                            assert(grid.spec_nodes()[j] == (GridNode {
                                active: true,
                                ..pre_nodes[j]
                            }));
                        }
                    }
                    lemma_total_mass_bounds(grid.spec_nodes());
                }
                let node = grid.node_at(idx);
                let w2d: u128 = (e.wx as u128) * (e.wy as u128);
                proof {
                    assert(w2d as int * (m_u as int) <= 0x40_0000_0000_0000_0000int
                        * 0x8000_0000int && 0 <= w2d as int * (m_u as int)) by (nonlinear_arith)
                        requires
                            0 <= w2d as int <= 0x40_0000_0000_0000_0000int,
                            0 <= m_u as int <= 0x8000_0000int,
                    ;
                }
                let dm_u: u128 = w2d * (m_u as u128);
                proof {
                    assert(w2d as int * m == spec_weight9(px, py, k as int) * m);
                    assert(spec_weight9(px, py, k as int) * m <= 0x40_0000_0000_0000_0000int
                        * 0x8000_0000int && spec_weight9(px, py, k as int) * m >= 0)
                        by (nonlinear_arith)
                        requires
                            0 <= spec_weight9(px, py, k as int) <= 0x40_0000_0000_0000_0000int,
                            0 < m <= 0x8000_0000int,
                    ;
                    // the new node mass stays inside the budget
                    assert((WEIGHT_SCALE_SQ - spec_weight9_sum_from(px, py, k as int)) * m
                        + spec_weight9(px, py, k as int) * m == (WEIGHT_SCALE_SQ
                        - spec_weight9_sum_from(px, py, k as int + 1)) * m) by (nonlinear_arith)
                        requires
                            spec_weight9_sum_from(px, py, k as int) == spec_weight9(
                                px,
                                py,
                                k as int,
                            ) + spec_weight9_sum_from(px, py, k as int + 1),
                    ;
                    assert((WEIGHT_SCALE_SQ - spec_weight9_sum_from(px, py, k as int + 1)) * m
                        <= WEIGHT_SCALE_SQ * m) by (nonlinear_arith)
                        requires
                            0 <= spec_weight9_sum_from(px, py, k as int + 1),
                            m > 0,
                    ;
                    assert(WEIGHT_SCALE_SQ * spec_live_mass_sum(particles@, i as int)
                        + WEIGHT_SCALE_SQ * m == WEIGHT_SCALE_SQ * spec_live_mass_sum(
                        particles@,
                        i as int + 1,
                    )) by (nonlinear_arith)
                        requires
                            spec_live_mass_sum(particles@, i as int + 1) == spec_live_mass_sum(
                                particles@,
                                i as int,
                            ) + m,
                    ;
                    assert(WEIGHT_SCALE_SQ * spec_live_mass_sum(particles@, i as int + 1)
                        <= WEIGHT_SCALE_SQ * spec_live_mass_sum(particles@, n as int))
                        by (nonlinear_arith)
                        requires
                            spec_live_mass_sum(particles@, i as int + 1) <= spec_live_mass_sum(
                                particles@,
                                n as int,
                            ),
                    ;
                }
                let dm: i128 = dm_u as i128;
                let mut node2 = node;
                node2.mass = node.mass + dm;
                let ghost prev_nodes = grid.spec_nodes();
                grid.set_node(idx, node2);
                proof {
                    let t = spec_mass_target(pre_keys, pre_nodes, id);
                    assert(grid.spec_keys() == t.0);
                    assert(grid.spec_nodes() == t.1.update(t.2, node2));
                    assert(node2 == (GridNode {
                        mass: (t.1[t.2].mass + e_seq[k as int].wx * e_seq[k as int].wy
                            * m) as i128,
                        ..t.1[t.2]
                    }));
                    lemma_total_mass_update(prev_nodes, idx as int, node2);
                    assert forall|j: int|
                        0 <= j < old(grid).spec_nodes().len() implies spec_node_untouched(
                        #[trigger] grid.spec_nodes()[j],
                        old(grid).spec_nodes()[j],
                    ) by {
                        assert(grid.spec_nodes()[j] == prev_nodes.update(idx as int, node2)[j]);
                        if j != idx as int {
                            assert(grid.spec_nodes()[j] == prev_nodes[j]);
                        }
                    }
                    assert forall|j: int|
                        old(grid).spec_nodes().len() <= j < grid.spec_nodes().len()
                            implies spec_node_untouched(
                        #[trigger] grid.spec_nodes()[j],
                        GridNode { active: true, ..GridNode::spec_default() },
                    ) && grid.spec_nodes()[j].active by {
                        assert(grid.spec_nodes()[j] == prev_nodes.update(idx as int, node2)[j]);
                        if j != idx as int {
                            assert(grid.spec_nodes()[j] == prev_nodes[j]);
                        }
                    }
                    assert forall|j: int| 0 <= j < grid.spec_nodes().len() implies (
                    #[trigger] grid.spec_nodes()[j]).mass >= if j < old(
                        grid,
                    ).spec_nodes().len() {
                        old(grid).spec_nodes()[j].mass as int
                    } else {
                        0int
                    } by {
                        assert(grid.spec_nodes()[j] == prev_nodes.update(idx as int, node2)[j]);
                        if j != idx as int {
                            assert(grid.spec_nodes()[j] == prev_nodes[j]);
                        }
                    }
                }
                k = k + 1;
            }
        }
        proof {
            if p.failed {
                assert(spec_live_mass_sum(particles@, i as int + 1) == spec_live_mass_sum(
                    particles@,
                    i as int,
                ));
            } else {
                let px = p.position.x@;
                let py = p.position.y@;
                let m = p.mass@;
                assert(spec_weight9_sum_from(px, py, 9) == 0);
                assert(WEIGHT_SCALE_SQ * spec_live_mass_sum(particles@, i as int)
                    + WEIGHT_SCALE_SQ * m == WEIGHT_SCALE_SQ * spec_live_mass_sum(
                    particles@,
                    i as int + 1,
                )) by (nonlinear_arith)
                    requires
                        spec_live_mass_sum(particles@, i as int + 1) == spec_live_mass_sum(
                            particles@,
                            i as int,
                        ) + m,
                ;
            }
        }
        i = i + 1;
    }
}

/// The velocity a node derives once its accumulators are complete:
/// `momentum / mass` through the safe division, for nodes with mass.
pub open spec fn spec_velocity_derived(n: GridNode) -> GridNode {
    if n.mass > 0 {
        let mfx = fx_clip(tdiv(n.mass as int, 0x40_0000_0000_0000_0000));
        GridNode {
            velocity: Vec2 {
                x: Fx { raw: Fx::spec_div(n.momentum.x@, mfx) as i64 },
                y: Fx { raw: Fx::spec_div(n.momentum.y@, mfx) as i64 },
            },
            ..n
        }
    } else {
        n
    }
}

/// Particle-to-grid pass three: derive every massive node's velocity from
/// its momentum; nodes without mass stay untouched (they will be
/// reclaimed).
pub fn derive_grid_velocities(grid: &mut Grid)
    requires
        old(grid).wf(),
    ensures
        final(grid).wf(),
        final(grid).spec_cell_width() == old(grid).spec_cell_width(),
        final(grid).spec_keys() == old(grid).spec_keys(),
        final(grid).spec_nodes().len() == old(grid).spec_nodes().len(),
        forall|i: int|
            0 <= i < final(grid).spec_nodes().len() ==> final(grid).spec_nodes()[i]
                == spec_velocity_derived(#[trigger] old(grid).spec_nodes()[i]),
{
    let n = grid.active_cell_count();
    let mut i: usize = 0;
    while i < n
        invariant
            0 <= i <= n,
            n == grid.spec_nodes().len(),
            n == old(grid).spec_nodes().len(),
            grid.wf(),
            grid.spec_cell_width() == old(grid).spec_cell_width(),
            grid.spec_keys() == old(grid).spec_keys(),
            forall|j: int|
                i as int <= j < n as int ==> grid.spec_nodes()[j] == old(grid).spec_nodes()[j],
            forall|j: int|
                0 <= j < i as int ==> grid.spec_nodes()[j] == spec_velocity_derived(
                    #[trigger] old(grid).spec_nodes()[j],
                ),
        decreases n - i,
    {
        let node = grid.node_at(i);
        if node.mass > 0 {
            let mfx = node.mass_fx();
            let vx = node.momentum.x.div_safe(mfx);
            let vy = node.momentum.y.div_safe(mfx);
            let mut node2 = node;
            node2.velocity = Vec2 { x: vx, y: vy };
            grid.set_node(i, node2);
        }
        i = i + 1;
    }
}

/// The node a grid-update step leaves behind: gravity applied to the
/// velocity of every massive node, then the boundary policy at the node's
/// own coordinates.
pub open spec fn spec_grid_updated(n: GridNode, key: u64, gravity: Vec2, dt: Fx,
    boundary: BoundaryHandling) -> GridNode {
    if n.mass > 0 {
        let v1 = Vec2 {
            x: Fx { raw: fx_clip(n.velocity.x@ + Fx::spec_mul(gravity.x@, dt@)) as i64 },
            y: Fx { raw: fx_clip(n.velocity.y@ + Fx::spec_mul(gravity.y@, dt@)) as i64 },
        };
        GridNode {
            velocity: spec_boundary_velocity(
                v1,
                crate::coords::spec_unpack_x(key) as int,
                crate::coords::spec_unpack_y(key) as int,
                boundary,
            ),
            ..n
        }
    } else {
        n
    }
}

/// Grid update: add `gravity * dt` to every massive node's velocity, then
/// apply the configured boundary policy per node.
pub fn grid_update(grid: &mut Grid, gravity: Vec2, dt: Fx, boundary: BoundaryHandling)
    requires
        old(grid).wf(),
        gravity.wf(),
        dt.wf(),
    ensures
        final(grid).wf(),
        final(grid).spec_cell_width() == old(grid).spec_cell_width(),
        final(grid).spec_keys() == old(grid).spec_keys(),
        final(grid).spec_nodes().len() == old(grid).spec_nodes().len(),
        forall|i: int|
            0 <= i < final(grid).spec_nodes().len() ==> final(grid).spec_nodes()[i]
                == spec_grid_updated(
                #[trigger] old(grid).spec_nodes()[i],
                old(grid).spec_keys()[i],
                gravity,
                dt,
                boundary,
            ),
{
    let n = grid.active_cell_count();
    let mut i: usize = 0;
    while i < n
        invariant
            0 <= i <= n,
            n == grid.spec_nodes().len(),
            n == old(grid).spec_nodes().len(),
            gravity.wf(),
            dt.wf(),
            grid.wf(),
            grid.spec_cell_width() == old(grid).spec_cell_width(),
            grid.spec_keys() == old(grid).spec_keys(),
            forall|j: int|
                i as int <= j < n as int ==> grid.spec_nodes()[j] == old(grid).spec_nodes()[j],
            forall|j: int|
                0 <= j < i as int ==> grid.spec_nodes()[j] == spec_grid_updated(
                    #[trigger] old(grid).spec_nodes()[j],
                    old(grid).spec_keys()[j],
                    gravity,
                    dt,
                    boundary,
                ),
        decreases n - i,
    {
        let node = grid.node_at(i);
        if node.mass > 0 {
            let key = grid.key_at(i);
            let (ux, uy) = crate::coords::unpack_coords(key);
            let mut node2 = node;
            node2.velocity = Vec2 {
                x: node.velocity.x.add(gravity.x.mul(dt)),
                y: node.velocity.y.add(gravity.y.mul(dt)),
            };
            crate::grid::apply_boundary_conditions(&mut node2, ux, uy, boundary);
            grid.set_node(i, node2);
        }
        i = i + 1;
    }
}

/// One stencil entry's weight applied to a raw scalar: rescale by each
/// axis weight in turn, truncating toward zero, then saturate.
pub open spec fn spec_weighted(wx: u64, wy: u64, v: int) -> int {
    fx_clip(tdiv(tdiv(wx * v, 0x8_0000_0000) * wy, 0x8_0000_0000))
}

/// Apply a stencil entry's two axis weights to a scalar.
fn weighted(wx: u64, wy: u64, v: Fx) -> (r: Fx)
    requires
        v.wf(),
        wx <= 0x8_0000_0000,
        wy <= 0x8_0000_0000,
    ensures
        r@ == spec_weighted(wx, wy, v@),
        r.wf(),
{
    proof {
        assert(-0x2_0000_0000_0000_0000_0000_0000int <= wx * v@
            <= 0x2_0000_0000_0000_0000_0000_0000int) by (nonlinear_arith)
            requires
                0 <= wx <= 0x8_0000_0000u64,
                -0x4000_0000_0000_0000int <= v@ <= 0x4000_0000_0000_0000int,
        ;
    }
    let t1: i128 = crate::fixed::tdiv_i128_by((wx as i128) * (v.raw as i128), 0x8_0000_0000u128);
    proof {
        crate::fixed::lemma_tdiv_range(
            wx * v@,
            0x8_0000_0000,
            0x2_0000_0000_0000_0000_0000_0000int,
        );
        assert(-0x2_0000_0000_0000_0000_0000_0000int <= t1 as int * wy
            <= 0x2_0000_0000_0000_0000_0000_0000int) by (nonlinear_arith)
            requires
                0 <= wy <= 0x8_0000_0000u64,
                -0x4000_0000_0000_0000int <= t1 as int <= 0x4000_0000_0000_0000int,
        ;
    }
    let t2: i128 = crate::fixed::tdiv_i128_by(t1 * (wy as i128), 0x8_0000_0000u128);
    Fx { raw: crate::fixed::clamp_i128(t2) }
}

/// The scalar mass of a node under a key sequence, for the density gather.
pub open spec fn spec_node_mass_fx(n: GridNode) -> int {
    fx_clip(tdiv(n.mass as int, 0x40_0000_0000_0000_0000))
}

/// The local density a particle gathers from its stencil: the weighted sum
/// of the neighbor masses just written by the mass scatter.
pub open spec fn spec_density_gather(
    keys: Seq<u64>,
    nodes: Seq<GridNode>,
    e: Seq<crate::kernel::NeighborEntry>,
    k: int,
    acc: int,
) -> int
    decreases e.len() - k,
{
    if k < 0 || k >= e.len() {
        acc
    } else {
        let f = spec_find(keys, crate::coords::spec_pack(e[k].cx, e[k].cy));
        let acc2 = if f >= 0 {
            fx_clip(acc + spec_weighted(e[k].wx, e[k].wy, spec_node_mass_fx(nodes[f])))
        } else {
            acc
        };
        spec_density_gather(keys, nodes, e, k + 1, acc2)
    }
}

/// The APIC affine contribution of a particle:
/// `mass * velocity_gradient - (volume0 * inv_D * dt) * stress`.
pub open spec fn spec_particle_affine(
    p: Particle,
    density: int,
    params: crate::params::SolverParams,
    dt: Fx,
    invd: Fx,
) -> crate::linalg::Mat2 {
    let stress = crate::materials::spec_fluid_stress(
        p,
        density,
        params,
        p.material_type.spec_fluid_params(),
    );
    let coef = Fx {
        raw: Fx::spec_mul(Fx::spec_mul(p.volume0@, invd@), dt@) as i64,
    };
    crate::linalg::Mat2::spec_msub(
        crate::linalg::Mat2::spec_mscale(p.velocity_gradient, p.mass),
        crate::linalg::Mat2::spec_mscale(stress, coef),
    )
}

/// The node a momentum scatter leaves at one stencil entry: the weighted
/// `affine * distance + mass * velocity` contribution added onto its
/// momentum, all other fields untouched.
pub open spec fn spec_momentum_scattered(
    n: GridNode,
    affine: crate::linalg::Mat2,
    mom: Vec2,
    e: crate::kernel::NeighborEntry,
) -> GridNode {
    let q = Vec2::spec_add(crate::linalg::Mat2::spec_mul_vec(affine, e.dist), mom);
    GridNode {
        momentum: Vec2 {
            x: Fx { raw: fx_clip(n.momentum.x@ + spec_weighted(e.wx, e.wy, q.x@)) as i64 },
            y: Fx { raw: fx_clip(n.momentum.y@ + spec_weighted(e.wx, e.wy, q.y@)) as i64 },
        },
        ..n
    }
}

/// The nodes after scattering one particle's momentum over its stencil
/// entries from `k` on; entries whose cell is not allocated are skipped
/// (the mass pass allocates every live particle's stencil, so this only
/// guards the contract's totality).
pub open spec fn spec_scatter_entries(
    keys: Seq<u64>,
    nodes: Seq<GridNode>,
    affine: crate::linalg::Mat2,
    mom: Vec2,
    e: Seq<crate::kernel::NeighborEntry>,
    k: int,
) -> Seq<GridNode>
    decreases e.len() - k,
{
    if k < 0 || k >= e.len() {
        nodes
    } else {
        let f = spec_find(keys, crate::coords::spec_pack(e[k].cx, e[k].cy));
        let nodes2 = if f >= 0 {
            nodes.update(f, spec_momentum_scattered(nodes[f], affine, mom, e[k]))
        } else {
            nodes
        };
        spec_scatter_entries(keys, nodes2, affine, mom, e, k + 1)
    }
}

/// The nodes after one particle's full momentum scatter: gather density,
/// evaluate the material stress at it, form the affine contribution, and
/// scatter over the stencil.
pub open spec fn spec_scatter_particle(
    keys: Seq<u64>,
    nodes: Seq<GridNode>,
    p: Particle,
    params: crate::params::SolverParams,
    dt: Fx,
    invd: Fx,
) -> Seq<GridNode> {
    let e = spec_transfer_cache(p.position.x@, p.position.y@);
    let density = spec_density_gather(keys, nodes, e, 0, 0);
    let affine = spec_particle_affine(p, density, params, dt, invd);
    let mom = Vec2::spec_scale(p.velocity, p.mass);
    spec_scatter_entries(keys, nodes, affine, mom, e, 0)
}

/// The nodes after the momentum pass over the first `i` particles, live
/// particles in index order, failed particles skipped.
pub open spec fn spec_momentum_pass(
    keys: Seq<u64>,
    nodes: Seq<GridNode>,
    ps: Seq<Particle>,
    params: crate::params::SolverParams,
    dt: Fx,
    invd: Fx,
    i: int,
) -> Seq<GridNode>
    decreases i,
{
    if i <= 0 {
        nodes
    } else {
        let prev = spec_momentum_pass(keys, nodes, ps, params, dt, invd, i - 1);
        if ps[i - 1].failed {
            prev
        } else {
            spec_scatter_particle(keys, prev, ps[i - 1], params, dt, invd)
        }
    }
}

/// Particle-to-grid pass two: for every live particle, gather its local
/// density from the neighbor masses, evaluate the material stress, and
/// scatter `weight * (affine * distance + mass * velocity)` into the
/// stencil's momenta. Keys, masses, velocities and flags are untouched.
pub fn scatter_momentum(
    grid: &mut Grid,
    particles: &Vec<Particle>,
    cache: &Vec<ParticleTransferCache>,
    params: &crate::params::SolverParams,
    dt: Fx,
    inv_d_val: Fx,
)
    requires
        old(grid).wf(),
        params.wf(),
        dt.wf(),
        inv_d_val.wf(),
        cache@.len() == particles@.len(),
        forall|i: int| 0 <= i < particles@.len() ==> (#[trigger] particles@[i]).wf(),
        forall|i: int|
            0 <= i < particles@.len() && !(#[trigger] particles@[i]).failed
                ==> cache@[i].entries@ == spec_transfer_cache(
                particles@[i].position.x@,
                particles@[i].position.y@,
            ),
    ensures
        final(grid).wf(),
        final(grid).spec_cell_width() == old(grid).spec_cell_width(),
        final(grid).spec_keys() == old(grid).spec_keys(),
        final(grid).spec_nodes() == spec_momentum_pass(
            old(grid).spec_keys(),
            old(grid).spec_nodes(),
            particles@,
            *params,
            dt,
            inv_d_val,
            particles@.len() as int,
        ),
{
    let n = particles.len();
    let ghost keys = old(grid).spec_keys();
    let mut i: usize = 0;
    while i < n
        invariant
            0 <= i <= n,
            n == particles@.len(),
            cache@.len() == n,
            params.wf(),
            dt.wf(),
            inv_d_val.wf(),
            old(grid).wf(),
            forall|j: int| 0 <= j < n as int ==> (#[trigger] particles@[j]).wf(),
            forall|j: int|
                0 <= j < n as int && !(#[trigger] particles@[j]).failed ==> cache@[j].entries@
                    == spec_transfer_cache(
                    particles@[j].position.x@,
                    particles@[j].position.y@,
                ),
            keys == old(grid).spec_keys(),
            grid.wf(),
            grid.spec_cell_width() == old(grid).spec_cell_width(),
            grid.spec_keys() == keys,
            grid.spec_nodes() == spec_momentum_pass(
                keys,
                old(grid).spec_nodes(),
                particles@,
                *params,
                dt,
                inv_d_val,
                i as int,
            ),
        decreases n - i,
    {
        let p = particles[i];
        if !p.failed {
            let ghost px = p.position.x@;
            let ghost py = p.position.y@;
            let ghost e_seq = spec_transfer_cache(px, py);
            let ghost start_nodes = grid.spec_nodes();

            // gather the local density from the stencil
            let mut density: Fx = Fx::zero();
            let mut k: usize = 0;
            while k < 9
                invariant
                    0 <= k <= 9,
                    0 <= i < n,
                    n == particles@.len(),
                    cache@.len() == n,
                    particles@[i as int] == p,
                    !p.failed,
                    p.wf(),
                    px == p.position.x@,
                    py == p.position.y@,
                    e_seq == spec_transfer_cache(px, py),
                    cache@[i as int].entries@ == e_seq,
                    old(grid).wf(),
                    grid.wf(),
                    keys == grid.spec_keys(),
                    start_nodes == grid.spec_nodes(),
                    density.wf(),
                    spec_density_gather(keys, start_nodes, e_seq, k as int, density@)
                        == spec_density_gather(keys, start_nodes, e_seq, 0, 0),
                decreases 9 - k,
            {
                let e = cache[i].entries[k];
                proof {
                    assert(e == crate::kernel::spec_neighbor_entry(px, py, k as int));
                    lemma_axis_weight_bounds(px, k as int % 3);
                    lemma_axis_weight_bounds(py, k as int / 3);
                }
                let id = pack_coords(e.cx, e.cy);
                match grid.cell_index(id) {
                    Some(idx) => {
                        let node = grid.node_at(idx);
                        let mfx = node.mass_fx();
                        let c = weighted(e.wx, e.wy, mfx);
                        density = density.add(c);
                    },
                    Option::None => {},
                }
                k = k + 1;
            }

            // material stress, affine contribution and plain momentum
            let stress = p.material_type.compute_stress(&p, density, params);
            let coef = p.volume0.mul(inv_d_val).mul(dt);
            let affine = p.velocity_gradient.scale(p.mass).sub(stress.scale(coef));
            let mom = p.velocity.scale(p.mass);
            proof {
                assert(density@ == spec_density_gather(keys, start_nodes, e_seq, 0, 0));
                assert(affine == spec_particle_affine(p, density@, *params, dt, inv_d_val));
                assert(mom == Vec2::spec_scale(p.velocity, p.mass));
            }

            // scatter the weighted contributions over the stencil
            let mut k2: usize = 0;
            while k2 < 9
                invariant
                    0 <= k2 <= 9,
                    0 <= i < n,
                    n == particles@.len(),
                    cache@.len() == n,
                    particles@[i as int] == p,
                    !p.failed,
                    p.wf(),
                    px == p.position.x@,
                    py == p.position.y@,
                    e_seq == spec_transfer_cache(px, py),
                    cache@[i as int].entries@ == e_seq,
                    old(grid).wf(),
                    grid.wf(),
                    keys == grid.spec_keys(),
                    grid.spec_cell_width() == old(grid).spec_cell_width(),
                    affine.wf(),
                    mom.wf(),
                    spec_scatter_entries(keys, grid.spec_nodes(), affine, mom, e_seq, k2 as int)
                        == spec_scatter_entries(keys, start_nodes, affine, mom, e_seq, 0),
                decreases 9 - k2,
            {
                let e = cache[i].entries[k2];
                proof {
                    assert(e == crate::kernel::spec_neighbor_entry(px, py, k2 as int));
                    lemma_axis_weight_bounds(px, k2 as int % 3);
                    lemma_axis_weight_bounds(py, k2 as int / 3);
                }
                let id = pack_coords(e.cx, e.cy);
                match grid.cell_index(id) {
                    Some(idx) => {
                        let node = grid.node_at(idx);
                        let q = affine.mul_vec(e.dist).add(mom);
                        let dx = weighted(e.wx, e.wy, q.x);
                        let dy = weighted(e.wx, e.wy, q.y);
                        let mut node2 = node;
                        node2.momentum = Vec2 {
                            x: node.momentum.x.add(dx),
                            y: node.momentum.y.add(dy),
                        };
                        proof {
                            assert(node2 == spec_momentum_scattered(node, affine, mom, e));
                        }
                        grid.set_node(idx, node2);
                    },
                    Option::None => {},
                }
                k2 = k2 + 1;
            }
            proof {
                assert(grid.spec_nodes() == spec_scatter_particle(
                    keys,
                    start_nodes,
                    p,
                    *params,
                    dt,
                    inv_d_val,
                ));
            }
        }
        i = i + 1;
    }
}

/// The velocity and velocity-gradient a particle gathers from its stencil
/// entries from `k` on, starting from the running accumulators.
pub open spec fn spec_g2p_gather(
    keys: Seq<u64>,
    nodes: Seq<GridNode>,
    e: Seq<crate::kernel::NeighborEntry>,
    invd: Fx,
    k: int,
    vel: Vec2,
    grad: crate::linalg::Mat2,
) -> (Vec2, crate::linalg::Mat2)
    decreases e.len() - k,
{
    if k < 0 || k >= e.len() {
        (vel, grad)
    } else {
        let f = spec_find(keys, crate::coords::spec_pack(e[k].cx, e[k].cy));
        if f >= 0 {
            let wv = Vec2 {
                x: Fx { raw: spec_weighted(e[k].wx, e[k].wy, nodes[f].velocity.x@) as i64 },
                y: Fx { raw: spec_weighted(e[k].wx, e[k].wy, nodes[f].velocity.y@) as i64 },
            };
            let vel2 = Vec2::spec_add(vel, wv);
            let grad2 = crate::linalg::Mat2::spec_madd(
                grad,
                crate::linalg::Mat2::spec_mscale(
                    crate::linalg::spec_outer_product(wv, e[k].dist),
                    invd,
                ),
            );
            spec_g2p_gather(keys, nodes, e, invd, k + 1, vel2, grad2)
        } else {
            spec_g2p_gather(keys, nodes, e, invd, k + 1, vel, grad)
        }
    }
}

/// A position component clamped into the hard boundary of last resort,
/// one cell inside the valid range.
pub open spec fn spec_clamp_position(v: int) -> int {
    let lo = crate::fixed::FX_ONE as int;
    let hi = (crate::coords::GRID_RESOLUTION as int - 2) * crate::fixed::FX_ONE as int;
    if v < lo {
        lo
    } else if v > hi {
        hi
    } else {
        v
    }
}

/// A live particle after the grid-to-particle pass: velocity and velocity
/// gradient regathered from the grid, affine matrix set to the gradient,
/// deformation gradient advanced by `(I + dt * gradient)` and then
/// re-isotropized by the material projection, position advanced by the new
/// velocity and clamped into the valid range.
pub open spec fn spec_g2p_particle(
    keys: Seq<u64>,
    nodes: Seq<GridNode>,
    p: Particle,
    dt: Fx,
    invd: Fx,
) -> Particle {
    let e = spec_transfer_cache(p.position.x@, p.position.y@);
    let vg = spec_g2p_gather(
        keys,
        nodes,
        e,
        invd,
        0,
        Vec2 { x: Fx { raw: 0 }, y: Fx { raw: 0 } },
        crate::linalg::Mat2::spec_zero(),
    );
    let vel = vg.0;
    let grad = vg.1;
    let update = crate::linalg::Mat2::spec_madd(
        crate::linalg::Mat2::spec_identity(),
        crate::linalg::Mat2::spec_mscale(grad, dt),
    );
    let f2 = crate::linalg::Mat2::spec_mul_mat(update, p.deformation_gradient);
    let f3 = crate::materials::spec_projected_deformation(f2);
    let moved = Vec2::spec_add(p.position, Vec2::spec_scale(vel, dt));
    let pos = Vec2 {
        x: Fx { raw: spec_clamp_position(moved.x@) as i64 },
        y: Fx { raw: spec_clamp_position(moved.y@) as i64 },
    };
    Particle {
        position: pos,
        velocity: vel,
        affine_momentum_matrix: grad,
        velocity_gradient: grad,
        deformation_gradient: f3,
        ..p
    }
}

/// Grid-to-particle: for every live particle, gather `weight * velocity`
/// and the weighted outer products from its stencil, set the affine matrix
/// and velocity gradient to the gathered gradient, advance the deformation
/// gradient multiplicatively, apply the material's deformation projection,
/// and integrate the position (clamped into the valid range). Failed
/// particles are untouched.
pub fn grid_to_particle(
    grid: &Grid,
    particles: &mut Vec<Particle>,
    cache: &Vec<ParticleTransferCache>,
    dt: Fx,
    inv_d_val: Fx,
)
    requires
        grid.wf(),
        dt.wf(),
        inv_d_val.wf(),
        cache@.len() == old(particles)@.len(),
        forall|i: int| 0 <= i < old(particles)@.len() ==> (#[trigger] old(particles)@[i]).wf(),
        forall|i: int|
            0 <= i < old(particles)@.len() && !(#[trigger] old(particles)@[i]).failed
                ==> cache@[i].entries@ == spec_transfer_cache(
                old(particles)@[i].position.x@,
                old(particles)@[i].position.y@,
            ),
    ensures
        final(particles)@.len() == old(particles)@.len(),
        forall|i: int|
            0 <= i < final(particles)@.len() ==> final(particles)@[i] == (if old(
                particles,
            )@[i].failed {
                old(particles)@[i]
            } else {
                spec_g2p_particle(
                    grid.spec_keys(),
                    grid.spec_nodes(),
                    #[trigger] old(particles)@[i],
                    dt,
                    inv_d_val,
                )
            }),
        forall|i: int|
            0 <= i < final(particles)@.len() ==> (#[trigger] final(particles)@[i]).wf(),
{
    let n = particles.len();
    let ghost keys = grid.spec_keys();
    let ghost nodes = grid.spec_nodes();
    let mut i: usize = 0;
    while i < n
        invariant
            0 <= i <= n,
            n == particles@.len(),
            n == old(particles)@.len(),
            cache@.len() == n,
            dt.wf(),
            inv_d_val.wf(),
            grid.wf(),
            keys == grid.spec_keys(),
            nodes == grid.spec_nodes(),
            forall|j: int| 0 <= j < n as int ==> (#[trigger] old(particles)@[j]).wf(),
            forall|j: int|
                0 <= j < n as int && !(#[trigger] old(particles)@[j]).failed
                    ==> cache@[j].entries@ == spec_transfer_cache(
                    old(particles)@[j].position.x@,
                    old(particles)@[j].position.y@,
                ),
            forall|j: int| i as int <= j < n as int ==> particles@[j] == old(particles)@[j],
            forall|j: int|
                0 <= j < i as int ==> particles@[j] == (if old(particles)@[j].failed {
                    old(particles)@[j]
                } else {
                    spec_g2p_particle(keys, nodes, #[trigger] old(particles)@[j], dt, inv_d_val)
                }),
            forall|j: int| 0 <= j < i as int ==> (#[trigger] particles@[j]).wf(),
        decreases n - i,
    {
        let p = particles[i];
        if !p.failed {
            let ghost px = p.position.x@;
            let ghost py = p.position.y@;
            let ghost e_seq = spec_transfer_cache(px, py);
            let mut vel = Vec2::zero();
            let mut grad = crate::linalg::Mat2::zero();
            proof {
                assert(vel == (Vec2 { x: Fx { raw: 0 }, y: Fx { raw: 0 } }));
            }
            let mut k: usize = 0;
            while k < 9
                invariant
                    0 <= k <= 9,
                    0 <= i < n,
                    n == particles@.len(),
                    cache@.len() == n,
                    old(particles)@[i as int] == p,
                    !p.failed,
                    p.wf(),
                    px == p.position.x@,
                    py == p.position.y@,
                    e_seq == spec_transfer_cache(px, py),
                    cache@[i as int].entries@ == e_seq,
                    dt.wf(),
                    inv_d_val.wf(),
                    grid.wf(),
                    keys == grid.spec_keys(),
                    nodes == grid.spec_nodes(),
                    vel.wf(),
                    grad.wf(),
                    spec_g2p_gather(keys, nodes, e_seq, inv_d_val, k as int, vel, grad)
                        == spec_g2p_gather(
                        keys,
                        nodes,
                        e_seq,
                        inv_d_val,
                        0,
                        Vec2 { x: Fx { raw: 0 }, y: Fx { raw: 0 } },
                        crate::linalg::Mat2::spec_zero(),
                    ),
                decreases 9 - k,
            {
                let e = cache[i].entries[k];
                proof {
                    assert(e == crate::kernel::spec_neighbor_entry(px, py, k as int));
                    lemma_axis_weight_bounds(px, k as int % 3);
                    lemma_axis_weight_bounds(py, k as int / 3);
                }
                let id = pack_coords(e.cx, e.cy);
                match grid.cell_index(id) {
                    Some(idx) => {
                        let node = grid.node_at(idx);
                        let wv = Vec2 {
                            x: weighted(e.wx, e.wy, node.velocity.x),
                            y: weighted(e.wx, e.wy, node.velocity.y),
                        };
                        vel = vel.add(wv);
                        grad = grad.add(crate::linalg::outer_product(wv, e.dist).scale(
                            inv_d_val,
                        ));
                    },
                    Option::None => {},
                }
                k = k + 1;
            }
            let mut p2 = p;
            p2.velocity = vel;
            p2.affine_momentum_matrix = grad;
            p2.velocity_gradient = grad;
            let update = crate::linalg::Mat2::identity().add(grad.scale(dt));
            p2.deformation_gradient = update.mul_mat(p.deformation_gradient);
            let mt = p2.material_type;
            mt.project_deformation(&mut p2);
            let moved = p2.position.add(p2.velocity.scale(dt));
            let lo = Fx::from_units(1);
            let hi = Fx::from_units(crate::coords::GRID_RESOLUTION as i32 - 2);
            p2.position = Vec2 { x: moved.x.clamp(lo, hi), y: moved.y.clamp(lo, hi) };
            proof {
                assert(p2 == spec_g2p_particle(keys, nodes, p, dt, inv_d_val));
            }
            particles.set(i, p2);
        }
        i = i + 1;
    }
}

/// The momentum scatter changes no node's mass and no node count.
pub proof fn lemma_scatter_entries_preserves_mass(
    keys: Seq<u64>,
    nodes: Seq<GridNode>,
    affine: crate::linalg::Mat2,
    mom: Vec2,
    e: Seq<crate::kernel::NeighborEntry>,
    k: int,
)
    requires
        keys.len() == nodes.len(),
    ensures
        spec_scatter_entries(keys, nodes, affine, mom, e, k).len() == nodes.len(),
        forall|j: int|
            0 <= j < nodes.len() ==> (#[trigger] spec_scatter_entries(
                keys,
                nodes,
                affine,
                mom,
                e,
                k,
            )[j]).mass == nodes[j].mass,
    decreases e.len() - k,
{
    if k < 0 || k >= e.len() {
    } else {
        let f = spec_find(keys, crate::coords::spec_pack(e[k].cx, e[k].cy));
        crate::grid::lemma_find_props(keys, crate::coords::spec_pack(e[k].cx, e[k].cy));
        let nodes2 = if f >= 0 {
            nodes.update(f, spec_momentum_scattered(nodes[f], affine, mom, e[k]))
        } else {
            nodes
        };
        assert(nodes2.len() == nodes.len());
        assert forall|j: int| 0 <= j < nodes.len() implies (#[trigger] nodes2[j]).mass
            == nodes[j].mass by {
            if f >= 0 {
                assert(nodes2[j] == nodes.update(
                    f,
                    spec_momentum_scattered(nodes[f], affine, mom, e[k]),
                )[j]);
            }
        }
        lemma_scatter_entries_preserves_mass(keys, nodes2, affine, mom, e, k + 1);
    }
}

/// The whole momentum pass changes no node's mass and no node count.
pub proof fn lemma_momentum_pass_preserves_mass(
    keys: Seq<u64>,
    nodes: Seq<GridNode>,
    ps: Seq<Particle>,
    params: crate::params::SolverParams,
    dt: Fx,
    invd: Fx,
    i: int,
)
    requires
        keys.len() == nodes.len(),
    ensures
        spec_momentum_pass(keys, nodes, ps, params, dt, invd, i).len() == nodes.len(),
        forall|j: int|
            0 <= j < nodes.len() ==> (#[trigger] spec_momentum_pass(
                keys,
                nodes,
                ps,
                params,
                dt,
                invd,
                i,
            )[j]).mass == nodes[j].mass,
        spec_total_mass(spec_momentum_pass(keys, nodes, ps, params, dt, invd, i))
            == spec_total_mass(nodes),
    decreases i,
{
    if i <= 0 {
    } else {
        lemma_momentum_pass_preserves_mass(keys, nodes, ps, params, dt, invd, i - 1);
        let prev = spec_momentum_pass(keys, nodes, ps, params, dt, invd, i - 1);
        if !ps[i - 1].failed {
            let p = ps[i - 1];
            let e = spec_transfer_cache(p.position.x@, p.position.y@);
            let density = spec_density_gather(keys, prev, e, 0, 0);
            let affine = spec_particle_affine(p, density, params, dt, invd);
            let mom = Vec2::spec_scale(p.velocity, p.mass);
            lemma_scatter_entries_preserves_mass(keys, prev, affine, mom, e, 0);
        }
    }
    crate::grid::lemma_total_mass_pointwise(
        spec_momentum_pass(keys, nodes, ps, params, dt, invd, i),
        nodes,
    );
}

/// A stencil entry's weighting of a zero scalar is zero.
proof fn lemma_weighted_zero(wx: u64, wy: u64)
    ensures
        spec_weighted(wx, wy, 0) == 0,
{
    assert(wx as int * 0int == 0) by (nonlinear_arith);
    vstd::arithmetic::div_mod::lemma_div_of0(0x8_0000_0000);
    assert(tdiv(0, 0x8_0000_0000) == 0);
    assert(0int * (wy as int) == 0) by (nonlinear_arith);
}

/// At equilibrium the fluid stress vanishes: a zero velocity gradient,
/// an identity deformation gradient, volume preservation off, and a
/// gathered density exactly at the rest density give the zero tensor.
pub proof fn lemma_equilibrium_stress_zero(
    p: Particle,
    density: int,
    params: crate::params::SolverParams,
    fluid: crate::particle::FluidParams,
)
    requires
        p.velocity_gradient == crate::linalg::Mat2::spec_zero(),
        p.deformation_gradient == crate::linalg::Mat2::spec_identity(),
        params.preserve_fluid_volume == false,
        Fx::spec_div(density, fluid.rest_density@) == crate::fixed::FX_ONE as int,
    ensures
        crate::materials::spec_fluid_stress(p, density, params, fluid)
            == crate::linalg::Mat2::spec_zero(),
{
    let one = crate::fixed::FX_ONE as int;
    crate::fixed::lemma_powi_one(fluid.eos_power as nat);
    crate::fixed::lemma_mul_zero(fluid.eos_stiffness@);
    // the Jacobian of the identity is exactly one
    assert((one * one) / one == one) by {
        vstd::arithmetic::div_mod::lemma_div_by_multiple(one, one);
    }
    crate::fixed::lemma_mul_zero(0);
    assert(p.deformation_gradient.spec_determinant() == one);
    // the isotropic part is -0 * J = 0
    crate::fixed::lemma_mul_zero(one);
    // the strain rate of a zero gradient is zero, its deviatoric part too
    crate::fixed::lemma_mul_zero(crate::fixed::FX_HALF as int);
    let coef = Fx::spec_mul(Fx::spec_mul(2 * one, params.dynamic_viscosity@), one);
    crate::fixed::lemma_mul_zero(coef);
    assert(crate::materials::spec_fluid_stress(p, density, params, fluid)
        == crate::linalg::Mat2::spec_zero());
}

/// At equilibrium the APIC affine contribution vanishes with the stress.
pub proof fn lemma_equilibrium_affine_zero(
    p: Particle,
    density: int,
    params: crate::params::SolverParams,
    dt: Fx,
    invd: Fx,
)
    requires
        p.velocity_gradient == crate::linalg::Mat2::spec_zero(),
        p.deformation_gradient == crate::linalg::Mat2::spec_identity(),
        params.preserve_fluid_volume == false,
        Fx::spec_div(density, p.material_type.spec_fluid_params().rest_density@)
            == crate::fixed::FX_ONE as int,
    ensures
        spec_particle_affine(p, density, params, dt, invd) == crate::linalg::Mat2::spec_zero(),
{
    lemma_equilibrium_stress_zero(p, density, params, p.material_type.spec_fluid_params());
    crate::fixed::lemma_mul_zero(p.mass@);
    let coef = Fx::spec_mul(Fx::spec_mul(p.volume0@, invd@), dt@);
    crate::fixed::lemma_mul_zero(coef);
}

/// Scattering a zero affine contribution and zero momentum changes
/// nothing at one stencil entry.
proof fn lemma_zero_scatter_entry(n: GridNode, e: crate::kernel::NeighborEntry)
    requires
        n.wf(),
    ensures
        spec_momentum_scattered(
            n,
            crate::linalg::Mat2::spec_zero(),
            Vec2 { x: Fx { raw: 0 }, y: Fx { raw: 0 } },
            e,
        ) == n,
{
    crate::fixed::lemma_mul_zero(e.dist.x@);
    crate::fixed::lemma_mul_zero(e.dist.y@);
    lemma_weighted_zero(e.wx, e.wy);
}

/// Scattering a zero affine contribution and zero momentum changes no
/// node at all.
proof fn lemma_zero_scatter_entries(
    keys: Seq<u64>,
    nodes: Seq<GridNode>,
    e: Seq<crate::kernel::NeighborEntry>,
    k: int,
)
    requires
        keys.len() == nodes.len(),
        forall|j: int| 0 <= j < nodes.len() ==> (#[trigger] nodes[j]).wf(),
    ensures
        spec_scatter_entries(
            keys,
            nodes,
            crate::linalg::Mat2::spec_zero(),
            Vec2 { x: Fx { raw: 0 }, y: Fx { raw: 0 } },
            e,
            k,
        ) == nodes,
    decreases e.len() - k,
{
    if k < 0 || k >= e.len() {
    } else {
        let f = spec_find(keys, crate::coords::spec_pack(e[k].cx, e[k].cy));
        crate::grid::lemma_find_props(keys, crate::coords::spec_pack(e[k].cx, e[k].cy));
        if f >= 0 {
            lemma_zero_scatter_entry(nodes[f], e[k]);
            assert(nodes.update(f, nodes[f]) =~= nodes);
        }
        lemma_zero_scatter_entries(keys, nodes, e, k + 1);
    }
}

/// The particle-to-grid half of the equilibrium scenario, as a law over
/// every grid: a resting particle — zero velocity, zero velocity
/// gradient, identity deformation — whose gathered density sits exactly
/// at its fluid's rest density, with volume preservation off, scatters no
/// momentum at all: the momentum pass leaves every node exactly as it
/// was. With the momenta untouched at zero, the derived grid velocities
/// are zero too ([`lemma_zero_momentum_zero_velocity`]), so under zero
/// gravity the gather returns a zero velocity and the particle does not
/// drift. The runtime equilibrium test instantiates the full step.
pub proof fn lemma_equilibrium_scatters_no_momentum(
    keys: Seq<u64>,
    nodes: Seq<GridNode>,
    p: Particle,
    params: crate::params::SolverParams,
    dt: Fx,
    invd: Fx,
)
    requires
        keys.len() == nodes.len(),
        forall|j: int| 0 <= j < nodes.len() ==> (#[trigger] nodes[j]).wf(),
        p.velocity == (Vec2 { x: Fx { raw: 0 }, y: Fx { raw: 0 } }),
        p.velocity_gradient == crate::linalg::Mat2::spec_zero(),
        p.deformation_gradient == crate::linalg::Mat2::spec_identity(),
        params.preserve_fluid_volume == false,
        Fx::spec_div(
            spec_density_gather(
                keys,
                nodes,
                spec_transfer_cache(p.position.x@, p.position.y@),
                0,
                0,
            ),
            p.material_type.spec_fluid_params().rest_density@,
        ) == crate::fixed::FX_ONE as int,
    ensures
        spec_scatter_particle(keys, nodes, p, params, dt, invd) == nodes,
{
    let e = spec_transfer_cache(p.position.x@, p.position.y@);
    let density = spec_density_gather(keys, nodes, e, 0, 0);
    lemma_equilibrium_affine_zero(p, density, params, dt, invd);
    crate::fixed::lemma_mul_zero(p.mass@);
    assert(Vec2::spec_scale(p.velocity, p.mass) == (Vec2 { x: Fx { raw: 0 }, y: Fx { raw: 0 } }));
    lemma_zero_scatter_entries(keys, nodes, e, 0);
}

/// A node whose velocity starts zeroed and that accumulated no momentum
/// derives a zero velocity.
pub proof fn lemma_zero_momentum_zero_velocity(n: GridNode)
    requires
        n.momentum == (Vec2 { x: Fx { raw: 0 }, y: Fx { raw: 0 } }),
        n.velocity == (Vec2 { x: Fx { raw: 0 }, y: Fx { raw: 0 } }),
    ensures
        spec_velocity_derived(n).velocity == (Vec2 { x: Fx { raw: 0 }, y: Fx { raw: 0 } }),
{
    if n.mass > 0 {
        let mfx = fx_clip(tdiv(n.mass as int, 0x40_0000_0000_0000_0000));
        if mfx > 0 {
            vstd::arithmetic::div_mod::lemma_div_of0(mfx);
        } else if mfx < 0 {
            vstd::arithmetic::div_mod::lemma_div_of0(-mfx);
        }
    }
}

} // verus!
