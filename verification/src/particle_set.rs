//! The particle set and its derived spatial index.
//!
//! The set owns the particle array plus, after a rebuild: the live
//! (non-failed) particle indices sorted by packed cell id (ties by
//! index), contiguous `(cell, range)` runs over that order — so a range
//! never covers a failed particle — per-particle cached kernel stencils,
//! and fixed-width colour-coded bins of live particle indices.
//! Every derived structure is a pure function of the particle array and
//! the cell width, which is what makes the rebuild idempotent. The index
//! is invalidated by any insert or removal and must be rebuilt before the
//! transfer passes rely on it.

use vstd::prelude::*;
use crate::fixed::Fx;
use crate::particle::Particle;
use crate::kernel::{
    ParticleTransferCache,
    NeighborEntry,
    spec_transfer_cache,
    spec_cell_of,
    spec_base,
    cell_from_position,
    populate_transfer_cache,
};
use crate::coords::{spec_pack, pack_coords, unpack_coords, colour_of_cell, GRID_RESOLUTION};
use crate::compact::spec_count_kept;
use crate::sorting::{spec_sort, sort_indices, lemma_sort_props};

verus! {

/// The x cell a particle sorts into at the given cell width.
pub open spec fn spec_rebuild_cx(p: Particle, w: Fx) -> int {
    spec_cell_of(p.position.x@, w@)
}

/// The y cell a particle sorts into at the given cell width.
pub open spec fn spec_rebuild_cy(p: Particle, w: Fx) -> int {
    spec_cell_of(p.position.y@, w@)
}

/// Whether a particle may scatter: its sort cell keeps the whole 3x3
/// stencil inside the valid range, and its stencil base cells are
/// representable coordinates. A particle failing this is marked failed
/// rather than corrupting the grid — the open-world safety valve.
pub open spec fn spec_rebuild_safe(p: Particle, w: Fx) -> bool {
    &&& 1 <= spec_rebuild_cx(p, w) <= GRID_RESOLUTION as int - 2
    &&& 1 <= spec_rebuild_cy(p, w) <= GRID_RESOLUTION as int - 2
    &&& -(0x8000_0000int) < spec_base(p.position.x@)
    &&& spec_base(p.position.x@) + 2 < 0x8000_0000int
    &&& -(0x8000_0000int) < spec_base(p.position.y@)
    &&& spec_base(p.position.y@) + 2 < 0x8000_0000int
}

/// The packed sort key a rebuild assigns: the packed sort cell, or the
/// all-ones sentinel for unsafe particles (which sorts last; no valid
/// in-range cell packs to it). A particle failed earlier for another
/// reason — the health check — but still in range keeps a real packed
/// cell id; it is excluded from the sorted order all the same.
pub open spec fn spec_rebuild_key(p: Particle, w: Fx) -> u64 {
    if spec_rebuild_safe(p, w) {
        spec_pack(spec_rebuild_cx(p, w) as i32, spec_rebuild_cy(p, w) as i32)
    } else {
        u64::MAX
    }
}

/// A particle after the rebuild's first pass: key cached, failure absorbed,
/// everything else untouched.
pub open spec fn spec_rebuilt_particle(p: Particle, w: Fx) -> Particle {
    Particle {
        grid_index: spec_rebuild_key(p, w),
        failed: p.failed || !spec_rebuild_safe(p, w),
        ..p
    }
}

/// The whole particle array after the rebuild's first pass.
pub open spec fn spec_rebuilt_particles(ps: Seq<Particle>, w: Fx) -> Seq<Particle> {
    Seq::new(ps.len(), |i: int| spec_rebuilt_particle(ps[i], w))
}

/// The cached sort keys of a particle array.
pub open spec fn spec_keys_of(ps: Seq<Particle>) -> Seq<u64> {
    Seq::new(ps.len(), |i: int| ps[i].grid_index)
}

/// The failed flags of a particle array.
pub open spec fn spec_failed_of(ps: Seq<Particle>) -> Seq<bool> {
    Seq::new(ps.len(), |i: int| ps[i].failed)
}

/// The live indices kept, in order, from a sorted permutation walked from
/// position `i` with the survivors collected so far.
pub open spec fn spec_live_order_walk(
    failed: Seq<bool>,
    order: Seq<usize>,
    i: int,
    acc: Seq<usize>,
) -> Seq<usize>
    decreases order.len() - i,
{
    if i < 0 || i >= order.len() {
        acc
    } else if failed[order[i] as int] {
        spec_live_order_walk(failed, order, i + 1, acc)
    } else {
        spec_live_order_walk(failed, order, i + 1, acc.push(order[i]))
    }
}

/// The sorted order the rebuild stores: the live (non-failed) particle
/// indices in ascending key-then-index order — the failed ones are
/// dropped, so region ranges and bins never cover a failed particle.
pub open spec fn spec_live_order(keys: Seq<u64>, failed: Seq<bool>, n: int) -> Seq<usize> {
    spec_live_order_walk(failed, spec_sort(keys, n), 0, Seq::empty())
}

/// The stencil cache a rebuild stores for one particle: the real stencil
/// for safe particles, empty for the rest (they never scatter).
pub open spec fn spec_cache_of(p: Particle, w: Fx) -> Seq<NeighborEntry> {
    if spec_rebuild_safe(p, w) {
        spec_transfer_cache(p.position.x@, p.position.y@)
    } else {
        Seq::empty()
    }
}

/// The contiguous `(cell, start, end)` runs of live particles in the
/// sorted order, `start`/`end` being positions in that order.
pub open spec fn spec_region_walk(
    keys: Seq<u64>,
    failed: Seq<bool>,
    order: Seq<usize>,
    i: int,
    cur: Option<(u64, usize)>,
    acc: Seq<(u64, usize, usize)>,
) -> Seq<(u64, usize, usize)>
    decreases order.len() - i,
{
    if i < 0 || i >= order.len() {
        match cur {
            Option::None => acc,
            Option::Some(c) => acc.push((c.0, c.1, order.len() as usize)),
        }
    } else {
        let idx = order[i] as int;
        if failed[idx] {
            spec_region_walk(keys, failed, order, i + 1, cur, acc)
        } else {
            let cell = keys[idx];
            match cur {
                Option::None => spec_region_walk(
                    keys,
                    failed,
                    order,
                    i + 1,
                    Option::Some((cell, i as usize)),
                    acc,
                ),
                Option::Some(c) => {
                    if c.0 != cell {
                        spec_region_walk(
                            keys,
                            failed,
                            order,
                            i + 1,
                            Option::Some((cell, i as usize)),
                            acc.push((c.0, c.1, i as usize)),
                        )
                    } else {
                        spec_region_walk(keys, failed, order, i + 1, cur, acc)
                    }
                },
            }
        }
    }
}

/// A fixed-width bin: up to four live particle indices sharing one cell,
/// tagged with that cell and its checkerboard colour. Bins of one colour
/// whose cells lie in distinct blocks never write a common grid node.
#[derive(Clone, Debug)]
pub struct ParticleBin {
    /// The particle indices grouped in this bin (at most four).
    pub indices: Vec<usize>,
    /// The packed cell all these particles sort into.
    pub cell: u64,
    /// The scatter colour class of that cell.
    pub colour: u8,
}

impl View for ParticleBin {
    type V = (Seq<usize>, u64, u8);

    open spec fn view(&self) -> (Seq<usize>, u64, u8) {
        (self.indices@, self.cell, self.colour)
    }
}

/// The colour of a packed in-range cell.
pub open spec fn spec_colour_of_key(cell: u64) -> int {
    crate::coords::spec_colour(
        crate::coords::spec_unpack_x(cell) as int,
        crate::coords::spec_unpack_y(cell) as int,
    )
}

/// A finished bin's view, given its indices and cell.
pub open spec fn spec_bin_view(indices: Seq<usize>, cell: u64) -> (Seq<usize>, u64, u8) {
    (indices, cell, spec_colour_of_key(cell) as u8)
}

/// The colour-coded bins of live particles in the sorted order: runs of a
/// single cell, chunked four particles at a time.
pub open spec fn spec_bin_walk(
    keys: Seq<u64>,
    failed: Seq<bool>,
    order: Seq<usize>,
    i: int,
    cur: Option<(Seq<usize>, u64)>,
    acc: Seq<(Seq<usize>, u64, u8)>,
) -> Seq<(Seq<usize>, u64, u8)>
    decreases order.len() - i,
{
    if i < 0 || i >= order.len() {
        match cur {
            Option::None => acc,
            Option::Some(b) => acc.push(spec_bin_view(b.0, b.1)),
        }
    } else {
        let idx = order[i] as int;
        if failed[idx] {
            spec_bin_walk(keys, failed, order, i + 1, cur, acc)
        } else {
            let cell = keys[idx];
            match cur {
                Option::None => spec_bin_walk(
                    keys,
                    failed,
                    order,
                    i + 1,
                    Option::Some((seq![order[i]], cell)),
                    acc,
                ),
                Option::Some(b) => {
                    if b.1 == cell && b.0.len() < 4 {
                        spec_bin_walk(
                            keys,
                            failed,
                            order,
                            i + 1,
                            Option::Some((b.0.push(order[i]), cell)),
                            acc,
                        )
                    } else {
                        spec_bin_walk(
                            keys,
                            failed,
                            order,
                            i + 1,
                            Option::Some((seq![order[i]], cell)),
                            acc.push(spec_bin_view(b.0, b.1)),
                        )
                    }
                },
            }
        }
    }
}

/// The views of a bin vector.
pub open spec fn spec_bins_view(bins: Seq<ParticleBin>) -> Seq<(Seq<usize>, u64, u8)> {
    Seq::new(bins.len(), |i: int| bins[i]@)
}

/// The live flags (not failed) of a particle array.
pub open spec fn spec_live_flags(ps: Seq<Particle>) -> Seq<bool> {
    Seq::new(ps.len(), |i: int| !ps[i].failed)
}

/// The particle set: the particle array and its derived spatial index.
#[derive(Clone, Debug)]
pub struct ParticleSet {
    /// The particles.
    pub particles: Vec<Particle>,
    /// The live (non-failed) particle indices sorted by packed cell id,
    /// ties by index; empty when the spatial index is invalidated.
    pub order: Vec<usize>,
    /// Contiguous `(cell, start, end)` runs over `order`.
    pub regions: Vec<(u64, usize, usize)>,
    /// Per-particle packed sort key from the last rebuild.
    pub active_cells: Vec<u64>,
    /// Fixed-width colour-coded bins of live particle indices.
    pub particle_bins: Vec<ParticleBin>,
    /// Per-particle cached kernel stencils from the last rebuild.
    pub transfer_cache: Vec<ParticleTransferCache>,
}

impl ParticleSet {
    /// Every particle is well formed.
    pub open spec fn wf(self) -> bool {
        forall|i: int| 0 <= i < self.particles@.len() ==> (#[trigger] self.particles@[i]).wf()
    }

    /// The derived spatial index is empty (stale, awaiting a rebuild).
    pub open spec fn spec_index_invalidated(self) -> bool {
        &&& self.order@.len() == 0
        &&& self.regions@.len() == 0
        &&& self.active_cells@.len() == 0
        &&& self.particle_bins@.len() == 0
    }

    /// The derived spatial index is exactly what a rebuild at width `w`
    /// derives from the particle array.
    pub open spec fn spec_index_fresh(self, w: Fx) -> bool {
        let ps = self.particles@;
        let keys = spec_keys_of(ps);
        let failed = spec_failed_of(ps);
        let order = spec_live_order(keys, failed, ps.len() as int);
        &&& forall|i: int|
            0 <= i < ps.len() ==> (#[trigger] ps[i]) == spec_rebuilt_particle(ps[i], w)
        &&& self.order@ == order
        &&& self.active_cells@ == keys
        &&& self.regions@ == spec_region_walk(
            keys,
            failed,
            order,
            0,
            Option::None,
            Seq::empty(),
        )
        &&& spec_bins_view(self.particle_bins@) == spec_bin_walk(
            keys,
            failed,
            order,
            0,
            Option::None,
            Seq::empty(),
        )
        &&& self.transfer_cache@.len() == ps.len()
        &&& forall|i: int|
            0 <= i < ps.len() ==> (#[trigger] self.transfer_cache@[i]).entries@ == spec_cache_of(
                ps[i],
                w,
            )
    }

    /// An empty particle set.
    pub fn new() -> (r: ParticleSet)
        ensures
            r.particles@.len() == 0,
            r.transfer_cache@.len() == 0,
            r.spec_index_invalidated(),
            r.wf(),
    {
        ParticleSet {
            particles: Vec::new(),
            order: Vec::new(),
            regions: Vec::new(),
            active_cells: Vec::new(),
            particle_bins: Vec::new(),
            transfer_cache: Vec::new(),
        }
    }

    /// Number of particles, live or failed.
    pub fn len(&self) -> (r: usize)
        ensures
            r == self.particles@.len(),
    {
        self.particles.len()
    }

    /// Whether the set holds no particles.
    pub fn is_empty(&self) -> (r: bool)
        ensures
            r == (self.particles@.len() == 0),
    {
        self.particles.len() == 0
    }

    /// The sorted index permutation of the last rebuild.
    pub fn particle_order(&self) -> (r: &Vec<usize>)
        ensures
            r@ == self.order@,
    {
        &self.order
    }

    /// The contiguous `(cell, start, end)` runs of the last rebuild.
    pub fn cell_regions(&self) -> (r: &Vec<(u64, usize, usize)>)
        ensures
            r@ == self.regions@,
    {
        &self.regions
    }

    /// The per-particle packed sort keys of the last rebuild.
    pub fn cell_assignments(&self) -> (r: &Vec<u64>)
        ensures
            r@ == self.active_cells@,
    {
        &self.active_cells
    }

    /// The colour-coded bins of the last rebuild.
    pub fn bins(&self) -> (r: &Vec<ParticleBin>)
        ensures
            r@ == self.particle_bins@,
    {
        &self.particle_bins
    }

    /// The per-particle cached stencils of the last rebuild.
    pub fn transfer_cache(&self) -> (r: &Vec<ParticleTransferCache>)
        ensures
            r@ == self.transfer_cache@,
    {
        &self.transfer_cache
    }

    /// Read one particle.
    pub fn get(&self, index: usize) -> (r: Option<Particle>)
        ensures
            r == if (index as int) < self.particles@.len() {
                Some(self.particles@[index as int])
            } else {
                Option::<Particle>::None
            },
    {
        if index < self.particles.len() {
            Some(self.particles[index])
        } else {
            Option::None
        }
    }

    /// Append a particle; the spatial index becomes stale and is cleared.
    pub fn insert(&mut self, particle: Particle) -> (r: usize)
        requires
            old(self).wf(),
            particle.wf(),
        ensures
            r as int == old(self).particles@.len(),
            final(self).particles@ == old(self).particles@.push(particle),
            final(self).transfer_cache@ == old(self).transfer_cache@,
            final(self).spec_index_invalidated(),
            final(self).wf(),
    {
        let index = self.particles.len();
        self.particles.push(particle);
        self.invalidate_spatial_index();
        index
    }

    /// Append a batch of particles; the spatial index becomes stale.
    pub fn insert_batch(&mut self, batch: Vec<Particle>)
        requires
            old(self).wf(),
            forall|i: int| 0 <= i < batch@.len() ==> (#[trigger] batch@[i]).wf(),
        ensures
            final(self).particles@ == old(self).particles@ + batch@,
            final(self).spec_index_invalidated(),
            final(self).wf(),
    {
        let n = batch.len();
        let mut i: usize = 0;
        while i < n
            invariant
                0 <= i <= n,
                n == batch@.len(),
                self.particles@ == old(self).particles@ + batch@.subrange(0, i as int),
                forall|j: int| 0 <= j < batch@.len() ==> (#[trigger] batch@[j]).wf(),
                self.wf(),
            decreases n - i,
        {
            self.particles.push(batch[i]);
            proof {
                assert(self.particles@ =~= old(self).particles@ + batch@.subrange(
                    0,
                    i as int + 1,
                ));
            }
            i = i + 1;
        }
        proof {
            assert(self.particles@ =~= old(self).particles@ + batch@);
        }
        self.invalidate_spatial_index();
    }

    /// Append a particle (alias of `insert`).
    pub fn push(&mut self, particle: Particle) -> (r: usize)
        requires
            old(self).wf(),
            particle.wf(),
        ensures
            r as int == old(self).particles@.len(),
            final(self).particles@ == old(self).particles@.push(particle),
            final(self).spec_index_invalidated(),
            final(self).wf(),
    {
        self.insert(particle)
    }

    /// Drop all particles and the derived index.
    pub fn clear(&mut self)
        ensures
            final(self).particles@.len() == 0,
            final(self).transfer_cache@.len() == 0,
            final(self).spec_index_invalidated(),
            final(self).wf(),
    {
        self.particles.clear();
        self.transfer_cache.clear();
        self.invalidate_spatial_index();
    }

    /// Clear every derived structure; callers must rebuild before the
    /// next transfer.
    fn invalidate_spatial_index(&mut self)
        ensures
            final(self).particles@ == old(self).particles@,
            final(self).transfer_cache@ == old(self).transfer_cache@,
            final(self).spec_index_invalidated(),
    {
        self.order.clear();
        self.regions.clear();
        self.active_cells.clear();
        self.particle_bins.clear();
    }

    /// Remove failed particles: survivors keep their relative order and
    /// slide down to the index given by the count of survivors before
    /// them; the returned table maps every old index to its new index or
    /// to nothing. When no particle failed, nothing changes and the table
    /// is empty. The spatial index is invalidated whenever removal
    /// happened.
    pub fn remove_failed(&mut self) -> (r: Vec<Option<usize>>)
        requires
            old(self).wf(),
            old(self).transfer_cache@.len() == old(self).particles@.len(),
        ensures
            final(self).wf(),
            ({
                let ps = old(self).particles@;
                let live = spec_live_flags(ps);
                let n = ps.len() as int;
                if spec_count_kept(live, n) == n {
                    r@.len() == 0 && *final(self) == *old(self)
                } else {
                    &&& r@.len() == n
                    &&& forall|i: int|
                        0 <= i < n ==> r@[i] == (if ps[i].failed {
                            Option::<usize>::None
                        } else {
                            Option::Some(spec_count_kept(live, i) as usize)
                        })
                    &&& final(self).particles@.len() == spec_count_kept(live, n)
                    &&& final(self).transfer_cache@.len() == spec_count_kept(live, n)
                    &&& forall|i: int|
                        0 <= i < n && !ps[i].failed ==> final(self).particles@[spec_count_kept(
                            live,
                            i,
                        )] == ps[i] && final(self).transfer_cache@[spec_count_kept(
                            live,
                            i,
                        )].entries@ == old(self).transfer_cache@[i].entries@
                    &&& final(self).spec_index_invalidated()
                }
            }),
    {
        let ghost live = spec_live_flags(old(self).particles@);
        let n = self.particles.len();
        let mut any_failed = false;
        let mut i: usize = 0;
        while i < n
            invariant
                0 <= i <= n,
                n == self.particles@.len(),
                *self == *old(self),
                any_failed == exists|j: int| 0 <= j < i as int && old(self).particles@[j].failed,
            decreases n - i,
        {
            if self.particles[i].failed {
                any_failed = true;
            }
            i = i + 1;
        }
        if !any_failed {
            proof {
                lemma_all_live_count(old(self).particles@, n as int);
            }
            return Vec::new();
        }
        proof {
            lemma_some_failed_count(old(self).particles@, n as int);
        }

        let mut mapping: Vec<Option<usize>> = Vec::new();
        let mut survivors: Vec<Particle> = Vec::new();
        let mut cache_survivors: Vec<ParticleTransferCache> = Vec::new();
        let mut j: usize = 0;
        while j < n
            invariant
                0 <= j <= n,
                n == self.particles@.len(),
                *self == *old(self),
                old(self).wf(),
                old(self).transfer_cache@.len() == old(self).particles@.len(),
                live == spec_live_flags(old(self).particles@),
                mapping@.len() == j as int,
                survivors@.len() == spec_count_kept(live, j as int),
                cache_survivors@.len() == survivors@.len(),
                forall|p: int| 0 <= p < survivors@.len() ==> (#[trigger] survivors@[p]).wf(),
                forall|i2: int|
                    0 <= i2 < j as int ==> mapping@[i2] == (if old(self).particles@[i2].failed {
                        Option::<usize>::None
                    } else {
                        Option::Some(spec_count_kept(live, i2) as usize)
                    }),
                forall|i2: int|
                    0 <= i2 < j as int && !old(self).particles@[i2].failed
                        ==> survivors@[spec_count_kept(live, i2)] == old(self).particles@[i2]
                        && cache_survivors@[spec_count_kept(live, i2)].entries@ == old(
                        self,
                    ).transfer_cache@[i2].entries@,
            decreases n - j,
        {
            proof {
                crate::compact::lemma_count_kept_bounds(live, j as int);
            }
            if !self.particles[j].failed {
                let p = self.particles[j];
                let c = self.transfer_cache[j].clone();
                proof {
                    assert(live[j as int]);
                }
                mapping.push(Some(survivors.len()));
                survivors.push(p);
                cache_survivors.push(c);
                proof {
                    assert forall|i2: int|
                        0 <= i2 < j as int + 1 && !old(self).particles@[i2].failed
                            implies survivors@[spec_count_kept(live, i2)] == old(
                        self,
                    ).particles@[i2] && cache_survivors@[spec_count_kept(live, i2)].entries@
                        == old(self).transfer_cache@[i2].entries@ by {
                        if i2 < j as int {
                            crate::compact::lemma_count_kept_injective(live, i2, j as int);
                            crate::compact::lemma_count_kept_bounds(live, i2);
                        }
                    }
                }
            } else {
                mapping.push(Option::None);
            }
            j = j + 1;
        }
        self.particles = survivors;
        self.transfer_cache = cache_survivors;
        self.invalidate_spatial_index();
        mapping
    }
}

/// Colour safety of the parallel scatter: two particles whose sort cells
/// (at unit cell width) share a checkerboard colour but lie in distinct
/// blocks can never write a common grid node — every pair drawn from
/// their two cached stencils lands on distinct cells. This is what
/// licenses scattering same-colour bins of different blocks concurrently
/// without locks. (Two same-colour particles of the *same* block — for
/// example two particles in one cell — do conflict, and must stay in the
/// same scheduling unit.)
pub proof fn lemma_scatter_colour_safety(p1: Particle, p2: Particle, w: Fx)
    requires
        p1.wf(),
        p2.wf(),
        w@ == crate::fixed::FX_ONE as int,
        spec_rebuild_safe(p1, w),
        spec_rebuild_safe(p2, w),
        crate::coords::spec_colour(spec_rebuild_cx(p1, w), spec_rebuild_cy(p1, w))
            == crate::coords::spec_colour(spec_rebuild_cx(p2, w), spec_rebuild_cy(p2, w)),
        (
            crate::coords::spec_block(spec_rebuild_cx(p1, w)),
            crate::coords::spec_block(spec_rebuild_cy(p1, w)),
        ) != (
            crate::coords::spec_block(spec_rebuild_cx(p2, w)),
            crate::coords::spec_block(spec_rebuild_cy(p2, w)),
        ),
    ensures
        forall|i: int, j: int|
            #![trigger spec_transfer_cache(p1.position.x@, p1.position.y@)[i],
                spec_transfer_cache(p2.position.x@, p2.position.y@)[j]]
            0 <= i < 9 && 0 <= j < 9 ==> {
                let e1 = spec_transfer_cache(p1.position.x@, p1.position.y@)[i];
                let e2 = spec_transfer_cache(p2.position.x@, p2.position.y@)[j];
                (e1.cx, e1.cy) != (e2.cx, e2.cy)
            },
{
    crate::kernel::lemma_unit_cell_is_round(p1.position.x@);
    crate::kernel::lemma_unit_cell_is_round(p1.position.y@);
    crate::kernel::lemma_unit_cell_is_round(p2.position.x@);
    crate::kernel::lemma_unit_cell_is_round(p2.position.y@);
    crate::kernel::lemma_colour_scatter_safety(
        p1.position.x@,
        p1.position.y@,
        p2.position.x@,
        p2.position.y@,
    );
    assert forall|i: int, j: int|
        #![trigger spec_transfer_cache(p1.position.x@, p1.position.y@)[i],
            spec_transfer_cache(p2.position.x@, p2.position.y@)[j]]
        0 <= i < 9 && 0 <= j < 9 implies {
        let e1 = spec_transfer_cache(p1.position.x@, p1.position.y@)[i];
        let e2 = spec_transfer_cache(p2.position.x@, p2.position.y@)[j];
        (e1.cx, e1.cy) != (e2.cx, e2.cy)
    } by {
        let e1 = spec_transfer_cache(p1.position.x@, p1.position.y@)[i];
        let e2 = spec_transfer_cache(p2.position.x@, p2.position.y@)[j];
        assert((spec_base(p1.position.x@) + i % 3, spec_base(p1.position.y@) + i / 3) != (
            spec_base(p2.position.x@) + j % 3,
            spec_base(p2.position.y@) + j / 3,
        ));
        assert(e1.cx as int == spec_base(p1.position.x@) + i % 3);
        assert(e1.cy as int == spec_base(p1.position.y@) + i / 3);
        assert(e2.cx as int == spec_base(p2.position.x@) + j % 3);
        assert(e2.cy as int == spec_base(p2.position.y@) + j / 3);
    }
}

/// A single rebuild pass is a fixpoint: rebuilding an already-rebuilt
/// particle changes nothing, because the assigned key and the absorbed
/// failure flag depend only on the position, which the rebuild never
/// touches.
pub proof fn lemma_rebuilt_fixpoint(p: Particle, w: Fx)
    ensures
        spec_rebuilt_particle(spec_rebuilt_particle(p, w), w) == spec_rebuilt_particle(p, w),
{
}

/// Idempotent rebuild: with no particle mutation in between, a second
/// rebuild leaves the particle array unchanged, and therefore derives the
/// identical sort order, cell-range table and colour-coded bins.
pub proof fn lemma_rebuild_idempotent(ps: Seq<Particle>, w: Fx)
    ensures
        spec_rebuilt_particles(spec_rebuilt_particles(ps, w), w) == spec_rebuilt_particles(
            ps,
            w,
        ),
        spec_live_order(
            spec_keys_of(spec_rebuilt_particles(spec_rebuilt_particles(ps, w), w)),
            spec_failed_of(spec_rebuilt_particles(spec_rebuilt_particles(ps, w), w)),
            ps.len() as int,
        ) == spec_live_order(
            spec_keys_of(spec_rebuilt_particles(ps, w)),
            spec_failed_of(spec_rebuilt_particles(ps, w)),
            ps.len() as int,
        ),
{
    let r1 = spec_rebuilt_particles(ps, w);
    let r2 = spec_rebuilt_particles(r1, w);
    assert forall|i: int| 0 <= i < ps.len() implies r2[i] == r1[i] by {
        lemma_rebuilt_fixpoint(ps[i], w);
    }
    assert(r2 =~= r1);
}

impl ParticleSet {
    /// Rebuild the spatial index: assign every particle its packed sort
    /// cell (failing those whose stencil would leave the valid range),
    /// cache the kernel stencils, sort indices by cell key, and derive the
    /// cell-range runs and the colour-coded bins. Every output is a pure
    /// function of the particle array and the cell width.
    pub fn rebuild_bins(&mut self, cell_width: Fx)
        requires
            old(self).wf(),
            cell_width.wf(),
            cell_width@ > 0,
        ensures
            final(self).particles@ == spec_rebuilt_particles(
                old(self).particles@,
                cell_width,
            ),
            final(self).spec_index_fresh(cell_width),
            final(self).wf(),
    {
        let n = self.particles.len();
        self.order = Vec::new();
        self.regions = Vec::new();
        self.particle_bins = Vec::new();
        self.active_cells = Vec::new();
        self.transfer_cache = Vec::new();

        let mut i: usize = 0;
        while i < n
            invariant
                0 <= i <= n,
                n == self.particles@.len(),
                n == old(self).particles@.len(),
                cell_width.wf(),
                cell_width@ > 0,
                old(self).wf(),
                forall|j: int|
                    i as int <= j < n as int ==> self.particles@[j] == old(self).particles@[j],
                forall|j: int|
                    0 <= j < i as int ==> self.particles@[j] == spec_rebuilt_particle(
                        old(self).particles@[j],
                        cell_width,
                    ),
                self.active_cells@.len() == i as int,
                forall|j: int|
                    0 <= j < i as int ==> self.active_cells@[j] == spec_rebuild_key(
                        old(self).particles@[j],
                        cell_width,
                    ),
                self.transfer_cache@.len() == i as int,
                forall|j: int|
                    0 <= j < i as int ==> (#[trigger] self.transfer_cache@[j]).entries@
                        == spec_cache_of(old(self).particles@[j], cell_width),
                self.wf(),
            decreases n - i,
        {
            let p = self.particles[i];
            let ghost po = old(self).particles@[i as int];
            let (cx, cy) = cell_from_position(p.position, cell_width);
            let bx = p.position.x.floor_units();
            let by = p.position.y.floor_units();
            let safe = cx >= 1 && cx <= GRID_RESOLUTION as i64 - 2 && cy >= 1 && cy
                <= GRID_RESOLUTION as i64 - 2 && bx - 1 > -0x8000_0000i64 && bx + 1
                < 0x8000_0000i64 && by - 1 > -0x8000_0000i64 && by + 1 < 0x8000_0000i64;
            proof {
                assert(safe == spec_rebuild_safe(po, cell_width));
            }
            let mut p2 = p;
            if safe {
                let key = pack_coords(cx as i32, cy as i32);
                p2.grid_index = key;
                self.active_cells.push(key);
                let cache = populate_transfer_cache(p.position);
                self.transfer_cache.push(cache);
            } else {
                p2.grid_index = u64::MAX;
                p2.failed = true;
                self.active_cells.push(u64::MAX);
                self.transfer_cache.push(ParticleTransferCache::empty());
            }
            self.particles.set(i, p2);
            proof {
                assert(self.particles@[i as int] == spec_rebuilt_particle(po, cell_width));
            }
            i = i + 1;
        }

        proof {
            assert(self.particles@ =~= spec_rebuilt_particles(old(self).particles@, cell_width));
            assert(self.active_cells@ =~= spec_keys_of(self.particles@));
            lemma_sort_props(self.active_cells@, n as int);
        }
        let ghost keys = spec_keys_of(self.particles@);
        let ghost failedv = spec_failed_of(self.particles@);

        // sort every index by key, then keep the live ones: region ranges
        // and bins index into an order that lists live particles only
        let full_order = sort_indices(&self.active_cells);
        let ghost fullv = full_order@;
        let mut live_order: Vec<usize> = Vec::new();
        let mut q: usize = 0;
        while q < n
            invariant
                0 <= q <= n,
                n == self.particles@.len(),
                fullv == full_order@,
                fullv.len() == n as int,
                failedv == spec_failed_of(self.particles@),
                forall|p: int| 0 <= p < n as int ==> ((#[trigger] fullv[p]) as int) < n as int,
                spec_live_order_walk(failedv, fullv, q as int, live_order@)
                    == spec_live_order_walk(failedv, fullv, 0, Seq::empty()),
                forall|p: int|
                    0 <= p < live_order@.len() ==> ((#[trigger] live_order@[p]) as int)
                        < n as int && !failedv[live_order@[p] as int],
            decreases n - q,
        {
            let idx = full_order[q];
            if !self.particles[idx].failed {
                live_order.push(idx);
            }
            q = q + 1;
        }
        self.order = live_order;
        proof {
            assert(self.order@ == spec_live_order(keys, failedv, n as int));
        }

        let ghost orderv = self.order@;

        let mut regions: Vec<(u64, usize, usize)> = Vec::new();
        let mut bins: Vec<ParticleBin> = Vec::new();
        let mut cur_region: Option<(u64, usize)> = Option::None;
        let mut bin_indices: Vec<usize> = Vec::new();
        let mut bin_cell: u64 = 0;
        let mut has_bin: bool = false;

        proof {
            assert(spec_bins_view(bins@) =~= Seq::<(Seq<usize>, u64, u8)>::empty());
        }
        let on = self.order.len();
        let mut k: usize = 0;
        while k < on
            invariant
                0 <= k <= on,
                n == self.particles@.len(),
                on == self.order@.len(),
                orderv == self.order@,
                keys == spec_keys_of(self.particles@),
                failedv == spec_failed_of(self.particles@),
                forall|p: int| 0 <= p < on as int ==> ((#[trigger] orderv[p]) as int) < n as int,
                forall|j: int|
                    0 <= j < n as int ==> (#[trigger] self.particles@[j]) == spec_rebuilt_particle(
                        old(self).particles@[j],
                        cell_width,
                    ) && old(self).particles@[j].wf(),
                has_bin ==> 0 <= crate::coords::spec_unpack_x(bin_cell)
                    && 0 <= crate::coords::spec_unpack_y(bin_cell),
                spec_region_walk(keys, failedv, orderv, k as int, cur_region, regions@)
                    == spec_region_walk(
                    keys,
                    failedv,
                    orderv,
                    0,
                    Option::None,
                    Seq::empty(),
                ),
                spec_bin_walk(
                    keys,
                    failedv,
                    orderv,
                    k as int,
                    if has_bin {
                        Option::Some((bin_indices@, bin_cell))
                    } else {
                        Option::None
                    },
                    spec_bins_view(bins@),
                ) == spec_bin_walk(keys, failedv, orderv, 0, Option::None, Seq::empty()),
            decreases on - k,
        {
            let pi = self.order[k];
            let pl = self.particles[pi];
            if !pl.failed {
                let cell = pl.grid_index;
                proof {
                    assert(cell == keys[pi as int]);
                    assert(!failedv[pi as int]);
                    // a live particle passed the safety check, so its cell
                    // coordinates are in range and unpack non-negative
                    let po = old(self).particles@[pi as int];
                    assert(spec_rebuild_safe(po, cell_width));
                    crate::coords::lemma_pack_unpack(
                        spec_rebuild_cx(po, cell_width) as i32,
                        spec_rebuild_cy(po, cell_width) as i32,
                    );
                }
                match cur_region {
                    Option::None => {
                        cur_region = Option::Some((cell, k));
                    },
                    Option::Some((c, s)) => {
                        if c != cell {
                            regions.push((c, s, k));
                            cur_region = Option::Some((cell, k));
                        }
                    },
                }
                if has_bin && bin_cell == cell && bin_indices.len() < 4 {
                    bin_indices.push(pi);
                } else {
                    if has_bin {
                        let (ux, uy) = unpack_coords(bin_cell);
                        let colour = colour_of_cell(ux, uy);
                        let ghost prev_bins = bins@;
                        bins.push(ParticleBin { indices: bin_indices, cell: bin_cell, colour });
                        proof {
                            assert(spec_bins_view(bins@) =~= spec_bins_view(prev_bins).push(
                                spec_bin_view(bins@[bins@.len() - 1].indices@, bin_cell),
                            ));
                        }
                        bin_indices = Vec::new();
                    } else {
                        bin_indices = Vec::new();
                    }
                    bin_indices.push(pi);
                    bin_cell = cell;
                    has_bin = true;
                }
            }
            k = k + 1;
        }
        if let Option::Some((c, s)) = cur_region {
            regions.push((c, s, on));
        }
        if has_bin {
            let (ux, uy) = unpack_coords(bin_cell);
            let colour = colour_of_cell(ux, uy);
            let ghost prev_bins = bins@;
            bins.push(ParticleBin { indices: bin_indices, cell: bin_cell, colour });
            proof {
                assert(spec_bins_view(bins@) =~= spec_bins_view(prev_bins).push(
                    spec_bin_view(bins@[bins@.len() - 1].indices@, bin_cell),
                ));
            }
        }
        self.regions = regions;
        self.particle_bins = bins;

        proof {
            assert forall|i2: int| 0 <= i2 < self.particles@.len() implies (
            #[trigger] self.particles@[i2]) == spec_rebuilt_particle(
                self.particles@[i2],
                cell_width,
            ) by {
                lemma_rebuilt_fixpoint(old(self).particles@[i2], cell_width);
            }
        }
    }
}

/// When no particle is failed, the live count equals the length.
proof fn lemma_all_live_count(ps: Seq<Particle>, i: int)
    requires
        0 <= i <= ps.len(),
        forall|j: int| 0 <= j < ps.len() ==> !(#[trigger] ps[j]).failed,
    ensures
        spec_count_kept(spec_live_flags(ps), i) == i,
    decreases i,
{
    if i > 0 {
        lemma_all_live_count(ps, i - 1);
        assert(spec_live_flags(ps)[i - 1]);
    }
}

/// When some particle is failed, the live count falls short of the length.
proof fn lemma_some_failed_count(ps: Seq<Particle>, i: int)
    requires
        0 <= i <= ps.len(),
        exists|j: int| 0 <= j < i && (#[trigger] ps[j]).failed,
    ensures
        spec_count_kept(spec_live_flags(ps), i) < i,
    decreases i,
{
    let j = choose|j: int| 0 <= j < i && (#[trigger] ps[j]).failed;
    if j == i - 1 {
        crate::compact::lemma_count_kept_bounds(spec_live_flags(ps), i - 1);
        assert(!spec_live_flags(ps)[i - 1]);
    } else {
        lemma_some_failed_count(ps, i - 1);
    }
}

/// Transfer caches clone field-for-field.
impl Clone for ParticleTransferCache {
    fn clone(&self) -> (r: Self)
        ensures
            r.entries@ == self.entries@,
    {
        let mut entries: Vec<NeighborEntry> = Vec::new();
        let n = self.entries.len();
        let mut i: usize = 0;
        while i < n
            invariant
                0 <= i <= n,
                n == self.entries@.len(),
                entries@ == self.entries@.subrange(0, i as int),
            decreases n - i,
        {
            entries.push(self.entries[i]);
            proof {
                assert(entries@ =~= self.entries@.subrange(0, i as int + 1));
            }
            i = i + 1;
        }
        proof {
            assert(entries@ =~= self.entries@);
        }
        ParticleTransferCache { entries }
    }
}

} // verus!
