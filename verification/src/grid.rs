//! The sparse background grid.
//!
//! A mapping from packed cell coordinate to a [`GridNode`], stored as a
//! pair of parallel vectors with unique keys so that iteration order is
//! deterministic and every operation has an exact contract over the
//! derived key/node view. Nodes are created lazily on first write-touch,
//! reset cheaply at the start of each step, and reclaimed when their mass
//! falls to zero.
//!
//! Node mass is accumulated in an extended-precision integer (raw scalar
//! units times `WEIGHT_SCALE_SQ`), so the particle-to-grid mass scatter
//! conserves the total exactly.

use vstd::prelude::*;
use crate::fixed::{Fx, fx_clip, tdiv};
use crate::linalg::Vec2;
use crate::coords::{GRID_RESOLUTION, spec_pack, pack_coords};

verus! {

/// Upper bound on a node's extended-precision mass accumulator (`2^122`);
/// the scatter pass keeps every node under it by budgeting the total.
pub const NODE_MASS_LIMIT: i128 = 0x400_0000_0000_0000_0000_0000_0000_0000;

/// One grid cell: mass and momentum accumulated by the scatter pass, the
/// velocity derived from them, two auxiliary phase accumulators for
/// optional secondary fields, and the active/boundary flags.
///
/// Until the grid-velocity integration has run, `momentum` is
/// authoritative and `velocity` holds no meaning.
#[derive(Clone, Copy, PartialEq, Eq, Structural, Debug)]
pub struct GridNode {
    /// Mass, in raw scalar units scaled by `WEIGHT_SCALE_SQ` (`2^70`).
    pub mass: i128,
    /// Momentum accumulated by the scatter pass.
    pub momentum: Vec2,
    /// Velocity; valid only after grid-velocity integration.
    pub velocity: Vec2,
    /// Auxiliary phase momentum accumulator.
    pub psi_momentum: Fx,
    /// Auxiliary phase mass accumulator.
    pub psi_mass: Fx,
    /// Whether the node was write-touched this step.
    pub active: bool,
    /// Whether the node was flagged as boundary.
    pub boundary: bool,
}

impl GridNode {
    /// The all-zero, inactive node every cell starts from.
    pub open spec fn spec_default() -> GridNode {
        GridNode {
            mass: 0,
            momentum: Vec2 { x: Fx { raw: 0 }, y: Fx { raw: 0 } },
            velocity: Vec2 { x: Fx { raw: 0 }, y: Fx { raw: 0 } },
            psi_momentum: Fx { raw: 0 },
            psi_mass: Fx { raw: 0 },
            active: false,
            boundary: false,
        }
    }

    /// Scalar fields in range and the mass accumulator inside its budget.
    pub open spec fn wf(self) -> bool {
        &&& 0 <= self.mass <= NODE_MASS_LIMIT
        &&& self.momentum.wf()
        &&& self.velocity.wf()
        &&& self.psi_momentum.wf()
        &&& self.psi_mass.wf()
    }

    /// Reset this node to the default.
    pub fn reset(&mut self)
        ensures
            *final(self) == GridNode::spec_default(),
    {
        *self = GridNode::default();
    }

    /// Set the write-touched flag.
    pub fn set_active(&mut self, active: bool)
        ensures
            *final(self) == (GridNode { active, ..*old(self) }),
    {
        self.active = active;
    }

    /// Whether the node was write-touched this step.
    pub fn active(&self) -> (r: bool)
        ensures
            r == self.active,
    {
        self.active
    }

    /// Whether the node was flagged as boundary.
    pub fn boundary(&self) -> (r: bool)
        ensures
            r == self.boundary,
    {
        self.boundary
    }

    /// Set the boundary flag.
    pub fn set_boundary(&mut self, boundary: bool)
        ensures
            *final(self) == (GridNode { boundary, ..*old(self) }),
    {
        self.boundary = boundary;
    }

    /// The node's mass as an ordinary scalar (rounded down from the
    /// extended-precision accumulator).
    pub fn mass_fx(&self) -> (r: Fx)
        requires
            self.wf(),
        ensures
            r@ == fx_clip(tdiv(self.mass as int, 0x40_0000_0000_0000_0000)),
            r@ >= 0,
            r.wf(),
    {
        let q = crate::fixed::tdiv_i128_by(self.mass, 0x40_0000_0000_0000_0000u128);
        Fx { raw: crate::fixed::clamp_i128(q) }
    }
}

impl Default for GridNode {
    /// The default node: everything zero, inactive, not boundary.
    fn default() -> (r: GridNode)
        ensures
            r == GridNode::spec_default(),
    {
        GridNode {
            mass: 0,
            momentum: Vec2 { x: Fx { raw: 0 }, y: Fx { raw: 0 } },
            velocity: Vec2 { x: Fx { raw: 0 }, y: Fx { raw: 0 } },
            psi_momentum: Fx { raw: 0 },
            psi_mass: Fx { raw: 0 },
            active: false,
            boundary: false,
        }
    }
}

/// Index of the first occurrence of `k` in `keys`, or `-1` when absent.
pub open spec fn spec_find(keys: Seq<u64>, k: u64) -> int
    decreases keys.len(),
{
    if keys.len() == 0 {
        -1
    } else if keys[0] == k {
        0
    } else {
        let r = spec_find(keys.drop_first(), k);
        if r < 0 {
            -1
        } else {
            r + 1
        }
    }
}

/// Basic facts about `spec_find`: a non-negative result indexes an
/// occurrence of the key, and `-1` means the key does not occur.
pub proof fn lemma_find_props(keys: Seq<u64>, k: u64)
    ensures
        spec_find(keys, k) >= 0 ==> spec_find(keys, k) < keys.len() && keys[spec_find(keys, k)]
            == k,
        spec_find(keys, k) == -1 ==> !keys.contains(k),
        spec_find(keys, k) >= -1,
    decreases keys.len(),
{
    if keys.len() == 0 {
    } else if keys[0] == k {
    } else {
        lemma_find_props(keys.drop_first(), k);
        if spec_find(keys, k) == -1 {
            assert(!keys.drop_first().contains(k));
            if keys.contains(k) {
                let i = choose|i: int| 0 <= i < keys.len() && keys[i] == k;
                assert(i != 0);
                assert(keys.drop_first()[i - 1] == k);
                assert(keys.drop_first().contains(k));
            }
        }
    }
}

/// `spec_find` returns exactly the first occurrence.
pub proof fn lemma_find_first(keys: Seq<u64>, k: u64, i: int)
    requires
        0 <= i < keys.len(),
        keys[i] == k,
        forall|j: int| 0 <= j < i ==> keys[j] != k,
    ensures
        spec_find(keys, k) == i,
    decreases keys.len(),
{
    if i == 0 {
    } else {
        assert(keys[0] != k);
        assert(keys.drop_first()[i - 1] == k);
        assert forall|j: int| 0 <= j < i - 1 implies keys.drop_first()[j] != k by {
            assert(keys.drop_first()[j] == keys[j + 1]);
        }
        lemma_find_first(keys.drop_first(), k, i - 1);
    }
}

/// Appending a fresh key leaves other lookups alone and makes the new key
/// found at the end.
pub proof fn lemma_find_push(keys: Seq<u64>, k: u64, k2: u64)
    ensures
        k == k2 && spec_find(keys, k) == -1 ==> spec_find(keys.push(k2), k) == keys.len(),
        k != k2 && spec_find(keys, k) == -1 ==> spec_find(keys.push(k2), k) == -1,
        spec_find(keys, k) >= 0 ==> spec_find(keys.push(k2), k) == spec_find(keys, k),
    decreases keys.len(),
{
    lemma_find_props(keys, k);
    if keys.len() == 0 {
        assert(keys.push(k2)[0] == k2);
        if k == k2 {
            lemma_find_first(keys.push(k2), k, 0);
        } else {
            lemma_find_props(keys.push(k2), k);
            if spec_find(keys.push(k2), k) >= 0 {
                assert(keys.push(k2)[spec_find(keys.push(k2), k)] == k);
            }
        }
    } else {
        assert(keys.push(k2).drop_first() =~= keys.drop_first().push(k2));
        lemma_find_push(keys.drop_first(), k, k2);
        assert(keys.push(k2)[0] == keys[0]);
    }
}

/// Sum of the extended-precision masses of a node sequence.
pub open spec fn spec_total_mass(nodes: Seq<GridNode>) -> int
    decreases nodes.len(),
{
    if nodes.len() == 0 {
        0
    } else {
        spec_total_mass(nodes.drop_last()) + nodes.last().mass as int
    }
}

/// Appending a node adds its mass to the total.
pub proof fn lemma_total_mass_push(nodes: Seq<GridNode>, n: GridNode)
    ensures
        spec_total_mass(nodes.push(n)) == spec_total_mass(nodes) + n.mass as int,
{
    assert(nodes.push(n).drop_last() =~= nodes);
}

/// Replacing one node shifts the total by the difference of the masses.
pub proof fn lemma_total_mass_update(nodes: Seq<GridNode>, i: int, n: GridNode)
    requires
        0 <= i < nodes.len(),
    ensures
        spec_total_mass(nodes.update(i, n)) == spec_total_mass(nodes) - nodes[i].mass as int
            + n.mass as int,
    decreases nodes.len(),
{
    let upd = nodes.update(i, n);
    if i == nodes.len() - 1 {
        assert(upd.drop_last() =~= nodes.drop_last());
        assert(upd.last() == n);
    } else {
        assert(upd.drop_last() =~= nodes.drop_last().update(i, n));
        assert(upd.last() == nodes.last());
        lemma_total_mass_update(nodes.drop_last(), i, n);
    }
}

/// A grid of all-zero masses has zero total mass.
pub proof fn lemma_total_mass_all_zero(nodes: Seq<GridNode>)
    requires
        forall|i: int| 0 <= i < nodes.len() ==> (#[trigger] nodes[i]).mass == 0,
    ensures
        spec_total_mass(nodes) == 0,
    decreases nodes.len(),
{
    if nodes.len() > 0 {
        assert forall|i: int| 0 <= i < nodes.drop_last().len() implies (
        #[trigger] nodes.drop_last()[i]).mass == 0 by {
            assert(nodes.drop_last()[i] == nodes[i]);
        }
        lemma_total_mass_all_zero(nodes.drop_last());
    }
}

/// Two node sequences with the same masses have the same total mass.
pub proof fn lemma_total_mass_pointwise(a: Seq<GridNode>, b: Seq<GridNode>)
    requires
        a.len() == b.len(),
        forall|i: int| 0 <= i < a.len() ==> (#[trigger] a[i]).mass == b[i].mass,
    ensures
        spec_total_mass(a) == spec_total_mass(b),
    decreases a.len(),
{
    if a.len() > 0 {
        assert forall|i: int| 0 <= i < a.drop_last().len() implies (
        #[trigger] a.drop_last()[i]).mass == b.drop_last()[i].mass by {
            assert(a.drop_last()[i] == a[i] && b.drop_last()[i] == b[i]);
        }
        lemma_total_mass_pointwise(a.drop_last(), b.drop_last());
        assert(a.last().mass == b.last().mass) by {
            assert(a[a.len() - 1].mass == b[a.len() - 1].mass);
        }
    }
}

/// When every node's mass is non-negative, the total is non-negative and
/// bounds each individual node.
pub proof fn lemma_total_mass_bounds(nodes: Seq<GridNode>)
    requires
        forall|i: int| 0 <= i < nodes.len() ==> (#[trigger] nodes[i]).mass >= 0,
    ensures
        spec_total_mass(nodes) >= 0,
        forall|i: int|
            0 <= i < nodes.len() ==> (#[trigger] nodes[i]).mass as int <= spec_total_mass(nodes),
    decreases nodes.len(),
{
    if nodes.len() > 0 {
        assert forall|i: int| 0 <= i < nodes.drop_last().len() implies (#[trigger] nodes.drop_last()[i]).mass
            >= 0 by {
            assert(nodes.drop_last()[i] == nodes[i]);
        }
        lemma_total_mass_bounds(nodes.drop_last());
        assert forall|i: int| 0 <= i < nodes.len() implies (#[trigger] nodes[i]).mass as int
            <= spec_total_mass(nodes) by {
            if i < nodes.len() - 1 {
                assert(nodes.drop_last()[i] == nodes[i]);
            }
        }
    }
}

/// The sparse grid: parallel key and node vectors with unique keys.
#[derive(Clone, Debug)]
pub struct Grid {
    /// The configured cell width (positive).
    pub cell_width: Fx,
    /// Packed keys of the allocated cells, in iteration order, unique.
    pub keys: Vec<u64>,
    /// Allocated nodes, parallel to `keys`.
    pub nodes: Vec<GridNode>,
}

impl Grid {
    /// The packed keys of the allocated cells, in iteration order.
    pub open spec fn spec_keys(self) -> Seq<u64> {
        self.keys@
    }

    /// The allocated nodes, parallel to `spec_keys`.
    pub open spec fn spec_nodes(self) -> Seq<GridNode> {
        self.nodes@
    }

    /// The configured cell width.
    pub open spec fn spec_cell_width(self) -> Fx {
        self.cell_width
    }

    /// The node stored under a key, if any.
    pub open spec fn spec_get(self, k: u64) -> Option<GridNode> {
        if spec_find(self.keys@, k) >= 0 {
            Some(self.nodes@[spec_find(self.keys@, k)])
        } else {
            None
        }
    }

    /// Structural well-formedness: equal lengths, unique keys, a positive
    /// cell width, and well-formed nodes.
    pub open spec fn wf(self) -> bool {
        &&& self.keys@.len() == self.nodes@.len()
        &&& forall|i: int, j: int|
            0 <= i < j < self.keys@.len() ==> self.keys@[i] != self.keys@[j]
        &&& forall|i: int| 0 <= i < self.nodes@.len() ==> (#[trigger] self.nodes@[i]).wf()
        &&& self.cell_width.wf()
        &&& self.cell_width@ > 0
    }

    /// An empty grid with unit cell width.
    pub fn new() -> (r: Grid)
        ensures
            r.spec_keys().len() == 0,
            r.spec_cell_width()@ == crate::fixed::FX_ONE as int,
            r.wf(),
    {
        Grid { cell_width: Fx::one(), keys: Vec::new(), nodes: Vec::new() }
    }

    /// An empty grid with the given cell width.
    pub fn with_cell_width(cell_width: Fx) -> (r: Grid)
        requires
            cell_width.wf(),
            cell_width@ > 0,
        ensures
            r.spec_keys().len() == 0,
            r.spec_cell_width() == cell_width,
            r.wf(),
    {
        Grid { cell_width, keys: Vec::new(), nodes: Vec::new() }
    }

    /// The configured cell width.
    pub fn cell_width(&self) -> (r: Fx)
        ensures
            r == self.spec_cell_width(),
    {
        self.cell_width
    }

    /// Number of currently allocated cells.
    pub fn active_cell_count(&self) -> (r: usize)
        ensures
            r as int == self.spec_keys().len(),
    {
        self.keys.len()
    }

    /// Whether no cell is allocated.
    pub fn is_empty(&self) -> (r: bool)
        ensures
            r == (self.spec_keys().len() == 0),
    {
        self.keys.len() == 0
    }

    /// Drop every allocated cell.
    pub fn clear(&mut self)
        requires
            old(self).wf(),
        ensures
            final(self).spec_keys().len() == 0,
            final(self).spec_nodes().len() == 0,
            final(self).spec_cell_width() == old(self).spec_cell_width(),
            final(self).wf(),
    {
        self.keys.clear();
        self.nodes.clear();
    }

    /// The key of the allocated cell at iteration position `i`.
    pub fn key_at(&self, i: usize) -> (r: u64)
        requires
            i < self.spec_keys().len(),
        ensures
            r == self.spec_keys()[i as int],
    {
        self.keys[i]
    }

    /// The node at iteration position `i`.
    pub fn node_at(&self, i: usize) -> (r: GridNode)
        requires
            i < self.spec_nodes().len(),
        ensures
            r == self.spec_nodes()[i as int],
    {
        self.nodes[i]
    }

    /// Replace the node at iteration position `i`.
    pub fn set_node(&mut self, i: usize, n: GridNode)
        requires
            old(self).wf(),
            i < old(self).spec_nodes().len(),
            n.wf(),
        ensures
            final(self).spec_nodes() == old(self).spec_nodes().update(i as int, n),
            final(self).spec_nodes().len() == old(self).spec_nodes().len(),
            final(self).spec_nodes()[i as int] == n,
            forall|j: int|
                0 <= j < old(self).spec_nodes().len() && j != i as int
                    ==> final(self).spec_nodes()[j] == old(self).spec_nodes()[j],
            final(self).spec_keys() == old(self).spec_keys(),
            final(self).spec_cell_width() == old(self).spec_cell_width(),
            final(self).wf(),
    {
        self.nodes.set(i, n);
    }

    /// Find the iteration position of a packed key, if allocated.
    pub fn cell_index(&self, id: u64) -> (r: Option<usize>)
        requires
            self.wf(),
        ensures
            match r {
                Some(i) => i < self.spec_keys().len() && self.spec_keys()[i as int] == id
                    && spec_find(self.spec_keys(), id) == i as int,
                None => spec_find(self.spec_keys(), id) == -1,
            },
    {
        let n = self.keys.len();
        let mut i: usize = 0;
        while i < n
            invariant
                0 <= i <= n,
                n == self.keys@.len(),
                forall|j: int| 0 <= j < i as int ==> self.keys@[j] != id,
            decreases n - i,
        {
            if self.keys[i] == id {
                proof {
                    lemma_find_first(self.keys@, id, i as int);
                }
                return Some(i);
            }
            i = i + 1;
        }
        proof {
            lemma_find_props(self.keys@, id);
            if spec_find(self.keys@, id) >= 0 {
                assert(self.keys@.contains(id));
                assert(false);
            }
        }
        None
    }

    /// Find the iteration position of a packed key, allocating a default
    /// node for it when absent; either way the answering node is marked
    /// active (write-touched this step).
    pub fn ensure_cell_index(&mut self, id: u64) -> (r: usize)
        requires
            old(self).wf(),
        ensures
            r < final(self).spec_keys().len(),
            final(self).spec_keys()[r as int] == id,
            spec_find(final(self).spec_keys(), id) == r as int,
            final(self).spec_cell_width() == old(self).spec_cell_width(),
            final(self).wf(),
            final(self).spec_nodes()[r as int].active,
            old(self).spec_nodes().len() <= final(self).spec_nodes().len(),
            final(self).spec_nodes().len() <= old(self).spec_nodes().len() + 1,
            forall|j: int|
                0 <= j < old(self).spec_nodes().len() && j != r as int
                    ==> final(self).spec_nodes()[j] == old(self).spec_nodes()[j],
            forall|j: int|
                old(self).spec_nodes().len() <= j < final(self).spec_nodes().len()
                    ==> final(self).spec_nodes()[j] == (GridNode {
                    active: true,
                    ..GridNode::spec_default()
                }),
            forall|j: int|
                0 <= j < old(self).spec_keys().len() ==> final(self).spec_keys()[j]
                    == old(self).spec_keys()[j],
            if spec_find(old(self).spec_keys(), id) >= 0 {
                final(self).spec_keys() == old(self).spec_keys() && final(self).spec_nodes()
                    == old(self).spec_nodes().update(
                    r as int,
                    GridNode { active: true, ..old(self).spec_nodes()[r as int] },
                ) && r as int == spec_find(old(self).spec_keys(), id)
            } else {
                final(self).spec_keys() == old(self).spec_keys().push(id)
                    && final(self).spec_nodes() == old(self).spec_nodes().push(
                    GridNode { active: true, ..GridNode::spec_default() },
                ) && r as int == old(self).spec_keys().len()
            },
    {
        match self.cell_index(id) {
            Some(i) => {
                let mut node = self.nodes[i];
                node.active = true;
                self.nodes.set(i, node);
                i
            },
            Option::None => {
                let i = self.keys.len();
                let mut node = GridNode::default();
                node.active = true;
                self.keys.push(id);
                self.nodes.push(node);
                proof {
                    lemma_find_push(self.keys@.drop_last(), id, id);
                    assert(self.keys@.drop_last() =~= old(self).keys@);
                    assert(self.keys@ =~= old(self).keys@.push(id));
                    lemma_find_props(old(self).keys@, id);
                    assert forall|a: int, b: int| 0 <= a < b < self.keys@.len() implies self.keys@[a]
                        != self.keys@[b] by {
                        if b == self.keys@.len() - 1 {
                            assert(self.keys@[a] == old(self).keys@[a]);
                            if self.keys@[a] == id {
                                assert(old(self).keys@.contains(id));
                            }
                        }
                    }
                }
                i
            },
        }
    }

    /// Read-only lookup of the node under a packed key.
    pub fn get_packed(&self, id: u64) -> (r: Option<GridNode>)
        requires
            self.wf(),
        ensures
            r == self.spec_get(id),
    {
        match self.cell_index(id) {
            Some(i) => Some(self.nodes[i]),
            Option::None => Option::None,
        }
    }

    /// Read-only lookup of the node at an unpacked coordinate; coordinates
    /// outside any allocated cell simply return nothing.
    pub fn get_cell_coord(&self, ix: i32, iy: i32) -> (r: Option<GridNode>)
        requires
            self.wf(),
        ensures
            r == self.spec_get(spec_pack(ix, iy)),
    {
        self.get_packed(pack_coords(ix, iy))
    }

    /// Reset every allocated node to the default without deallocating:
    /// the cheap start-of-step clear.
    pub fn zero_active_cells(&mut self)
        requires
            old(self).wf(),
        ensures
            final(self).spec_keys() == old(self).spec_keys(),
            final(self).spec_nodes().len() == old(self).spec_nodes().len(),
            forall|i: int|
                0 <= i < final(self).spec_nodes().len() ==> final(self).spec_nodes()[i]
                    == GridNode::spec_default(),
            final(self).spec_cell_width() == old(self).spec_cell_width(),
            final(self).wf(),
    {
        let n = self.nodes.len();
        let mut i: usize = 0;
        while i < n
            invariant
                0 <= i <= n,
                n == self.nodes@.len(),
                self.keys@ == old(self).keys@,
                self.cell_width == old(self).cell_width,
                old(self).wf(),
                self.nodes@.len() == old(self).nodes@.len(),
                forall|j: int| 0 <= j < i as int ==> self.nodes@[j] == GridNode::spec_default(),
                forall|j: int|
                    i as int <= j < n as int ==> self.nodes@[j] == old(self).nodes@[j],
            decreases n - i,
        {
            self.nodes.set(i, GridNode::default());
            i = i + 1;
        }
    }
}

/// The keep flag of every allocated cell: only positive mass survives the
/// reclaim.
pub open spec fn spec_keep_flags(nodes: Seq<GridNode>) -> Seq<bool> {
    Seq::new(nodes.len(), |i: int| nodes[i].mass > 0)
}

/// The cells a compaction leaves behind, walked from position `i` with
/// the survivors collected so far: a cell survives exactly when its mass
/// is positive, keeping its relative order with its active flag demoted.
pub open spec fn spec_compact_walk(
    keys: Seq<u64>,
    nodes: Seq<GridNode>,
    i: int,
    acc_keys: Seq<u64>,
    acc_nodes: Seq<GridNode>,
) -> (Seq<u64>, Seq<GridNode>)
    decreases nodes.len() - i,
{
    if i < 0 || i >= nodes.len() {
        (acc_keys, acc_nodes)
    } else if nodes[i].mass > 0 {
        spec_compact_walk(
            keys,
            nodes,
            i + 1,
            acc_keys.push(keys[i]),
            acc_nodes.push(GridNode { active: false, ..nodes[i] }),
        )
    } else {
        spec_compact_walk(keys, nodes, i + 1, acc_keys, acc_nodes)
    }
}

/// New index `p` of a compacted key sequence is sourced from some kept old
/// index whose prefix count equals `p`.
pub open spec fn spec_compact_source(
    new_keys: Seq<u64>,
    okeys: Seq<u64>,
    flags: Seq<bool>,
    p: int,
) -> bool {
    exists|j: int|
        0 <= j < okeys.len() && flags[j] && #[trigger] crate::compact::spec_count_kept(flags, j)
            == p && new_keys[p] == okeys[j]
}

impl Grid {
    /// Reclaim nodes whose mass dropped to zero, demoting every survivor's
    /// active flag; survivors keep their relative order, each moving to
    /// the new index given by the count of survivors before it.
    pub fn cleanup_empty_cells(&mut self)
        requires
            old(self).wf(),
        ensures
            final(self).wf(),
            final(self).spec_cell_width() == old(self).spec_cell_width(),
            final(self).spec_keys() == spec_compact_walk(
                old(self).spec_keys(),
                old(self).spec_nodes(),
                0,
                Seq::empty(),
                Seq::empty(),
            ).0,
            final(self).spec_nodes() == spec_compact_walk(
                old(self).spec_keys(),
                old(self).spec_nodes(),
                0,
                Seq::empty(),
                Seq::empty(),
            ).1,
            final(self).spec_keys().len() == crate::compact::spec_count_kept(
                spec_keep_flags(old(self).spec_nodes()),
                old(self).spec_nodes().len() as int,
            ),
            forall|i: int|
                0 <= i < old(self).spec_nodes().len() && (#[trigger] old(self).spec_nodes()[i]).mass
                    > 0 ==> {
                    let p = crate::compact::spec_count_kept(
                        spec_keep_flags(old(self).spec_nodes()),
                        i,
                    );
                    final(self).spec_keys()[p] == old(self).spec_keys()[i]
                        && final(self).spec_nodes()[p] == (GridNode {
                        active: false,
                        ..old(self).spec_nodes()[i]
                    })
                },
    {
        let ghost flags = spec_keep_flags(old(self).spec_nodes());
        let n = self.keys.len();
        let mut new_keys: Vec<u64> = Vec::new();
        let mut new_nodes: Vec<GridNode> = Vec::new();
        let mut i: usize = 0;
        while i < n
            invariant
                0 <= i <= n,
                n == self.keys@.len(),
                *self == *old(self),
                old(self).wf(),
                flags == spec_keep_flags(old(self).spec_nodes()),
                new_keys@.len() == crate::compact::spec_count_kept(flags, i as int),
                new_nodes@.len() == new_keys@.len(),
                spec_compact_walk(
                    old(self).spec_keys(),
                    old(self).spec_nodes(),
                    i as int,
                    new_keys@,
                    new_nodes@,
                ) == spec_compact_walk(
                    old(self).spec_keys(),
                    old(self).spec_nodes(),
                    0,
                    Seq::empty(),
                    Seq::empty(),
                ),
                forall|j: int|
                    0 <= j < i as int && (#[trigger] old(self).spec_nodes()[j]).mass > 0 ==> {
                        let p = crate::compact::spec_count_kept(flags, j);
                        new_keys@[p] == old(self).spec_keys()[j] && new_nodes@[p] == (GridNode {
                            active: false,
                            ..old(self).spec_nodes()[j]
                        })
                    },
                forall|p: int|
                    0 <= p < new_keys@.len() ==> #[trigger] spec_compact_source(
                        new_keys@,
                        old(self).spec_keys(),
                        flags,
                        p,
                    ),
                forall|a: int, b: int|
                    0 <= a < b < new_keys@.len() ==> new_keys@[a] != new_keys@[b],
                forall|p: int| 0 <= p < new_nodes@.len() ==> (#[trigger] new_nodes@[p]).wf(),
            decreases n - i,
        {
            proof {
                crate::compact::lemma_count_kept_bounds(flags, i as int);
            }
            if self.nodes[i].mass > 0 {
                let k = self.keys[i];
                let mut node = self.nodes[i];
                node.active = false;
                let ghost prev_keys = new_keys@;
                let ghost prev_nodes = new_nodes@;
                new_keys.push(k);
                new_nodes.push(node);
                proof {
                    let okeys = old(self).spec_keys();
                    let onodes = old(self).spec_nodes();
                    let p_new = prev_keys.len() as int;
                    assert(flags[i as int]);
                    assert forall|a: int| 0 <= a < p_new implies prev_keys[a] != k by {
                        assert(spec_compact_source(prev_keys, okeys, flags, a));
                        let j = choose|j: int|
                            0 <= j < okeys.len() && flags[j]
                                && #[trigger] crate::compact::spec_count_kept(flags, j) == a
                                && prev_keys[a] == okeys[j];
                        if j >= i as int {
                            crate::compact::lemma_count_kept_monotone(flags, i as int, j);
                        }
                        assert(okeys[j] != okeys[i as int]);
                    }
                    assert forall|j: int|
                        0 <= j < i as int + 1 && (#[trigger] onodes[j]).mass > 0 implies {
                        let p = crate::compact::spec_count_kept(flags, j);
                        new_keys@[p] == okeys[j] && new_nodes@[p] == (GridNode {
                            active: false,
                            ..onodes[j]
                        })
                    } by {
                        if j < i as int {
                            crate::compact::lemma_count_kept_injective(flags, j, i as int);
                            crate::compact::lemma_count_kept_bounds(flags, j);
                        } else {
                            assert(crate::compact::spec_count_kept(flags, i as int) == p_new);
                        }
                    }
                    assert forall|p: int| 0 <= p < new_keys@.len() implies #[trigger] spec_compact_source(
                        new_keys@,
                        okeys,
                        flags,
                        p,
                    ) by {
                        if p < p_new {
                            assert(spec_compact_source(prev_keys, okeys, flags, p));
                            let j = choose|j: int|
                                0 <= j < okeys.len() && flags[j]
                                    && #[trigger] crate::compact::spec_count_kept(flags, j) == p
                                    && prev_keys[p] == okeys[j];
                            assert(new_keys@[p] == prev_keys[p]);
                            assert(crate::compact::spec_count_kept(flags, j) == p && new_keys@[p]
                                == okeys[j]);
                        } else {
                            assert(crate::compact::spec_count_kept(flags, i as int) == p
                                && new_keys@[p] == okeys[i as int]);
                        }
                    }
                }
            }
            i = i + 1;
        }
        self.keys = new_keys;
        self.nodes = new_nodes;
    }
}

/// The boundary policy applied to grid velocities near the edge of the
/// valid range.
#[derive(Clone, Copy, PartialEq, Eq, Structural, Debug)]
pub enum BoundaryHandling {
    /// Zero both velocity components near any boundary.
    Stick,
    /// Zero only the component normal to the nearby boundary; tangential
    /// velocity is preserved (sliding).
    Slip,
    /// Apply no correction; particles may exit the tracked region.
    Open,
}

/// Whether an axis coordinate is within the fixed two-cell margin of the
/// valid range's edge.
pub open spec fn spec_near_margin(c: int) -> bool {
    c < 2 || c > GRID_RESOLUTION as int - 3
}

/// The velocity a node ends with under a boundary policy: `Stick` zeroes
/// both components near any boundary, `Slip` zeroes only the axis normal
/// to the nearby boundary, `Open` changes nothing.
pub open spec fn spec_boundary_velocity(v: Vec2, ix: int, iy: int, b: BoundaryHandling) -> Vec2 {
    match b {
        BoundaryHandling::Stick => {
            if spec_near_margin(ix) || spec_near_margin(iy) {
                Vec2 { x: Fx { raw: 0 }, y: Fx { raw: 0 } }
            } else {
                v
            }
        },
        BoundaryHandling::Slip => {
            Vec2 {
                x: if spec_near_margin(ix) {
                    Fx { raw: 0 }
                } else {
                    v.x
                },
                y: if spec_near_margin(iy) {
                    Fx { raw: 0 }
                } else {
                    v.y
                },
            }
        },
        BoundaryHandling::Open => v,
    }
}

/// Apply the configured boundary policy to one node's velocity.
pub fn apply_boundary_conditions(node: &mut GridNode, ix: i32, iy: i32, boundary: BoundaryHandling)
    ensures
        *final(node) == (GridNode {
            velocity: spec_boundary_velocity(old(node).velocity, ix as int, iy as int, boundary),
            ..*old(node)
        }),
{
    let near_x = ix < 2 || ix > GRID_RESOLUTION as i32 - 3;
    let near_y = iy < 2 || iy > GRID_RESOLUTION as i32 - 3;
    match boundary {
        BoundaryHandling::Stick => {
            if near_x || near_y {
                node.velocity = Vec2 { x: Fx { raw: 0 }, y: Fx { raw: 0 } };
            }
        },
        BoundaryHandling::Slip => {
            if near_x {
                node.velocity.x = Fx { raw: 0 };
            }
            if near_y {
                node.velocity.y = Fx { raw: 0 };
            }
        },
        BoundaryHandling::Open => {},
    }
}

} // verus!
