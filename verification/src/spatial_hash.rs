//! Index-based neighbour search: particles are binned by the grid cell
//! their position falls in, and a query returns the indices of the
//! particles in the cells around a centre cell.
//!
//! The search works on cells, not on positions: turning a position into
//! its cell (a floor of the position divided by the cell size) is left to
//! the caller, so the structure is independent of how particles are laid
//! out in memory.

use vstd::prelude::*;
use std::collections::HashMap;

verus! {

broadcast use vstd::std_specs::hash::group_hash_axioms;

/// Integer coordinates of a cell of the uniform grid.
#[derive(Clone, Copy, Debug, PartialEq, Eq, Structural)]
pub struct GridCell {
    pub x: i32,
    pub y: i32,
    pub z: i32,
}

/// The bucket a cell hashes to. Different cells may share a bucket.
spec fn cell_key(c: GridCell) -> u64 {
    ((c.x as u32) as u64) ^ (((c.y as u32) as u64) << 21u64) ^ (((c.z as u32) as u64) << 42u64)
}

/// Distance between two cells along one axis.
pub open spec fn axis_gap(a: int, b: int) -> int {
    if a <= b {
        b - a
    } else {
        a - b
    }
}

/// `c` lies within `reach` cells of `center` along every axis.
pub open spec fn within_reach(c: GridCell, center: GridCell, reach: nat) -> bool {
    &&& axis_gap(c.x as int, center.x as int) <= reach
    &&& axis_gap(c.y as int, center.y as int) <= reach
    &&& axis_gap(c.z as int, center.z as int) <= reach
}

/// Neighbourhood is mutual: `a` is within reach of `b` exactly when `b` is
/// within reach of `a`, so a query from either cell finds the other's
/// particles.
pub proof fn lemma_reach_is_symmetric(a: GridCell, b: GridCell, reach: nat)
    ensures
        within_reach(a, b, reach) == within_reach(b, a, reach),
{
}

/// A query around a particle's own cell always finds that particle.
pub proof fn lemma_own_cell_within_reach(c: GridCell, reach: nat)
    ensures
        within_reach(c, c, reach),
{
}

/// Widening the reach never loses a neighbour.
pub proof fn lemma_reach_is_monotone(a: GridCell, b: GridCell, reach: nat, wider: nat)
    requires
        reach <= wider,
        within_reach(a, b, reach),
    ensures
        within_reach(a, b, wider),
{
}

/// `c` lies in the box `[xlo, xhi] x [ylo, yhi] x [zlo, zhi]`.
spec fn in_box(c: GridCell, xlo: int, xhi: int, ylo: int, yhi: int, zlo: int, zhi: int) -> bool {
    &&& xlo <= c.x <= xhi
    &&& ylo <= c.y <= yhi
    &&& zlo <= c.z <= zhi
}

/// `c` comes before the cell `(x, y, z)` in x-major, then y, then z order.
spec fn sweeps_before(c: GridCell, x: int, y: int, z: int) -> bool {
    ||| c.x < x
    ||| c.x == x && c.y < y
    ||| c.x == x && c.y == y && c.z < z
}

fn hash_cell(c: GridCell) -> (key: u64)
    ensures
        key == cell_key(c),
{
    ((c.x as u32) as u64) ^ (((c.y as u32) as u64) << 21u64) ^ (((c.z as u32) as u64) << 42u64)
}

/// The cells within `reach` of `c` along one axis that exist, that is that
/// lie in the range of `i32`.
fn axis_span(c: i32, reach: i64) -> (span: (i64, i64))
    requires
        0 <= reach <= u32::MAX,
    ensures
        span.0 == if c - reach < i32::MIN { i32::MIN as int } else { c - reach },
        span.1 == if c + reach > i32::MAX { i32::MAX as int } else { c + reach },
{
    let lo = (c as i64) - reach;
    let hi = (c as i64) + reach;
    (if lo < i32::MIN as i64 { i32::MIN as i64 } else { lo }, if hi > i32::MAX as i64 {
        i32::MAX as i64
    } else {
        hi
    })
}

/// A uniform-grid spatial hash over a set of particles, each given by the
/// cell it occupies; particle `i` is the `i`-th cell handed to `rebuild`.
pub struct SpatialHash {
    cells: Vec<GridCell>,
    buckets: HashMap<u64, Vec<usize>>,
}

/// Every particle is filed in the bucket of its cell.
spec fn filed(cells: Seq<GridCell>, buckets: Map<u64, Vec<usize>>, n: int) -> bool {
    forall|i: int|
        0 <= i < n ==> {
            &&& buckets.contains_key(cell_key(#[trigger] cells[i]))
            &&& buckets[cell_key(cells[i])]@.contains(i as usize)
        }
}

/// Every bucket holds, in increasing order, only particles below `n` whose
/// cell hashes to that bucket.
spec fn buckets_sound(cells: Seq<GridCell>, buckets: Map<u64, Vec<usize>>, n: int) -> bool {
    &&& forall|k: u64, p: int|
        buckets.contains_key(k) && 0 <= p < buckets[k]@.len() ==> {
            &&& (#[trigger] buckets[k]@[p] as int) < n
            &&& cell_key(cells[buckets[k]@[p] as int]) == k
        }
    &&& forall|k: u64, p: int, q: int|
        buckets.contains_key(k) && 0 <= p < q < buckets[k]@.len() ==> #[trigger] buckets[k]@[p]
            < #[trigger] buckets[k]@[q]
}

impl View for SpatialHash {
    type V = Seq<GridCell>;

    /// The cell of each particle, by particle index.
    closed spec fn view(&self) -> Seq<GridCell> {
        self.cells@
    }
}

impl SpatialHash {
    #[verifier::type_invariant]
    spec fn well_formed(self) -> bool {
        &&& filed(self.cells@, self.buckets@, self.cells@.len() as int)
        &&& buckets_sound(self.cells@, self.buckets@, self.cells@.len() as int)
    }

    /// An empty spatial hash.
    pub fn new() -> (hash: Self)
        ensures
            hash@ == Seq::<GridCell>::empty(),
    {
        SpatialHash { cells: Vec::new(), buckets: HashMap::new() }
    }

    /// Replaces the particles by those whose cells are `cells`: afterwards
    /// particle `i` is the one in `cells[i]`, and nothing of the earlier
    /// contents is left.
    pub fn rebuild(&mut self, cells: &[GridCell])
        ensures
            final(self)@ == cells@,
    {
        let n = cells.len();
        let mut own: Vec<GridCell> = Vec::new();
        let mut buckets: HashMap<u64, Vec<usize>> = HashMap::new();
        let mut i: usize = 0;
        while i < n
            invariant
                n == cells@.len(),
                i <= n,
                own@ == cells@.take(i as int),
                filed(cells@, buckets@, i as int),
                buckets_sound(cells@, buckets@, i as int),
            decreases n - i,
        {
            let cell = cells[i];
            own.push(cell);
            let key = hash_cell(cell);
            let ghost before = buckets@;
            let bucket = match buckets.remove(&key) {
                Some(mut b) => {
                    b.push(i);
                    b
                },
                None => {
                    let mut b: Vec<usize> = Vec::new();
                    b.push(i);
                    b
                },
            };
            let ghost bucket_view = bucket@;
            buckets.insert(key, bucket);
            assert(buckets@ == before.insert(key, bucket));
            assert(bucket@.last() == i);
            assert forall|t: int| 0 <= t < i + 1 implies {
                &&& buckets@.contains_key(cell_key(#[trigger] cells@[t]))
                &&& buckets@[cell_key(cells@[t])]@.contains(t as usize)
            } by {
                if t < i {
                    let kt = cell_key(cells@[t]);
                    if kt == key {
                        let p = choose|p: int| 0 <= p < before[kt]@.len() && before[kt]@[p] == t as usize;
                        assert(bucket@[p] == t as usize);
                    }
                } else {
                    assert(bucket@[bucket@.len() - 1] == t as usize);
                }
            }
            assert(own@ == cells@.take(i + 1)) by {
                assert(cells@.take(i as int).push(cell) =~= cells@.take(i + 1));
            }
            i = i + 1;
        }
        assert(cells@.take(n as int) =~= cells@);
        *self = SpatialHash { cells: own, buckets };
    }

    /// The particles whose cell lies within `reach` cells of `center` along
    /// every axis, each once.
    pub fn query_neighbors(&self, center: GridCell, reach: u32) -> (found: Vec<usize>)
        ensures
            found@.no_duplicates(),
            forall|i: usize|
                #[trigger] found@.contains(i) <==> ((i as int) < self@.len() && within_reach(
                    self@[i as int],
                    center,
                    reach as nat,
                )),
    {
        let r = reach as i64;
        let (xlo, xhi) = axis_span(center.x, r);
        let (ylo, yhi) = axis_span(center.y, r);
        let (zlo, zhi) = axis_span(center.z, r);
        let ghost n = self@.len();
        let mut out: Vec<usize> = Vec::new();
        let mut x = xlo;
        while x <= xhi
            invariant
                i32::MIN <= xlo <= x <= xhi + 1,
                xhi <= i32::MAX,
                i32::MIN <= ylo <= yhi <= i32::MAX,
                i32::MIN <= zlo <= zhi <= i32::MAX,
                n == self@.len(),
                out@.no_duplicates(),
                forall|t: int| 0 <= t < out@.len() ==> (#[trigger] out@[t] as int) < n,
                forall|i: usize|
                    #[trigger] out@.contains(i) <==> ((i as int) < n && in_box(
                        self@[i as int],
                        xlo as int,
                        xhi as int,
                        ylo as int,
                        yhi as int,
                        zlo as int,
                        zhi as int,
                    ) && sweeps_before(self@[i as int], x as int, ylo as int, zlo as int)),
            decreases xhi + 1 - x,
        {
            let mut y = ylo;
            while y <= yhi
                invariant
                    i32::MIN <= xlo <= x <= xhi <= i32::MAX,
                    i32::MIN <= ylo <= y <= yhi + 1,
                    yhi <= i32::MAX,
                    i32::MIN <= zlo <= zhi <= i32::MAX,
                    n == self@.len(),
                    out@.no_duplicates(),
                    forall|t: int| 0 <= t < out@.len() ==> (#[trigger] out@[t] as int) < n,
                    forall|i: usize|
                        #[trigger] out@.contains(i) <==> ((i as int) < n && in_box(
                            self@[i as int],
                            xlo as int,
                            xhi as int,
                            ylo as int,
                            yhi as int,
                            zlo as int,
                            zhi as int,
                        ) && sweeps_before(self@[i as int], x as int, y as int, zlo as int)),
                decreases yhi + 1 - y,
            {
                let mut z = zlo;
                while z <= zhi
                    invariant
                        i32::MIN <= xlo <= x <= xhi <= i32::MAX,
                        i32::MIN <= ylo <= y <= yhi <= i32::MAX,
                        i32::MIN <= zlo <= z <= zhi + 1,
                        zhi <= i32::MAX,
                        n == self@.len(),
                        out@.no_duplicates(),
                        forall|t: int| 0 <= t < out@.len() ==> (#[trigger] out@[t] as int) < n,
                        forall|i: usize|
                            #[trigger] out@.contains(i) <==> ((i as int) < n && in_box(
                                self@[i as int],
                                xlo as int,
                                xhi as int,
                                ylo as int,
                                yhi as int,
                                zlo as int,
                                zhi as int,
                            ) && sweeps_before(self@[i as int], x as int, y as int, z as int)),
                    decreases zhi + 1 - z,
                {
                    let cell = GridCell { x: x as i32, y: y as i32, z: z as i32 };
                    assert forall|t: int| 0 <= t < out@.len() implies (#[trigger] out@[t] as int)
                        < self@.len() && self@[out@[t] as int] != cell by {
                        assert(out@.contains(out@[t]));
                    }
                    self.collect_cell(cell, &mut out);
                    z = z + 1;
                }
                y = y + 1;
            }
            x = x + 1;
        }
        assert forall|i: usize|
            #[trigger] out@.contains(i) <==> ((i as int) < self@.len() && within_reach(
                self@[i as int],
                center,
                reach as nat,
            )) by {
            if (i as int) < n {
                let c = self@[i as int];
                assert(i32::MIN <= c.x <= i32::MAX && i32::MIN <= c.y <= i32::MAX && i32::MIN
                    <= c.z <= i32::MAX);
            }
        }
        out
    }

    /// Appends to `out` the particles in `cell`, none of which may be in
    /// `out` already.
    fn collect_cell(&self, cell: GridCell, out: &mut Vec<usize>)
        requires
            old(out)@.no_duplicates(),
            forall|t: int|
                0 <= t < old(out)@.len() ==> (#[trigger] old(out)@[t] as int) < self@.len()
                    && self@[old(out)@[t] as int] != cell,
        ensures
            final(out)@.no_duplicates(),
            forall|t: int|
                0 <= t < final(out)@.len() ==> (#[trigger] final(out)@[t] as int) < self@.len(),
            forall|i: usize|
                #[trigger] final(out)@.contains(i) <==> (old(out)@.contains(i) || ((i as int)
                    < self@.len() && self@[i as int] == cell)),
    {
        proof {
            use_type_invariant(self);
        }
        let key = hash_cell(cell);
        match self.buckets.get(&key) {
            None => {
                assert forall|i: usize| (i as int) < self@.len() implies self@[i as int]
                    != cell by {
                    if self@[i as int] == cell {
                        assert(self.cells@[i as int] == cell);
                    }
                }
            },
            Some(bucket) => {
                let ghost start = out@;
                let blen = bucket.len();
                let mut k: usize = 0;
                while k < blen
                    invariant
                        blen == bucket@.len(),
                        k <= blen,
                        self.buckets@.contains_key(key),
                        self.buckets@[key] == *bucket,
                        buckets_sound(self.cells@, self.buckets@, self.cells@.len() as int),
                        start.no_duplicates(),
                        forall|t: int|
                            0 <= t < start.len() ==> (#[trigger] start[t] as int) < self@.len()
                                && self@[start[t] as int] != cell,
                        out@.len() >= start.len(),
                        out@.subrange(0, start.len() as int) == start,
                        out@.no_duplicates(),
                        forall|t: int|
                            0 <= t < out@.len() ==> (#[trigger] out@[t] as int) < self@.len(),
                        forall|t: int|
                            start.len() <= t < out@.len() ==> self@[#[trigger] out@[t] as int]
                                == cell,
                        k < blen ==> forall|t: int|
                            start.len() <= t < out@.len() ==> #[trigger] out@[t] < bucket@[k as int],
                        forall|i: usize|
                            #[trigger] out@.contains(i) <==> (start.contains(i) || (
                            bucket@.take(k as int).contains(i) && self@[i as int] == cell)),
                    decreases blen - k,
                {
                    let j = bucket[k];
                    assert(self.buckets@[key]@[k as int] == j);
                    let ghost before = out@;
                    if self.cells[j] == cell {
                        out.push(j);
                        assert forall|t: int| 0 <= t < before.len() implies before[t] != j by {
                            if t < start.len() {
                                assert(before[t] == start[t]);
                            }
                        }
                        assert(out@.subrange(0, start.len() as int) =~= before.subrange(
                            0,
                            start.len() as int,
                        ));
                    }
                    assert(bucket@.take(k + 1) =~= bucket@.take(k as int).push(j));
                    assert forall|i: usize|
                        #[trigger] out@.contains(i) <==> (start.contains(i) || (bucket@.take(
                            k + 1,
                        ).contains(i) && self@[i as int] == cell)) by {
                        if out@.contains(i) && !before.contains(i) {
                            let t = choose|t: int| 0 <= t < out@.len() && out@[t] == i;
                            if t < before.len() {
                                assert(before[t] == i);
                            }
                        }
                        if before.contains(i) {
                            let t = choose|t: int| 0 <= t < before.len() && before[t] == i;
                            assert(out@[t] == i);
                        }
                        let ghost longer = bucket@.take(k + 1);
                        let ghost shorter = bucket@.take(k as int);
                        if longer.contains(i) && !shorter.contains(i) {
                            let t = choose|t: int| 0 <= t < longer.len() && longer[t] == i;
                            if t < k {
                                assert(shorter[t] == i);
                            }
                        }
                        if shorter.contains(i) {
                            let t = choose|t: int| 0 <= t < shorter.len() && shorter[t] == i;
                            assert(longer[t] == i);
                        }
                        if i == j && self@[i as int] == cell {
                            assert(bucket@.take(k + 1)[k as int] == i);
                            assert(out@[out@.len() - 1] == i);
                        }
                    }
                    if k + 1 < blen {
                        assert(self.buckets@[key]@[k as int] < self.buckets@[key]@[k + 1]);
                    }
                    k = k + 1;
                }
                assert(bucket@.take(blen as int) =~= bucket@);
                assert forall|i: usize|
                    (i as int) < self@.len() && self@[i as int] == cell implies bucket@.contains(
                    i,
                ) by {
                    assert(self.cells@[i as int] == cell);
                }
            },
        }
    }
}

} // verus!
