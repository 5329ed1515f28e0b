//! The board state: the working set of blocks currently materialized in
//! memory. An ordered identifier list defines the rendering and
//! hit-testing order; positions and blocks are kept aligned with it, and a
//! measured-size cache is filled lazily by the render loop.

use vstd::prelude::*;

use crate::block::{Block, BlockPosition, BlockType};
use crate::geom::{clamped, in_world, move_coord, COORD_LIMIT, WorldVec};
use crate::persistor::{row_exists, SavedBlock};

verus! {

/// A measured size, cached per block identifier so that layout is not
/// recomputed every frame.
#[derive(Debug)]
pub struct SizeEntry {
    pub id: String,
    pub size: WorldVec,
}

impl SizeEntry {
    /// The cached size is non-negative and within the world range.
    pub open spec fn wf(self) -> bool {
        0 <= self.size.x <= COORD_LIMIT && 0 <= self.size.y <= COORD_LIMIT
    }
}

impl Clone for SizeEntry {
    fn clone(&self) -> (r: SizeEntry)
        ensures
            r == self,
    {
        SizeEntry { id: self.id.clone(), size: self.size }
    }
}

/// Some entry of an ordered identifier list carries the identifier.
pub open spec fn ids_have(ids: Seq<String>, id: Seq<char>) -> bool {
    exists|i: int| 0 <= i < ids.len() && (#[trigger] ids[i])@ == id
}

/// Loaded rows with every repeated identifier dropped: of rows sharing an
/// identifier, the first stays.
pub open spec fn dedup_rows(rows: Seq<SavedBlock>) -> Seq<SavedBlock>
    decreases rows.len(),
{
    if rows.len() == 0 {
        Seq::empty()
    } else {
        let rest = dedup_rows(rows.drop_last());
        if row_exists(rows.drop_last(), rows.last().id@) {
            rest
        } else {
            rest.push(rows.last())
        }
    }
}

/// An identifier occurs among the deduplicated rows exactly when it
/// occurs among the rows themselves.
proof fn lemma_dedup_preserves_ids(rows: Seq<SavedBlock>, id: Seq<char>)
    ensures
        row_exists(dedup_rows(rows), id) <==> row_exists(rows, id),
    decreases rows.len(),
{
    if rows.len() > 0 {
        let prefix = rows.drop_last();
        lemma_dedup_preserves_ids(prefix, id);
        let d = dedup_rows(rows);
        let dp = dedup_rows(prefix);
        let last = rows.last();
        if row_exists(rows, id) {
            let i = choose|i: int| 0 <= i < rows.len() && (#[trigger] rows[i]).id@ == id;
            if i < rows.len() - 1 {
                assert(prefix[i].id@ == id);
                let w = choose|w: int| 0 <= w < dp.len() && (#[trigger] dp[w]).id@ == id;
                assert(d[w].id@ == id);
            } else {
                if row_exists(prefix, last.id@) {
                    let w = choose|w: int| 0 <= w < dp.len() && (#[trigger] dp[w]).id@ == id;
                    assert(d[w].id@ == id);
                } else {
                    assert(d[d.len() - 1].id@ == id);
                }
            }
        }
        if row_exists(d, id) {
            let i = choose|i: int| 0 <= i < d.len() && (#[trigger] d[i]).id@ == id;
            if i < dp.len() {
                assert(dp[i].id@ == id);
                let w = choose|w: int| 0 <= w < prefix.len() && (#[trigger] prefix[w]).id@ == id;
                assert(rows[w].id@ == id);
            } else {
                assert(rows[rows.len() - 1].id@ == id);
            }
        }
    }
}

/// A consistent snapshot of the blocks in memory: the ordered identifier
/// list, and one position and one block per identifier, kept aligned by
/// index. The size cache is decoupled and filled on first paint.
#[derive(Debug)]
pub struct BoardState {
    pub ids: Vec<String>,
    pub positions: Vec<BlockPosition>,
    pub blocks: Vec<Block>,
    pub sizes: Vec<SizeEntry>,
}

impl BoardState {
    /// Every identifier of the ordered list has exactly one position and
    /// one block, at its own index, and every stored coordinate lies
    /// within the world range.
    pub open spec fn wf(self) -> bool {
        &&& self.positions@.len() == self.ids@.len()
        &&& self.blocks@.len() == self.ids@.len()
        &&& forall|i: int|
            0 <= i < self.ids@.len() ==> (#[trigger] self.positions@[i]).id@ == self.ids@[i]@
        &&& forall|i: int|
            0 <= i < self.ids@.len() ==> (#[trigger] self.blocks@[i]).id@ == self.ids@[i]@
        &&& forall|i: int| 0 <= i < self.ids@.len() ==> (#[trigger] self.positions@[i]).wf()
        &&& forall|i: int| 0 <= i < self.sizes@.len() ==> (#[trigger] self.sizes@[i]).wf()
        &&& forall|i: int, j: int|
            #![trigger self.ids@[i], self.ids@[j]]
            0 <= i < j < self.ids@.len() ==> self.ids@[i]@ != self.ids@[j]@
    }

    /// The first index at or after `k` whose block covers the point.
    pub open spec fn first_hit_from(self, k: int, x: int, y: int) -> Option<int>
        decreases self.positions@.len() - k,
    {
        if k < 0 || k >= self.positions@.len() {
            None
        } else if self.positions@[k].spec_contains_point(x, y) {
            Some(k)
        } else {
            self.first_hit_from(k + 1, x, y)
        }
    }

    /// The first index in list order whose block covers the point, if
    /// any: earlier insertion wins over later overlapping blocks.
    pub open spec fn spec_first_hit(self, x: int, y: int) -> Option<int> {
        self.first_hit_from(0, x, y)
    }

    /// The first index at or after `k` carrying the identifier.
    pub open spec fn first_index_from(self, k: int, id: Seq<char>) -> Option<int>
        decreases self.ids@.len() - k,
    {
        if k < 0 || k >= self.ids@.len() {
            None
        } else if self.ids@[k]@ == id {
            Some(k)
        } else {
            self.first_index_from(k + 1, id)
        }
    }

    /// The index of the first block carrying the identifier, if any.
    pub open spec fn spec_find_index(self, id: Seq<char>) -> Option<int> {
        self.first_index_from(0, id)
    }

    /// The number of blocks in the snapshot.
    pub fn len(&self) -> (r: usize)
        ensures
            r == self.ids@.len(),
    {
        self.ids.len()
    }

    /// The first block in list order that covers the world-space point,
    /// if any: earlier insertion wins over later overlapping blocks.
    pub fn hit_test(&self, x: i64, y: i64) -> (r: Option<usize>)
        requires
            self.wf(),
            in_world(x as int),
            in_world(y as int),
        ensures
            match r {
                Some(i) => {
                    &&& 0 <= i < self.ids@.len()
                    &&& self.positions@[i as int].spec_contains_point(x as int, y as int)
                    &&& forall|j: int|
                        0 <= j < i ==> !(#[trigger] self.positions@[j]).spec_contains_point(
                            x as int,
                            y as int,
                        )
                    &&& self.spec_first_hit(x as int, y as int) == Some(i as int)
                },
                None => {
                    &&& forall|j: int|
                        0 <= j < self.ids@.len() ==> !(
                        #[trigger] self.positions@[j]).spec_contains_point(x as int, y as int)
                    &&& self.spec_first_hit(x as int, y as int) is None
                },
            },
    {
        let n = self.positions.len();
        for k in 0..n
            invariant
                n == self.positions@.len(),
                self.wf(),
                in_world(x as int),
                in_world(y as int),
                self.spec_first_hit(x as int, y as int) == self.first_hit_from(
                    k as int,
                    x as int,
                    y as int,
                ),
                forall|j: int|
                    0 <= j < k ==> !(#[trigger] self.positions@[j]).spec_contains_point(
                        x as int,
                        y as int,
                    ),
        {
            if self.positions[k].contains_point(x, y) {
                proof {
                    assert(self.first_hit_from(k as int, x as int, y as int) == Some(k as int));
                }
                return Some(k);
            }
            proof {
                assert(self.first_hit_from(k as int, x as int, y as int) == self.first_hit_from(
                    k + 1,
                    x as int,
                    y as int,
                ));
            }
        }
        proof {
            assert(self.first_hit_from(n as int, x as int, y as int) is None);
        }
        None
    }

    /// The index of the first block carrying the identifier, if any.
    pub fn find_index(&self, id: &String) -> (r: Option<usize>)
        requires
            self.wf(),
        ensures
            match r {
                Some(i) => {
                    &&& 0 <= i < self.ids@.len()
                    &&& self.ids@[i as int]@ == id@
                    &&& forall|j: int| 0 <= j < i ==> (#[trigger] self.ids@[j])@ != id@
                    &&& self.spec_find_index(id@) == Some(i as int)
                },
                None => {
                    &&& forall|j: int| 0 <= j < self.ids@.len() ==> (#[trigger] self.ids@[j])@ != id@
                    &&& self.spec_find_index(id@) is None
                },
            },
    {
        let n = self.ids.len();
        for k in 0..n
            invariant
                n == self.ids@.len(),
                self.spec_find_index(id@) == self.first_index_from(k as int, id@),
                forall|j: int| 0 <= j < k ==> (#[trigger] self.ids@[j])@ != id@,
        {
            if self.ids[k] == *id {
                proof {
                    assert(self.first_index_from(k as int, id@) == Some(k as int));
                }
                return Some(k);
            }
            proof {
                assert(self.first_index_from(k as int, id@) == self.first_index_from(k + 1, id@));
            }
        }
        proof {
            assert(self.first_index_from(n as int, id@) is None);
        }
        None
    }

    /// Appends a new block to the snapshot: its identifier joins the end
    /// of the ordered list, with an unmeasured (zero) size. An identifier
    /// already on the board is not added again, so that every identifier
    /// keeps exactly one entry.
    pub fn push_block(&mut self, id: String, block_type: BlockType, block_data: String, x: i64, y: i64)
        requires
            old(self).wf(),
            in_world(x as int),
            in_world(y as int),
        ensures
            final(self).wf(),
            ids_have(old(self).ids@, id@) ==> *final(self) == *old(self),
            !ids_have(old(self).ids@, id@) ==> {
                &&& final(self).ids@ == old(self).ids@.push(id)
                &&& final(self).positions@ == old(self).positions@.push(
                    BlockPosition { id: id, x, y, size: WorldVec { x: 0, y: 0 } },
                )
                &&& final(self).blocks@ == old(self).blocks@.push(
                    Block { id: id, block_type, block_data },
                )
                &&& final(self).sizes@ == old(self).sizes@
            },
    {
        let existing = self.find_index(&id);
        if existing.is_some() {
            return ;
        }
        let position = BlockPosition { id: id.clone(), x, y, size: WorldVec { x: 0, y: 0 } };
        let block = Block { id: id.clone(), block_type, block_data };
        self.ids.push(id);
        self.positions.push(position);
        self.blocks.push(block);
        proof {
            assert forall|i: int, j: int|
                #![trigger self.ids@[i], self.ids@[j]]
                0 <= i < j < self.ids@.len() implies self.ids@[i]@ != self.ids@[j]@ by {
                if j == self.ids@.len() - 1 {
                    assert(self.ids@[i] == old(self).ids@[i]);
                } else {
                    assert(self.ids@[i] == old(self).ids@[i]);
                    assert(self.ids@[j] == old(self).ids@[j]);
                }
            }
        }
    }

    /// Moves the first block carrying the identifier by the given delta,
    /// clamped to the world range, and returns its new position; `None`
    /// and no change when no block carries it.
    pub fn move_block(&mut self, id: &String, dx: i64, dy: i64) -> (r: Option<(i64, i64)>)
        requires
            old(self).wf(),
            in_world(dx as int),
            in_world(dy as int),
        ensures
            final(self).ids@ == old(self).ids@,
            final(self).blocks@ == old(self).blocks@,
            final(self).sizes@ == old(self).sizes@,
            final(self).wf(),
            match old(self).spec_find_index(id@) {
                Some(j) => {
                    &&& r matches Some(p)
                    &&& (r matches Some(p) ==> {
                        &&& p.0 as int == clamped(old(self).positions@[j].x + dx)
                        &&& p.1 as int == clamped(old(self).positions@[j].y + dy)
                        &&& final(self).positions@ == old(self).positions@.update(
                            j,
                            BlockPosition { x: p.0, y: p.1, ..old(self).positions@[j] },
                        )
                    })
                },
                None => {
                    &&& r is None
                    &&& final(self).positions@ == old(self).positions@
                },
            },
    {
        let found = self.find_index(id);
        match found {
            Some(j) => {
                let nx = move_coord(self.positions[j].x, dx);
                let ny = move_coord(self.positions[j].y, dy);
                self.positions[j].x = nx;
                self.positions[j].y = ny;
                proof {
                    assert(self.positions@ =~= old(self).positions@.update(
                        j as int,
                        BlockPosition { x: nx, y: ny, ..old(self).positions@[j as int] },
                    ));
                }
                Some((nx, ny))
            },
            None => None,
        }
    }

    /// Whether a measured size is cached for the identifier.
    pub fn has_size(&self, id: &String) -> (r: bool)
        ensures
            r == exists|i: int| 0 <= i < self.sizes@.len() && (#[trigger] self.sizes@[i]).id@ == id@,
    {
        let n = self.sizes.len();
        for k in 0..n
            invariant
                n == self.sizes@.len(),
                forall|j: int| 0 <= j < k ==> (#[trigger] self.sizes@[j]).id@ != id@,
        {
            if self.sizes[k].id == *id {
                return true;
            }
        }
        false
    }

    /// The cached measured size for the identifier, if one is recorded.
    pub fn size_of(&self, id: &String) -> (r: Option<WorldVec>)
        requires
            self.wf(),
        ensures
            match r {
                Some(s) => exists|i: int|
                    {
                        &&& 0 <= i < self.sizes@.len()
                        &&& (#[trigger] self.sizes@[i]).id@ == id@
                        &&& self.sizes@[i].size == s
                        &&& forall|j: int| 0 <= j < i ==> self.sizes@[j].id@ != id@
                    },
                None => forall|i: int| 0 <= i < self.sizes@.len() ==> (#[trigger] self.sizes@[i]).id@ != id@,
            },
    {
        let n = self.sizes.len();
        for k in 0..n
            invariant
                n == self.sizes@.len(),
                forall|j: int| 0 <= j < k ==> (#[trigger] self.sizes@[j]).id@ != id@,
        {
            if self.sizes[k].id == *id {
                return Some(self.sizes[k].size);
            }
        }
        None
    }

    /// Records a measured size for the identifier: the first cached entry
    /// for it is replaced, or a new entry is appended.
    pub fn record_size(&mut self, id: &String, size: WorldVec)
        requires
            old(self).wf(),
            0 <= size.x <= COORD_LIMIT,
            0 <= size.y <= COORD_LIMIT,
        ensures
            final(self).ids@ == old(self).ids@,
            final(self).positions@ == old(self).positions@,
            final(self).blocks@ == old(self).blocks@,
            final(self).wf(),
            exists|i: int|
                {
                    &&& 0 <= i < final(self).sizes@.len()
                    &&& (#[trigger] final(self).sizes@[i]).id@ == id@
                    &&& final(self).sizes@[i].size == size
                },
            (exists|i: int| 0 <= i < old(self).sizes@.len() && (#[trigger] old(self).sizes@[i]).id@ == id@)
                ==> final(self).sizes@.len() == old(self).sizes@.len(),
            !(exists|i: int| 0 <= i < old(self).sizes@.len() && (#[trigger] old(self).sizes@[i]).id@ == id@)
                ==> final(self).sizes@ == old(self).sizes@.push(
                    SizeEntry { id: *id, size },
                ),
            forall|i: int|
                0 <= i < old(self).sizes@.len() && (#[trigger] old(self).sizes@[i]).id@ != id@
                    ==> final(self).sizes@[i] == old(self).sizes@[i],
    {
        let n = self.sizes.len();
        for k in 0..n
            invariant
                n == self.sizes@.len(),
                self.sizes@.len() == old(self).sizes@.len(),
                self.ids@ == old(self).ids@,
                self.positions@ == old(self).positions@,
                self.blocks@ == old(self).blocks@,
                old(self).wf(),
                self.wf(),
                0 <= size.x <= COORD_LIMIT,
                0 <= size.y <= COORD_LIMIT,
                forall|j: int| 0 <= j < k ==> (#[trigger] self.sizes@[j]).id@ != id@,
                forall|j: int| 0 <= j < n ==> #[trigger] self.sizes@[j] == old(self).sizes@[j],
        {
            if self.sizes[k].id == *id {
                self.sizes[k].size = size;
                return ;
            }
        }
        proof {
            assert forall|i: int|
                0 <= i < old(self).sizes@.len() implies (#[trigger] old(self).sizes@[i]).id@
                != id@ by {
                assert(self.sizes@[i].id@ != id@);
            }
        }
        self.sizes.push(SizeEntry { id: id.clone(), size });
        proof {
            assert(self.sizes@[old(self).sizes@.len() as int].id@ == id@);
        }
    }
}

impl Default for BoardState {
    /// An empty snapshot.
    fn default() -> (r: BoardState)
        ensures
            r.ids@.len() == 0,
            r.positions@.len() == 0,
            r.blocks@.len() == 0,
            r.sizes@.len() == 0,
            r.wf(),
    {
        BoardState { ids: Vec::new(), positions: Vec::new(), blocks: Vec::new(), sizes: Vec::new() }
    }
}

/// Builds the replacement snapshot the sync worker answers with: one entry
/// per loaded record, in record order, with repeated identifiers dropped
/// (the first record wins) and the measured sizes reset.
pub fn board_from_rows(rows: &Vec<SavedBlock>) -> (b: BoardState)
    requires
        forall|i: int| 0 <= i < rows@.len() ==> (#[trigger] rows@[i]).wf(),
    ensures
        ({
            let q = dedup_rows(rows@);
            &&& b.ids@.len() == q.len()
            &&& forall|i: int| 0 <= i < q.len() ==> (#[trigger] b.ids@[i]) == q[i].id
            &&& forall|i: int|
                0 <= i < q.len() ==> (#[trigger] b.positions@[i]) == (BlockPosition {
                    id: q[i].id,
                    x: q[i].x,
                    y: q[i].y,
                    size: WorldVec { x: 0, y: 0 },
                })
            &&& forall|i: int|
                0 <= i < q.len() ==> (#[trigger] b.blocks@[i]) == (Block {
                    id: q[i].id,
                    block_type: q[i].block_type,
                    block_data: q[i].block_data,
                })
            &&& b.sizes@.len() == 0
            &&& b.wf()
        }),
{
    let mut b = BoardState::default();
    let n = rows.len();
    for k in 0..n
        invariant
            n == rows@.len(),
            forall|i: int| 0 <= i < rows@.len() ==> (#[trigger] rows@[i]).wf(),
            b.sizes@.len() == 0,
            b.wf(),
            ({
                let q = dedup_rows(rows@.take(k as int));
                &&& b.ids@.len() == q.len()
                &&& b.positions@.len() == q.len()
                &&& b.blocks@.len() == q.len()
                &&& forall|i: int| 0 <= i < q.len() ==> (#[trigger] b.ids@[i]) == q[i].id
                &&& forall|i: int|
                    0 <= i < q.len() ==> (#[trigger] b.positions@[i]) == (BlockPosition {
                        id: q[i].id,
                        x: q[i].x,
                        y: q[i].y,
                        size: WorldVec { x: 0, y: 0 },
                    })
                &&& forall|i: int|
                    0 <= i < q.len() ==> (#[trigger] b.blocks@[i]) == (Block {
                        id: q[i].id,
                        block_type: q[i].block_type,
                        block_data: q[i].block_data,
                    })
            }),
    {
        let row = &rows[k];
        proof {
            let taken = rows@.take(k as int);
            let q = dedup_rows(taken);
            let id = rows@[k as int].id@;
            assert(rows@.take(k + 1).drop_last() =~= taken);
            assert(rows@.take(k + 1).last() == rows@[k as int]);
            lemma_dedup_preserves_ids(taken, id);
            if ids_have(b.ids@, id) {
                let i = choose|i: int| 0 <= i < b.ids@.len() && (#[trigger] b.ids@[i])@ == id;
                assert(q[i].id@ == id);
            }
            if row_exists(taken, id) {
                let w = choose|w: int| 0 <= w < q.len() && (#[trigger] q[w]).id@ == id;
                assert((b.ids@[w])@ == id);
            }
        }
        b.push_block(row.id.clone(), row.block_type, row.block_data.clone(), row.x, row.y);
    }
    proof {
        assert(rows@.take(n as int) =~= rows@);
    }
    b
}


/// Law (hit-test tie-break): the hit test picks the least index in list
/// order whose block covers the point, so of two overlapping blocks the
/// one inserted first wins; when no block covers the point, it picks
/// none.
pub proof fn lemma_first_hit_is_least(b: BoardState, x: int, y: int)
    ensures
        match b.spec_first_hit(x, y) {
            Some(i) => {
                &&& 0 <= i < b.positions@.len()
                &&& b.positions@[i].spec_contains_point(x, y)
                &&& forall|j: int|
                    0 <= j < i ==> !(#[trigger] b.positions@[j]).spec_contains_point(x, y)
            },
            None => forall|j: int|
                0 <= j < b.positions@.len() ==> !(#[trigger] b.positions@[j]).spec_contains_point(
                    x,
                    y,
                ),
        },
{
    lemma_first_hit_from_is_least(b, 0, x, y);
}

proof fn lemma_first_hit_from_is_least(b: BoardState, k: int, x: int, y: int)
    requires
        0 <= k,
    ensures
        match b.first_hit_from(k, x, y) {
            Some(i) => {
                &&& k <= i < b.positions@.len()
                &&& b.positions@[i].spec_contains_point(x, y)
                &&& forall|j: int|
                    k <= j < i ==> !(#[trigger] b.positions@[j]).spec_contains_point(x, y)
            },
            None => forall|j: int|
                k <= j < b.positions@.len() ==> !(#[trigger] b.positions@[j]).spec_contains_point(
                    x,
                    y,
                ),
        },
    decreases b.positions@.len() - k,
{
    if k < b.positions@.len() && !b.positions@[k].spec_contains_point(x, y) {
        lemma_first_hit_from_is_least(b, k + 1, x, y);
    }
}

} // verus!
