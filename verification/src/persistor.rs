//! The block store: a table of saved block records, queryable by spatial
//! bounding box. The store itself is the verified model of the durable
//! table; a thin shell mirrors each mutation to an embedded database file
//! and rebuilds the store from it on startup.

use vstd::prelude::*;

use crate::block::BlockType;
use crate::geom::{in_world, COORD_LIMIT};

verus! {

/// A durable block record: one row of the store.
#[derive(Debug)]
pub struct SavedBlock {
    pub id: String,
    pub block_type: BlockType,
    pub block_data: String,
    pub x: i64,
    pub y: i64,
    pub width: i64,
    pub height: i64,
}

impl SavedBlock {
    /// The position lies within the world range and the size is
    /// non-negative and bounded, so that `x + width` and `y + height`
    /// never overflow.
    pub open spec fn wf(self) -> bool {
        &&& in_world(self.x as int)
        &&& in_world(self.y as int)
        &&& 0 <= self.width <= COORD_LIMIT
        &&& 0 <= self.height <= COORD_LIMIT
    }

    /// Runtime check of `wf`, for callers that receive a record from
    /// outside the library.
    pub fn is_wf(&self) -> (r: bool)
        ensures
            r == self.wf(),
    {
        -COORD_LIMIT <= self.x && self.x <= COORD_LIMIT && -COORD_LIMIT <= self.y && self.y
            <= COORD_LIMIT && 0 <= self.width && self.width <= COORD_LIMIT && 0 <= self.height
            && self.height <= COORD_LIMIT
    }

    /// This record carried to position `(x, y)`, all else unchanged.
    pub open spec fn moved_to(self, x: i64, y: i64) -> SavedBlock {
        SavedBlock { x, y, ..self }
    }
}

impl Clone for SavedBlock {
    fn clone(&self) -> (r: SavedBlock)
        ensures
            r == self,
    {
        SavedBlock {
            id: self.id.clone(),
            block_type: self.block_type,
            block_data: self.block_data.clone(),
            x: self.x,
            y: self.y,
            width: self.width,
            height: self.height,
        }
    }
}

/// An error of the store. A mutation of a record whose identifier is not
/// present reports `NotFound` rather than passing silently.
#[derive(Clone, Copy, Debug, PartialEq, Eq, Structural)]
pub enum StoreError {
    NotFound,
}

/// The query predicate of the store: the record's box
/// `(x, y, x + width, y + height)` meets the open query rectangle. A
/// record of zero size is still matched when its point falls strictly
/// inside the rectangle.
pub open spec fn intersects_query(
    x_min: int,
    x_max: int,
    y_min: int,
    y_max: int,
    b: SavedBlock,
) -> bool {
    &&& x_min < b.x + b.width
    &&& b.x < x_max
    &&& y_min < b.y + b.height
    &&& b.y < y_max
}

/// The rows of `rows` matching the query rectangle, in row order.
pub open spec fn matching_rows(
    rows: Seq<SavedBlock>,
    x_min: int,
    x_max: int,
    y_min: int,
    y_max: int,
) -> Seq<SavedBlock>
    decreases rows.len(),
{
    if rows.len() == 0 {
        Seq::empty()
    } else {
        let rest = matching_rows(rows.drop_last(), x_min, x_max, y_min, y_max);
        if intersects_query(x_min, x_max, y_min, y_max, rows.last()) {
            rest.push(rows.last())
        } else {
            rest
        }
    }
}

/// Some row of `rows` carries the identifier `id`.
pub open spec fn row_exists(rows: Seq<SavedBlock>, id: Seq<char>) -> bool {
    exists|i: int| 0 <= i < rows.len() && rows[i].id@ == id
}

/// `rows` with every row whose identifier is `id` carried to `(x, y)`.
pub open spec fn rows_moved(rows: Seq<SavedBlock>, id: Seq<char>, x: i64, y: i64) -> Seq<
    SavedBlock,
> {
    Seq::new(
        rows.len(),
        |i: int|
            if rows[i].id@ == id {
                rows[i].moved_to(x, y)
            } else {
                rows[i]
            },
    )
}

proof fn lemma_row_exists_extend(rows: Seq<SavedBlock>, k: int, id: Seq<char>)
    requires
        0 <= k < rows.len(),
    ensures
        row_exists(rows.take(k + 1), id) <==> (row_exists(rows.take(k), id) || rows[k].id@ == id),
{
    if row_exists(rows.take(k + 1), id) {
        let i = choose|i: int|
            0 <= i < rows.take(k + 1).len() && (#[trigger] rows.take(k + 1)[i]).id@ == id;
        if i < k {
            assert(rows.take(k)[i].id@ == id);
        } else {
            assert(rows[k].id@ == id);
        }
    }
    if row_exists(rows.take(k), id) {
        let i = choose|i: int|
            0 <= i < rows.take(k).len() && (#[trigger] rows.take(k)[i]).id@ == id;
        assert(rows.take(k + 1)[i].id@ == id);
    }
    if rows[k].id@ == id {
        assert(rows.take(k + 1)[k].id@ == id);
    }
}

/// The block store. Its abstract value is the sequence of its rows.
pub struct Persistor {
    ready: bool,
    rows: Vec<SavedBlock>,
}

impl View for Persistor {
    type V = Seq<SavedBlock>;

    closed spec fn view(&self) -> Seq<SavedBlock> {
        self.rows@
    }
}

impl Default for Persistor {
    /// An empty store whose backing table has not been set up yet.
    fn default() -> (r: Persistor)
        ensures
            r@ == Seq::<SavedBlock>::empty(),
            !r.is_ready(),
            r.wf(),
    {
        Persistor { ready: false, rows: Vec::new() }
    }
}

impl Persistor {
    /// The backing table exists: `setup` has run.
    pub closed spec fn is_ready(self) -> bool {
        self.ready
    }

    /// Every row of the store is well-formed.
    pub open spec fn wf(self) -> bool {
        forall|i: int| 0 <= i < self@.len() ==> self@[i].wf()
    }

    /// What `setup` does to the store: the backing table comes to exist
    /// and no row is touched.
    pub open spec fn setup_transition(pre: Persistor, post: Persistor) -> bool {
        &&& post@ == pre@
        &&& post.is_ready()
    }

    /// Idempotently ensures the backing table exists. Existing rows are
    /// never altered.
    pub fn setup(&mut self)
        ensures
            Persistor::setup_transition(*old(self), *final(self)),
            old(self).wf() ==> final(self).wf(),
    {
        self.ready = true;
        proof {
            if old(self).wf() {
                assert forall|i: int| 0 <= i < self@.len() implies #[trigger] self@[i].wf() by {
                    assert(self@[i] == old(self)@[i]);
                }
            }
        }
    }

    /// Appends one record.
    pub fn on_add(&mut self, block: SavedBlock)
        requires
            old(self).is_ready(),
            old(self).wf(),
            block.wf(),
        ensures
            final(self)@ == old(self)@.push(block),
            final(self).is_ready(),
            final(self).wf(),
    {
        self.rows.push(block);
    }

    /// Updates the position columns of every row carrying `id`, and
    /// reports whether any row did.
    pub fn on_move(&mut self, id: &String, x: i64, y: i64) -> (r: Result<(), StoreError>)
        requires
            old(self).is_ready(),
            old(self).wf(),
            in_world(x as int),
            in_world(y as int),
        ensures
            final(self)@ == rows_moved(old(self)@, id@, x, y),
            r is Ok <==> row_exists(old(self)@, id@),
            final(self).is_ready(),
            final(self).wf(),
    {
        let ghost orig = self@;
        let mut found = false;
        let n = self.rows.len();
        for k in 0..n
            invariant
                n == orig.len(),
                self.rows@.len() == orig.len(),
                self.ready,
                forall|i: int|
                    0 <= i < orig.len() ==> self.rows@[i] == (if i < k && orig[i].id@ == id@ {
                        orig[i].moved_to(x, y)
                    } else {
                        orig[i]
                    }),
                found <==> row_exists(orig.take(k as int), id@),
                in_world(x as int),
                in_world(y as int),
                forall|i: int| 0 <= i < orig.len() ==> orig[i].wf(),
        {
            if self.rows[k].id == *id {
                self.rows[k].x = x;
                self.rows[k].y = y;
                found = true;
            }
            proof {
                lemma_row_exists_extend(orig, k as int, id@);
            }
        }
        proof {
            assert(orig.take(n as int) =~= orig);
            assert(self.rows@ =~= rows_moved(orig, id@, x, y));
        }
        if found {
            Ok(())
        } else {
            Err(StoreError::NotFound)
        }
    }

    /// Updates the text column of every row carrying `id`, and reports
    /// whether any row did.
    pub fn on_data_change(&mut self, id: &String, data: String) -> (r: Result<(), StoreError>)
        requires
            old(self).is_ready(),
            old(self).wf(),
        ensures
            final(self)@.len() == old(self)@.len(),
            forall|i: int|
                0 <= i < old(self)@.len() ==> final(self)@[i] == (if old(self)@[i].id@ == id@ {
                    SavedBlock { block_data: data, ..old(self)@[i] }
                } else {
                    old(self)@[i]
                }),
            r is Ok <==> row_exists(old(self)@, id@),
            final(self).is_ready(),
            final(self).wf(),
    {
        let ghost orig = self@;
        let mut found = false;
        let n = self.rows.len();
        for k in 0..n
            invariant
                n == orig.len(),
                self.rows@.len() == orig.len(),
                self.ready,
                forall|i: int|
                    0 <= i < orig.len() ==> self.rows@[i] == (if i < k && orig[i].id@ == id@ {
                        SavedBlock { block_data: data, ..orig[i] }
                    } else {
                        orig[i]
                    }),
                found <==> row_exists(orig.take(k as int), id@),
                forall|i: int| 0 <= i < orig.len() ==> orig[i].wf(),
        {
            if self.rows[k].id == *id {
                self.rows[k].block_data = data.clone();
                found = true;
            }
            proof {
                lemma_row_exists_extend(orig, k as int, id@);
            }
        }
        proof {
            assert(orig.take(n as int) =~= orig);
        }
        if found {
            Ok(())
        } else {
            Err(StoreError::NotFound)
        }
    }

    /// Updates the size columns of every row carrying `id`, and reports
    /// whether any row did.
    pub fn on_size_change(&mut self, id: &String, width: i64, height: i64) -> (r: Result<
        (),
        StoreError,
    >)
        requires
            old(self).is_ready(),
            old(self).wf(),
            0 <= width <= COORD_LIMIT,
            0 <= height <= COORD_LIMIT,
        ensures
            final(self)@.len() == old(self)@.len(),
            forall|i: int|
                0 <= i < old(self)@.len() ==> final(self)@[i] == (if old(self)@[i].id@ == id@ {
                    SavedBlock { width, height, ..old(self)@[i] }
                } else {
                    old(self)@[i]
                }),
            r is Ok <==> row_exists(old(self)@, id@),
            final(self).is_ready(),
            final(self).wf(),
    {
        let ghost orig = self@;
        let mut found = false;
        let n = self.rows.len();
        for k in 0..n
            invariant
                n == orig.len(),
                self.rows@.len() == orig.len(),
                self.ready,
                forall|i: int|
                    0 <= i < orig.len() ==> self.rows@[i] == (if i < k && orig[i].id@ == id@ {
                        SavedBlock { width, height, ..orig[i] }
                    } else {
                        orig[i]
                    }),
                found <==> row_exists(orig.take(k as int), id@),
                0 <= width <= COORD_LIMIT,
                0 <= height <= COORD_LIMIT,
                forall|i: int| 0 <= i < orig.len() ==> orig[i].wf(),
        {
            if self.rows[k].id == *id {
                self.rows[k].width = width;
                self.rows[k].height = height;
                found = true;
            }
            proof {
                lemma_row_exists_extend(orig, k as int, id@);
            }
        }
        proof {
            assert(orig.take(n as int) =~= orig);
        }
        if found {
            Ok(())
        } else {
            Err(StoreError::NotFound)
        }
    }

    /// Returns every row whose box meets the query rectangle, in row
    /// order. Never fails: zero matches give an empty vector.
    pub fn load(&self, x_min: i64, x_max: i64, y_min: i64, y_max: i64) -> (r: Vec<SavedBlock>)
        requires
            self.is_ready(),
            self.wf(),
        ensures
            r@ == matching_rows(self@, x_min as int, x_max as int, y_min as int, y_max as int),
            forall|i: int| 0 <= i < r@.len() ==> r@[i].wf(),
    {
        let mut out: Vec<SavedBlock> = Vec::new();
        let n = self.rows.len();
        for k in 0..n
            invariant
                n == self@.len(),
                self.wf(),
                out@ == matching_rows(
                    self@.take(k as int),
                    x_min as int,
                    x_max as int,
                    y_min as int,
                    y_max as int,
                ),
                forall|i: int| 0 <= i < out@.len() ==> out@[i].wf(),
        {
            let row = &self.rows[k];
            proof {
                assert(self@.take(k + 1).drop_last() =~= self@.take(k as int));
                assert(self@.take(k + 1).last() == self@[k as int]);
            }
            if x_min < row.x + row.width && row.x < x_max && y_min < row.y + row.height && row.y
                < y_max {
                out.push(row.clone());
                proof {
                    assert(out@.last().id@ == self@[k as int].id@);
                    assert(out@.last() =~= self@[k as int]);
                    assert(out@ =~= matching_rows(
                        self@.take(k + 1),
                        x_min as int,
                        x_max as int,
                        y_min as int,
                        y_max as int,
                    ));
                }
            }
        }
        proof {
            assert(self@.take(n as int) =~= self@);
        }
        out
    }
}


/// Law: a query whose rectangle strictly contains the position point of
/// every row returns every row, in row order, each exactly once.
pub proof fn lemma_query_covering_bounds_returns_all(
    rows: Seq<SavedBlock>,
    x_min: int,
    x_max: int,
    y_min: int,
    y_max: int,
)
    requires
        forall|i: int| #![trigger rows[i]] 0 <= i < rows.len() ==> rows[i].wf(),
        forall|i: int|
            #![trigger rows[i]]
            0 <= i < rows.len() ==> x_min < rows[i].x && rows[i].x < x_max && y_min < rows[i].y
                && rows[i].y < y_max,
    ensures
        matching_rows(rows, x_min, x_max, y_min, y_max) == rows,
    decreases rows.len(),
{
    if rows.len() == 0 {
        assert(matching_rows(rows, x_min, x_max, y_min, y_max) =~= rows);
    } else {
        let prefix = rows.drop_last();
        assert(forall|i: int|
            #![trigger prefix[i]]
            0 <= i < prefix.len() ==> prefix[i] == rows[i]);
        lemma_query_covering_bounds_returns_all(prefix, x_min, x_max, y_min, y_max);
        assert(intersects_query(x_min, x_max, y_min, y_max, rows.last()));
        assert(prefix.push(rows.last()) =~= rows);
    }
}

/// Law: a query returns only rows of the store, and only rows whose box
/// meets the query rectangle.
pub proof fn lemma_query_returns_only_matching_rows(
    rows: Seq<SavedBlock>,
    x_min: int,
    x_max: int,
    y_min: int,
    y_max: int,
)
    ensures
        forall|b: SavedBlock|
            #[trigger] matching_rows(rows, x_min, x_max, y_min, y_max).contains(b) ==> rows.contains(
                b,
            ) && intersects_query(x_min, x_max, y_min, y_max, b),
    decreases rows.len(),
{
    broadcast use vstd::seq_lib::group_seq_properties;

    if rows.len() > 0 {
        let prefix = rows.drop_last();
        lemma_query_returns_only_matching_rows(prefix, x_min, x_max, y_min, y_max);
        assert forall|b: SavedBlock|
            #[trigger] matching_rows(rows, x_min, x_max, y_min, y_max).contains(
                b,
            ) implies rows.contains(b) && intersects_query(x_min, x_max, y_min, y_max, b) by {
            let rest = matching_rows(prefix, x_min, x_max, y_min, y_max);
            if rest.contains(b) {
                assert(prefix.contains(b));
                let i = choose|i: int| 0 <= i < prefix.len() && #[trigger] prefix[i] == b;
                assert(rows[i] == b);
            } else {
                assert(intersects_query(x_min, x_max, y_min, y_max, rows.last()));
                assert(b == rows.last());
                assert(rows[rows.len() - 1] == b);
            }
        }
    }
}

/// Law: a query returns every row of the store whose box meets the query
/// rectangle.
pub proof fn lemma_query_returns_matching_row(
    rows: Seq<SavedBlock>,
    x_min: int,
    x_max: int,
    y_min: int,
    y_max: int,
    k: int,
)
    requires
        0 <= k < rows.len(),
        intersects_query(x_min, x_max, y_min, y_max, rows[k]),
    ensures
        matching_rows(rows, x_min, x_max, y_min, y_max).contains(rows[k]),
    decreases rows.len(),
{
    broadcast use vstd::seq_lib::group_seq_properties;

    let m = matching_rows(rows, x_min, x_max, y_min, y_max);
    let prefix = rows.drop_last();
    let rest = matching_rows(prefix, x_min, x_max, y_min, y_max);
    if k == rows.len() - 1 {
        assert(m == rest.push(rows.last()));
        assert(m[m.len() - 1] == rows[k]);
    } else {
        assert(prefix[k] == rows[k]);
        lemma_query_returns_matching_row(prefix, x_min, x_max, y_min, y_max, k);
    }
}

/// Law: a block of nonzero size is never returned by a query whose
/// rectangle does not meet the block's box.
pub proof fn lemma_query_excludes_separated_block(
    rows: Seq<SavedBlock>,
    x_min: int,
    x_max: int,
    y_min: int,
    y_max: int,
    b: SavedBlock,
)
    requires
        0 < b.width,
        0 < b.height,
        x_max < b.x || b.x + b.width < x_min || y_max < b.y || b.y + b.height < y_min,
    ensures
        !matching_rows(rows, x_min, x_max, y_min, y_max).contains(b),
{
    lemma_query_returns_only_matching_rows(rows, x_min, x_max, y_min, y_max);
}

/// Law: a query whose rectangle does not meet the box of a stored block
/// of nonzero size returns no row carrying that block's identifier, when
/// no other row carries it.
pub proof fn lemma_query_excludes_separated_id(
    rows: Seq<SavedBlock>,
    x_min: int,
    x_max: int,
    y_min: int,
    y_max: int,
    k: int,
)
    requires
        0 <= k < rows.len(),
        forall|i: int| 0 <= i < rows.len() && (#[trigger] rows[i]).id@ == rows[k].id@ ==> i == k,
        0 < rows[k].width,
        0 < rows[k].height,
        x_max < rows[k].x || rows[k].x + rows[k].width < x_min || y_max < rows[k].y || rows[k].y
            + rows[k].height < y_min,
    ensures
        forall|b: SavedBlock|
            #[trigger] matching_rows(rows, x_min, x_max, y_min, y_max).contains(b) ==> b.id@
                != rows[k].id@,
{
    lemma_query_returns_only_matching_rows(rows, x_min, x_max, y_min, y_max);
    assert forall|b: SavedBlock|
        #[trigger] matching_rows(rows, x_min, x_max, y_min, y_max).contains(
            b,
        ) implies b.id@ != rows[k].id@ by {
        if b.id@ == rows[k].id@ {
            assert(rows.contains(b));
            let i = choose|i: int| 0 <= i < rows.len() && #[trigger] rows[i] == b;
            assert(rows[i].id@ == rows[k].id@);
            assert(b == rows[k]);
            assert(intersects_query(x_min, x_max, y_min, y_max, b));
        }
    }
}

/// Law: `setup` is idempotent. A second run neither fails (it never
/// fails) nor alters the rows the first run left behind.
pub proof fn lemma_setup_idempotent(pre: Persistor, mid: Persistor, post: Persistor)
    requires
        Persistor::setup_transition(pre, mid),
        Persistor::setup_transition(mid, post),
    ensures
        post@ == pre@,
        post.is_ready(),
{
}

/// Law: move-then-query round trip. After the single row carrying an
/// identifier is moved, a query of bounds that its new box does not meet
/// returns no row with that identifier, while a query of bounds that its
/// new box meets returns the row, carrying the updated coordinates.
pub proof fn lemma_move_then_query_round_trip(
    rows: Seq<SavedBlock>,
    k: int,
    nx: i64,
    ny: i64,
    ox_min: int,
    ox_max: int,
    oy_min: int,
    oy_max: int,
    nx_min: int,
    nx_max: int,
    ny_min: int,
    ny_max: int,
)
    requires
        0 <= k < rows.len(),
        forall|i: int|
            0 <= i < rows.len() && (#[trigger] rows[i]).id@ == rows[k].id@ ==> i == k,
        !intersects_query(ox_min, ox_max, oy_min, oy_max, rows[k].moved_to(nx, ny)),
        intersects_query(nx_min, nx_max, ny_min, ny_max, rows[k].moved_to(nx, ny)),
    ensures
        forall|b: SavedBlock|
            #[trigger] matching_rows(
                rows_moved(rows, rows[k].id@, nx, ny),
                ox_min,
                ox_max,
                oy_min,
                oy_max,
            ).contains(b) ==> b.id@ != rows[k].id@,
        matching_rows(rows_moved(rows, rows[k].id@, nx, ny), nx_min, nx_max, ny_min, ny_max)
            .contains(rows[k].moved_to(nx, ny)),
{
    let id = rows[k].id@;
    let moved = rows_moved(rows, id, nx, ny);
    let m = rows[k].moved_to(nx, ny);
    assert(moved[k] == m);
    lemma_query_returns_only_matching_rows(moved, ox_min, ox_max, oy_min, oy_max);
    assert forall|b: SavedBlock|
        #[trigger] matching_rows(moved, ox_min, ox_max, oy_min, oy_max).contains(
            b,
        ) implies b.id@ != id by {
        if b.id@ == id {
            assert(moved.contains(b));
            let i = choose|i: int| 0 <= i < moved.len() && #[trigger] moved[i] == b;
            assert(rows[i].id@ == id);
            assert(i == k);
            assert(b == m);
            assert(intersects_query(ox_min, ox_max, oy_min, oy_max, m));
        }
    }
    lemma_query_returns_matching_row(moved, nx_min, nx_max, ny_min, ny_max, k);
}

} // verus!
