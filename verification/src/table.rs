//! Generic row/column table models used to render any entity's attributes as
//! a grid of stringified cells.
//!
//! A [`SimpleTableDataModel`] is a flat ordered sequence of cells addressed
//! row-major with a fixed column count; a column count of zero marks a table
//! that has not been built yet.  A [`CompoundTableDataModel`] concatenates
//! several simple tables vertically, exposing the maximum column count across
//! children and the sum of their row counts.

use vstd::prelude::*;

verus! {

/// Rows needed for `len` cells at `cols` per row: the ceiling of `len / cols`,
/// so a trailing partial row still counts as one row.
pub open spec fn table_rows(len: int, cols: int) -> int {
    if cols <= 0 || len <= 0 {
        0
    } else {
        (len + cols - 1) / cols
    }
}

/// A flat table of cells in row-major order with a fixed column count.
#[derive(Debug)]
pub struct SimpleTableDataModel {
    col_count: usize,
    data: Vec<String>,
}

impl SimpleTableDataModel {
    /// The cell contents, row-major.
    pub closed spec fn cells(self) -> Seq<Seq<char>> {
        self.data@.map_values(|s: String| s@)
    }

    pub closed spec fn spec_col_count(self) -> int {
        self.col_count as int
    }

    /// A table is "empty" when no column count has been configured yet; this
    /// is the "not yet built" sentinel, distinct from having zero data rows.
    pub open spec fn spec_is_empty(self) -> bool {
        self.spec_col_count() == 0
    }

    pub open spec fn spec_row_count(self) -> int {
        table_rows(self.cells().len() as int, self.spec_col_count())
    }

    /// The cell at `(col, row)`, or `None` when the column is out of the
    /// configured width or the linear index runs past the data.
    pub open spec fn spec_cell_at(self, col: int, row: int) -> Option<Seq<char>> {
        if 0 <= col < self.spec_col_count() && 0 <= row && row * self.spec_col_count() + col
            < self.cells().len() {
            Some(self.cells()[row * self.spec_col_count() + col])
        } else {
            None
        }
    }

    pub fn new(col_count: usize) -> (r: Self)
        ensures
            r.spec_col_count() == col_count,
            r.cells() =~= Seq::<Seq<char>>::empty(),
    {
        SimpleTableDataModel { col_count, data: Vec::new() }
    }

    /// Establishes the fixed column width; called exactly once, before any
    /// cell is pushed.
    pub fn set_columns(&mut self, cols: usize)
        requires
            old(self).spec_is_empty(),
            cols >= 1,
        ensures
            final(self).spec_col_count() == cols,
            final(self).cells() == old(self).cells(),
            !final(self).spec_is_empty(),
    {
        self.col_count = cols;
    }

    /// Appends one cell in row-major order.
    pub fn push(&mut self, cell: String)
        requires
            !old(self).spec_is_empty(),
        ensures
            final(self).spec_col_count() == old(self).spec_col_count(),
            final(self).cells() =~= old(self).cells().push(cell@),
    {
        self.data.push(cell);
        proof {
            assert(self.data@ =~= old(self).data@.push(cell));
        }
    }

    /// Bulk variant of `push`: appends every cell of `other` in order.
    pub fn append(&mut self, other: Vec<String>)
        requires
            !old(self).spec_is_empty(),
        ensures
            final(self).spec_col_count() == old(self).spec_col_count(),
            final(self).cells() =~= old(self).cells() + other@.map_values(|s: String| s@),
    {
        let ghost orig = other@;
        let mut other = other;
        self.data.append(&mut other);
        proof {
            assert(self.cells() =~= old(self).cells() + orig.map_values(|s: String| s@));
        }
    }

    /// Removes and returns the last cell, if there is one.
    pub fn pop(&mut self) -> (r: Option<String>)
        ensures
            final(self).spec_col_count() == old(self).spec_col_count(),
            old(self).cells().len() == 0 ==> r is None && final(self).cells() == old(self).cells(),
            old(self).cells().len() > 0 ==> final(self).cells() =~= old(self).cells().drop_last()
                && (match r {
                Some(s) => s@ == old(self).cells().last(),
                None => false,
            }),
    {
        let r = self.data.pop();
        proof {
            if old(self).data@.len() > 0 {
                assert(self.cells() =~= old(self).cells().drop_last());
            }
        }
        r
    }

    pub fn is_empty(&self) -> (r: bool)
        ensures
            r == self.spec_is_empty(),
    {
        self.col_count == 0
    }

    pub fn col_count(&self) -> (r: usize)
        ensures
            r == self.spec_col_count(),
    {
        self.col_count
    }

    pub fn row_count(&self) -> (r: usize)
        ensures
            r == self.spec_row_count(),
    {
        let n = self.data.len();
        if n == 0 || self.col_count == 0 {
            return 0;
        }
        let q = n / self.col_count;
        let rem = n % self.col_count;
        proof {
            let len = n as int;
            let cols = self.col_count as int;
            vstd::arithmetic::div_mod::lemma_fundamental_div_mod(len, cols);
            vstd::arithmetic::div_mod::lemma_mod_division_less_than_divisor(len, cols);
            vstd::arithmetic::mul::lemma_mul_is_distributive_add_other_way(cols, len / cols, 1);
            if len % cols == 0 {
                vstd::arithmetic::div_mod::lemma_fundamental_div_mod_converse(
                    len + cols - 1,
                    cols,
                    len / cols,
                    cols - 1,
                );
            } else {
                vstd::arithmetic::div_mod::lemma_div_decreases(len, cols);
                vstd::arithmetic::div_mod::lemma_fundamental_div_mod_converse(
                    len + cols - 1,
                    cols,
                    len / cols + 1,
                    len % cols - 1,
                );
            }
        }
        if rem > 0 {
            q + 1
        } else {
            q
        }
    }

    /// The cell at `(col, row)`; out of bounds is a benign "no content"
    /// condition, not a failure.
    pub fn cell_at(&self, col: usize, row: usize) -> (r: Option<String>)
        ensures
            match (r, self.spec_cell_at(col as int, row as int)) {
                (Some(s), Some(c)) => s@ == c,
                (None, None) => true,
                _ => false,
            },
    {
        let n = self.data.len();
        if col >= self.col_count {
            return None;
        }
        match row.checked_mul(self.col_count) {
            Some(prod) => match prod.checked_add(col) {
                Some(idx) => if idx < n {
                    Some(self.data[idx].clone())
                } else {
                    None
                },
                None => None,
            },
            None => None,
        }
    }
}

impl Default for SimpleTableDataModel {
    /// A fresh model with no columns configured and no cells.
    fn default() -> (r: Self)
        ensures
            r.spec_is_empty(),
            r.cells() =~= Seq::<Seq<char>>::empty(),
    {
        SimpleTableDataModel::new(0)
    }
}

/// The largest column count among `ts`, or zero when there are none.
pub open spec fn max_cols_of(ts: Seq<SimpleTableDataModel>) -> int
    decreases ts.len(),
{
    if ts.len() == 0 {
        0
    } else if ts.first().spec_col_count() >= max_cols_of(ts.drop_first()) {
        ts.first().spec_col_count()
    } else {
        max_cols_of(ts.drop_first())
    }
}

/// The sum of the row counts of `ts`.
pub open spec fn total_rows_of(ts: Seq<SimpleTableDataModel>) -> int
    decreases ts.len(),
{
    if ts.len() == 0 {
        0
    } else {
        ts.first().spec_row_count() + total_rows_of(ts.drop_first())
    }
}

/// Walks `ts` in order, subtracting each child's row count from `row` until
/// the owning child is found, then delegates with the local row index.
pub open spec fn lookup_cell(ts: Seq<SimpleTableDataModel>, col: int, row: int) -> Option<
    Seq<char>,
>
    decreases ts.len(),
{
    if ts.len() == 0 {
        None
    } else if row < ts.first().spec_row_count() {
        ts.first().spec_cell_at(col, row)
    } else {
        lookup_cell(ts.drop_first(), col, row - ts.first().spec_row_count())
    }
}

proof fn lemma_max_cols_push(ts: Seq<SimpleTableDataModel>, t: SimpleTableDataModel)
    ensures
        max_cols_of(ts.push(t)) == if t.spec_col_count() >= max_cols_of(ts) {
            t.spec_col_count()
        } else {
            max_cols_of(ts)
        },
    decreases ts.len(),
{
    if ts.len() == 0 {
        assert(ts.push(t).first() == t);
        assert(ts.push(t).drop_first() =~= Seq::<SimpleTableDataModel>::empty());
        assert(max_cols_of(Seq::<SimpleTableDataModel>::empty()) == 0);
    } else {
        assert(ts.push(t).first() == ts.first());
        assert(ts.push(t).drop_first() =~= ts.drop_first().push(t));
        lemma_max_cols_push(ts.drop_first(), t);
    }
}

proof fn lemma_total_rows_push(ts: Seq<SimpleTableDataModel>, t: SimpleTableDataModel)
    ensures
        total_rows_of(ts.push(t)) == total_rows_of(ts) + t.spec_row_count(),
    decreases ts.len(),
{
    if ts.len() == 0 {
        assert(ts.push(t).first() == t);
        assert(ts.push(t).drop_first() =~= Seq::<SimpleTableDataModel>::empty());
        assert(total_rows_of(Seq::<SimpleTableDataModel>::empty()) == 0);
    } else {
        assert(ts.push(t).first() == ts.first());
        assert(ts.push(t).drop_first() =~= ts.drop_first().push(t));
        lemma_total_rows_push(ts.drop_first(), t);
    }
}

/// Several simple tables stacked vertically: the column count is the maximum
/// across children (narrower children report absent cells for the extra
/// columns) and the row count is the sum of the children's.
#[derive(Debug)]
pub struct CompoundTableDataModel {
    max_cols: usize,
    total_rows: usize,
    tables: Vec<SimpleTableDataModel>,
}

impl CompoundTableDataModel {
    /// The child tables, in insertion order.
    pub closed spec fn children(self) -> Seq<SimpleTableDataModel> {
        self.tables@
    }

    /// The cached column and row totals agree with the children.
    pub closed spec fn wf(self) -> bool {
        &&& self.max_cols as int == max_cols_of(self.children())
        &&& self.total_rows as int == total_rows_of(self.children())
    }

    /// The cell at `(col, row)`: global rows are routed to the owning child
    /// in insertion order.
    pub open spec fn spec_cell_at(self, col: int, row: int) -> Option<Seq<char>> {
        if col >= max_cols_of(self.children()) {
            None
        } else {
            lookup_cell(self.children(), col, row)
        }
    }

    pub fn new() -> (r: Self)
        ensures
            r.wf(),
            r.children() =~= Seq::<SimpleTableDataModel>::empty(),
    {
        CompoundTableDataModel { max_cols: 0, total_rows: 0, tables: Vec::new() }
    }

    /// Appends one child table, widening the compound column count and
    /// extending the total row count as needed.
    pub fn push(&mut self, table: SimpleTableDataModel)
        requires
            old(self).wf(),
            total_rows_of(old(self).children()) + table.spec_row_count() <= usize::MAX,
        ensures
            final(self).wf(),
            final(self).children() =~= old(self).children().push(table),
    {
        proof {
            lemma_max_cols_push(self.tables@, table);
            lemma_total_rows_push(self.tables@, table);
        }
        let cols = table.col_count();
        if cols > self.max_cols {
            self.max_cols = cols;
        }
        let rows = table.row_count();
        self.total_rows = self.total_rows + rows;
        self.tables.push(table);
    }

    /// True when no child has been added yet.
    pub fn is_empty(&self) -> (r: bool)
        ensures
            r == (self.children().len() == 0),
    {
        self.tables.len() == 0
    }

    pub fn col_count(&self) -> (r: usize)
        requires
            self.wf(),
        ensures
            r == max_cols_of(self.children()),
    {
        self.max_cols
    }

    pub fn row_count(&self) -> (r: usize)
        requires
            self.wf(),
        ensures
            r == total_rows_of(self.children()),
    {
        self.total_rows
    }

    /// The cell at `(col, row)`, delegating to the child that owns the row.
    pub fn cell_at(&self, col: usize, row: usize) -> (r: Option<String>)
        requires
            self.wf(),
        ensures
            match (r, self.spec_cell_at(col as int, row as int)) {
                (Some(s), Some(c)) => s@ == c,
                (None, None) => true,
                _ => false,
            },
    {
        if col >= self.max_cols {
            return None;
        }
        let mut local_row = row;
        let mut i: usize = 0;
        proof {
            assert(self.children().skip(0) =~= self.children());
        }
        while i < self.tables.len()
            invariant
                0 <= i <= self.tables@.len(),
                col < max_cols_of(self.children()),
                local_row <= row,
                lookup_cell(self.children(), col as int, row as int) == lookup_cell(
                    self.children().skip(i as int),
                    col as int,
                    local_row as int,
                ),
            decreases self.tables@.len() - i,
        {
            proof {
                assert(self.children().skip(i as int).first() == self.children()[i as int]);
                assert(self.children().skip(i as int).drop_first() =~= self.children().skip(
                    i as int + 1,
                ));
            }
            let rc = self.tables[i].row_count();
            if local_row < rc {
                return self.tables[i].cell_at(col, local_row);
            }
            local_row = local_row - rc;
            i = i + 1;
        }
        proof {
            assert(self.children().skip(i as int) =~= Seq::<SimpleTableDataModel>::empty());
        }
        None
    }
}

impl Default for CompoundTableDataModel {
    /// A compound model with no children.
    fn default() -> (r: Self)
        ensures
            r.wf(),
            r.children() =~= Seq::<SimpleTableDataModel>::empty(),
    {
        CompoundTableDataModel::new()
    }
}

/// The sum of the row counts of the first `k` children: the number of global
/// rows that precede child `k`.
pub open spec fn rows_before(ts: Seq<SimpleTableDataModel>, k: int) -> int {
    total_rows_of(ts.take(k))
}

proof fn lemma_rows_before_succ(ts: Seq<SimpleTableDataModel>, k: int)
    requires
        0 <= k < ts.len(),
    ensures
        rows_before(ts, k + 1) == rows_before(ts, k) + ts[k].spec_row_count(),
{
    assert(ts.take(k + 1) =~= ts.take(k).push(ts[k]));
    lemma_total_rows_push(ts.take(k), ts[k]);
}

proof fn lemma_row_count_nonneg(t: SimpleTableDataModel)
    ensures
        t.spec_row_count() >= 0,
{
    if t.cells().len() > 0 && t.spec_col_count() > 0 {
        vstd::arithmetic::div_mod::lemma_div_pos_is_pos(
            t.cells().len() as int + t.spec_col_count() - 1,
            t.spec_col_count(),
        );
    }
}

proof fn lemma_rows_nonneg(ts: Seq<SimpleTableDataModel>)
    ensures
        total_rows_of(ts) >= 0,
    decreases ts.len(),
{
    if ts.len() > 0 {
        lemma_row_count_nonneg(ts.first());
        lemma_rows_nonneg(ts.drop_first());
    }
}

/// Row routing law: a global row index that falls within the row span of
/// child `k` is answered by child `k` at the local index obtained by
/// subtracting the rows of the children before it.
pub proof fn lemma_compound_row_routing(
    m: CompoundTableDataModel,
    col: int,
    row: int,
    k: int,
)
    requires
        0 <= k < m.children().len(),
        rows_before(m.children(), k) <= row < rows_before(m.children(), k + 1),
        0 <= col < max_cols_of(m.children()),
    ensures
        m.spec_cell_at(col, row) == m.children()[k].spec_cell_at(
            col,
            row - rows_before(m.children(), k),
        ),
    decreases k,
{
    let ts = m.children();
    lemma_rows_before_succ(ts, k);
    if k == 0 {
        assert(ts.take(0) =~= Seq::<SimpleTableDataModel>::empty());
        lemma_lookup_in_child(ts, col, row, k);
    } else {
        lemma_lookup_in_child(ts, col, row, k);
    }
}

proof fn lemma_lookup_in_child(ts: Seq<SimpleTableDataModel>, col: int, row: int, k: int)
    requires
        0 <= k < ts.len(),
        rows_before(ts, k) <= row < rows_before(ts, k + 1),
    ensures
        lookup_cell(ts, col, row) == ts[k].spec_cell_at(col, row - rows_before(ts, k)),
    decreases k,
{
    lemma_rows_before_succ(ts, k);
    if k == 0 {
        assert(ts.take(0) =~= Seq::<SimpleTableDataModel>::empty());
        assert(rows_before(ts, 0) == 0);
        assert(row < ts[0].spec_row_count());
        assert(ts.first() == ts[0]);
    } else {
        let rest = ts.drop_first();
        assert(ts.take(1) =~= Seq::<SimpleTableDataModel>::empty().push(ts[0]));
        lemma_total_rows_push(Seq::<SimpleTableDataModel>::empty(), ts[0]);
        assert(rows_before(ts, 1) == ts[0].spec_row_count());
        lemma_rows_before_shift(ts, k);
        lemma_rows_before_shift(ts, k + 1);
        lemma_rows_before_monotone(ts, 1, k);
        assert(row >= ts.first().spec_row_count());
        lemma_lookup_in_child(rest, col, row - ts.first().spec_row_count(), k - 1);
        assert(rest[k - 1] == ts[k]);
    }
}

proof fn lemma_rows_before_shift(ts: Seq<SimpleTableDataModel>, k: int)
    requires
        1 <= k <= ts.len(),
    ensures
        rows_before(ts, k) == ts.first().spec_row_count() + rows_before(ts.drop_first(), k - 1),
    decreases k,
{
    assert(ts.take(k).first() == ts.first());
    assert(ts.take(k).drop_first() =~= ts.drop_first().take(k - 1));
}

proof fn lemma_rows_before_monotone(ts: Seq<SimpleTableDataModel>, j: int, k: int)
    requires
        0 <= j <= k <= ts.len(),
    ensures
        rows_before(ts, j) <= rows_before(ts, k),
    decreases k - j,
{
    if j < k {
        lemma_rows_before_succ(ts, k - 1);
        lemma_row_count_nonneg(ts[k - 1]);
        lemma_rows_before_monotone(ts, j, k - 1);
    }
}

} // verus!
