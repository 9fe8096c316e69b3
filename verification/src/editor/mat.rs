//! A 2-dimensional dynamically sized matrix.

use vstd::prelude::*;

verus! {

/// 2-dimensional dynamically sized matrix
///
/// Either it has no rows, or all its rows have the same, nonzero, length.
pub struct Mat<T> {
    rows: Vec<Vec<T>>,
}

/// The entries of `rows[0..n]`, rows first.
pub open spec fn rows_first<T>(rows: Seq<Seq<T>>, n: nat) -> Seq<T>
    decreases n,
{
    if n == 0 || n > rows.len() {
        Seq::empty()
    } else {
        rows_first(rows, (n - 1) as nat) + rows[n - 1]
    }
}

/// Column `x` of `rows`, top to bottom.
pub open spec fn column<T>(rows: Seq<Seq<T>>, x: int) -> Seq<T> {
    Seq::new(rows.len(), |y: int| rows[y][x])
}

/// The entries of columns `0..n` of `rows`, columns first.
pub open spec fn columns_first<T>(rows: Seq<Seq<T>>, n: nat) -> Seq<T>
    decreases n,
{
    if n == 0 {
        Seq::empty()
    } else {
        columns_first(rows, (n - 1) as nat) + column(rows, n - 1)
    }
}

/// Whether `rows` is a matrix: no rows, or rows of one nonzero length.
pub open spec fn is_rectangular<T>(rows: Seq<Seq<T>>) -> bool {
    rows.len() == 0 || (rows[0].len() > 0 && forall|y: int| 0 <= y < rows.len() ==> #[trigger] rows[y].len() == rows[0].len())
}

/// The width of `rows`: the length of the first row, or 0.
pub open spec fn spec_width<T>(rows: Seq<Seq<T>>) -> nat {
    if rows.len() == 0 {
        0
    } else {
        rows[0].len()
    }
}

/// Entry `i` of the columns-first listing of an `h`-row matrix is at row `i % h` of column
/// `i / h`: the position from which the editor finds a listed layer's place in the matrix.
pub proof fn law_columns_first_position<T>(rows: Seq<Seq<T>>, n: nat, i: int)
    requires
        is_rectangular(rows),
        rows.len() > 0,
        n <= spec_width(rows),
        0 <= i < columns_first(rows, n).len(),
    ensures
        columns_first(rows, n).len() == n * rows.len(),
        columns_first(rows, n)[i] == rows[i % (rows.len() as int)][i / (rows.len() as int)],
    decreases n,
{
    lemma_columns_first_len(rows, n);
    let h = rows.len() as int;
    let m = (n - 1) as nat;
    lemma_columns_first_len(rows, m);
    if i < m * h {
        law_columns_first_position(rows, m, i);
    } else {
        let y = i - m * h;
        assert(0 <= y < h) by (nonlinear_arith)
            requires
                i < n * h,
                i >= m * h,
                m == n - 1,
                y == i - m * h,
        ;
        vstd::arithmetic::div_mod::lemma_fundamental_div_mod_converse(i, h, m as int, y);
    }
}

/// The columns-first listing of `n` columns of an `h`-row matrix has `n * h` entries.
pub proof fn lemma_columns_first_len<T>(rows: Seq<Seq<T>>, n: nat)
    ensures
        columns_first(rows, n).len() == n * rows.len(),
    decreases n,
{
    if n > 0 {
        let m = (n - 1) as nat;
        let h = rows.len();
        lemma_columns_first_len(rows, m);
        assert(column(rows, m as int).len() == h);
        assert(columns_first(rows, n) == columns_first(rows, m) + column(rows, m as int));
        assert(m * h + h == n * h) by (nonlinear_arith)
            requires
                m == n - 1,
        ;
    } else {
        assert(0 * rows.len() == 0) by (nonlinear_arith);
    }
}

impl<T> Mat<T> {
    /// The rows of the matrix, top to bottom.
    pub closed spec fn view(&self) -> Seq<Seq<T>> {
        Seq::new(self.rows@.len(), |y: int| self.rows@[y]@)
    }

    /// The matrix is rectangular.
    pub open spec fn wf(&self) -> bool {
        is_rectangular(self@)
    }

    /// An empty matrix.
    pub fn new() -> (m: Mat<T>)
        ensures
            m@ == Seq::<Seq<T>>::empty(),
            m.wf(),
    {
        let m = Mat { rows: Vec::new() };
        assert(m@ =~= Seq::<Seq<T>>::empty());
        m
    }

    /// The entries, rows first.
    pub fn iter_rf(&self) -> (entries: Vec<&T>)
        requires
            self.wf(),
        ensures
            entries@.len() == rows_first(self@, self@.len()).len(),
            forall|i: int|
                0 <= i < entries@.len() ==> *#[trigger] entries@[i] == rows_first(self@, self@.len())[i],
    {
        let mut entries: Vec<&T> = Vec::new();
        let mut y: usize = 0;
        while y < self.rows.len()
            invariant
                y <= self@.len(),
                self@.len() == self.rows@.len(),
                entries@.len() == rows_first(self@, y as nat).len(),
                forall|i: int|
                    0 <= i < entries@.len() ==> *#[trigger] entries@[i] == rows_first(self@, y as nat)[i],
            decreases self@.len() - y,
        {
            let row = &self.rows[y];
            let ghost before = rows_first(self@, y as nat);
            assert(row@ == self@[y as int]);
            let mut x: usize = 0;
            while x < row.len()
                invariant
                    x <= row@.len(),
                    entries@.len() == before.len() + x,
                    forall|i: int|
                        0 <= i < entries@.len() ==> *#[trigger] entries@[i] == (before + row@)[i],
                decreases row@.len() - x,
            {
                entries.push(&row[x]);
                x = x + 1;
            }
            y = y + 1;
            assert(rows_first(self@, y as nat) == before + row@);
        }
        entries
    }

    /// The entries, columns first.
    pub fn iter_cf(&self) -> (entries: Vec<&T>)
        requires
            self.wf(),
        ensures
            entries@.len() == columns_first(self@, spec_width(self@)).len(),
            forall|i: int|
                0 <= i < entries@.len() ==> *#[trigger] entries@[i] == columns_first(self@, spec_width(self@))[i],
    {
        let height = self.height();
        let width = self.width();
        let mut entries: Vec<&T> = Vec::new();
        let mut x: usize = 0;
        while x < width
            invariant
                is_rectangular(self@),
                width == spec_width(self@),
                height == self@.len(),
                self@.len() == self.rows@.len(),
                x <= width,
                entries@.len() == columns_first(self@, x as nat).len(),
                forall|i: int|
                    0 <= i < entries@.len() ==> *#[trigger] entries@[i] == columns_first(self@, x as nat)[i],
            decreases width - x,
        {
            let ghost before = columns_first(self@, x as nat);
            let ghost col = column(self@, x as int);
            let mut y: usize = 0;
            while y < height
                invariant
                    is_rectangular(self@),
                    width == spec_width(self@),
                    height == self@.len(),
                    self@.len() == self.rows@.len(),
                    x < width,
                    y <= height,
                    col == column(self@, x as int),
                    entries@.len() == before.len() + y,
                    forall|i: int|
                        0 <= i < entries@.len() ==> *#[trigger] entries@[i] == (before + col)[i],
                decreases height - y,
            {
                assert(self.rows@[y as int]@ == self@[y as int]);
                entries.push(&self.rows[y][x]);
                y = y + 1;
            }
            x = x + 1;
            assert(columns_first(self@, x as nat) == before + col);
        }
        entries
    }

    /// The entry at column `x` of row `y`, if there is one.
    pub fn get_mut(&mut self, x: usize, y: usize) -> (r: Option<&mut T>)
        requires
            old(self).wf(),
        ensures
            r is Some <==> (x < spec_width(old(self)@) && y < old(self)@.len()),
            r is None ==> final(self)@ == old(self)@,
            r matches Some(e) ==> *e == old(self)@[y as int][x as int],
            r matches Some(e) ==> final(self)@ == old(self)@.update(
                y as int,
                old(self)@[y as int].update(x as int, *final(e)),
            ),
            final(self).wf(),
    {
        if x >= self.width() || y >= self.height() {
            return None;
        }
        assert(self.rows@[y as int]@ == self@[y as int]);
        assert(self@[y as int].len() == spec_width(self@));
        Some(&mut self.rows[y][x])
    }

    /// The number of rows.
    pub fn height(&self) -> (h: usize)
        ensures
            h == self@.len(),
    {
        self.rows.len()
    }

    /// The number of columns.
    pub fn width(&self) -> (w: usize)
        ensures
            w == spec_width(self@),
    {
        if self.rows.len() == 0 {
            0
        } else {
            self.rows[0].len()
        }
    }

    /// The width and the height.
    pub fn size(&self) -> (s: (usize, usize))
        ensures
            s == (spec_width(self@) as usize, self@.len() as usize),
    {
        (self.width(), self.height())
    }

    /// Adds a row at the bottom whose entries are clones of `t` (one entry if the matrix is
    /// empty).
    pub fn push_row(&mut self, t: T) where T: Clone
        requires
            old(self).wf(),
        ensures
            final(self).wf(),
            final(self)@.len() == old(self)@.len() + 1,
            final(self)@.take(old(self)@.len() as int) == old(self)@,
            final(self)@.last().len() == if old(self)@.len() == 0 { 1 } else { spec_width(old(self)@) },
            forall|x: int| 0 <= x < final(self)@.last().len() ==> cloned(t, #[trigger] final(self)@.last()[x]),
    {
        let width = self.width();
        if width == 0 {
            self.rows.push(vec![t]);
        } else {
            self.rows.push(vec![t; width]);
        }
        assert(self@.take(old(self)@.len() as int) =~= old(self)@);
        assert forall|y: int| 0 <= y < self@.len() implies #[trigger] self@[y].len() == self@[0].len() by {
            if y < old(self)@.len() {
                assert(self@[y] == old(self)@[y]);
            }
        }
    }

    /// Adds a column at the right whose entries are clones of `t` (or, in an empty matrix, a
    /// row with one entry).
    pub fn push_col(&mut self, t: T) where T: Clone
        requires
            old(self).wf(),
        ensures
            final(self).wf(),
            old(self)@.len() == 0 ==> final(self)@.len() == 1 && final(self)@[0].len() == 1 && cloned(t, final(self)@[0][0]),
            old(self)@.len() > 0 ==> final(self)@.len() == old(self)@.len() && forall|y: int| 0 <= y < old(self)@.len() ==>
                #[trigger] final(self)@[y].len() == old(self)@[y].len() + 1
                && final(self)@[y].take(old(self)@[y].len() as int) == old(self)@[y]
                && cloned(t, final(self)@[y].last()),
    {
        let height = self.height();
        if height == 0 {
            self.rows.push(vec![t]);
        } else {
            let mut y: usize = 0;
            while y < height
                invariant
                    is_rectangular(old(self)@),
                    height == old(self)@.len(),
                    height > 0,
                    self.rows@.len() == height,
                    y <= height,
                    forall|j: int| 0 <= j < y ==> #[trigger] self.rows@[j]@.len() == old(self)@[j].len() + 1
                        && self.rows@[j]@.take(old(self)@[j].len() as int) == old(self)@[j]
                        && cloned(t, self.rows@[j]@.last()),
                    forall|j: int| y <= j < height ==> #[trigger] self.rows@[j]@ == old(self)@[j],
                decreases height - y,
            {
                let c = t.clone();
                self.rows[y].push(c);
                y = y + 1;
            }
        }
        assert(self@.len() == self.rows@.len());
    }

    /// Removes row `y`; removing the last row leaves an empty matrix.
    pub fn remove_row(&mut self, y: usize)
        requires
            old(self).wf(),
            y < old(self)@.len(),
        ensures
            final(self).wf(),
            final(self)@ == old(self)@.remove(y as int),
    {
        if self.height() == 1 {
            self.rows.clear();
        } else {
            self.rows.remove(y);
        }
        assert(self@ =~= old(self)@.remove(y as int));
    }

    /// Removes column `x`; removing the last column leaves an empty matrix.
    pub fn remove_col(&mut self, x: usize)
        requires
            old(self).wf(),
            x < spec_width(old(self)@),
        ensures
            final(self).wf(),
            spec_width(old(self)@) == 1 ==> final(self)@ == Seq::<Seq<T>>::empty(),
            spec_width(old(self)@) > 1 ==> final(self)@ == Seq::new(old(self)@.len(), |y: int| old(self)@[y].remove(x as int)),
            spec_width(old(self)@) > 1 ==> final(self)@.len() == old(self)@.len() && spec_width(final(self)@)
                == spec_width(old(self)@) - 1,
    {
        if self.width() == 1 {
            self.rows.clear();
            assert(self@ =~= Seq::<Seq<T>>::empty());
        } else {
            let height = self.height();
            let mut y: usize = 0;
            while y < height
                invariant
                    is_rectangular(old(self)@),
                    x < spec_width(old(self)@),
                    height == old(self)@.len(),
                    self.rows@.len() == height,
                    y <= height,
                    forall|j: int| 0 <= j < y ==> #[trigger] self.rows@[j]@ == old(self)@[j].remove(x as int),
                    forall|j: int| y <= j < height ==> #[trigger] self.rows@[j]@ == old(self)@[j],
                decreases height - y,
            {
                self.rows[y].remove(x);
                y = y + 1;
            }
            assert(self@ =~= Seq::new(old(self)@.len(), |y: int| old(self)@[y].remove(x as int)));
        }
    }
}

impl<T> Default for Mat<T> {
    fn default() -> (m: Mat<T>)
        ensures
            m@ == Seq::<Seq<T>>::empty(),
    {
        Mat::new()
    }
}

} // verus!
