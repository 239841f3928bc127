//! A table of equal-length columns, and its conversion into a dense
//! column-major matrix buffer.

use vstd::prelude::*;

use crate::column::{Column, ConversionError, column_to_vector};

verus! {

/// An ordered collection of equal-length named columns.
#[derive(Debug, Clone)]
pub struct Table {
    pub columns: Vec<Column>,
}

/// A dense, fully populated matrix of double-precision bit patterns, stored
/// column-major: all values of column 0, then column 1, and so on.
#[derive(Debug, Clone, PartialEq, Eq)]
pub struct DenseMatrix {
    pub data: Vec<u64>,
    pub nrows: usize,
    pub ncols: usize,
}

impl DenseMatrix {
    /// The buffer holds exactly one value per cell of the matrix.
    pub open spec fn well_formed(&self) -> bool {
        self.data@.len() == self.nrows * self.ncols
    }

    /// The element at row `r`, column `c` of the column-major buffer.
    pub open spec fn spec_get(&self, r: int, c: int) -> u64
        recommends
            self.well_formed(),
            0 <= r < self.nrows,
            0 <= c < self.ncols,
    {
        self.data@[c * self.nrows + r]
    }

    /// Reads the element at row `r`, column `c`.
    pub fn get(&self, r: usize, c: usize) -> (x: u64)
        requires
            self.well_formed(),
            r < self.nrows,
            c < self.ncols,
        ensures
            x == self.spec_get(r as int, c as int),
    {
        let len = self.data.len();
        proof {
            assert(c * self.nrows + r < len) by (nonlinear_arith)
                requires
                    r < self.nrows,
                    c < self.ncols,
                    len == self.nrows * self.ncols,
            ;
        }
        self.data[c * self.nrows + r]
    }
}

impl Table {
    /// The table's row count: the shared length of its columns (zero when it
    /// has no columns).
    pub open spec fn spec_height(&self) -> nat {
        if self.columns@.len() == 0 {
            0
        } else {
            self.columns@[0].values.spec_len()
        }
    }

    /// The table's column count.
    pub open spec fn spec_width(&self) -> nat {
        self.columns@.len()
    }

    /// The table invariant: every column has the same length.
    pub open spec fn well_formed(&self) -> bool {
        forall|i: int|
            0 <= i < self.columns@.len() ==> (#[trigger] self.columns@[i].values.spec_len())
                == self.spec_height()
    }

    /// Whether every column's declared type is convertible.
    pub open spec fn all_eligible(&self) -> bool {
        forall|i: int| 0 <= i < self.columns@.len() ==> (#[trigger] self.columns@[i]).values.eligible()
    }

    /// The row count, as an executable query.
    pub fn height(&self) -> (h: usize)
        ensures
            h == self.spec_height(),
    {
        if self.columns.len() == 0 {
            0
        } else {
            self.columns[0].values.len()
        }
    }

    /// The column count, as an executable query.
    pub fn width(&self) -> (w: usize)
        ensures
            w == self.spec_width(),
    {
        self.columns.len()
    }
}

/// The column-major concatenation of the converted columns, in table order.
pub open spec fn concat_converted(cols: Seq<Column>) -> Seq<u64>
    decreases cols.len(),
{
    if cols.len() == 0 {
        Seq::empty()
    } else {
        concat_converted(cols.drop_last()) + cols.last().values.converted()
    }
}

/// The display name of the declared type of the first ineligible column.
pub open spec fn first_rejected_name(cols: Seq<Column>) -> Seq<char>
    decreases cols.len(),
{
    if cols.len() == 0 {
        Seq::empty()
    } else if !cols[0].values.eligible() {
        cols[0].values.rejected_name()
    } else {
        first_rejected_name(cols.drop_first())
    }
}

proof fn lemma_first_rejected(cols: Seq<Column>, c: int)
    requires
        0 <= c < cols.len(),
        forall|i: int| 0 <= i < c ==> (#[trigger] cols[i]).values.eligible(),
        !cols[c].values.eligible(),
    ensures
        first_rejected_name(cols) == cols[c].values.rejected_name(),
    decreases c,
{
    if c > 0 {
        lemma_first_rejected(cols.drop_first(), c - 1);
    }
}

proof fn lemma_concat_len(cols: Seq<Column>, h: nat)
    requires
        forall|i: int|
            0 <= i < cols.len() ==> (#[trigger] cols[i]).values.eligible()
                && cols[i].values.spec_len() == h,
    ensures
        concat_converted(cols).len() == cols.len() * h,
    decreases cols.len(),
{
    if cols.len() > 0 {
        lemma_concat_len(cols.drop_last(), h);
        assert(cols.last().values.converted().len() == h);
        assert((cols.len() - 1) * h + h == cols.len() * h) by (nonlinear_arith);
    }
}

proof fn lemma_concat_index(cols: Seq<Column>, h: nat, r: int, c: int)
    requires
        forall|i: int|
            0 <= i < cols.len() ==> (#[trigger] cols[i]).values.eligible()
                && cols[i].values.spec_len() == h,
        0 <= r < h,
        0 <= c < cols.len(),
    ensures
        concat_converted(cols)[c * h + r] == cols[c].values.converted()[r],
    decreases cols.len(),
{
    lemma_concat_len(cols.drop_last(), h);
    if c == cols.len() - 1 {
        assert(c * h + r - (cols.len() - 1) * h == r);
    } else {
        lemma_concat_index(cols.drop_last(), h, r, c);
        assert(c * h + r < (cols.len() - 1) * h) by (nonlinear_arith)
            requires
                0 <= r < h,
                0 <= c < cols.len() - 1,
        ;
    }
}

/// Law: for a well-formed table whose columns are all eligible, element
/// (`r`, `c`) of the matrix produced by [`table_to_matrix`] is element `r` of
/// the converted column `c` — table conversion is exactly the column-major
/// concatenation of independent column conversions.
pub proof fn lemma_matrix_element(table: Table, m: DenseMatrix, r: int, c: int)
    requires
        table.well_formed(),
        table.all_eligible(),
        m.nrows == table.spec_height(),
        m.ncols == table.spec_width(),
        m.data@ == concat_converted(table.columns@),
        0 <= r < m.nrows,
        0 <= c < m.ncols,
    ensures
        m.spec_get(r, c) == table.columns@[c].values.converted()[r],
{
    lemma_concat_index(table.columns@, table.spec_height(), r, c);
}

/// Converts a table into a dense column-major matrix with one element per
/// cell, or fails: with `EmptyInput` when the table has zero rows or zero
/// columns, and with `TypeMismatch` naming the first ineligible column's
/// declared type when one exists. No partial matrix is ever returned.
pub fn table_to_matrix(table: &Table) -> (result: Result<DenseMatrix, ConversionError>)
    requires
        table.well_formed(),
    ensures
        (table.spec_height() == 0 || table.spec_width() == 0) ==> result == Err::<
            DenseMatrix,
            ConversionError,
        >(ConversionError::EmptyInput),
        (table.spec_height() > 0 && table.spec_width() > 0 && !table.all_eligible()) ==> (result
            matches Err(e) && e matches ConversionError::TypeMismatch(n) && n@
            == first_rejected_name(table.columns@)),
        (table.spec_height() > 0 && table.spec_width() > 0 && table.all_eligible()) ==> (result
            matches Ok(m) && m.nrows == table.spec_height() && m.ncols == table.spec_width()
            && m.well_formed() && m.data@ == concat_converted(table.columns@)),
{
    let nrows = table.height();
    let ncols = table.columns.len();
    if nrows == 0 || ncols == 0 {
        return Err(ConversionError::EmptyInput);
    }
    let mut data: Vec<u64> = Vec::new();
    let mut c: usize = 0;
    while c < ncols
        invariant
            table.well_formed(),
            c <= ncols,
            ncols == table.columns@.len(),
            nrows == table.spec_height(),
            nrows > 0,
            forall|i: int| 0 <= i < c ==> (#[trigger] table.columns@[i]).values.eligible(),
            data@ == concat_converted(table.columns@.take(c as int)),
            data@.len() == c * nrows,
        decreases ncols - c,
    {
        let column = &table.columns[c];
        match column_to_vector(column) {
            Result::Err(e) => {
                proof {
                    lemma_first_rejected(table.columns@, c as int);
                }
                return Err(e);
            },
            Result::Ok(mut v) => {
                proof {
                    assert(table.columns@.take(c as int + 1).drop_last() =~= table.columns@.take(
                        c as int,
                    ));
                    assert(v@.len() == column.values.spec_len());
                    assert((c + 1) * nrows == c * nrows + nrows) by (nonlinear_arith);
                }
                data.append(&mut v.data);
            },
        }
        c = c + 1;
    }
    proof {
        assert(table.columns@.take(ncols as int) =~= table.columns@);
        assert(data@ == concat_converted(table.columns@));
        assert(data@.len() == ncols * nrows);
        assert(data@.len() == nrows * ncols);
    }
    Ok(DenseMatrix { data, nrows, ncols })
}

} // verus!
