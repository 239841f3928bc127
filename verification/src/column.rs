//! One column of typed, possibly-missing cells, and its conversion into a
//! dense vector of double-precision bit patterns.

use vstd::prelude::*;

verus! {

/// Bit pattern of the canonical IEEE 754 double-precision quiet not-a-number,
/// substituted for every missing cell.
pub const NAN_BITS: u64 = 0x7ff8_0000_0000_0000;

/// Bit pattern of the double-precision value 1.0, the image of `true`.
pub const ONE_BITS: u64 = 0x3ff0_0000_0000_0000;

/// Bit pattern of the double-precision value 0.0, the image of `false`.
pub const ZERO_BITS: u64 = 0;

/// Why a conversion failed.
#[derive(Debug, Clone, PartialEq, Eq)]
pub enum ConversionError {
    /// The column's declared type is neither numeric nor boolean; carries the
    /// rejected type's display name.
    TypeMismatch(String),
    /// The table has zero rows or zero columns.
    EmptyInput,
}

/// The cells of one column, together with the column's declared source type.
///
/// A numeric cell is held as the bit pattern of its value widened to
/// double precision; `None` is an explicitly missing cell. A column of any
/// other source type is not convertible and carries only its type's display
/// name and its length.
#[derive(Debug, Clone)]
pub enum ColumnValues {
    Numeric(Vec<Option<u64>>),
    Boolean(Vec<Option<bool>>),
    Unsupported { dtype_name: String, len: usize },
}

/// One named column of a table.
#[derive(Debug, Clone)]
pub struct Column {
    pub name: String,
    pub values: ColumnValues,
}

/// A dense, fully populated vector of double-precision bit patterns: the
/// output of one column conversion.
#[derive(Debug, Clone, PartialEq, Eq)]
pub struct DenseVector {
    pub data: Vec<u64>,
}

impl View for DenseVector {
    type V = Seq<u64>;

    open spec fn view(&self) -> Seq<u64> {
        self.data@
    }
}

/// The numeric image of one possibly-missing numeric cell: the value itself,
/// or the not-a-number marker when the cell is missing.
pub open spec fn numeric_cell_bits(cell: Option<u64>) -> u64 {
    match cell {
        Option::Some(bits) => bits,
        Option::None => NAN_BITS,
    }
}

/// The numeric image of one possibly-missing boolean cell: 1.0 for `true`,
/// 0.0 for `false`, the not-a-number marker when the cell is missing.
pub open spec fn boolean_cell_bits(cell: Option<bool>) -> u64 {
    match cell {
        Option::Some(true) => ONE_BITS,
        Option::Some(false) => ZERO_BITS,
        Option::None => NAN_BITS,
    }
}

impl ColumnValues {
    /// Whether this column's declared type is convertible: numeric or boolean.
    pub open spec fn eligible(&self) -> bool {
        !(self matches ColumnValues::Unsupported { .. })
    }

    /// The number of cells in the column.
    pub open spec fn spec_len(&self) -> nat {
        match self {
            ColumnValues::Numeric(cells) => cells@.len(),
            ColumnValues::Boolean(cells) => cells@.len(),
            ColumnValues::Unsupported { len, .. } => *len as nat,
        }
    }

    /// The converted column: the numeric image of each cell, in cell order.
    pub open spec fn converted(&self) -> Seq<u64>
        recommends
            self.eligible(),
    {
        match self {
            ColumnValues::Numeric(cells) => cells@.map(|i: int, c: Option<u64>| numeric_cell_bits(c)),
            ColumnValues::Boolean(cells) => cells@.map(|i: int, c: Option<bool>| boolean_cell_bits(c)),
            ColumnValues::Unsupported { .. } => Seq::empty(),
        }
    }

    /// The display name of the declared type of an ineligible column.
    pub open spec fn rejected_name(&self) -> Seq<char> {
        match self {
            ColumnValues::Unsupported { dtype_name, .. } => dtype_name@,
            _ => Seq::empty(),
        }
    }

    /// The numeric image of cell `i`, whatever the column's kind.
    pub open spec fn cell_bits(&self, i: int) -> u64
        recommends
            self.eligible(),
            0 <= i < self.spec_len(),
    {
        match self {
            ColumnValues::Numeric(cells) => numeric_cell_bits(cells@[i]),
            ColumnValues::Boolean(cells) => boolean_cell_bits(cells@[i]),
            ColumnValues::Unsupported { .. } => NAN_BITS,
        }
    }

    /// Whether cell `i` is explicitly missing.
    pub open spec fn cell_missing(&self, i: int) -> bool {
        match self {
            ColumnValues::Numeric(cells) => cells@[i] is None,
            ColumnValues::Boolean(cells) => cells@[i] is None,
            ColumnValues::Unsupported { .. } => false,
        }
    }

    /// The number of cells, as an executable query.
    pub fn len(&self) -> (n: usize)
        ensures
            n == self.spec_len(),
    {
        match self {
            ColumnValues::Numeric(cells) => cells.len(),
            ColumnValues::Boolean(cells) => cells.len(),
            ColumnValues::Unsupported { len, .. } => *len,
        }
    }
}

/// Converts one column into a dense vector of double bit patterns, one output
/// element per input cell in cell order, or fails with the rejected type's
/// name when the column's declared type is neither numeric nor boolean.
pub fn column_to_vector(column: &Column) -> (result: Result<DenseVector, ConversionError>)
    ensures
        column.values.eligible() ==> (result matches Ok(v) && v@ == column.values.converted()),
        !column.values.eligible() ==> (result matches Err(e)
            && e matches ConversionError::TypeMismatch(n)
            && n@ == column.values.rejected_name()),
{
    match &column.values {
        ColumnValues::Unsupported { dtype_name, .. } => {
            Err(ConversionError::TypeMismatch(dtype_name.clone()))
        },
        ColumnValues::Numeric(cells) => {
            let n = cells.len();
            let mut data: Vec<u64> = Vec::new();
            let mut i: usize = 0;
            while i < n
                invariant
                    i <= n,
                    n == cells@.len(),
                    data@.len() == i,
                    forall|j: int| 0 <= j < i ==> data@[j] == numeric_cell_bits(cells@[j]),
                decreases n - i,
            {
                let bits: u64 = match cells[i] {
                    Option::Some(b) => b,
                    Option::None => NAN_BITS,
                };
                data.push(bits);
                i = i + 1;
            }
            proof {
                assert(data@ =~= cells@.map(|j: int, c: Option<u64>| numeric_cell_bits(c)));
            }
            Ok(DenseVector { data })
        },
        ColumnValues::Boolean(cells) => {
            let n = cells.len();
            let mut data: Vec<u64> = Vec::new();
            let mut i: usize = 0;
            while i < n
                invariant
                    i <= n,
                    n == cells@.len(),
                    data@.len() == i,
                    forall|j: int| 0 <= j < i ==> data@[j] == boolean_cell_bits(cells@[j]),
                decreases n - i,
            {
                let bits: u64 = match cells[i] {
                    Option::Some(true) => ONE_BITS,
                    Option::Some(false) => ZERO_BITS,
                    Option::None => NAN_BITS,
                };
                data.push(bits);
                i = i + 1;
            }
            proof {
                assert(data@ =~= cells@.map(|j: int, c: Option<bool>| boolean_cell_bits(c)));
            }
            Ok(DenseVector { data })
        },
    }
}

/// Law: an eligible column converts to a sequence of the same length whose
/// element `i` is exactly the numeric image of cell `i` — `true` to 1.0,
/// `false` to 0.0, a numeric value unchanged — with no reordering, filtering
/// or deduplication.
pub proof fn lemma_conversion_pointwise(values: ColumnValues)
    requires
        values.eligible(),
    ensures
        values.converted().len() == values.spec_len(),
        forall|i: int| 0 <= i < values.spec_len() ==> values.converted()[i] == values.cell_bits(i),
{
}

/// Law: a missing cell converts to the not-a-number marker, at whatever
/// position it stands.
pub proof fn lemma_missing_cell_is_nan(values: ColumnValues, i: int)
    requires
        values.eligible(),
        0 <= i < values.spec_len(),
        values.cell_missing(i),
    ensures
        values.converted()[i] == NAN_BITS,
{
}

} // verus!
