//! Conversion of typed, possibly-missing columnar data into dense numeric
//! buffers.
//!
//! A [`column::Column`] is an ordered sequence of cells that all share one
//! source type: floating-point values (held as IEEE 754 double bit patterns),
//! booleans, or some unsupported type known only by name. A [`table::Table`]
//! is an ordered collection of equal-length columns.
//!
//! [`column::column_to_vector`] turns one eligible column into a dense vector
//! of double bit patterns, substituting a canonical not-a-number marker for
//! missing cells. [`table::table_to_matrix`] composes it across a table into a
//! column-major matrix buffer. Binding the bit patterns to a caller-chosen
//! scalar type, and adapting a concrete dataframe engine's columns into
//! [`column::Column`] values, is left to thin unverified adapters around this
//! crate.

pub mod column;
pub mod table;

pub use column::{
    Column, ColumnValues, ConversionError, DenseVector, column_to_vector, NAN_BITS, ONE_BITS,
    ZERO_BITS,
};
pub use table::{DenseMatrix, Table, table_to_matrix};
