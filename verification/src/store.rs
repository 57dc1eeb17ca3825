//! The Arrow record batch behind a manifest table, and the byte buffers of
//! inline payloads, as verified code sees them.
//!
//! Nothing in this module is proved. Each item states what a function of
//! `arrow`, `bytes` or `itertools` does, over a model in which a column is a
//! sequence of [`Cell`]s; the rest of the crate is verified against these
//! statements.

use vstd::prelude::*;
use vstd::utf8::encode_utf8;

use std::sync::Arc;

use arrow::array::{
    ArrayRef, AsArray, BinaryArray, FixedSizeBinaryArray, RecordBatch, StringArray, UInt32Array,
    UInt64Array,
};
use arrow::datatypes::{UInt32Type, UInt64Type};
use bytes::Bytes;
use itertools::Itertools;

use crate::payload::ObjectId;

verus! {

/// What one slot of a column holds.
///
/// `Null` stands for a null slot and for a slot of any column type other than
/// the five below, none of which this crate reads.
pub enum Cell {
    Null,
    /// A valid slot of a `UInt32` column.
    UInt32(u32),
    /// A valid slot of a `UInt64` column.
    UInt64(u64),
    /// A valid slot of a `Binary` column.
    Binary(Seq<u8>),
    /// A valid slot of a `FixedSizeBinary` column.
    FixedSizeBinary(Seq<u8>),
    /// A valid slot of a `Utf8` column.
    Utf8(Seq<char>),
}

impl Cell {
    pub open spec fn of_u32(v: u32) -> Cell {
        Cell::UInt32(v)
    }

    pub open spec fn of_u64(v: Option<u64>) -> Cell {
        match v {
            Some(v) => Cell::UInt64(v),
            None => Cell::Null,
        }
    }

    pub open spec fn of_vec(v: Vec<u8>) -> Cell {
        Cell::Binary(v@)
    }

    pub open spec fn of_bytes(v: Option<Bytes>) -> Cell {
        match v {
            Some(b) => Cell::Binary(bytes_contents(b)),
            None => Cell::Null,
        }
    }

    pub open spec fn of_object_id(v: Option<ObjectId>) -> Cell {
        match v {
            Some(id) => Cell::FixedSizeBinary(id@),
            None => Cell::Null,
        }
    }

    pub open spec fn of_string(v: Option<String>) -> Cell {
        match v {
            Some(s) => Cell::Utf8(s@),
            None => Cell::Null,
        }
    }

    /// Number of bytes that the slot adds to the value buffer of a
    /// variable-width column.
    pub open spec fn value_len(self) -> nat {
        match self {
            Cell::Binary(b) => b.len(),
            Cell::Utf8(s) => encode_utf8(s).len(),
            _ => 0,
        }
    }
}

/// Size of the value buffer of a variable-width column with these slots.
pub open spec fn value_bytes(cells: Seq<Cell>) -> nat
    decreases cells.len(),
{
    if cells.len() == 0 {
        0
    } else {
        value_bytes(cells.drop_last()) + cells.last().value_len()
    }
}

/// Largest value buffer that a column with 32-bit offsets can address.
pub const MAX_VALUE_BYTES: usize = 0x7fff_ffff;

/// The slot of column `name` at `row`; `Null` where the batch has no such
/// column or no such row.
pub open spec fn cell_at(columns: Map<Seq<char>, Seq<Cell>>, name: Seq<char>, row: int) -> Cell {
    if columns.dom().contains(name) && 0 <= row < columns[name].len() {
        columns[name][row]
    } else {
        Cell::Null
    }
}

// -------------------------------------------------------------------------
// bytes::Bytes
// -------------------------------------------------------------------------

/// `bytes::Bytes`, a shared buffer of bytes.
#[verifier::external_type_specification]
#[verifier::external_body]
pub struct ExBytes(Bytes);

/// The bytes that a `Bytes` buffer holds, in order.
pub uninterp spec fn bytes_contents(b: Bytes) -> Seq<u8>;

/// `Bytes::copy_from_slice` makes a buffer that holds a copy of the slice.
pub assume_specification[ Bytes::copy_from_slice ](data: &[u8]) -> (b: Bytes)
    ensures
        bytes_contents(b) == data@,
;

/// `Bytes::len` is the number of bytes in the buffer.
pub assume_specification[ Bytes::len ](b: &Bytes) -> (n: usize)
    ensures
        n == bytes_contents(*b).len(),
;

/// `Bytes::clone` hands out another handle on the same bytes.
pub assume_specification[ <Bytes as Clone>::clone ](b: &Bytes) -> (copy: Bytes)
    ensures
        bytes_contents(copy) == bytes_contents(*b),
;

// -------------------------------------------------------------------------
// itertools
// -------------------------------------------------------------------------

/// `Itertools::chunks` on the bytes of `slice`: consecutive groups of `size`
/// bytes, in order, the last one shorter where the length is no multiple of
/// `size`. The outside function panics on a `size` of zero.
#[verifier::external_body]
pub(crate) fn byte_groups(slice: &[u8], size: usize) -> (groups: Vec<Vec<u8>>)
    requires
        size > 0,
    ensures
        groups@.len() * size >= slice@.len() > (groups@.len() - 1) * size,
        forall|i: int|
            0 <= i < groups@.len() ==> #[trigger] groups@[i]@ == slice@.subrange(
                i * size,
                if (i + 1) * size <= slice@.len() {
                    (i + 1) * size
                } else {
                    slice@.len() as int
                },
            ),
{
    slice.iter().chunks(size).into_iter().map(|group| group.copied().collect()).collect()
}

// -------------------------------------------------------------------------
// arrow: columns on their way into a batch
// -------------------------------------------------------------------------

/// One Arrow array, of whatever type, on its way into a batch.
///
/// Verified code cannot look into the array. It speaks of it through
/// [`column_cells`].
#[verifier::external_body]
pub struct Column {
    array: ArrayRef,
}

/// The slots of the array, in order.
pub uninterp spec fn column_cells(column: Column) -> Seq<Cell>;

/// `UInt32Array::from_iter` over plain values: one valid slot per value.
#[verifier::external_body]
pub(crate) fn mk_array_ids_array(coll: Vec<u32>) -> (column: Column)
    ensures
        column_cells(column) == coll@.map_values(|v: u32| Cell::of_u32(v)),
{
    Column { array: Arc::new(coll.into_iter().collect::<UInt32Array>()) }
}

/// `UInt64Array::from_iter` over optional values: a valid slot for `Some`, a
/// null slot for `None`.
#[verifier::external_body]
pub(crate) fn mk_u64_array(coll: Vec<Option<u64>>) -> (column: Column)
    ensures
        column_cells(column) == coll@.map_values(|v: Option<u64>| Cell::of_u64(v)),
{
    Column { array: Arc::new(coll.into_iter().collect::<UInt64Array>()) }
}

/// `BinaryArray::from_iter_values`: one valid slot per byte string. The
/// outside function panics where the strings together are longer than the
/// largest 32-bit offset.
#[verifier::external_body]
pub(crate) fn mk_coords_array(coll: Vec<Vec<u8>>) -> (column: Column)
    requires
        value_bytes(coll@.map_values(|v: Vec<u8>| Cell::of_vec(v))) <= MAX_VALUE_BYTES,
    ensures
        column_cells(column) == coll@.map_values(|v: Vec<u8>| Cell::of_vec(v)),
{
    Column { array: Arc::new(BinaryArray::from_iter_values(coll)) }
}

/// `BinaryArray::from_iter` over optional buffers: a valid slot for `Some`,
/// a null slot for `None`. The outside function panics where the buffers
/// together are longer than the largest 32-bit offset, and reserves room for
/// one offset more than there are items.
#[verifier::external_body]
pub(crate) fn mk_inline_data_array(coll: Vec<Option<Bytes>>) -> (column: Column)
    requires
        coll@.len() < usize::MAX,
        value_bytes(coll@.map_values(|v: Option<Bytes>| Cell::of_bytes(v))) <= MAX_VALUE_BYTES,
    ensures
        column_cells(column) == coll@.map_values(|v: Option<Bytes>| Cell::of_bytes(v)),
{
    Column { array: Arc::new(BinaryArray::from_iter(coll)) }
}

/// `FixedSizeBinaryArray::try_from_sparse_iter_with_size` over optional
/// identifiers: a valid slot for `Some`, a null slot for `None`. The outside
/// function fails on a negative `width`, on a value of another width, and
/// where `width` times the number of items does not fit in `usize`.
#[verifier::external_body]
pub(crate) fn mk_chunk_ids_array(coll: Vec<Option<ObjectId>>, width: i32) -> (column: Column)
    requires
        width == 16,
        coll@.len() * 16 <= usize::MAX,
    ensures
        column_cells(column) == coll@.map_values(|v: Option<ObjectId>| Cell::of_object_id(v)),
{
    let ids = coll.into_iter().map(|id| id.map(|id| id.0));
    let array = FixedSizeBinaryArray::try_from_sparse_iter_with_size(ids, width);
    Column { array: Arc::new(array.expect("identifiers of one width")) }
}

/// `StringArray::from_iter` over optional strings: a valid slot for `Some`,
/// a null slot for `None`. The outside function panics where the strings
/// together take more bytes than the largest 32-bit offset, and reserves
/// room for one offset more than there are items.
#[verifier::external_body]
pub(crate) fn mk_string_array(coll: Vec<Option<String>>) -> (column: Column)
    requires
        coll@.len() < usize::MAX,
        value_bytes(coll@.map_values(|v: Option<String>| Cell::of_string(v))) <= MAX_VALUE_BYTES,
    ensures
        column_cells(column) == coll@.map_values(|v: Option<String>| Cell::of_string(v)),
{
    Column { array: Arc::new(coll.into_iter().collect::<StringArray>()) }
}

// -------------------------------------------------------------------------
// arrow: the batch
// -------------------------------------------------------------------------

/// An immutable table of chunk records, one per row, held as an Arrow record
/// batch.
///
/// Verified code cannot look into the batch. It speaks of it through
/// [`table_rows`] and [`table_columns`], and nothing in this crate assumes
/// more of a table than those two say: a table may hold any batch.
#[verifier::external_body]
#[derive(Debug, PartialEq)]
pub struct ManifestsTable {
    pub batch: RecordBatch,
}

/// Number of rows of the batch.
pub uninterp spec fn table_rows(table: ManifestsTable) -> nat;

/// The columns of the batch by field name. Where two fields share a name the
/// first one counts.
pub uninterp spec fn table_columns(table: ManifestsTable) -> Map<Seq<char>, Seq<Cell>>;

/// `RecordBatch::try_from_iter_with_nullable` on `(name, array, nullable)`
/// triples: a batch with one column per triple, under the triple's name, and
/// as many rows as the arrays are long. The outside function fails on an
/// empty list, on arrays of different lengths, and on a null slot in a column
/// whose `nullable` is false.
#[verifier::external_body]
pub(crate) fn seal(fields: Vec<(&'static str, Column, bool)>) -> (table: ManifestsTable)
    requires
        fields@.len() > 0,
        forall|i: int|
            0 <= i < fields@.len() ==> (#[trigger] column_cells(fields@[i].1)).len()
                == column_cells(fields@[0].1).len(),
        forall|i: int, r: int|
            0 <= i < fields@.len() && !fields@[i].2 && 0 <= r < column_cells(fields@[i].1).len()
                ==> #[trigger] column_cells(fields@[i].1)[r] != Cell::Null,
        forall|i: int, j: int|
            0 <= i < j < fields@.len() ==> (#[trigger] fields@[i]).0@ != (#[trigger] fields@[j]).0@,
    ensures
        table_rows(table) == column_cells(fields@[0].1).len(),
        forall|i: int|
            0 <= i < fields@.len() ==> table_columns(table).dom().contains(
                (#[trigger] fields@[i]).0@,
            ) && table_columns(table)[fields@[i].0@] == column_cells(fields@[i].1),
{
    let columns = fields.into_iter().map(|(name, column, nullable)| (name, column.array, nullable));
    let batch = RecordBatch::try_from_iter_with_nullable(columns).expect("columns of one length");
    ManifestsTable { batch }
}

impl ManifestsTable {
    /// `RecordBatch::num_rows`.
    #[verifier::external_body]
    pub(crate) fn row_count(&self) -> (n: usize)
        ensures
            n == table_rows(*self),
    {
        self.batch.num_rows()
    }

    /// `RecordBatch::column_by_name`, `AsArray::as_primitive_opt` and the
    /// array's iterator at `row`: the value of a valid slot of a `UInt32`
    /// column, and nothing for any other slot.
    #[verifier::external_body]
    pub(crate) fn u32_cell(&self, name: &str, row: usize) -> (value: Option<u32>)
        ensures
            match cell_at(table_columns(*self), name@, row as int) {
                Cell::UInt32(v) => value == Some(v),
                _ => value is None,
            },
    {
        self.batch.column_by_name(name)?.as_primitive_opt::<UInt32Type>()?.iter().nth(row).flatten()
    }

    /// As [`Self::u32_cell`], for a `UInt64` column.
    #[verifier::external_body]
    pub(crate) fn u64_cell(&self, name: &str, row: usize) -> (value: Option<u64>)
        ensures
            match cell_at(table_columns(*self), name@, row as int) {
                Cell::UInt64(v) => value == Some(v),
                _ => value is None,
            },
    {
        self.batch.column_by_name(name)?.as_primitive_opt::<UInt64Type>()?.iter().nth(row).flatten()
    }

    /// `RecordBatch::column_by_name`, `AsArray::as_binary_opt` and the
    /// array's iterator at `row`: a copy of the bytes of a valid slot of a
    /// `Binary` column, and nothing for any other slot.
    #[verifier::external_body]
    pub(crate) fn binary_cell(&self, name: &str, row: usize) -> (value: Option<Vec<u8>>)
        ensures
            match cell_at(table_columns(*self), name@, row as int) {
                Cell::Binary(b) => value matches Some(v) && v@ == b,
                _ => value is None,
            },
    {
        let column = self.batch.column_by_name(name)?.as_binary_opt::<i32>()?;
        column.iter().nth(row).flatten().map(|bytes| bytes.to_vec())
    }

    /// As [`Self::binary_cell`], through `AsArray::as_fixed_size_binary_opt`,
    /// for a `FixedSizeBinary` column.
    #[verifier::external_body]
    pub(crate) fn fixed_size_binary_cell(&self, name: &str, row: usize) -> (value: Option<Vec<u8>>)
        ensures
            match cell_at(table_columns(*self), name@, row as int) {
                Cell::FixedSizeBinary(b) => value matches Some(v) && v@ == b,
                _ => value is None,
            },
    {
        let column = self.batch.column_by_name(name)?.as_fixed_size_binary_opt()?;
        column.iter().nth(row).flatten().map(|bytes| bytes.to_vec())
    }

    /// As [`Self::binary_cell`], through `AsArray::as_string_opt`, for a
    /// `Utf8` column.
    #[verifier::external_body]
    pub(crate) fn string_cell(&self, name: &str, row: usize) -> (value: Option<String>)
        ensures
            match cell_at(table_columns(*self), name@, row as int) {
                Cell::Utf8(s) => value matches Some(v) && v@ == s,
                _ => value is None,
            },
    {
        let column = self.batch.column_by_name(name)?.as_string_opt::<i32>()?;
        column.iter().nth(row).flatten().map(|text| text.to_string())
    }
}

} // verus!
