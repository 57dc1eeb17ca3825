//! Reading a manifest table: lookup of a chunk by its coordinate within a
//! range of rows, and decoding of rows.
//!
//! A table imposes no order on its rows, so lookup is a linear scan of the
//! rows of the region. Callers that need faster lookup should sort the rows
//! of each region by encoded coordinate and search that, or keep an index
//! from encoded coordinate to row beside the table; the table stays the
//! source of truth either way.

use vstd::prelude::*;

use crate::coords::{encode_coords, ChunkIndices};
use crate::error::ManifestError;
use crate::payload::ChunkInfo;
use crate::region::{TableOffset, TableRegion};
use crate::row::{RawRow, RowCells};
use crate::store::{cell_at, table_columns, table_rows, Cell, ManifestsTable};

verus! {

impl ManifestsTable {
    /// Number of rows of the table.
    pub open spec fn num_rows(&self) -> nat {
        table_rows(*self)
    }

    /// Whether the table has a column `name`.
    pub open spec fn has_column(&self, name: Seq<char>) -> bool {
        table_columns(*self).dom().contains(name)
    }

    /// The slot of column `name` at `row`.
    pub open spec fn cell(&self, name: Seq<char>, row: int) -> Cell {
        cell_at(table_columns(*self), name, row)
    }

    /// The cells of `row` that describe its chunk. The reserved column
    /// `extra` is not among them: no row depends on it.
    pub open spec fn raw_row(&self, row: int) -> RawRow {
        RawRow {
            node: self.cell("array_id"@, row),
            coords: self.cell("coords"@, row),
            offset: self.cell("offset"@, row),
            length: self.cell("length"@, row),
            inline_data: self.cell("inline_data"@, row),
            chunk_id: self.cell("chunk_id"@, row),
            virtual_path: self.cell("virtual_path"@, row),
        }
    }

    /// Whether the coordinate column of `row` holds exactly `key`.
    pub open spec fn holds_key(&self, key: Seq<u8>, row: int) -> bool {
        self.raw_row(row).coords == Cell::Binary(key)
    }

    /// The first row of `from..to` whose coordinate column holds `key`.
    pub open spec fn first_match(&self, key: Seq<u8>, from: int, to: int) -> Option<int>
        decreases to - from,
    {
        if from >= to {
            None
        } else if self.holds_key(key, from) {
            Some(from)
        } else {
            self.first_match(key, from + 1, to)
        }
    }

    /// The row that a lookup of `coords` within `region` finds: the first
    /// match among the rows of a well-formed region, and none in a region
    /// that is not well formed for this table.
    pub open spec fn find(&self, coords: Seq<u64>, region: TableRegion) -> Option<int> {
        if region.well_formed(self.num_rows()) {
            self.first_match(encode_coords(coords), region.0 as int, region.1 as int)
        } else {
            None
        }
    }

    /// What reading `row` gives: nothing for a row past the end of the
    /// table, the record that the row describes, or `MalformedRow` for a
    /// row that describes none.
    pub open spec fn reads_as(
        &self,
        row: TableOffset,
        r: Result<Option<ChunkInfo>, ManifestError>,
    ) -> bool {
        if row >= self.num_rows() {
            r matches Ok(None)
        } else {
            match self.raw_row(row as int).decode() {
                Some(v) => r matches Ok(Some(info)) && info@ == v,
                None => r == Err::<Option<ChunkInfo>, ManifestError>(
                    ManifestError::MalformedRow { row },
                ),
            }
        }
    }

    /// Reads the cells of `row`.
    fn cells(&self, row: usize) -> (cells: RowCells)
        ensures
            cells@.decode() == self.raw_row(row as int).decode(),
    {
        RowCells {
            node: self.u32_cell("array_id", row),
            coords: self.binary_cell("coords", row),
            offset: self.u64_cell("offset", row),
            length: self.u64_cell("length", row),
            inline_data: self.binary_cell("inline_data", row),
            chunk_id: self.fixed_size_binary_cell("chunk_id", row),
            virtual_path: self.string_cell("virtual_path", row),
        }
    }

    /// Decodes the chunk record of `row`.
    ///
    /// Gives `Ok(None)` for a row past the end of the table, and
    /// `MalformedRow` for a row whose cells describe no record.
    pub fn get_row(&self, row: TableOffset) -> (r: Result<Option<ChunkInfo>, ManifestError>)
        ensures
            self.reads_as(row, r),
    {
        let idx = row as usize;
        if idx >= self.row_count() {
            return Ok(None);
        }
        match self.cells(idx).decode() {
            Some(info) => Ok(Some(info)),
            None => Err(ManifestError::MalformedRow { row }),
        }
    }

    /// Finds the first row of `region` whose coordinate is `coords`.
    ///
    /// Gives `None` where no row of the region matches, and for a region
    /// that reaches past the end of the table or whose start lies after its
    /// end, whatever the table holds.
    pub fn get_chunk_info_index(&self, coords: &ChunkIndices, region: &TableRegion) -> (r: Option<
        TableOffset,
    >)
        ensures
            region.1 > self.num_rows() || region.0 > region.1 ==> r is None,
            match self.find(coords@, *region) {
                Some(row) => r == Some(row as TableOffset),
                None => r is None,
            },
    {
        if !region.fits(self.row_count()) {
            return None;
        }
        let key = coords.to_bytes();
        let mut row = region.0;
        while row < region.1
            invariant
                region.0 <= row <= region.1,
                region.1 <= self.num_rows(),
                key@ == encode_coords(coords@),
                self.first_match(key@, region.0 as int, region.1 as int) == self.first_match(
                    key@,
                    row as int,
                    region.1 as int,
                ),
            decreases region.1 - row,
        {
            let found = match self.binary_cell("coords", row as usize) {
                Some(bytes) => same_bytes(&bytes, &key),
                None => false,
            };
            if found {
                return Some(row);
            }
            row = row + 1;
        }
        None
    }

    /// Looks up the chunk at `coords` among the rows of `region`.
    ///
    /// Gives `Ok(None)` where the region holds no such chunk or is not well
    /// formed, and `MalformedRow` where the row found describes no record.
    pub fn get_chunk_info(&self, coords: &ChunkIndices, region: &TableRegion) -> (r: Result<
        Option<ChunkInfo>,
        ManifestError,
    >)
        ensures
            region.1 > self.num_rows() || region.0 > region.1 ==> r matches Ok(None),
            match self.find(coords@, *region) {
                None => r matches Ok(None),
                Some(row) => self.reads_as(row as TableOffset, r),
            },
    {
        proof {
            self.lemma_find_in_region(coords@, *region);
        }
        match self.get_chunk_info_index(coords, region) {
            Some(row) => self.get_row(row),
            None => Ok(None),
        }
    }

    /// What a scan of the rows `first..last` yields at `row`: the record of
    /// the row, `MalformedRow` for a row that describes none, and
    /// `RegionOutOfBounds` for a row past the end of the table.
    pub open spec fn yields(
        &self,
        first: TableOffset,
        last: TableOffset,
        row: TableOffset,
        item: Result<ChunkInfo, ManifestError>,
    ) -> bool {
        if row >= self.num_rows() {
            item == Err::<ChunkInfo, ManifestError>(
                ManifestError::RegionOutOfBounds {
                    from: first,
                    to: last,
                    rows: self.num_rows() as usize,
                },
            )
        } else {
            match self.raw_row(row as int).decode() {
                Some(v) => item matches Ok(info) && info@ == v,
                None => item == Err::<ChunkInfo, ManifestError>(
                    ManifestError::MalformedRow { row },
                ),
            }
        }
    }

    /// The rows `first..last` that a scan from `from` to `to` covers.
    ///
    /// `from` defaults to the first row and `to` to the end of the table,
    /// or to the largest row offset where the table is longer than that.
    pub fn scan_bounds(&self, from: Option<TableOffset>, to: Option<TableOffset>) -> (bounds: (
        TableOffset,
        TableOffset,
    ))
        ensures
            bounds.0 == self.scan_first(from),
            bounds.1 == self.scan_last(to),
    {
        let first = match from {
            Some(from) => from,
            None => 0,
        };
        let last = match to {
            Some(to) => to,
            None => {
                let rows = self.row_count();
                if rows > u32::MAX as usize {
                    u32::MAX
                } else {
                    rows as u32
                }
            },
        };
        (first, last)
    }

    /// The item that a scan of the rows `first..last` gives for `row`.
    pub fn scan_row(
        &self,
        first: TableOffset,
        last: TableOffset,
        row: TableOffset,
    ) -> (item: Result<ChunkInfo, ManifestError>)
        ensures
            self.yields(first, last, row, item),
    {
        match self.get_row(row) {
            Ok(Some(info)) => Ok(info),
            Ok(None) => Err(
                ManifestError::RegionOutOfBounds { from: first, to: last, rows: self.row_count() },
            ),
            Err(e) => Err(e),
        }
    }

    /// Decodes the rows `from..to` in ascending order, one result per row,
    /// with the defaults of [`Self::scan_bounds`].
    ///
    /// The table is not changed, and every call starts afresh. A row that
    /// cannot be decoded gives an error in its place and does not end the
    /// scan.
    pub fn iter(&self, from: Option<TableOffset>, to: Option<TableOffset>) -> (items: Vec<
        Result<ChunkInfo, ManifestError>,
    >)
        ensures
            ({
                let first = self.scan_first(from);
                let last = self.scan_last(to);
                &&& items@.len() == if first <= last { last - first } else { 0 }
                &&& forall|i: int|
                    0 <= i < items@.len() ==> self.yields(
                        first,
                        last,
                        (first + i) as TableOffset,
                        #[trigger] items@[i],
                    )
            }),
    {
        let (first, last) = self.scan_bounds(from, to);
        let mut items: Vec<Result<ChunkInfo, ManifestError>> = Vec::new();
        let mut row = first;
        while row < last
            invariant
                first <= row,
                first <= last ==> row <= last,
                first > last ==> row == first,
                items@.len() == row - first,
                forall|i: int|
                    0 <= i < items@.len() ==> self.yields(
                        first,
                        last,
                        (first + i) as TableOffset,
                        #[trigger] items@[i],
                    ),
            decreases last - row,
        {
            let item = self.scan_row(first, last, row);
            items.push(item);
            row = row + 1;
        }
        items
    }

    /// Checks a region against this table, as a reader must once it has
    /// loaded the table that a manifest reference points to.
    pub fn validate_region(&self, region: &TableRegion) -> (r: Result<(), ManifestError>)
        ensures
            region.well_formed(self.num_rows()) ==> r == Ok::<(), ManifestError>(()),
            !region.well_formed(self.num_rows()) ==> r == Err::<(), ManifestError>(
                ManifestError::RegionOutOfBounds {
                    from: region.0,
                    to: region.1,
                    rows: self.num_rows() as usize,
                },
            ),
    {
        region.validate(self.row_count())
    }

    /// The first row of a scan from `from`.
    pub open spec fn scan_first(&self, from: Option<TableOffset>) -> TableOffset {
        match from {
            Some(from) => from,
            None => 0,
        }
    }

    /// The row before which a scan to `to` ends.
    pub open spec fn scan_last(&self, to: Option<TableOffset>) -> TableOffset {
        match to {
            Some(to) => to,
            None => if self.num_rows() > u32::MAX {
                u32::MAX
            } else {
                self.num_rows() as u32
            },
        }
    }

    /// A row found by a scan of `from..to` lies in that range and holds the
    /// key, and no row before it in the range does; where none is found, no
    /// row of the range holds the key.
    pub proof fn lemma_first_match(&self, key: Seq<u8>, from: int, to: int)
        ensures
            match self.first_match(key, from, to) {
                Some(row) => {
                    &&& from <= row < to
                    &&& self.holds_key(key, row)
                    &&& forall|j: int| from <= j < row ==> !self.holds_key(key, j)
                },
                None => forall|j: int| from <= j < to ==> !self.holds_key(key, j),
            },
        decreases to - from,
    {
        if from < to && !self.holds_key(key, from) {
            self.lemma_first_match(key, from + 1, to);
        }
    }

    /// A lookup finds nothing in a region that reaches past the end of the
    /// table or whose start lies after its end, whether or not the
    /// coordinate is in the table; and what it finds in any region is a row
    /// of the region and of the table.
    pub proof fn lemma_find_in_region(&self, coords: Seq<u64>, region: TableRegion)
        ensures
            region.1 > self.num_rows() || region.0 > region.1 ==> self.find(coords, region) is None,
            self.find(coords, region) matches Some(row) ==> region.0 <= row < region.1 && row
                < self.num_rows(),
    {
        self.lemma_first_match(encode_coords(coords), region.0 as int, region.1 as int);
    }
}

/// Whether two byte strings are equal.
fn same_bytes(a: &Vec<u8>, b: &Vec<u8>) -> (same: bool)
    ensures
        same == (a@ == b@),
{
    if a.len() != b.len() {
        return false;
    }
    let mut i: usize = 0;
    while i < a.len()
        invariant
            i <= a@.len(),
            a@.len() == b@.len(),
            forall|k: int| 0 <= k < i ==> a@[k] == b@[k],
        decreases a@.len() - i,
    {
        if a[i] != b[i] {
            return false;
        }
        i = i + 1;
    }
    assert(a@ =~= b@);
    true
}

} // verus!
