//! Building a manifest table from chunk records.
//!
//! A builder takes records one at a time and keeps each field in the
//! accumulator of its column. All three nullable payload columns of a row
//! are filled from the one payload of its record, so that exactly one of
//! them is set. Sealing turns the accumulators into a table in one step:
//! either every record taken is in the table, in the order taken, or there
//! is no table.

use vstd::prelude::*;

use bytes::Bytes;

use crate::payload::{
    ChunkInfo, ChunkInfoView, ChunkPayload, ChunkRef, ObjectId, VirtualChunkRef,
};
use crate::row::{encode_row, lemma_decode_encode_row, RawRow};
use crate::store::{
    column_cells, mk_array_ids_array, mk_chunk_ids_array, mk_coords_array, mk_inline_data_array,
    mk_string_array, mk_u64_array, seal, value_bytes, Cell, Column, ManifestsTable,
    MAX_VALUE_BYTES,
};

verus! {

/// The `coords` column of a table of these records.
pub open spec fn coords_column(records: Seq<ChunkInfoView>) -> Seq<Cell> {
    records.map_values(|r: ChunkInfoView| encode_row(r).coords)
}

/// The `inline_data` column of a table of these records.
pub open spec fn inline_column(records: Seq<ChunkInfoView>) -> Seq<Cell> {
    records.map_values(|r: ChunkInfoView| encode_row(r).inline_data)
}

/// The `virtual_path` column of a table of these records.
pub open spec fn path_column(records: Seq<ChunkInfoView>) -> Seq<Cell> {
    records.map_values(|r: ChunkInfoView| encode_row(r).virtual_path)
}

/// Whether a table can hold these records: the values of each
/// variable-width column must fit a buffer with 32-bit offsets, and the
/// identifiers a buffer that `usize` can measure.
pub open spec fn manifest_fits(records: Seq<ChunkInfoView>) -> bool {
    &&& value_bytes(coords_column(records)) <= MAX_VALUE_BYTES
    &&& value_bytes(inline_column(records)) <= MAX_VALUE_BYTES
    &&& value_bytes(path_column(records)) <= MAX_VALUE_BYTES
    &&& records.len() * 16 <= usize::MAX
}

impl ManifestsTable {
    /// The table holds exactly these records, row `i` storing record `i`,
    /// and nothing in its reserved column `extra`.
    pub open spec fn stores(&self, records: Seq<ChunkInfoView>) -> bool {
        &&& self.num_rows() == records.len()
        &&& forall|i: int|
            0 <= i < records.len() ==> #[trigger] self.raw_row(i) == encode_row(records[i])
        &&& self.has_column("extra"@)
        &&& forall|i: int| 0 <= i < records.len() ==> #[trigger] self.cell("extra"@, i) is Null
    }

    /// Decoding the rows of the table in order gives exactly these records.
    pub open spec fn reads_back(&self, records: Seq<ChunkInfoView>) -> bool {
        &&& self.num_rows() == records.len()
        &&& forall|i: int|
            0 <= i < records.len() ==> (#[trigger] self.raw_row(i)).decode() == Some(records[i])
    }

    /// A table that stores records reads back as those records: each row
    /// decodes to the record it was made from, with its owner, coordinate
    /// and payload variant.
    pub proof fn lemma_stored_rows_decode(&self, records: Seq<ChunkInfoView>)
        requires
            self.stores(records),
            forall|i: int| 0 <= i < records.len() ==> (#[trigger] records[i]).payload.well_formed(),
        ensures
            self.reads_back(records),
    {
        assert forall|i: int| 0 <= i < records.len() implies (#[trigger] self.raw_row(i)).decode()
            == Some(records[i]) by {
            lemma_decode_encode_row(records[i]);
        }
    }
}

/// A byte count that stops counting one past the largest value buffer.
spec fn capped(n: int) -> int {
    if n > MAX_VALUE_BYTES {
        MAX_VALUE_BYTES + 1
    } else {
        n
    }
}

/// Adds `len` to a capped byte count.
fn add_capped(total: usize, len: usize) -> (sum: usize)
    ensures
        forall|n: int| total == #[trigger] capped(n) ==> sum == capped(n + len),
{
    if total > MAX_VALUE_BYTES || len > MAX_VALUE_BYTES {
        MAX_VALUE_BYTES + 1
    } else if total + len > MAX_VALUE_BYTES {
        MAX_VALUE_BYTES + 1
    } else {
        total + len
    }
}

/// Appending a slot to a column adds the slot's bytes to the column's.
proof fn lemma_value_bytes_push(cells: Seq<Cell>, cell: Cell)
    ensures
        value_bytes(cells.push(cell)) == value_bytes(cells) + cell.value_len(),
{
    assert(cells.push(cell).drop_last() =~= cells);
}

/// The accumulators of a table under construction.
pub struct ManifestsTableBuilder {
    array_ids: Vec<u32>,
    coords: Vec<Vec<u8>>,
    offsets: Vec<Option<u64>>,
    lengths: Vec<Option<u64>>,
    inline_data: Vec<Option<Bytes>>,
    chunk_ids: Vec<Option<ObjectId>>,
    virtual_paths: Vec<Option<String>>,
    coords_size: usize,
    inline_size: usize,
    paths_size: usize,
    records: Ghost<Seq<ChunkInfoView>>,
}

impl ManifestsTableBuilder {
    /// The row that the accumulators hold at `i`.
    spec fn row(self, i: int) -> RawRow {
        RawRow {
            node: Cell::of_u32(self.array_ids@[i]),
            coords: Cell::of_vec(self.coords@[i]),
            offset: Cell::of_u64(self.offsets@[i]),
            length: Cell::of_u64(self.lengths@[i]),
            inline_data: Cell::of_bytes(self.inline_data@[i]),
            chunk_id: Cell::of_object_id(self.chunk_ids@[i]),
            virtual_path: Cell::of_string(self.virtual_paths@[i]),
        }
    }

    #[verifier::type_invariant]
    spec fn inv(self) -> bool {
        let n = self.records@.len();
        &&& self.array_ids@.len() == n
        &&& self.coords@.len() == n
        &&& self.offsets@.len() == n
        &&& self.lengths@.len() == n
        &&& self.inline_data@.len() == n
        &&& self.chunk_ids@.len() == n
        &&& self.virtual_paths@.len() == n
        &&& forall|i: int| 0 <= i < n ==> #[trigger] self.row(i) == encode_row(self.records@[i])
        &&& forall|i: int| 0 <= i < n ==> (#[trigger] self.records@[i]).payload.well_formed()
        &&& self.coords_size == capped(value_bytes(coords_column(self.records@)) as int)
        &&& self.inline_size == capped(value_bytes(inline_column(self.records@)) as int)
        &&& self.paths_size == capped(value_bytes(path_column(self.records@)) as int)
    }

    /// The records taken so far, in the order taken.
    pub closed spec fn records(self) -> Seq<ChunkInfoView> {
        self.records@
    }

    /// A builder that has taken no record.
    pub fn new() -> (builder: Self)
        ensures
            builder.records() == Seq::<ChunkInfoView>::empty(),
    {
        ManifestsTableBuilder {
            array_ids: Vec::new(),
            coords: Vec::new(),
            offsets: Vec::new(),
            lengths: Vec::new(),
            inline_data: Vec::new(),
            chunk_ids: Vec::new(),
            virtual_paths: Vec::new(),
            coords_size: 0,
            inline_size: 0,
            paths_size: 0,
            records: Ghost(Seq::empty()),
        }
    }

    /// Takes one more record.
    pub fn push(self, chunk: ChunkInfo) -> (next: Self)
        ensures
            next.records() == self.records().push(chunk@),
    {
        proof {
            use_type_invariant(&self);
        }
        let ghost old_records = self.records@;
        let ghost info = chunk@;
        let ghost new_records = old_records.push(info);
        let ghost before = self;
        let ManifestsTableBuilder {
            mut array_ids,
            mut coords,
            mut offsets,
            mut lengths,
            mut inline_data,
            mut chunk_ids,
            mut virtual_paths,
            coords_size,
            mut inline_size,
            mut paths_size,
            records,
        } = self;
        let ChunkInfo { node, coord, payload } = chunk;
        let key = coord.to_bytes();
        proof {
            assert(coords_column(new_records) =~= coords_column(old_records).push(
                encode_row(info).coords,
            ));
            assert(inline_column(new_records) =~= inline_column(old_records).push(
                encode_row(info).inline_data,
            ));
            assert(path_column(new_records) =~= path_column(old_records).push(
                encode_row(info).virtual_path,
            ));
            lemma_value_bytes_push(coords_column(old_records), encode_row(info).coords);
            lemma_value_bytes_push(inline_column(old_records), encode_row(info).inline_data);
            lemma_value_bytes_push(path_column(old_records), encode_row(info).virtual_path);
        }
        let coords_size = add_capped(coords_size, key.len());
        array_ids.push(node);
        coords.push(key);
        match payload {
            ChunkPayload::Inline(data) => {
                inline_size = add_capped(inline_size, data.len());
                lengths.push(Some(data.len() as u64));
                inline_data.push(Some(data));
                chunk_ids.push(None);
                virtual_paths.push(None);
                offsets.push(None);
            },
            ChunkPayload::Ref(ChunkRef { id, offset, length }) => {
                lengths.push(Some(length));
                inline_data.push(None);
                chunk_ids.push(Some(id));
                virtual_paths.push(None);
                offsets.push(Some(offset));
            },
            ChunkPayload::Virtual(VirtualChunkRef { location, offset, length }) => {
                paths_size = add_capped(paths_size, location.as_str().as_bytes().len());
                lengths.push(Some(length));
                inline_data.push(None);
                chunk_ids.push(None);
                virtual_paths.push(Some(location));
                offsets.push(Some(offset));
            },
        }
        proof {
            let n = old_records.len() as int;
            let candidate = ManifestsTableBuilder {
                array_ids,
                coords,
                offsets,
                lengths,
                inline_data,
                chunk_ids,
                virtual_paths,
                coords_size,
                inline_size,
                paths_size,
                records: Ghost(new_records),
            };
            assert(info.payload.well_formed());
            assert(candidate.row(n) == encode_row(info));
            assert forall|i: int| 0 <= i < n + 1 implies #[trigger] candidate.row(i) == encode_row(
                new_records[i],
            ) by {
                if i < n {
                    assert(candidate.row(i) == before.row(i));
                }
            }
        }
        let next = ManifestsTableBuilder {
            array_ids,
            coords,
            offsets,
            lengths,
            inline_data,
            chunk_ids,
            virtual_paths,
            coords_size,
            inline_size,
            paths_size,
            records: Ghost(new_records),
        };
        next
    }

    /// Takes the next item of a fallible source: a record is kept, and a
    /// failure is handed back as it came, with nothing kept of it.
    pub fn accept<E>(self, item: Result<ChunkInfo, E>) -> (r: Result<Self, E>)
        ensures
            match item {
                Ok(chunk) => r matches Ok(next) && next.records() == self.records().push(chunk@),
                Err(e) => r matches Err(failure) && failure == e,
            },
    {
        match item {
            Ok(chunk) => Ok(self.push(chunk)),
            Err(e) => Err(e),
        }
    }

    /// Whether the records taken so far fit in one table.
    pub fn within_limits(&self) -> (fits: bool)
        ensures
            fits == manifest_fits(self.records()),
    {
        proof {
            use_type_invariant(self);
        }
        self.coords_size <= MAX_VALUE_BYTES && self.inline_size <= MAX_VALUE_BYTES
            && self.paths_size <= MAX_VALUE_BYTES && self.array_ids.len() <= usize::MAX / 16
    }

    /// Seals the accumulators into a table where the records taken fit in
    /// one, and gives nothing where they do not.
    pub fn try_finish(self) -> (r: Option<ManifestsTable>)
        ensures
            manifest_fits(self.records()) ==> (r matches Some(table) && table.stores(self.records())
                && table.reads_back(self.records())),
            !manifest_fits(self.records()) ==> r is None,
    {
        if self.within_limits() {
            Some(self.finish())
        } else {
            None
        }
    }

    /// Seals the accumulators into a table of the records taken, in the
    /// order taken.
    pub fn finish(self) -> (table: ManifestsTable)
        requires
            manifest_fits(self.records()),
        ensures
            table.stores(self.records()),
            table.reads_back(self.records()),
    {
        proof {
            use_type_invariant(&self);
        }
        let ghost records = self.records@;
        let ghost before = self;
        let extras = mk_extras(self.array_ids.len());
        proof {
            assert(self.coords@.map_values(|v: Vec<u8>| Cell::of_vec(v)) =~= coords_column(records))
                by {
                assert forall|i: int| 0 <= i < records.len() implies Cell::of_vec(
                    self.coords@[i],
                ) == encode_row(records[i]).coords by {
                    assert(self.row(i) == encode_row(records[i]));
                }
            }
            assert(self.inline_data@.map_values(|v: Option<Bytes>| Cell::of_bytes(v))
                =~= inline_column(records)) by {
                assert forall|i: int| 0 <= i < records.len() implies Cell::of_bytes(
                    self.inline_data@[i],
                ) == encode_row(records[i]).inline_data by {
                    assert(self.row(i) == encode_row(records[i]));
                }
            }
            assert(self.virtual_paths@.map_values(|v: Option<String>| Cell::of_string(v))
                =~= path_column(records)) by {
                assert forall|i: int| 0 <= i < records.len() implies Cell::of_string(
                    self.virtual_paths@[i],
                ) == encode_row(records[i]).virtual_path by {
                    assert(self.row(i) == encode_row(records[i]));
                }
            }
        }
        let array_ids = mk_array_ids_array(self.array_ids);
        let coords = mk_coords_array(self.coords);
        let offsets = mk_u64_array(self.offsets);
        let lengths = mk_u64_array(self.lengths);
        let inline_data = mk_inline_data_array(self.inline_data);
        let chunk_ids = mk_chunk_ids_array(self.chunk_ids, 16);
        let virtual_paths = mk_string_array(self.virtual_paths);
        let extras = mk_string_array(extras);
        let mut fields: Vec<(&'static str, Column, bool)> = Vec::new();
        fields.push(("array_id", array_ids, false));
        fields.push(("coords", coords, false));
        fields.push(("offset", offsets, true));
        fields.push(("length", lengths, false));
        fields.push(("inline_data", inline_data, true));
        fields.push(("chunk_id", chunk_ids, true));
        fields.push(("virtual_path", virtual_paths, true));
        fields.push(("extra", extras, true));
        proof {
            lemma_column_names_distinct();
            assert(fields@.len() == 8);
            assert forall|i: int| 0 <= i < 8 implies (#[trigger] fields@[i]).0@
                == column_names()[i] by {
                assert(fields@[0].0@ == "array_id"@);
                assert(fields@[1].0@ == "coords"@);
                assert(fields@[2].0@ == "offset"@);
                assert(fields@[3].0@ == "length"@);
                assert(fields@[4].0@ == "inline_data"@);
                assert(fields@[5].0@ == "chunk_id"@);
                assert(fields@[6].0@ == "virtual_path"@);
                assert(fields@[7].0@ == "extra"@);
            }
            assert forall|i: int, r: int|
                0 <= i < fields@.len() && !fields@[i].2 && 0 <= r < column_cells(
                    fields@[i].1,
                ).len() implies #[trigger] column_cells(fields@[i].1)[r] != Cell::Null by {
                assert(before.row(r) == encode_row(records[r]));
            }
        }
        let table = seal(fields);
        proof {
            assert forall|i: int| 0 <= i < records.len() implies #[trigger] table.raw_row(i)
                == encode_row(records[i]) by {
                assert(before.row(i) == encode_row(records[i]));
                assert(fields@[0].0@ == "array_id"@);
                assert(fields@[1].0@ == "coords"@);
                assert(fields@[2].0@ == "offset"@);
                assert(fields@[3].0@ == "length"@);
                assert(fields@[4].0@ == "inline_data"@);
                assert(fields@[5].0@ == "chunk_id"@);
                assert(fields@[6].0@ == "virtual_path"@);
            }
            assert(fields@[7].0@ == "extra"@);
            table.lemma_stored_rows_decode(records);
        }
        table
    }
}

/// The names of the columns of a manifest table, in schema order.
pub open spec fn column_names() -> Seq<Seq<char>> {
    seq![
        "array_id"@,
        "coords"@,
        "offset"@,
        "length"@,
        "inline_data"@,
        "chunk_id"@,
        "virtual_path"@,
        "extra"@,
    ]
}

/// No two columns share a name.
pub proof fn lemma_column_names_distinct()
    ensures
        column_names().no_duplicates(),
{
    reveal_strlit("array_id");
    reveal_strlit("coords");
    reveal_strlit("offset");
    reveal_strlit("length");
    reveal_strlit("inline_data");
    reveal_strlit("chunk_id");
    reveal_strlit("virtual_path");
    reveal_strlit("extra");
    let names = column_names();
    assert forall|i: int, j: int| 0 <= i < 8 && 0 <= j < 8 && i != j implies names[i]
        != names[j] by {
        if names[i].len() == names[j].len() {
            assert(names[i][0] != names[j][0]);
        }
    }
}

/// The reserved column of a table of `n` rows: nothing in any row.
fn mk_extras(n: usize) -> (extras: Vec<Option<String>>)
    ensures
        extras@.len() == n,
        forall|i: int| 0 <= i < n ==> extras@[i] is None,
        value_bytes(extras@.map_values(|v: Option<String>| Cell::of_string(v))) == 0,
{
    let mut extras: Vec<Option<String>> = Vec::new();
    let mut i: usize = 0;
    while i < n
        invariant
            i <= n,
            extras@.len() == i,
            forall|k: int| 0 <= k < i ==> extras@[k] is None,
            value_bytes(extras@.map_values(|v: Option<String>| Cell::of_string(v))) == 0,
        decreases n - i,
    {
        proof {
            let cells = extras@.map_values(|v: Option<String>| Cell::of_string(v));
            lemma_value_bytes_push(cells, Cell::Null);
            assert(extras@.push(None).map_values(|v: Option<String>| Cell::of_string(v))
                =~= cells.push(Cell::Null));
        }
        extras.push(None);
        i = i + 1;
    }
    extras
}

/// The records of a sequence of items that are all records.
pub open spec fn records_of<E>(items: Seq<Result<ChunkInfo, E>>) -> Seq<ChunkInfoView> {
    items.map_values(|item: Result<ChunkInfo, E>| item->Ok_0@)
}

/// Whether `k` is the place of the first failure among `items`.
pub open spec fn first_failure_at<E>(items: Seq<Result<ChunkInfo, E>>, k: int) -> bool {
    &&& 0 <= k < items.len()
    &&& items[k] is Err
    &&& forall|j: int| 0 <= j < k ==> items[j] is Ok
}

/// Builds a table from the items of a fallible source, taken in order.
///
/// Gives the table of all records where every item is a record. Where an
/// item is a failure, gives the first failure as it came and no table,
/// whatever stands before or after it.
pub fn mk_manifests_table<E>(chunks: Vec<Result<ChunkInfo, E>>) -> (r: Result<ManifestsTable, E>)
    requires
        (forall|i: int| 0 <= i < chunks@.len() ==> chunks@[i] is Ok) ==> manifest_fits(
            records_of(chunks@),
        ),
    ensures
        (forall|i: int| 0 <= i < chunks@.len() ==> chunks@[i] is Ok) ==> (r matches Ok(table)
            && table.stores(records_of(chunks@)) && table.reads_back(records_of(chunks@))),
        forall|k: int|
            first_failure_at(chunks@, k) ==> (r matches Err(e) && chunks@[k] == Err::<ChunkInfo, E>(
                e,
            )),
{
    let ghost items = chunks@;
    let mut builder = ManifestsTableBuilder::new();
    for item in it: chunks
        invariant
            it.seq() == items,
            forall|j: int| 0 <= j < it.index() ==> items[j] is Ok,
            builder.records() =~= records_of(items.subrange(0, it.index() as int)),
    {
        let ghost done = it.index() as int;
        match builder.accept(item) {
            Ok(next) => {
                builder = next;
                assert(builder.records() =~= records_of(items.subrange(0, done + 1)));
            },
            Err(e) => {
                assert(first_failure_at(items, done));
                return Err(e);
            },
        }
    }
    assert(items.subrange(0, items.len() as int) =~= items);
    Ok(builder.finish())
}

} // verus!
