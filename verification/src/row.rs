//! One row of a manifest table: the cells that describe a chunk, and the
//! rule by which they do.
//!
//! A row names its payload variant through three nullable columns, of which
//! exactly one is filled: `inline_data`, `chunk_id` or `virtual_path`.
//! `offset` is filled exactly where the payload is not inline, and the
//! owner, the coordinate and the length always.

use vstd::prelude::*;

use bytes::Bytes;

use crate::coords::{decode_coords, encode_coords, lemma_decode_encode, ChunkIndices};
use crate::payload::{
    ChunkInfo, ChunkInfoView, ChunkPayload, ChunkRef, ObjectId, PayloadView, VirtualChunkRef,
};
use crate::store::{bytes_contents, Cell};

verus! {

/// The cells of one row, as the table's model gives them.
pub struct RawRow {
    pub node: Cell,
    pub coords: Cell,
    pub offset: Cell,
    pub length: Cell,
    pub inline_data: Cell,
    pub chunk_id: Cell,
    pub virtual_path: Cell,
}

impl RawRow {
    /// The payload that the row describes, where it describes exactly one.
    pub open spec fn payload(self) -> Option<PayloadView> {
        if !(self.length is UInt64) {
            None
        } else if self.inline_data is Binary {
            if self.chunk_id is FixedSizeBinary || self.virtual_path is Utf8 || self.offset
                is UInt64 {
                None
            } else {
                Some(PayloadView::Inline { data: self.inline_data->Binary_0 })
            }
        } else if !(self.offset is UInt64) {
            None
        } else if self.virtual_path is Utf8 {
            if self.chunk_id is FixedSizeBinary {
                None
            } else {
                Some(
                    PayloadView::Virtual {
                        location: self.virtual_path->Utf8_0,
                        offset: self.offset->UInt64_0,
                        length: self.length->UInt64_0,
                    },
                )
            }
        } else if self.chunk_id is FixedSizeBinary && self.chunk_id->FixedSizeBinary_0.len() == 16 {
            Some(
                PayloadView::Ref {
                    id: self.chunk_id->FixedSizeBinary_0,
                    offset: self.offset->UInt64_0,
                    length: self.length->UInt64_0,
                },
            )
        } else {
            None
        }
    }

    /// The chunk record that the row describes; `None` for a malformed row.
    pub open spec fn decode(self) -> Option<ChunkInfoView> {
        if self.node is UInt32 && self.coords is Binary && self.coords->Binary_0.len() % 8 == 0
            && self.payload() is Some {
            Some(
                ChunkInfoView {
                    node: self.node->UInt32_0,
                    coord: decode_coords(self.coords->Binary_0),
                    payload: self.payload()->Some_0,
                },
            )
        } else {
            None
        }
    }
}

impl PayloadView {
    /// What the `length` column holds for the payload: for inline bytes,
    /// their number.
    pub open spec fn length(self) -> u64 {
        match self {
            PayloadView::Inline { data } => data.len() as u64,
            PayloadView::Virtual { length, .. } => length,
            PayloadView::Ref { length, .. } => length,
        }
    }

    /// A reference into the object store names its object by sixteen bytes.
    pub open spec fn well_formed(self) -> bool {
        self matches PayloadView::Ref { id, .. } ==> id.len() == 16
    }
}

/// The row that stores a chunk record.
pub open spec fn encode_row(info: ChunkInfoView) -> RawRow {
    RawRow {
        node: Cell::UInt32(info.node),
        coords: Cell::Binary(encode_coords(info.coord)),
        offset: match info.payload {
            PayloadView::Inline { .. } => Cell::Null,
            PayloadView::Virtual { offset, .. } => Cell::UInt64(offset),
            PayloadView::Ref { offset, .. } => Cell::UInt64(offset),
        },
        length: Cell::UInt64(info.payload.length()),
        inline_data: match info.payload {
            PayloadView::Inline { data } => Cell::Binary(data),
            _ => Cell::Null,
        },
        chunk_id: match info.payload {
            PayloadView::Ref { id, .. } => Cell::FixedSizeBinary(id),
            _ => Cell::Null,
        },
        virtual_path: match info.payload {
            PayloadView::Virtual { location, .. } => Cell::Utf8(location),
            _ => Cell::Null,
        },
    }
}

/// A stored record reads back as itself: owner, coordinate, and payload
/// variant with all its fields.
pub proof fn lemma_decode_encode_row(info: ChunkInfoView)
    requires
        info.payload.well_formed(),
    ensures
        encode_row(info).decode() == Some(info),
{
    lemma_decode_encode(info.coord);
}

/// In a stored row exactly one of `inline_data`, `chunk_id` and
/// `virtual_path` is filled, and `offset` is filled exactly where
/// `inline_data` is not.
pub proof fn lemma_encode_row_exclusive(info: ChunkInfoView)
    ensures
        ({
            let row = encode_row(info);
            let inline: int = if row.inline_data is Null { 0 } else { 1 };
            let chunk: int = if row.chunk_id is Null { 0 } else { 1 };
            let path: int = if row.virtual_path is Null { 0 } else { 1 };
            &&& inline + chunk + path == 1
            &&& row.offset is Null <==> !(row.inline_data is Null)
            &&& !(row.node is Null) && !(row.coords is Null) && !(row.length is Null)
        }),
{
}

/// The values read from the cells of one row, each `None` where the slot is
/// null or the column is not of the expected type.
pub struct RowCells {
    pub node: Option<u32>,
    pub coords: Option<Vec<u8>>,
    pub offset: Option<u64>,
    pub length: Option<u64>,
    pub inline_data: Option<Vec<u8>>,
    pub chunk_id: Option<Vec<u8>>,
    pub virtual_path: Option<String>,
}

impl View for RowCells {
    type V = RawRow;

    open spec fn view(&self) -> RawRow {
        RawRow {
            node: match self.node {
                Some(v) => Cell::UInt32(v),
                None => Cell::Null,
            },
            coords: match self.coords {
                Some(v) => Cell::Binary(v@),
                None => Cell::Null,
            },
            offset: match self.offset {
                Some(v) => Cell::UInt64(v),
                None => Cell::Null,
            },
            length: match self.length {
                Some(v) => Cell::UInt64(v),
                None => Cell::Null,
            },
            inline_data: match self.inline_data {
                Some(v) => Cell::Binary(v@),
                None => Cell::Null,
            },
            chunk_id: match self.chunk_id {
                Some(v) => Cell::FixedSizeBinary(v@),
                None => Cell::Null,
            },
            virtual_path: match self.virtual_path {
                Some(v) => Cell::Utf8(v@),
                None => Cell::Null,
            },
        }
    }
}

impl RowCells {
    /// Resolves the payload variant of the row from its nullable columns.
    pub fn payload(
        offset: Option<u64>,
        length: Option<u64>,
        inline_data: Option<Vec<u8>>,
        chunk_id: Option<Vec<u8>>,
        virtual_path: Option<String>,
    ) -> (r: Option<ChunkPayload>)
        ensures
            ({
                let row = (RowCells {
                    node: None,
                    coords: None,
                    offset,
                    length,
                    inline_data,
                    chunk_id,
                    virtual_path,
                })@;
                match row.payload() {
                    Some(p) => r matches Some(payload) && payload@ == p,
                    None => r is None,
                }
            }),
    {
        let length = match length {
            Some(length) => length,
            None => { return None; },
        };
        match (inline_data, chunk_id, virtual_path, offset) {
            (Some(data), None, None, None) => {
                Some(ChunkPayload::Inline(Bytes::copy_from_slice(data.as_slice())))
            },
            (None, None, Some(location), Some(offset)) => {
                Some(ChunkPayload::Virtual(VirtualChunkRef { location, offset, length }))
            },
            (None, Some(id), None, Some(offset)) => {
                match ObjectId::from_bytes(id.as_slice()) {
                    Some(id) => Some(ChunkPayload::Ref(ChunkRef { id, offset, length })),
                    None => None,
                }
            },
            _ => None,
        }
    }

    /// The chunk record that the cells describe; `None` where they describe
    /// none: a missing owner, coordinate or length, a coordinate that is no
    /// whole number of eight-byte groups, or columns that do not name
    /// exactly one payload variant.
    pub fn decode(self) -> (r: Option<ChunkInfo>)
        ensures
            match self@.decode() {
                Some(v) => r matches Some(info) && info@ == v,
                None => r is None,
            },
    {
        let node = match self.node {
            Some(node) => node,
            None => { return None; },
        };
        let coords = match self.coords {
            Some(coords) => coords,
            None => { return None; },
        };
        if coords.len() % 8 != 0 {
            return None;
        }
        let payload = match RowCells::payload(
            self.offset,
            self.length,
            self.inline_data,
            self.chunk_id,
            self.virtual_path,
        ) {
            Some(payload) => payload,
            None => { return None; },
        };
        match ChunkIndices::unchecked_try_from_slice(coords.as_slice()) {
            Ok(coord) => Some(ChunkInfo { node, coord, payload }),
            Err(_) => None,
        }
    }
}

} // verus!
