//! Where the bytes of a chunk live.

use vstd::prelude::*;

use bytes::Bytes;

use crate::coords::ChunkIndices;
use crate::store::bytes_contents;

verus! {

/// Identifier of the array, or node, that owns a chunk.
pub type NodeId = u32;

/// Identifier of an object in the content-addressed store.
#[derive(Debug, Clone, PartialEq, Eq, Hash, PartialOrd, Ord)]
pub struct ObjectId(pub [u8; 16]);

impl ObjectId {
    /// Width of an identifier in bytes.
    pub const SIZE: usize = 16;

    /// The identifier made of exactly these bytes, where there are sixteen
    /// of them.
    pub fn from_bytes(bytes: &[u8]) -> (r: Option<ObjectId>)
        ensures
            bytes@.len() == 16 ==> (r matches Some(id) && id@ == bytes@),
            bytes@.len() != 16 ==> r is None,
    {
        if bytes.len() != 16 {
            return None;
        }
        let mut id: [u8; 16] = [0u8; 16];
        let mut i: usize = 0;
        while i < 16
            invariant
                i <= 16,
                bytes@.len() == 16,
                forall|k: int| 0 <= k < i ==> id@[k] == bytes@[k],
            decreases 16 - i,
        {
            id[i] = bytes[i];
            i = i + 1;
        }
        assert(id@ =~= bytes@);
        Some(ObjectId(id))
    }
}

impl View for ObjectId {
    type V = Seq<u8>;

    open spec fn view(&self) -> Seq<u8> {
        self.0@
    }
}

/// A byte range of an object that the store does not own.
#[derive(Debug, Clone, PartialEq, Eq, Hash, PartialOrd, Ord)]
pub struct VirtualChunkRef {
    pub location: String,
    pub offset: u64,
    pub length: u64,
}

/// A byte range of an object of the content-addressed store.
#[derive(Debug, Clone, PartialEq, Eq, Hash, PartialOrd, Ord)]
pub struct ChunkRef {
    pub id: ObjectId,
    pub offset: u64,
    pub length: u64,
}

/// The three places a chunk's bytes can be.
#[derive(Debug, Clone, PartialEq, Eq, Hash, PartialOrd, Ord)]
pub enum ChunkPayload {
    Inline(Bytes),
    Virtual(VirtualChunkRef),
    Ref(ChunkRef),
}

/// One chunk of one array: its owner, its position and its payload.
#[derive(Debug, Clone, PartialEq, Eq, Hash, PartialOrd, Ord)]
pub struct ChunkInfo {
    pub node: NodeId,
    pub coord: ChunkIndices,
    pub payload: ChunkPayload,
}

/// Mathematical value of a [`ChunkPayload`].
pub enum PayloadView {
    Inline { data: Seq<u8> },
    Virtual { location: Seq<char>, offset: u64, length: u64 },
    Ref { id: Seq<u8>, offset: u64, length: u64 },
}

/// Mathematical value of a [`ChunkInfo`].
pub struct ChunkInfoView {
    pub node: u32,
    pub coord: Seq<u64>,
    pub payload: PayloadView,
}

impl View for ChunkPayload {
    type V = PayloadView;

    open spec fn view(&self) -> PayloadView {
        match *self {
            ChunkPayload::Inline(data) => PayloadView::Inline { data: bytes_contents(data) },
            ChunkPayload::Virtual(r) => PayloadView::Virtual {
                location: r.location@,
                offset: r.offset,
                length: r.length,
            },
            ChunkPayload::Ref(r) => PayloadView::Ref {
                id: r.id@,
                offset: r.offset,
                length: r.length,
            },
        }
    }
}

impl View for ChunkInfo {
    type V = ChunkInfoView;

    open spec fn view(&self) -> ChunkInfoView {
        ChunkInfoView { node: self.node, coord: self.coord@, payload: self.payload@ }
    }
}

} // verus!
