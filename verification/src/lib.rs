//! The manifest layer of a chunked-array store.
//!
//! A manifest records, for every chunk of every array in a snapshot, where the
//! chunk's bytes live: inline in the manifest, in the store's own
//! content-addressed objects, or as a byte range of an object the store does
//! not own. Rows are kept in an Arrow record batch; everything that decides
//! what a row means is verified against a cell-level model of that batch.

pub mod builder;
pub mod coords;
pub mod error;
pub mod payload;
pub mod region;
pub mod row;
pub mod store;
pub mod table;

pub use builder::{mk_manifests_table, ManifestsTableBuilder};
pub use coords::ChunkIndices;
pub use error::ManifestError;
pub use payload::{ChunkInfo, ChunkPayload, ChunkRef, NodeId, ObjectId, VirtualChunkRef};
pub use region::{Flags, ManifestExtents, ManifestRef, TableOffset, TableRegion};
pub use store::ManifestsTable;
