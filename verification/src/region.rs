//! Row ranges of a manifest table, and the handle by which a snapshot
//! addresses a manifest without loading it.

use vstd::prelude::*;

use crate::coords::ChunkIndices;
use crate::error::ManifestError;
use crate::payload::ObjectId;

verus! {

/// Offset of a row within a manifest table.
pub type TableOffset = u32;

/// The half-open row interval `[self.0, self.1)` of a manifest table.
#[derive(Debug, Clone, PartialEq, Eq)]
pub struct TableRegion(pub TableOffset, pub TableOffset);

impl TableRegion {
    /// A region is well formed for a table of `rows` rows when
    /// `from <= to <= rows`.
    pub open spec fn well_formed(&self, rows: nat) -> bool {
        self.0 <= self.1 && self.1 <= rows
    }

    /// Whether the region lies within a table of `rows` rows.
    pub fn fits(&self, rows: usize) -> (ok: bool)
        ensures
            ok == self.well_formed(rows as nat),
    {
        self.0 <= self.1 && self.1 as usize <= rows
    }

    /// Checks the region against the row count of the table it addresses,
    /// which is known only once that table has been loaded.
    pub fn validate(&self, rows: usize) -> (r: Result<(), ManifestError>)
        ensures
            self.well_formed(rows as nat) ==> r == Ok::<(), ManifestError>(()),
            !self.well_formed(rows as nat) ==> r == Err::<(), ManifestError>(
                ManifestError::RegionOutOfBounds { from: self.0, to: self.1, rows },
            ),
    {
        if self.fits(rows) {
            Ok(())
        } else {
            Err(ManifestError::RegionOutOfBounds { from: self.0, to: self.1, rows })
        }
    }
}

/// Format hints carried by a manifest reference. None is defined yet.
#[derive(Debug, Clone, PartialEq, Eq)]
pub struct Flags();

/// The coordinates that bound what a manifest, or a region of one, covers.
#[derive(Debug, Clone, PartialEq, Eq)]
pub struct ManifestExtents(pub Vec<ChunkIndices>);

/// A pointer to a region of a stored manifest.
#[derive(Debug, Clone, PartialEq, Eq)]
pub struct ManifestRef {
    pub object_id: ObjectId,
    pub location: TableRegion,
    pub flags: Flags,
    pub extents: ManifestExtents,
}

} // verus!
