use vstd::prelude::*;

verus! {

/// The first layout of a schema variant's node in the workspace graph. Ids
/// are 128-bit ULIDs; the content hash is a 32-byte digest of the variant's
/// stored content.
#[derive(Clone, Copy, Debug, PartialEq, Eq)]
pub struct SchemaVariantNodeWeightV1 {
    pub id: u128,
    pub lineage_id: u128,
    pub is_locked: bool,
    pub content_hash: [u8; 32],
}

impl SchemaVariantNodeWeightV1 {
    pub fn new(id: u128, lineage_id: u128, is_locked: bool, content_hash: [u8; 32]) -> (r:
        SchemaVariantNodeWeightV1)
        ensures
            r == (SchemaVariantNodeWeightV1 { id, lineage_id, is_locked, content_hash }),
    {
        SchemaVariantNodeWeightV1 { id, lineage_id, is_locked, content_hash }
    }
}

/// A schema variant's node, one variant per layout version.
#[derive(Clone, Copy, Debug, PartialEq, Eq)]
pub enum SchemaVariantNodeWeight {
    V1(SchemaVariantNodeWeightV1),
}

/// The newest layout inside a node weight.
pub open spec fn inner_of(w: SchemaVariantNodeWeight) -> SchemaVariantNodeWeightV1 {
    match w {
        SchemaVariantNodeWeight::V1(inner) => inner,
    }
}

impl SchemaVariantNodeWeight {
    /// A node weight in the newest layout.
    pub fn new(id: u128, lineage_id: u128, is_locked: bool, content_hash: [u8; 32]) -> (r:
        SchemaVariantNodeWeight)
        ensures
            r == SchemaVariantNodeWeight::V1(
                SchemaVariantNodeWeightV1 { id, lineage_id, is_locked, content_hash },
            ),
    {
        SchemaVariantNodeWeight::V1(SchemaVariantNodeWeightV1::new(id, lineage_id, is_locked, content_hash))
    }

    /// The newest layout.
    pub fn inner(&self) -> (r: &SchemaVariantNodeWeightV1)
        ensures
            *r == inner_of(*self),
    {
        match self {
            SchemaVariantNodeWeight::V1(inner) => inner,
        }
    }

    /// The newest layout, to change in place.
    pub fn inner_mut(&mut self) -> (r: &mut SchemaVariantNodeWeightV1)
        ensures
            *r == inner_of(*old(self)),
            *final(self) == SchemaVariantNodeWeight::V1(*final(r)),
    {
        match self {
            SchemaVariantNodeWeight::V1(inner) => inner,
        }
    }
}

} // verus!
