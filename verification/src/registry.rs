use vstd::prelude::*;

use crate::identity::Identity;

verus! {

/// A genome record: who registered a piece of stored genome data, and when.
/// `storage_id` and `metadata` are opaque to the core; `owner` and
/// `created_at` are set once at creation and never change. `deleted` is a
/// soft-delete flag that no operation in the core sets; it is reserved.
#[derive(Clone, Debug, PartialEq, Eq)]
pub struct Genome {
    pub storage_id: String,
    pub metadata: String,
    pub owner: Identity,
    pub created_at: i64,
    pub deleted: bool,
}

/// Registers a genome record: the caller-supplied strings are stored
/// verbatim, `owner` is the invoking identity, `created_at` is the time the
/// clock collaborator supplied, and the record starts out not deleted.
///
/// The core enforces no format or uniqueness constraint on `storage_id` or
/// `metadata`; uniqueness, if wanted, belongs to the persistence
/// collaborator that allocates identifiers.
pub fn initialize_genome(storage_id: String, metadata: String, owner: Identity, now: i64) -> (genome: Genome)
    ensures
        genome.storage_id == storage_id,
        genome.metadata == metadata,
        genome.owner == owner,
        genome.created_at == now,
        !genome.deleted,
{
    Genome {
        storage_id,
        metadata,
        owner,
        created_at: now,
        deleted: false,
    }
}

} // verus!
