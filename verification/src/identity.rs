use vstd::prelude::*;

verus! {

/// An external actor's principal, as the authentication collaborator hands
/// it over: a 32-byte public key. The core never looks inside it; it only
/// records which identity created, executed or cancelled a record.
#[derive(Clone, Copy, Debug, PartialEq, Eq)]
pub struct Identity {
    pub key: [u8; 32],
}

} // verus!
