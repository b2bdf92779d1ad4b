//! Entity identity: the narrow capability of carrying a numeric identifier,
//! kept apart from any richer entity data.

use vstd::prelude::*;

verus! {

/// Something that carries a numeric identifier. `id_spec` is the abstract
/// identifier that the accessors are specified against.
pub trait EntityData {
    spec fn id_spec(&self) -> u64;

    fn id(&self) -> (r: u64)
        ensures
            r == self.id_spec(),
    ;

    fn set_id(&mut self, id: u64)
        ensures
            final(self).id_spec() == id,
    ;
}

/// The basic entity: an identifier and nothing else.
pub struct BasicEntity {
    id: u64,
}

impl EntityData for BasicEntity {
    closed spec fn id_spec(&self) -> u64 {
        self.id
    }

    fn id(&self) -> (r: u64) {
        self.id
    }

    fn set_id(&mut self, id: u64) {
        self.id = id;
    }
}

impl Default for BasicEntity {
    /// The default entity: identifier zero.
    fn default() -> (r: Self)
        ensures
            r.id_spec() == 0,
    {
        BasicEntity { id: 0 }
    }
}

} // verus!
