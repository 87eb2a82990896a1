//! The material store: an append-only asset table from material
//! identifier to material data.

use vstd::prelude::*;

verus! {

/// One material's data. The payload is opaque to the upgrade protocol:
/// only identity and cloning matter.
#[derive(Clone, Copy, PartialEq, Eq, Structural, Debug)]
pub struct Material {
    pub payload: u64,
}

/// Asset table mapping a material identifier to material data.
///
/// Identifiers are indices into the table, issued in order by `add`.
/// The table is append-only in the core protocol (entries may be
/// overwritten in place through `set`, but never removed), so an
/// identifier, once issued, stays resolvable.
pub struct MaterialStore {
    entries: Vec<Material>,
}

impl View for MaterialStore {
    type V = Seq<Material>;

    closed spec fn view(&self) -> Seq<Material> {
        self.entries@
    }
}

impl MaterialStore {
    /// An empty store; no identifier resolves yet.
    pub fn new() -> (s: Self)
        ensures
            s@ == Seq::<Material>::empty(),
    {
        MaterialStore { entries: Vec::new() }
    }

    /// Number of entries; every identifier below it resolves.
    pub fn len(&self) -> (n: usize)
        ensures
            n == self@.len(),
    {
        self.entries.len()
    }

    /// Adds material data under a fresh identifier and returns the
    /// identifier. Existing entries are untouched.
    pub fn add(&mut self, m: Material) -> (id: usize)
        ensures
            id == old(self)@.len(),
            final(self)@ == old(self)@.push(m),
    {
        let id = self.entries.len();
        self.entries.push(m);
        id
    }

    /// Looks an identifier up; `None` exactly when it was never issued.
    pub fn get(&self, id: usize) -> (r: Option<Material>)
        ensures
            id < self@.len() ==> r == Some(self@[id as int]),
            id >= self@.len() ==> r is None,
    {
        if id < self.entries.len() {
            Some(self.entries[id])
        } else {
            None
        }
    }

    /// Overwrites the data under an already-issued identifier, leaving
    /// the identifier itself stable.
    pub fn set(&mut self, id: usize, m: Material)
        requires
            id < old(self)@.len(),
        ensures
            final(self)@ == old(self)@.update(id as int, m),
    {
        self.entries[id] = m;
    }
}

} // verus!
