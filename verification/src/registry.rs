//! The shared palette registry: the process-wide handle to the one
//! base material that every sink's derived material is cloned from.

use vstd::prelude::*;

verus! {

/// Why a registry read failed.
#[derive(Clone, Copy, PartialEq, Eq, Structural, Debug)]
pub enum RegistryError {
    /// The registry was read before `initialize` was called. The host
    /// application must initialize the registry before constructing
    /// any sink; hitting this during sink construction is an ordering
    /// bug in the host, not a recoverable condition.
    Uninitialized,
}

/// Holds the identifier of the base palette material.
///
/// Created empty at startup, initialized exactly once before any sink
/// is constructed, and read-only for the rest of the process.
pub struct PaletteRegistry {
    base: Option<usize>,
}

impl PaletteRegistry {
    /// Whether `initialize` has run.
    pub closed spec fn is_initialized(&self) -> bool {
        self.base is Some
    }

    /// The registered base material identifier (meaningful only once
    /// initialized).
    pub closed spec fn base_id(&self) -> usize {
        self.base.unwrap()
    }

    /// A registry on which `initialize` has not yet run.
    pub fn new() -> (r: Self)
        ensures
            !r.is_initialized(),
    {
        PaletteRegistry { base: None }
    }

    /// Records the base material identifier. Must be called exactly
    /// once, before any sink construction; calling it again is not
    /// supported, which the precondition enforces.
    pub fn initialize(&mut self, base: usize)
        requires
            !old(self).is_initialized(),
        ensures
            final(self).is_initialized(),
            final(self).base_id() == base,
    {
        self.base = Some(base);
    }

    /// The current base material identifier, or the uninitialized-
    /// registry condition if `initialize` has not run.
    pub fn get(&self) -> (r: Result<usize, RegistryError>)
        ensures
            self.is_initialized() ==> r == Ok::<usize, RegistryError>(self.base_id()),
            !self.is_initialized() ==> r == Err::<usize, RegistryError>(RegistryError::Uninitialized),
    {
        match self.base {
            Some(b) => Ok(b),
            None => Err(RegistryError::Uninitialized),
        }
    }

    /// The base material identifier at a call site that has already
    /// ruled the uninitialized case out.
    pub fn base(&self) -> (b: usize)
        requires
            self.is_initialized(),
        ensures
            b == self.base_id(),
    {
        match self.base {
            Some(b) => b,
            None => 0,
        }
    }
}

} // verus!
