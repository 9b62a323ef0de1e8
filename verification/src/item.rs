//! `Item` is an opaque handle for a value held by an `Itemizer`: a thin
//! wrapper around the dense, zero-based numeric identifier the `Itemizer`
//! assigned to that value.

use vstd::prelude::*;

verus! {

/// A dense, zero-based integer handle for an interned value.
///
/// An `Item` is normally produced by `Itemizer::id_of` when a value is first
/// seen; `with_id` reconstructs one from a raw identifier that is already
/// known to be valid. Equality, ordering and hashing all go by the wrapped
/// identifier alone.
#[derive(Copy, Clone, Hash, PartialOrd, PartialEq, Eq, Ord, Debug, Structural)]
pub struct Item {
    id: u32,
}

impl View for Item {
    type V = nat;

    /// The abstract value of an `Item` is its identifier, as a mathematical
    /// natural number.
    closed spec fn view(&self) -> nat {
        self.id as nat
    }
}

impl Item {
    /// Creates a new `Item` with the given identifier.
    ///
    /// No validation against any `Itemizer` is performed: the caller is
    /// responsible for only using identifiers obtained from, or known valid
    /// within, an `Itemizer`'s range.
    pub fn with_id(id: u32) -> (r: Item)
        ensures
            r@ == id as nat,
    {
        Item { id: id }
    }

    /// Returns the identifier of the `Item` as a `usize`, suitable as a
    /// zero-based array index.
    pub fn as_index(&self) -> (r: usize)
        ensures
            r as nat == self@,
    {
        self.id as usize
    }
}

} // verus!
