//! Element identifiers.
//!
//! An element is identified by a label together with an index; the index
//! distinguishes elements that share one label. The engine side turns the
//! pair into a hash, which the host never inspects, so the identifier is
//! kept here as the pair itself.

use vstd::prelude::*;

verus! {

/// An element identifier: a label and an index.
#[derive(Debug, Clone, Copy, PartialEq, Eq)]
pub struct Id<'render> {
    pub label: &'render str,
    pub index: u32,
}

impl<'render> Id<'render> {
    /// Creates an id from `label` alone; the index is zero.
    pub fn new(label: &'render str) -> (id: Id<'render>)
        ensures
            id.label@ == label@,
            id.index == 0,
    {
        Id::new_index(label, 0)
    }

    /// Creates an id from `label` and `index`.
    pub fn new_index(label: &'render str, index: u32) -> (id: Id<'render>)
        ensures
            id.label@ == label@,
            id.index == index,
    {
        Id { label, index }
    }

    /// Creates a locally scoped id from `label` and `index`. The host keeps
    /// no scope of its own, so the value equals `new_index(label, index)`.
    pub fn new_index_local(label: &'render str, index: u32) -> (id: Id<'render>)
        ensures
            id.label@ == label@,
            id.index == index,
    {
        Id { label, index }
    }
}

} // verus!
