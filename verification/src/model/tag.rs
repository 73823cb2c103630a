//! Named reference entities.

use vstd::prelude::*;
use vstd::std_specs::cmp::PartialEqSpecImpl;
use core::hash::{Hash, Hasher};

verus! {

/// The kinds of reference entity that are known by their name alone.
#[derive(Clone, Copy, Debug, PartialEq, Eq, Hash, Structural)]
pub enum TagKind {
    AccountType,
    Category,
    Method,
}

/// Feeds a key to a hasher.
///
/// Trusted: `Hash::hash` of `i64`; nothing is claimed of the hasher's state.
pub assume_specification<H: Hasher>[ <i64 as Hash>::hash ](key: &i64, state: &mut H)
;

/// A reference entity: a key and a unique, non-empty name. Two tags are
/// equal where their keys are.
#[derive(Debug)]
pub struct Tag {
    pub id: i64,
    pub name: String,
}

impl Tag {
    /// The name of the tag.
    pub fn to_string(&self) -> (text: String)
        ensures
            text == self.name,
    {
        self.name.clone()
    }
}

impl Clone for Tag {
    fn clone(&self) -> (copy: Tag)
        ensures
            copy == *self,
    {
        Tag { id: self.id, name: self.name.clone() }
    }
}

impl PartialEq for Tag {
    fn eq(&self, other: &Tag) -> (r: bool)
        ensures
            r == (self.id == other.id),
    {
        self.id == other.id
    }
}

impl PartialEqSpecImpl for Tag {
    open spec fn obeys_eq_spec() -> bool {
        true
    }

    open spec fn eq_spec(&self, other: &Tag) -> bool {
        self.id == other.id
    }
}

impl Eq for Tag {

}

impl Hash for Tag {
    fn hash<H: Hasher>(&self, state: &mut H) {
        self.id.hash(state);
    }
}

} // verus!
