//! The authored data that the simulation consults: the rules, the named
//! object sizes and the known props.

use vstd::prelude::*;
use crate::geometry::Footprint;
use crate::rules::Rules;
use crate::search::{first_index, lemma_first_index_found, lemma_first_index_skip};
use crate::text::str_eq;

verus! {

/// A named extent on the map.
#[derive(Debug, Clone, PartialEq, Eq)]
pub struct ObjectSize {
    pub id: String,
    pub footprint: Footprint,
}

/// The authored data.
#[derive(Debug, Clone, PartialEq, Eq)]
pub struct Module {
    pub rules: Rules,
    pub object_sizes: Vec<ObjectSize>,
    /// The ids of the props that exist.
    pub props: Vec<String>,
}

/// Whether an object size is named `id`.
pub open spec fn is_size(id: Seq<char>) -> spec_fn(ObjectSize) -> bool {
    |size: ObjectSize| size.id@ == id
}

/// The extent of the first object size in `sizes` that is named `id`.
pub open spec fn size_named(sizes: Seq<ObjectSize>, id: Seq<char>) -> Option<Footprint> {
    match first_index(sizes, is_size(id)) {
        Some(index) => Some(sizes[index].footprint),
        None => None,
    }
}

/// Whether `props` holds the id `id`.
pub open spec fn prop_known(props: Seq<String>, id: Seq<char>) -> bool {
    exists|i: int| 0 <= i < props.len() && (#[trigger] props[i])@ == id
}

/// The extent of the first object size in `sizes` that is named `id`.
pub fn find_size(sizes: &Vec<ObjectSize>, id: &str) -> (found: Option<Footprint>)
    ensures
        found == size_named(sizes@, id@),
{
    let mut i: usize = 0;
    while i < sizes.len()
        invariant
            0 <= i <= sizes.len(),
            first_index(sizes@.take(i as int), is_size(id@)) is None,
        decreases sizes.len() - i,
    {
        if str_eq(sizes[i].id.as_str(), id) {
            proof {
                lemma_first_index_found(sizes@, i as int, is_size(id@));
            }
            return Some(sizes[i].footprint);
        }
        proof {
            lemma_first_index_skip(sizes@, i as int, is_size(id@));
        }
        i += 1;
    }
    assert(sizes@.take(i as int) =~= sizes@);
    None
}

impl Module {
    /// The extent of the object size named `id`, if there is one.
    pub fn object_size(&self, id: &str) -> (found: Option<Footprint>)
        ensures
            found == size_named(self.object_sizes@, id@),
    {
        find_size(&self.object_sizes, id)
    }

    /// Whether a prop with the id `id` exists.
    pub fn has_prop(&self, id: &str) -> (known: bool)
        ensures
            known == prop_known(self.props@, id@),
    {
        let mut i: usize = 0;
        while i < self.props.len()
            invariant
                0 <= i <= self.props.len(),
                forall|k: int| 0 <= k < i ==> (#[trigger] self.props@[k])@ != id@,
            decreases self.props.len() - i,
        {
            if str_eq(self.props[i].as_str(), id) {
                return true;
            }
            i += 1;
        }
        false
    }
}

} // verus!
