//! Props: things on the map that hold items.

use vstd::prelude::*;
use crate::geometry::Point;
use crate::inventory::Item;

verus! {

/// A prop on the map and the items in it.
#[derive(Debug, Clone, PartialEq, Eq)]
pub struct PropState {
    pub prop_id: String,
    pub location: Point,
    pub items: Vec<Item>,
}

impl PropState {
    /// How many items the prop holds.
    pub fn num_items(&self) -> (count: usize)
        ensures
            count == self.items@.len(),
    {
        self.items.len()
    }

    /// Takes the item at `index` out of the prop; the items behind it move
    /// up by one. There is nothing to take at an index beyond the items.
    pub fn remove_item(&mut self, index: usize) -> (item: Option<Item>)
        ensures
            final(self).prop_id == old(self).prop_id,
            final(self).location == old(self).location,
            index < old(self).items@.len() ==> item == Some(old(self).items@[index as int])
                && final(self).items@ == old(self).items@.remove(index as int),
            index >= old(self).items@.len() ==> item is None
                && final(self).items == old(self).items,
    {
        if index < self.items.len() {
            Some(self.items.remove(index))
        } else {
            None
        }
    }
}

} // verus!
