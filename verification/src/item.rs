//! The record that observers of a transfer receive.

use vstd::prelude::*;

verus! {

/// The state of one transfer at the moment it was published.
#[derive(Debug)]
pub struct Item {
    /// Identifies the transfer; fixed when the transfer is set up.
    pub name: String,
    /// Expected final size in bytes; 0 means that it is not known.
    pub total: u64,
    /// Bytes moved so far.
    pub size: u64,
    /// Whether the transfer was stopped by a cancellation request.
    pub canceled: bool,
}

/// What an [`Item`] says, as mathematical values.
pub struct Snapshot {
    pub name: Seq<char>,
    pub total: nat,
    pub size: nat,
    pub canceled: bool,
}

impl View for Item {
    type V = Snapshot;

    open spec fn view(&self) -> Snapshot {
        Snapshot {
            name: self.name@,
            total: self.total as nat,
            size: self.size as nat,
            canceled: self.canceled,
        }
    }
}

impl Clone for Item {
    /// A copy with the same contents.
    fn clone(&self) -> (copy: Item)
        ensures
            copy@ == self@,
    {
        Item {
            name: self.name.clone(),
            total: self.total,
            size: self.size,
            canceled: self.canceled,
        }
    }
}

impl Default for Item {
    /// The record of a transfer of which nothing is known yet: no name, no
    /// expected size, no bytes moved, not canceled.
    fn default() -> (item: Item)
        ensures
            item@ == (Snapshot { name: Seq::empty(), total: 0, size: 0, canceled: false }),
    {
        Item { name: String::new(), total: 0, size: 0, canceled: false }
    }
}

} // verus!
