//! Named VM snapshots.
use vstd::prelude::*;

verus! {

/// A named VM snapshot, as [`crate::vm::vm::Vm::finish_save_snapshot`] reports one.
#[derive(Debug, Clone, PartialEq, Eq, Hash)]
pub struct Snapshot {
    tag: String,
}

impl View for Snapshot {
    type V = Seq<char>;

    /// The snapshot's tag.
    closed spec fn view(&self) -> Seq<char> {
        self.tag@
    }
}

impl Snapshot {
    /// The snapshot with the given tag.
    pub fn new(tag: &str) -> (res: Self)
        ensures
            res@ == tag@,
    {
        Snapshot { tag: tag.to_owned() }
    }

    /// The snapshot tag name.
    pub fn tag(&self) -> (res: &str)
        ensures
            res@ == self@,
    {
        self.tag.as_str()
    }
}

} // verus!
