use vstd::prelude::*;

verus! {

/// Containers that can say how many entries they hold.
pub trait Len {
    /// The number of entries held.
    spec fn size(&self) -> nat;

    fn len(&self) -> (r: usize)
        ensures
            r == self.size(),
    ;
}

impl<T> Len for Vec<T> {
    open spec fn size(&self) -> nat {
        self@.len()
    }

    fn len(&self) -> (r: usize) {
        Vec::len(self)
    }
}

} // verus!
