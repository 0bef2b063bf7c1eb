use vstd::prelude::*;

use super::len::Len;
use super::mutate_info::{Accessor, AccessorView};
use super::seq_edit::vec_clone_at;

verus! {

/// Containers from which entries can be read back through an accessor.
pub trait Retrieve<T: Clone>: Len {
    /// The entries held, in order.
    spec fn contents(&self) -> Seq<T>;

    /// `get` can serve this accessor.
    spec fn can_get(&self, accessor: AccessorView) -> bool;

    proof fn lemma_size_is_contents_len(&self)
        ensures
            self.size() == self.contents().len(),
    ;

    /// Copies of the entries at the positions the accessor designates.
    fn get(&self, accessor: &Accessor) -> (r: Vec<T>)
        requires
            self.can_get(accessor@),
        ensures
            accessor@.within(self.contents().len()),
            r@.len() == accessor@.index_seq().len(),
            forall|i: int|
                0 <= i < r@.len() ==> cloned(
                    self.contents()[accessor@.index_seq()[i] as int],
                    #[trigger] r@[i],
                ),
    ;
}

impl<T: Clone> Retrieve<T> for Vec<T> {
    open spec fn contents(&self) -> Seq<T> {
        self@
    }

    /// A range must not begin past its end nor end past the entries; every
    /// listed position must hold an entry.
    open spec fn can_get(&self, accessor: AccessorView) -> bool {
        match accessor {
            AccessorView::Range(b, e) => b <= e <= self@.len(),
            AccessorView::Indices(_) => accessor.within(self@.len()),
        }
    }

    proof fn lemma_size_is_contents_len(&self) {
    }

    fn get(&self, accessor: &Accessor) -> (r: Vec<T>) {
        let idx = accessor.to_indices();
        vec_clone_at(self, &idx)
    }
}

} // verus!
