use std::marker::PhantomData;

use vstd::prelude::*;

use super::len::Len;
use super::mutate_info::{Accessor, AccessorView, MutateInfo, MutateInfoView, Mutation, MutationView};
use super::retrieve::Retrieve;
use super::seq_edit::{
    can_insert_each, can_remove_each, can_update_each, inserted_each, removed_each, updated_each,
    vec_insert_each, vec_remove_each, vec_update_each,
};

verus! {

/// Containers that keep the entries handed to them unchanged.
pub trait IdentityContainer<T> {
    /// The entries held, in order.
    spec fn items(&self) -> Seq<T>;

    /// Appends the entries and returns the range they now occupy.
    fn add(&mut self, entry_iter: Vec<T>) -> (accessor: Accessor)
        requires
            old(self).items().len() + entry_iter@.len() <= usize::MAX,
        ensures
            final(self).items() == old(self).items() + entry_iter@,
            accessor@ == AccessorView::Range(
                old(self).items().len() as usize,
                final(self).items().len() as usize,
            ),
    ;

    /// Removes, one after the other, the entry at each position.
    fn remove(&mut self, index_iter: Vec<usize>)
        requires
            can_remove_each(old(self).items().len(), index_iter@),
        ensures
            final(self).items() == removed_each(old(self).items(), index_iter@),
    ;

    /// Inserts, one after the other, each entry at its position.
    fn replace(&mut self, assoc_iter: Vec<(usize, T)>)
        requires
            can_insert_each(old(self).items().len(), assoc_iter@),
        ensures
            final(self).items() == inserted_each(old(self).items(), assoc_iter@),
    ;

    /// Overwrites, one after the other, the entry at each position.
    fn insert(&mut self, assoc_iter: Vec<(usize, T)>)
        requires
            can_update_each(old(self).items().len(), assoc_iter@),
        ensures
            final(self).items() == updated_each(old(self).items(), assoc_iter@),
    ;

    /// Drops every entry.
    fn reset(&mut self)
        ensures
            final(self).items() == Seq::<T>::empty(),
    ;
}

impl<T> IdentityContainer<T> for Vec<T> {
    open spec fn items(&self) -> Seq<T> {
        self@
    }

    fn add(&mut self, entry_iter: Vec<T>) -> (accessor: Accessor) {
        let init_size = Vec::len(self);
        let mut entries = entry_iter;
        self.append(&mut entries);
        Accessor::Range((init_size, Vec::len(self)))
    }

    fn remove(&mut self, index_iter: Vec<usize>) {
        vec_remove_each(self, index_iter);
    }

    fn replace(&mut self, assoc_iter: Vec<(usize, T)>) {
        vec_insert_each(self, assoc_iter);
    }

    fn insert(&mut self, assoc_iter: Vec<(usize, T)>) {
        vec_update_each(self, assoc_iter);
    }

    fn reset(&mut self) {
        self.clear();
    }
}

/// A store that keeps its entries as they were handed in and describes each
/// edit it makes.
pub struct Identity<T, C> where C: IdentityContainer<T> {
    contain: C,
    _t: PhantomData<T>,
}

impl<T, C> View for Identity<T, C> where C: IdentityContainer<T> {
    type V = Seq<T>;

    open spec fn view(&self) -> Seq<T> {
        self.container().items()
    }
}

impl<T, C> Identity<T, C> where C: IdentityContainer<T> {
    /// The container the store wraps.
    pub closed spec fn container(&self) -> C {
        self.contain
    }

    pub fn new(contain: C) -> (r: Self)
        ensures
            r@ == contain.items(),
            r.container() == contain,
    {
        Identity { contain, _t: PhantomData }
    }

    /// Appends the entries; the description names the range they occupy.
    pub fn add(&mut self, entry_iter: Vec<T>) -> (r: MutateInfo)
        requires
            old(self)@.len() + entry_iter@.len() <= usize::MAX,
        ensures
            final(self)@ == old(self)@ + entry_iter@,
            r@ == MutateInfoView::Change(
                seq![MutationView::Add(AccessorView::Range(old(self)@.len() as usize, final(self)@.len() as usize))],
            ),
    {
        let accessor = self.contain.add(entry_iter);
        let r = MutateInfo::Change(vec![Mutation::Add(accessor)]);
        assert(r@->Change_0 =~= seq![MutationView::Add(accessor@)]);
        r
    }

    /// Removes, one after the other, the entry at each position; the
    /// description lists the positions.
    pub fn remove(&mut self, index_iter: Vec<usize>) -> (r: MutateInfo)
        requires
            can_remove_each(old(self)@.len(), index_iter@),
        ensures
            final(self)@ == removed_each(old(self)@, index_iter@),
            r@ == MutateInfoView::Change(
                seq![MutationView::Remove(AccessorView::Indices(index_iter@))],
            ),
    {
        let accessor = Accessor::from_indices(index_iter.as_slice());
        self.contain.remove(index_iter);
        let r = MutateInfo::Change(vec![Mutation::Remove(accessor)]);
        assert(r@->Change_0 =~= seq![MutationView::Remove(accessor@)]);
        r
    }

    /// Inserts, one after the other, each entry at its position; the
    /// description lists the positions.
    pub fn replace(&mut self, assoc_iter: Vec<(usize, T)>) -> (r: MutateInfo)
        requires
            can_insert_each(old(self)@.len(), assoc_iter@),
        ensures
            final(self)@ == inserted_each(old(self)@, assoc_iter@),
            r@ == MutateInfoView::Change(
                seq![MutationView::Replace(AccessorView::Indices(assoc_iter@.map_values(|p: (usize, T)| p.0)))],
            ),
    {
        let accessor = Accessor::from_assoc(assoc_iter.as_slice());
        self.contain.replace(assoc_iter);
        let r = MutateInfo::Change(vec![Mutation::Replace(accessor)]);
        assert(r@->Change_0 =~= seq![MutationView::Replace(accessor@)]);
        r
    }

    /// Overwrites, one after the other, the entry at each position; the
    /// description lists the positions.
    pub fn insert(&mut self, assoc_iter: Vec<(usize, T)>) -> (r: MutateInfo)
        requires
            can_update_each(old(self)@.len(), assoc_iter@),
        ensures
            final(self)@ == updated_each(old(self)@, assoc_iter@),
            r@ == MutateInfoView::Change(
                seq![MutationView::Insert(AccessorView::Indices(assoc_iter@.map_values(|p: (usize, T)| p.0)))],
            ),
    {
        let accessor = Accessor::from_assoc(assoc_iter.as_slice());
        self.contain.insert(assoc_iter);
        let r = MutateInfo::Change(vec![Mutation::Insert(accessor)]);
        assert(r@->Change_0 =~= seq![MutationView::Insert(accessor@)]);
        r
    }

    /// Describes a reset; the entries themselves are left as they are.
    pub fn reset(&mut self) -> (r: MutateInfo)
        ensures
            final(self).container() == old(self).container(),
            final(self)@ == old(self)@,
            r@ == MutateInfoView::Reset,
    {
        MutateInfo::Reset
    }
}

impl<T, C> Retrieve<T> for Identity<T, C> where T: Clone, C: IdentityContainer<T> + Retrieve<T> {
    open spec fn contents(&self) -> Seq<T> {
        self.container().contents()
    }

    open spec fn can_get(&self, accessor: AccessorView) -> bool {
        self.container().can_get(accessor)
    }

    proof fn lemma_size_is_contents_len(&self) {
        self.contain.lemma_size_is_contents_len();
    }

    fn get(&self, accessor: &Accessor) -> (r: Vec<T>) {
        self.contain.get(accessor)
    }
}

impl<T, C> Len for Identity<T, C> where C: IdentityContainer<T> + Len {
    open spec fn size(&self) -> nat {
        self.container().size()
    }

    fn len(&self) -> (r: usize) {
        self.contain.len()
    }
}


/// A read gives back what an add wrote: once `entries` are appended to a
/// `Vec` store that held `before`, the range `add` reports can be read, and
/// it designates exactly the new entries, in order.
pub proof fn law_add_then_get<T: Clone>(before: Seq<T>, entries: Seq<T>, after: Vec<T>)
    requires
        before.len() + entries.len() <= usize::MAX,
        after@ == before + entries,
    ensures
        after.can_get(AccessorView::Range(before.len() as usize, after@.len() as usize)),
        AccessorView::Range(before.len() as usize, after@.len() as usize).index_seq().len()
            == entries.len(),
        forall|i: int|
            0 <= i < entries.len() ==> after.contents()[#[trigger] AccessorView::Range(
                before.len() as usize,
                after@.len() as usize,
            ).index_seq()[i] as int] == entries[i],
{
}

} // verus!
