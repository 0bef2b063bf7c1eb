use std::marker::PhantomData;

use vstd::prelude::*;

use super::change_desrip::{Accessor, Change, ChangeDescrip, ChangeDescripView};
use super::len::Len;
use super::mutate_info::{AccessorView, MutationView};
use super::seq_edit::{
    can_insert_each, can_remove_each, can_update_each, inserted_each, removed_each, updated_each,
    vec_insert_each, vec_remove_each, vec_update_each,
};

verus! {

/// A store of raw entries that can be edited in place and read back by
/// reference.
pub trait RawFns<Type>: Len {
    /// The entries held, in order.
    spec fn items(&self) -> Seq<Type>;

    /// `get` can serve this accessor.
    spec fn can_get(&self, accessor: AccessorView) -> bool;

    /// Appends the entries and returns the range they now occupy.
    fn add(&mut self, entry_iter: Vec<Type>) -> (accessor: Accessor)
        requires
            old(self).items().len() + entry_iter@.len() <= usize::MAX,
        ensures
            final(self).items() == old(self).items() + entry_iter@,
            accessor@ == AccessorView::Range(
                old(self).items().len() as usize,
                final(self).items().len() as usize,
            ),
    ;

    /// Removes, one after the other, the entry at each position.
    fn remove(&mut self, index_iter: Vec<usize>)
        requires
            can_remove_each(old(self).items().len(), index_iter@),
        ensures
            final(self).items() == removed_each(old(self).items(), index_iter@),
    ;

    /// Inserts, one after the other, each entry at its position.
    fn replace(&mut self, assoc_iter: Vec<(usize, Type)>)
        requires
            can_insert_each(old(self).items().len(), assoc_iter@),
        ensures
            final(self).items() == inserted_each(old(self).items(), assoc_iter@),
    ;

    /// Overwrites, one after the other, the entry at each position.
    fn insert(&mut self, assoc_iter: Vec<(usize, Type)>)
        requires
            can_update_each(old(self).items().len(), assoc_iter@),
        ensures
            final(self).items() == updated_each(old(self).items(), assoc_iter@),
    ;

    /// Drops every entry.
    fn reset(&mut self)
        ensures
            final(self).items() == Seq::<Type>::empty(),
    ;

    /// References to the entries at the positions the accessor designates.
    fn get(&self, accessor: Accessor) -> (r: Vec<&Type>)
        requires
            self.can_get(accessor@),
        ensures
            accessor@.within(self.items().len()),
            r@.len() == accessor@.index_seq().len(),
            forall|i: int|
                0 <= i < r@.len() ==> *(#[trigger] r@[i]) == self.items()[accessor@.index_seq()[i] as int],
    ;
}

impl<T> RawFns<T> for Vec<T> {
    open spec fn items(&self) -> Seq<T> {
        self@
    }

    /// A range must not begin past its end nor end past the entries; every
    /// listed position must hold an entry.
    open spec fn can_get(&self, accessor: AccessorView) -> bool {
        match accessor {
            AccessorView::Range(b, e) => b <= e <= self@.len(),
            AccessorView::Indices(_) => accessor.within(self@.len()),
        }
    }

    fn add(&mut self, entry_iter: Vec<T>) -> (accessor: Accessor) {
        let init_size = Vec::len(self);
        let mut entries = entry_iter;
        self.append(&mut entries);
        Accessor::Range((init_size, Vec::len(self)))
    }

    fn remove(&mut self, index_iter: Vec<usize>) {
        vec_remove_each(self, index_iter);
    }

    fn replace(&mut self, assoc_iter: Vec<(usize, T)>) {
        vec_insert_each(self, assoc_iter);
    }

    fn insert(&mut self, assoc_iter: Vec<(usize, T)>) {
        vec_update_each(self, assoc_iter);
    }

    fn reset(&mut self) {
        self.clear();
    }

    fn get(&self, accessor: Accessor) -> (r: Vec<&T>) {
        let ghost a = accessor@;
        let idx = Accessor::to_indices(accessor);
        let mut r: Vec<&T> = Vec::new();
        let mut i: usize = 0;
        while i < idx.len()
            invariant
                idx@ == a.index_seq(),
                a.within(self@.len()),
                i <= idx@.len(),
                r@.len() == i,
                forall|j: int| 0 <= j < i ==> *(#[trigger] r@[j]) == self@[idx@[j] as int],
            decreases idx@.len() - i,
        {
            r.push(&self[idx[i]]);
            i = i + 1;
        }
        r
    }
}

/// A store of raw entries that describes each edit it makes.
pub struct Raw<Type, RawStore> where RawStore: RawFns<Type> {
    raw_store: RawStore,
    _t: PhantomData<Type>,
}

impl<Type, RawStore> View for Raw<Type, RawStore> where RawStore: RawFns<Type> {
    type V = Seq<Type>;

    open spec fn view(&self) -> Seq<Type> {
        self.store().items()
    }
}

impl<Type, RawStore> Raw<Type, RawStore> where RawStore: RawFns<Type> {
    /// The store the wrapper holds.
    pub closed spec fn store(&self) -> RawStore {
        self.raw_store
    }

    pub fn new(raw_store: RawStore) -> (r: Self)
        ensures
            r@ == raw_store.items(),
            r.store() == raw_store,
    {
        Raw { raw_store, _t: PhantomData }
    }

    /// Appends the entries; the description names the range they occupy.
    pub fn add(&mut self, entry_iter: Vec<Type>) -> (r: ChangeDescrip)
        requires
            old(self)@.len() + entry_iter@.len() <= usize::MAX,
        ensures
            final(self)@ == old(self)@ + entry_iter@,
            r@ == ChangeDescripView::Change(
                seq![MutationView::Add(AccessorView::Range(old(self)@.len() as usize, final(self)@.len() as usize))],
            ),
    {
        let accessor = self.raw_store.add(entry_iter);
        let r = ChangeDescrip::Change(vec![Change::Add(accessor)]);
        assert(r@->Change_0 =~= seq![MutationView::Add(accessor@)]);
        r
    }

    /// Removes, one after the other, the entry at each position; the
    /// description lists the positions.
    pub fn remove(&mut self, index_iter: Vec<usize>) -> (r: ChangeDescrip)
        requires
            can_remove_each(old(self)@.len(), index_iter@),
        ensures
            final(self)@ == removed_each(old(self)@, index_iter@),
            r@ == ChangeDescripView::Change(
                seq![MutationView::Remove(AccessorView::Indices(index_iter@))],
            ),
    {
        let accessor = Accessor::from_indices(index_iter.as_slice());
        self.raw_store.remove(index_iter);
        let r = ChangeDescrip::Change(vec![Change::Remove(accessor)]);
        assert(r@->Change_0 =~= seq![MutationView::Remove(accessor@)]);
        r
    }

    /// Inserts, one after the other, each entry at its position; the
    /// description lists the positions.
    pub fn replace(&mut self, assoc_iter: Vec<(usize, Type)>) -> (r: ChangeDescrip)
        requires
            can_insert_each(old(self)@.len(), assoc_iter@),
        ensures
            final(self)@ == inserted_each(old(self)@, assoc_iter@),
            r@ == ChangeDescripView::Change(
                seq![MutationView::Replace(AccessorView::Indices(assoc_iter@.map_values(|p: (usize, Type)| p.0)))],
            ),
    {
        let accessor = Accessor::from_assoc(assoc_iter.as_slice());
        self.raw_store.replace(assoc_iter);
        let r = ChangeDescrip::Change(vec![Change::Replace(accessor)]);
        assert(r@->Change_0 =~= seq![MutationView::Replace(accessor@)]);
        r
    }

    /// Overwrites, one after the other, the entry at each position; the
    /// description lists the positions.
    pub fn insert(&mut self, assoc_iter: Vec<(usize, Type)>) -> (r: ChangeDescrip)
        requires
            can_update_each(old(self)@.len(), assoc_iter@),
        ensures
            final(self)@ == updated_each(old(self)@, assoc_iter@),
            r@ == ChangeDescripView::Change(
                seq![MutationView::Insert(AccessorView::Indices(assoc_iter@.map_values(|p: (usize, Type)| p.0)))],
            ),
    {
        let accessor = Accessor::from_assoc(assoc_iter.as_slice());
        self.raw_store.insert(assoc_iter);
        let r = ChangeDescrip::Change(vec![Change::Insert(accessor)]);
        assert(r@->Change_0 =~= seq![MutationView::Insert(accessor@)]);
        r
    }

    /// Describes a reset; the entries themselves are left as they are.
    pub fn reset(&mut self) -> (r: ChangeDescrip)
        ensures
            final(self).store() == old(self).store(),
            final(self)@ == old(self)@,
            r@ == ChangeDescripView::Reset,
    {
        ChangeDescrip::Reset
    }

    /// References to the entries at the positions the accessor designates.
    pub fn get(&self, accessor: Accessor) -> (r: Vec<&Type>)
        requires
            self.store().can_get(accessor@),
        ensures
            accessor@.within(self@.len()),
            r@.len() == accessor@.index_seq().len(),
            forall|i: int|
                0 <= i < r@.len() ==> *(#[trigger] r@[i]) == self@[accessor@.index_seq()[i] as int],
    {
        self.raw_store.get(accessor)
    }
}

impl<Type, RawStore> Len for Raw<Type, RawStore> where RawStore: RawFns<Type> {
    open spec fn size(&self) -> nat {
        self.store().size()
    }

    fn len(&self) -> (r: usize) {
        self.raw_store.len()
    }
}


/// The range `add` reports designates what it appended: once `entries` are
/// appended to a `Vec` store that held `before`, the range can be read, and a
/// read of it refers to exactly the new entries, in order.
pub proof fn law_raw_add_then_get<T>(before: Seq<T>, entries: Seq<T>, after: Vec<T>)
    requires
        before.len() + entries.len() <= usize::MAX,
        after@ == before + entries,
    ensures
        after.can_get(AccessorView::Range(before.len() as usize, after@.len() as usize)),
        AccessorView::Range(before.len() as usize, after@.len() as usize).index_seq().len()
            == entries.len(),
        forall|i: int|
            0 <= i < entries.len() ==> after.items()[#[trigger] AccessorView::Range(
                before.len() as usize,
                after@.len() as usize,
            ).index_seq()[i] as int] == entries[i],
{
}

} // verus!
