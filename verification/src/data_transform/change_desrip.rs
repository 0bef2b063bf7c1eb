use vstd::prelude::*;

use super::mutate_info::{AccessorView, MutationView};

verus! {

/// A description of how a raw store changed, as mathematical values.
pub enum ChangeDescripView {
    Reset,
    Change(Seq<MutationView>),
}

#[derive(PartialEq, Debug)]
pub enum ChangeDescrip {
    Reset,
    Change(Vec<Change>),
}

#[derive(PartialEq, Debug)]
pub enum Change {
    Add(Accessor),
    Replace(Accessor),
    Insert(Accessor),
    Remove(Accessor),
}

#[derive(PartialEq, Debug)]
pub enum Accessor {
    Range((usize, usize)),
    Indices(Vec<usize>),
}

impl View for Accessor {
    type V = AccessorView;

    open spec fn view(&self) -> AccessorView {
        match self {
            Accessor::Range((b, e)) => AccessorView::Range(*b, *e),
            Accessor::Indices(v) => AccessorView::Indices(v@),
        }
    }
}

impl View for Change {
    type V = MutationView;

    open spec fn view(&self) -> MutationView {
        match self {
            Change::Add(a) => MutationView::Add(a@),
            Change::Replace(a) => MutationView::Replace(a@),
            Change::Insert(a) => MutationView::Insert(a@),
            Change::Remove(a) => MutationView::Remove(a@),
        }
    }
}

impl View for ChangeDescrip {
    type V = ChangeDescripView;

    open spec fn view(&self) -> ChangeDescripView {
        match self {
            ChangeDescrip::Reset => ChangeDescripView::Reset,
            ChangeDescrip::Change(v) => ChangeDescripView::Change(v@.map_values(|c: Change| c@)),
        }
    }
}

impl Clone for Accessor {
    fn clone(&self) -> (r: Self)
        ensures
            r@ == self@,
    {
        match self {
            Accessor::Range((b, e)) => Accessor::Range((*b, *e)),
            Accessor::Indices(v) => {
                let c = v.clone();
                assert(c@ =~= v@);
                Accessor::Indices(c)
            },
        }
    }
}

impl Clone for Change {
    fn clone(&self) -> (r: Self)
        ensures
            r@ == self@,
    {
        match self {
            Change::Add(a) => Change::Add(a.clone()),
            Change::Replace(a) => Change::Replace(a.clone()),
            Change::Insert(a) => Change::Insert(a.clone()),
            Change::Remove(a) => Change::Remove(a.clone()),
        }
    }
}

impl Clone for ChangeDescrip {
    fn clone(&self) -> (r: Self)
        ensures
            r@ == self@,
    {
        match self {
            ChangeDescrip::Reset => ChangeDescrip::Reset,
            ChangeDescrip::Change(v) => {
                let mut c: Vec<Change> = Vec::new();
                let mut i: usize = 0;
                while i < v.len()
                    invariant
                        i <= v.len(),
                        c@.len() == i,
                        forall|j: int| 0 <= j < i ==> (#[trigger] c@[j])@ == v@[j]@,
                    decreases v.len() - i,
                {
                    c.push(v[i].clone());
                    i = i + 1;
                }
                assert(c@.map_values(|x: Change| x@) =~= v@.map_values(|x: Change| x@));
                ChangeDescrip::Change(c)
            },
        }
    }
}

impl Accessor {
    /// Collects a list of positions into an accessor.
    pub fn from_indices(index_iter: &[usize]) -> (r: Accessor)
        ensures
            r@ == AccessorView::Indices(index_iter@),
    {
        let mut v: Vec<usize> = Vec::new();
        let mut i: usize = 0;
        while i < index_iter.len()
            invariant
                i <= index_iter@.len(),
                v@ == index_iter@.subrange(0, i as int),
            decreases index_iter@.len() - i,
        {
            v.push(index_iter[i]);
            i = i + 1;
            assert(v@ =~= index_iter@.subrange(0, i as int));
        }
        assert(v@ =~= index_iter@);
        Accessor::Indices(v)
    }

    /// Collects the positions of a list of (position, entry) pairs.
    pub fn from_assoc<T>(assoc_iter: &[(usize, T)]) -> (r: Accessor)
        ensures
            r@ == AccessorView::Indices(assoc_iter@.map_values(|p: (usize, T)| p.0)),
    {
        let mut v: Vec<usize> = Vec::new();
        let mut i: usize = 0;
        while i < assoc_iter.len()
            invariant
                i <= assoc_iter@.len(),
                v@ == assoc_iter@.subrange(0, i as int).map_values(|p: (usize, T)| p.0),
            decreases assoc_iter@.len() - i,
        {
            v.push(assoc_iter[i].0);
            i = i + 1;
            assert(v@ =~= assoc_iter@.subrange(0, i as int).map_values(|p: (usize, T)| p.0));
        }
        assert(assoc_iter@.subrange(0, assoc_iter@.len() as int) =~= assoc_iter@);
        Accessor::Indices(v)
    }

    /// Lists, in order, the positions a consumed accessor designates.
    pub fn to_indices(accessor: Accessor) -> (r: Vec<usize>)
        ensures
            r@ == accessor@.index_seq(),
    {
        match accessor {
            Accessor::Range((begin, end)) => {
                let mut v: Vec<usize> = Vec::new();
                let mut i: usize = begin;
                while i < end
                    invariant
                        begin <= i <= end || (end < begin && i == begin),
                        v@.len() == i - begin,
                        forall|j: int| 0 <= j < v@.len() ==> #[trigger] v@[j] == begin + j,
                    decreases end - i,
                {
                    v.push(i);
                    i = i + 1;
                }
                assert(v@ =~= AccessorView::Range(begin, end).index_seq());
                v
            },
            Accessor::Indices(indices) => indices,
        }
    }
}

} // verus!
