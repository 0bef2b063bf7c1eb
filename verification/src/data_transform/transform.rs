use std::marker::PhantomData;

use vstd::prelude::*;

use super::len::Len;
use super::mutate_info::{Accessor, AccessorView, MutateInfo};
use super::mutator::Mutator;
use super::retrieve::Retrieve;
use super::seq_edit::vec_clone_at;

verus! {

/// Derived data that follows a source: every change of the source is
/// handed over together with its description, and the transform describes
/// how its own data changed.
pub trait Transform<T: Clone, O: Clone>: Retrieve<O> {
    fn mutate<Source: Retrieve<T>>(&mut self, src: &Source, change: &MutateInfo) -> MutateInfo;
}

/// A transform that keeps its output in a `Vec` and lets a mutator do the
/// work.
pub struct VecTransform<T, O, M> where M: Mutator<T, Vec<O>>, O: Clone, T: Clone {
    out: Vec<O>,
    mutator: M,
    _t: PhantomData<T>,
}

impl<T, O, M> View for VecTransform<T, O, M> where M: Mutator<T, Vec<O>>, O: Clone, T: Clone {
    type V = Seq<O>;

    open spec fn view(&self) -> Seq<O> {
        self.output()@
    }
}

impl<T, O, M> VecTransform<T, O, M> where M: Mutator<T, Vec<O>>, T: Clone, O: Clone {
    /// The mutator that does the transform's work.
    pub closed spec fn mutator(&self) -> M {
        self.mutator
    }

    /// The output the transform keeps.
    pub closed spec fn output(&self) -> Vec<O> {
        self.out
    }

    pub fn new(out: Vec<O>, mutator: M) -> (r: Self)
        ensures
            r@ == out@,
            r.mutator() == mutator,
    {
        Self { out, mutator, _t: PhantomData }
    }

    pub fn new_empty(mutator: M) -> (r: Self)
        ensures
            r@ == Seq::<O>::empty(),
            r.mutator() == mutator,
    {
        Self::new(Vec::new(), mutator)
    }
}

impl<T, O, M> Transform<T, O> for VecTransform<T, O, M> where
    M: Mutator<T, Vec<O>>,
    T: Clone,
    O: Clone,
 {
    /// Hands the source, the output and the description to the mutator and
    /// returns the mutator's description of the output's change.
    fn mutate<Source: Retrieve<T>>(&mut self, src: &Source, change: &MutateInfo) -> (r: MutateInfo)
        ensures
            old(self).mutator().mutate_step(
                &final(self).mutator(),
                src.contents(),
                old(self).output(),
                final(self).output(),
                change@,
                r@,
            ),
    {
        self.mutator.mutate(src, &mut self.out, change)
    }
}

impl<T, O, M> Retrieve<O> for VecTransform<T, O, M> where
    M: Mutator<T, Vec<O>>,
    T: Clone,
    O: Clone,
 {
    open spec fn contents(&self) -> Seq<O> {
        self@
    }

    /// Every designated position must hold an output entry; a range that
    /// begins past its end designates nothing.
    open spec fn can_get(&self, accessor: AccessorView) -> bool {
        accessor.within(self@.len())
    }

    proof fn lemma_size_is_contents_len(&self) {
    }

    fn get(&self, accessor: &Accessor) -> (r: Vec<O>) {
        let idx = accessor.to_indices();
        vec_clone_at(&self.out, &idx)
    }
}

impl<T, O, M> Len for VecTransform<T, O, M> where M: Mutator<T, Vec<O>>, T: Clone, O: Clone {
    open spec fn size(&self) -> nat {
        self@.len()
    }

    fn len(&self) -> (r: usize) {
        self.out.len()
    }
}

} // verus!
