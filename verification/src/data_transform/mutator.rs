use vstd::prelude::*;

use super::mutate_info::{MutateInfo, MutateInfoView};
use super::retrieve::Retrieve;

verus! {

/// Brings an output in step with a source after the source changed as
/// `change` describes, and describes how the output changed in turn.
pub trait Mutator<T: Clone, Out> {
    /// The mutator's own account of one step: the mutator goes from `self`
    /// to `post` and the output from `out` to `post_out` when the source
    /// holds `src` and changed as `change` describes, and the step is
    /// described as `info`.  A mutator that gives no account of its own
    /// promises nothing.
    open spec fn mutate_step(
        &self,
        post: &Self,
        src: Seq<T>,
        out: Out,
        post_out: Out,
        change: MutateInfoView,
        info: MutateInfoView,
    ) -> bool {
        true
    }

    fn mutate<Source: Retrieve<T>>(
        &mut self,
        src: &Source,
        out: &mut Out,
        change: &MutateInfo,
    ) -> (r: MutateInfo)
        ensures
            old(self).mutate_step(final(self), src.contents(), *old(out), *final(out), change@, r@),
    ;
}

} // verus!
