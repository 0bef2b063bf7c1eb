use vstd::prelude::*;

use crate::data_transform::mutate_info::{AccessorView, MutateInfo, MutateInfoView, MutationView};

verus! {

/// Builds the mesh output: every source change adds one mesh.
pub struct MeshMutate;

impl MeshMutate {
    pub fn new() -> (r: Self)
        ensures
            r == MeshMutate,
    {
        Self
    }

    /// Appends `mesh` to the output and describes it as one added position,
    /// the last one.
    pub fn push_mesh<O>(&mut self, out: &mut Vec<O>, mesh: O) -> (r: MutateInfo)
        ensures
            final(out)@ == old(out)@.push(mesh),
            r@ == MutateInfoView::Change(
                seq![MutationView::Add(AccessorView::Indices(seq![old(out)@.len() as usize]))],
            ),
    {
        out.push(mesh);
        MutateInfo::new_add_single(out.len())
    }
}

} // verus!
