use vstd::prelude::*;

use crate::data_transform::mutate_info::{Accessor, AccessorView};

verus! {

/// The positions of the last `added_count` of `count` entries.
pub fn new_index_iter(added_count: usize, count: usize) -> (r: Vec<usize>)
    requires
        added_count <= count,
    ensures
        r@ == AccessorView::Range((count - added_count) as usize, count).index_seq(),
{
    Accessor::reverse_range(added_count, count).to_indices()
}

/// The points a new batch of cylinders is built from: the last point that
/// was there before the batch and every point after it; nothing when there
/// were no points before.
pub fn get_pts_for_cyl<T: Copy>(pt_props: &Vec<T>, prev_pt_count: usize) -> (r: Vec<T>)
    requires
        prev_pt_count <= pt_props@.len() + 1,
    ensures
        r@ == if prev_pt_count == 0 {
            Seq::<T>::empty()
        } else {
            pt_props@.subrange(prev_pt_count - 1, pt_props@.len() as int)
        },
{
    let mut r: Vec<T> = Vec::new();
    if prev_pt_count == 0 {
        return r;
    }
    let mut i: usize = prev_pt_count - 1;
    while i < pt_props.len()
        invariant
            prev_pt_count >= 1,
            prev_pt_count - 1 <= i <= pt_props@.len() || i == prev_pt_count - 1,
            r@ == pt_props@.subrange(prev_pt_count - 1, i as int),
        decreases pt_props@.len() - i,
    {
        r.push(pt_props[i]);
        i = i + 1;
        assert(r@ =~= pt_props@.subrange(prev_pt_count - 1, i as int));
    }
    r
}

} // verus!
