use vstd::prelude::*;

use crate::data_transform::mutate_info::{AccessorView, MutateInfo, MutateInfoView, Mutation, MutationView};

verus! {

/// The positions designated by the additions among `ms`, addition after
/// addition, each in the order its accessor lists them.
pub open spec fn added_positions(ms: Seq<MutationView>) -> Seq<usize>
    decreases ms.len(),
{
    if ms.len() == 0 {
        Seq::empty()
    } else {
        let before = added_positions(ms.drop_last());
        match ms.last() {
            MutationView::Add(a) => before + a.index_seq(),
            _ => before,
        }
    }
}

/// The positions a front end is told about after `change`: those of its
/// additions.  A reset or an unchanged output announces nothing.
pub open spec fn notified_positions(change: MutateInfoView) -> Seq<usize> {
    match change {
        MutateInfoView::Change(ms) => added_positions(ms),
        _ => Seq::empty(),
    }
}

/// The positions to announce, one announcement each, after `change`.
pub fn added_indices(change: &MutateInfo) -> (r: Vec<usize>)
    ensures
        r@ == notified_positions(change@),
{
    let mut r: Vec<usize> = Vec::new();
    if let MutateInfo::Change(changes) = change {
        let ghost ms = changes@.map_values(|m: Mutation| m@);
        let mut i: usize = 0;
        while i < changes.len()
            invariant
                ms == changes@.map_values(|m: Mutation| m@),
                i <= changes@.len(),
                r@ == added_positions(ms.take(i as int)),
            decreases changes@.len() - i,
        {
            assert(ms.take(i + 1).drop_last() =~= ms.take(i as int));
            if let Mutation::Add(access) = &changes[i] {
                let mut idx = access.to_indices();
                r.append(&mut idx);
            }
            i = i + 1;
        }
        assert(ms.take(changes@.len() as int) =~= ms);
    }
    r
}


/// After a single addition, the positions announced are exactly the
/// positions the addition designates.
pub proof fn law_single_add_announced(a: AccessorView)
    ensures
        notified_positions(MutateInfoView::Change(seq![MutationView::Add(a)])) == a.index_seq(),
{
    let ms = seq![MutationView::Add(a)];
    assert(ms.drop_last() =~= Seq::<MutationView>::empty());
    assert(ms.last() == MutationView::Add(a));
    assert(added_positions(ms.drop_last()) == Seq::<usize>::empty());
    assert(added_positions(ms) =~= a.index_seq());
}

/// The positions announced for a list of changes are those of its first
/// part followed by those of its second part: every addition announces its
/// positions, whatever comes before or after it.
pub proof fn law_added_positions_concat(ms: Seq<MutationView>, ns: Seq<MutationView>)
    ensures
        added_positions(ms + ns) == added_positions(ms) + added_positions(ns),
    decreases ns.len(),
{
    if ns.len() == 0 {
        assert(ms + ns =~= ms);
        assert(added_positions(ms) + added_positions(ns) =~= added_positions(ms));
    } else {
        assert((ms + ns).drop_last() =~= ms + ns.drop_last());
        assert((ms + ns).last() == ns.last());
        law_added_positions_concat(ms, ns.drop_last());
        match ns.last() {
            MutationView::Add(a) => {
                assert(added_positions(ms) + added_positions(ns.drop_last()) + a.index_seq()
                    =~= added_positions(ms) + (added_positions(ns.drop_last()) + a.index_seq()));
            },
            _ => {},
        }
    }
}

/// Appending an addition to a list of changes announces its positions after
/// those of the list.
pub proof fn law_added_positions_push(ms: Seq<MutationView>, a: AccessorView)
    ensures
        added_positions(ms.push(MutationView::Add(a))) == added_positions(ms) + a.index_seq(),
{
    assert(ms.push(MutationView::Add(a)).drop_last() =~= ms);
}

/// Changes other than additions announce nothing.
pub proof fn law_only_additions_announced(ms: Seq<MutationView>)
    requires
        forall|i: int| 0 <= i < ms.len() ==> !(#[trigger] ms[i] is Add),
    ensures
        added_positions(ms) == Seq::<usize>::empty(),
    decreases ms.len(),
{
    if ms.len() > 0 {
        assert forall|i: int| 0 <= i < ms.drop_last().len() implies !(#[trigger] ms.drop_last()[i] is Add) by {
            assert(ms.drop_last()[i] == ms[i]);
        }
        law_only_additions_announced(ms.drop_last());
        assert(!(ms[ms.len() - 1] is Add));
    }
}

} // verus!
