use vstd::prelude::*;

use crate::data_transform::mutate_info::{clone_mutations, MutateInfo, MutateInfoView, Mutation, MutationView};
use crate::data_transform::retrieve::Retrieve;
use super::notify::{added_positions, notified_positions};

verus! {

/// `o` is what `f` computes from a copy of `src_item`.
pub open spec fn made_from<T: Clone, O, F: Fn(&T) -> O>(f: F, src_item: T, o: O) -> bool {
    exists|x: T| #[trigger] cloned(src_item, x) && call_ensures(f, (&x,), o)
}

/// `outs` holds, one for one, what `f` computes from the entries of
/// `contents` at the positions `pos`.
pub open spec fn outputs_made_from<T: Clone, O, F: Fn(&T) -> O>(
    f: F,
    contents: Seq<T>,
    pos: Seq<usize>,
    outs: Seq<O>,
) -> bool {
    &&& outs.len() == pos.len()
    &&& forall|j: int| 0 <= j < pos.len() ==> made_from(f, contents[pos[j] as int], #[trigger] outs[j])
}

/// Every addition among `ms` designates entries that `src` can serve.
pub open spec fn adds_readable<T: Clone, S: Retrieve<T>>(src: &S, ms: Seq<MutationView>) -> bool {
    forall|i: int|
        0 <= i < ms.len() ==> (#[trigger] ms[i] matches MutationView::Add(a) ==> src.can_get(a))
}

/// The description a mapping mutator gives of its output's change: the
/// source's description when the source changed, nothing otherwise.
pub open spec fn mapped_info(change: MutateInfoView) -> MutateInfoView {
    match change {
        MutateInfoView::Change(ms) => MutateInfoView::Change(ms),
        _ => MutateInfoView::NoChange,
    }
}

proof fn lemma_made_from_push<T: Clone, O, F: Fn(&T) -> O>(
    f: F,
    contents: Seq<T>,
    pos: Seq<usize>,
    outs: Seq<O>,
    p: usize,
    o: O,
)
    requires
        outputs_made_from(f, contents, pos, outs),
        made_from(f, contents[p as int], o),
    ensures
        outputs_made_from(f, contents, pos.push(p), outs.push(o)),
{
    assert forall|j: int| 0 <= j < pos.push(p).len() implies made_from(
        f,
        contents[pos.push(p)[j] as int],
        #[trigger] outs.push(o)[j],
    ) by {
        if j < pos.len() {
            assert(outs.push(o)[j] == outs[j]);
        }
    }
}

/// Appends to `out`, for every entry that the additions in `change`
/// designate in `src`, what `f` computes from it, and describes the output's
/// change as the source's change.
pub fn mutate_added<T: Clone, O, Source: Retrieve<T>, F: Fn(&T) -> O>(
    src: &Source,
    out: &mut Vec<O>,
    change: &MutateInfo,
    f: F,
) -> (r: MutateInfo)
    requires
        change@ matches MutateInfoView::Change(ms) ==> adds_readable(src, ms),
        forall|x: &T| call_requires(f, (x,)),
    ensures
        r@ == mapped_info(change@),
        final(out)@.len() == old(out)@.len() + notified_positions(change@).len(),
        final(out)@.subrange(0, old(out)@.len() as int) == old(out)@,
        outputs_made_from(
            f,
            src.contents(),
            notified_positions(change@),
            final(out)@.skip(old(out)@.len() as int),
        ),
{
    let ghost base = old(out)@.len() as int;
    if let MutateInfo::Change(changes) = change {
        let ghost ms = changes@.map_values(|m: Mutation| m@);
        let mut i: usize = 0;
        while i < changes.len()
            invariant
                ms == changes@.map_values(|m: Mutation| m@),
                change@ == MutateInfoView::Change(ms),
                adds_readable(src, ms),
                forall|x: &T| call_requires(f, (x,)),
                i <= changes@.len(),
                base <= out@.len(),
                base == old(out)@.len(),
                out@.subrange(0, base) == old(out)@,
                outputs_made_from(f, src.contents(), added_positions(ms.take(i as int)), out@.skip(base)),
            decreases changes@.len() - i,
        {
            assert(ms.take(i + 1).drop_last() =~= ms.take(i as int));
            if let Mutation::Add(access) = &changes[i] {
                assert(ms[i as int] == MutationView::Add(access@));
                let items = src.get(access);
                let ghost pos = added_positions(ms.take(i as int));
                let mut k: usize = 0;
                while k < items.len()
                    invariant
                        forall|x: &T| call_requires(f, (x,)),
                        k <= items@.len(),
                        base == old(out)@.len(),
                        access@.within(src.contents().len()),
                        items@.len() == access@.index_seq().len(),
                        forall|j: int|
                            0 <= j < items@.len() ==> cloned(
                                src.contents()[access@.index_seq()[j] as int],
                                #[trigger] items@[j],
                            ),
                        base <= out@.len(),
                        out@.subrange(0, base) == old(out)@,
                        outputs_made_from(
                            f,
                            src.contents(),
                            pos + access@.index_seq().take(k as int),
                            out@.skip(base),
                        ),
                    decreases items@.len() - k,
                {
                    let o = f(&items[k]);
                    proof {
                        let c = src.contents()[access@.index_seq()[k as int] as int];
                        assert(cloned(c, items@[k as int]) && call_ensures(f, (&items@[k as int],), o));
                        assert(made_from(f, c, o));
                        lemma_made_from_push(
                            f,
                            src.contents(),
                            pos + access@.index_seq().take(k as int),
                            out@.skip(base),
                            access@.index_seq()[k as int],
                            o,
                        );
                        assert((pos + access@.index_seq().take(k as int)).push(access@.index_seq()[k as int])
                            =~= pos + access@.index_seq().take(k + 1));
                    }
                    let ghost before = out@;
                    out.push(o);
                    assert(out@.skip(base) =~= before.skip(base).push(o));
                    assert(out@.subrange(0, base) =~= before.subrange(0, base));
                    k = k + 1;
                }
                assert(access@.index_seq().take(k as int) =~= access@.index_seq());
            }
            i = i + 1;
        }
        assert(ms.take(changes@.len() as int) =~= ms);
        MutateInfo::Change(clone_mutations(changes))
    } else {
        assert(out@.skip(base) =~= Seq::<O>::empty());
        assert(out@.subrange(0, base) =~= old(out)@);
        MutateInfo::NoChange
    }
}


/// `g` is what `f` computes, as a list, from a copy of `src_item`.
pub open spec fn group_made_from<T: Clone, O, F: Fn(&T) -> Vec<O>>(f: F, src_item: T, g: Seq<O>) -> bool {
    exists|x: T, v: Vec<O>|
        #![trigger cloned(src_item, x), call_ensures(f, (&x,), v)]
        cloned(src_item, x) && call_ensures(f, (&x,), v) && v@ == g
}

/// `groups` holds, one for one, the lists `f` computes from the entries of
/// `contents` at the positions `pos`.
pub open spec fn groups_made_from<T: Clone, O, F: Fn(&T) -> Vec<O>>(
    f: F,
    contents: Seq<T>,
    pos: Seq<usize>,
    groups: Seq<Seq<O>>,
) -> bool {
    &&& groups.len() == pos.len()
    &&& forall|j: int|
        0 <= j < pos.len() ==> group_made_from(f, contents[pos[j] as int], #[trigger] groups[j])
}

proof fn lemma_group_push<T: Clone, O, F: Fn(&T) -> Vec<O>>(
    f: F,
    contents: Seq<T>,
    pos: Seq<usize>,
    groups: Seq<Seq<O>>,
    p: usize,
    g: Seq<O>,
)
    requires
        groups_made_from(f, contents, pos, groups),
        group_made_from(f, contents[p as int], g),
    ensures
        groups_made_from(f, contents, pos.push(p), groups.push(g)),
{
    assert forall|j: int| 0 <= j < pos.push(p).len() implies group_made_from(
        f,
        contents[pos.push(p)[j] as int],
        #[trigger] groups.push(g)[j],
    ) by {
        if j < pos.len() {
            assert(groups.push(g)[j] == groups[j]);
        }
    }
}

/// Appends to `out`, for every entry that the additions in `change`
/// designate in `src`, the whole list `f` computes from it, and describes
/// the output's change as the source's change.
pub fn mutate_added_flat<T: Clone, O, Source: Retrieve<T>, F: Fn(&T) -> Vec<O>>(
    src: &Source,
    out: &mut Vec<O>,
    change: &MutateInfo,
    f: F,
) -> (r: MutateInfo)
    requires
        change@ matches MutateInfoView::Change(ms) ==> adds_readable(src, ms),
        forall|x: &T| call_requires(f, (x,)),
    ensures
        r@ == mapped_info(change@),
        final(out)@.subrange(0, old(out)@.len() as int) == old(out)@,
        exists|groups: Seq<Seq<O>>|
            groups_made_from(f, src.contents(), notified_positions(change@), groups)
                && final(out)@ == old(out)@ + #[trigger] groups.flatten(),
{
    broadcast use vstd::seq_lib::group_seq_properties;

    let ghost base = old(out)@.len() as int;
    let ghost mut groups: Seq<Seq<O>> = Seq::empty();
    if let MutateInfo::Change(changes) = change {
        let ghost ms = changes@.map_values(|m: Mutation| m@);
        let mut i: usize = 0;
        while i < changes.len()
            invariant
                ms == changes@.map_values(|m: Mutation| m@),
                change@ == MutateInfoView::Change(ms),
                adds_readable(src, ms),
                forall|x: &T| call_requires(f, (x,)),
                i <= changes@.len(),
                base <= out@.len(),
                base == old(out)@.len(),
                out@.subrange(0, base) == old(out)@,
                groups_made_from(f, src.contents(), added_positions(ms.take(i as int)), groups),
                out@.skip(base) == groups.flatten(),
            decreases changes@.len() - i,
        {
            assert(ms.take(i + 1).drop_last() =~= ms.take(i as int));
            if let Mutation::Add(access) = &changes[i] {
                assert(ms[i as int] == MutationView::Add(access@));
                let items = src.get(access);
                let ghost pos = added_positions(ms.take(i as int));
                let mut k: usize = 0;
                while k < items.len()
                    invariant
                        forall|x: &T| call_requires(f, (x,)),
                        k <= items@.len(),
                        base == old(out)@.len(),
                        access@.within(src.contents().len()),
                        items@.len() == access@.index_seq().len(),
                        forall|j: int|
                            0 <= j < items@.len() ==> cloned(
                                src.contents()[access@.index_seq()[j] as int],
                                #[trigger] items@[j],
                            ),
                        base <= out@.len(),
                        out@.subrange(0, base) == old(out)@,
                        groups_made_from(
                            f,
                            src.contents(),
                            pos + access@.index_seq().take(k as int),
                            groups,
                        ),
                        out@.skip(base) == groups.flatten(),
                    decreases items@.len() - k,
                {
                    let mut v = f(&items[k]);
                    let ghost g = v@;
                    proof {
                        let c = src.contents()[access@.index_seq()[k as int] as int];
                        assert(cloned(c, items@[k as int]) && call_ensures(f, (&items@[k as int],), v));
                        assert(group_made_from(f, c, g));
                        lemma_group_push(
                            f,
                            src.contents(),
                            pos + access@.index_seq().take(k as int),
                            groups,
                            access@.index_seq()[k as int],
                            g,
                        );
                        assert((pos + access@.index_seq().take(k as int)).push(access@.index_seq()[k as int])
                            =~= pos + access@.index_seq().take(k + 1));
                        groups.lemma_flatten_push(g);
                    }
                    let ghost before = out@;
                    out.append(&mut v);
                    proof {
                        assert(out@.skip(base) =~= before.skip(base) + g);
                        assert(out@.subrange(0, base) =~= before.subrange(0, base));
                        groups = groups.push(g);
                    }
                    k = k + 1;
                }
                assert(access@.index_seq().take(k as int) =~= access@.index_seq());
            }
            i = i + 1;
        }
        assert(ms.take(changes@.len() as int) =~= ms);
        MutateInfo::Change(clone_mutations(changes))
    } else {
        assert(out@.skip(base) =~= Seq::<O>::empty());
        assert(out@.subrange(0, base) =~= old(out)@);
        assert(groups.flatten() =~= Seq::<O>::empty());
        MutateInfo::NoChange
    }
}

} // verus!
