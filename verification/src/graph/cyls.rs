use vstd::prelude::*;

use crate::data_transform::mutate_info::{
    Accessor, AccessorView, MutateInfo, MutateInfoView, Mutation, MutationView,
};
use crate::data_transform::retrieve::Retrieve;
use super::notify::{law_single_add_announced, notified_positions};
use super::pts::mapped_info;

verus! {

/// The number of neighbouring pairs among `n` entries.
pub open spec fn window_count(n: nat) -> nat {
    if n == 0 {
        0
    } else {
        (n - 1) as nat
    }
}

/// The neighbouring pairs of positions an addition yields once it is widened
/// by one position to the left, so that the first new entry is paired with
/// the entry before it.
pub open spec fn window_pairs_of(a: AccessorView) -> Seq<(usize, usize)> {
    let p = a.extended_left(1).index_seq();
    Seq::new(window_count(p.len()), |i: int| (p[i], p[i + 1]))
}

/// The pairs of positions of all additions among `ms`, in order.
pub open spec fn window_pairs(ms: Seq<MutationView>) -> Seq<(usize, usize)>
    decreases ms.len(),
{
    if ms.len() == 0 {
        Seq::empty()
    } else {
        let before = window_pairs(ms.drop_last());
        match ms.last() {
            MutationView::Add(a) => before + window_pairs_of(a),
            _ => before,
        }
    }
}

/// The description of the output's change when the output held `base`
/// entries: every addition becomes the range its pairs' results occupy,
/// every other change is passed on as it is.
pub open spec fn windowed_changes(ms: Seq<MutationView>, base: nat) -> Seq<MutationView>
    decreases ms.len(),
{
    if ms.len() == 0 {
        Seq::empty()
    } else {
        let before = windowed_changes(ms.drop_last(), base);
        match ms.last() {
            MutationView::Add(a) => before.push(
                MutationView::Add(
                    AccessorView::Range(
                        (base + window_pairs(ms.drop_last()).len()) as usize,
                        (base + window_pairs(ms).len()) as usize,
                    ),
                ),
            ),
            m => before.push(m),
        }
    }
}

/// The description a pairing mutator gives of its output's change.
pub open spec fn windowed_info(change: MutateInfoView, base: nat) -> MutateInfoView {
    match change {
        MutateInfoView::Change(ms) => MutateInfoView::Change(windowed_changes(ms, base)),
        _ => MutateInfoView::NoChange,
    }
}

/// The positions of all pairs among `ms`.
pub open spec fn pairs_of_change(change: MutateInfoView) -> Seq<(usize, usize)> {
    match change {
        MutateInfoView::Change(ms) => window_pairs(ms),
        _ => Seq::empty(),
    }
}

/// `o` is what `f` computes from copies of `a` and `b`.
pub open spec fn made_from_pair<T: Clone, O, F: Fn(&T, &T) -> O>(f: F, a: T, b: T, o: O) -> bool {
    exists|x: T, y: T| #[trigger] cloned(a, x) && #[trigger] cloned(b, y) && call_ensures(f, (&x, &y), o)
}

/// `outs` holds, one for one, what `f` computes from the entries of
/// `contents` at each pair of positions.
pub open spec fn outputs_made_from_pairs<T: Clone, O, F: Fn(&T, &T) -> O>(
    f: F,
    contents: Seq<T>,
    pairs: Seq<(usize, usize)>,
    outs: Seq<O>,
) -> bool {
    &&& outs.len() == pairs.len()
    &&& forall|j: int|
        0 <= j < pairs.len() ==> made_from_pair(
            f,
            contents[pairs[j].0 as int],
            contents[pairs[j].1 as int],
            #[trigger] outs[j],
        )
}

/// Every addition among `ms` can be widened by one position to the left
/// and then designates entries that `src` can serve.
pub open spec fn adds_widenable<T: Clone, S: Retrieve<T>>(src: &S, ms: Seq<MutationView>) -> bool {
    forall|i: int|
        0 <= i < ms.len() ==> (#[trigger] ms[i] matches MutationView::Add(a) ==> a.can_extend_left(1)
            && src.can_get(a.extended_left(1)))
}

proof fn lemma_pair_push<T: Clone, O, F: Fn(&T, &T) -> O>(
    f: F,
    contents: Seq<T>,
    pairs: Seq<(usize, usize)>,
    outs: Seq<O>,
    p: (usize, usize),
    o: O,
)
    requires
        outputs_made_from_pairs(f, contents, pairs, outs),
        made_from_pair(f, contents[p.0 as int], contents[p.1 as int], o),
    ensures
        outputs_made_from_pairs(f, contents, pairs.push(p), outs.push(o)),
{
    assert forall|j: int| 0 <= j < pairs.push(p).len() implies made_from_pair(
        f,
        contents[pairs.push(p)[j].0 as int],
        contents[pairs.push(p)[j].1 as int],
        #[trigger] outs.push(o)[j],
    ) by {
        if j < pairs.len() {
            assert(outs.push(o)[j] == outs[j]);
        }
    }
}

/// For every addition in `change`, widens it by one position to the left,
/// appends to `out` what `f` computes from each pair of neighbouring entries
/// it then designates in `src`, and describes the addition as the range of
/// `out` those results occupy.  Other changes are passed on unchanged.
pub fn mutate_windows<T: Clone, O, Source: Retrieve<T>, F: Fn(&T, &T) -> O>(
    src: &Source,
    out: &mut Vec<O>,
    change: &MutateInfo,
    f: F,
) -> (r: MutateInfo)
    requires
        change@ matches MutateInfoView::Change(ms) ==> adds_widenable(src, ms),
        forall|x: &T, y: &T| call_requires(f, (x, y)),
    ensures
        r@ == windowed_info(change@, old(out)@.len()),
        final(out)@.len() == old(out)@.len() + pairs_of_change(change@).len(),
        final(out)@.subrange(0, old(out)@.len() as int) == old(out)@,
        outputs_made_from_pairs(
            f,
            src.contents(),
            pairs_of_change(change@),
            final(out)@.skip(old(out)@.len() as int),
        ),
{
    let ghost base = old(out)@.len() as int;
    if let MutateInfo::Change(changes) = change {
        let ghost ms = changes@.map_values(|m: Mutation| m@);
        let mut res: Vec<Mutation> = Vec::new();
        let mut i: usize = 0;
        while i < changes.len()
            invariant
                ms == changes@.map_values(|m: Mutation| m@),
                change@ == MutateInfoView::Change(ms),
                adds_widenable(src, ms),
                forall|x: &T, y: &T| call_requires(f, (x, y)),
                i <= changes@.len(),
                base == old(out)@.len(),
                base <= out@.len(),
                out@.subrange(0, base) == old(out)@,
                out@.len() == base + window_pairs(ms.take(i as int)).len(),
                outputs_made_from_pairs(f, src.contents(), window_pairs(ms.take(i as int)), out@.skip(base)),
                res@.map_values(|m: Mutation| m@) == windowed_changes(ms.take(i as int), base as nat),
            decreases changes@.len() - i,
        {
            assert(ms.take(i + 1).drop_last() =~= ms.take(i as int));
            let ghost start = out@.len();
            if let Mutation::Add(access) = &changes[i] {
                assert(ms[i as int] == MutationView::Add(access@));
                let mut widened = access.clone();
                widened.extend_left(1);
                let items = src.get(&widened);
                let ghost pos = window_pairs(ms.take(i as int));
                let ghost wp = window_pairs_of(access@);
                let n = items.len();
                let mut k: usize = 0;
                while n > 0 && k < n - 1
                    invariant
                        n == items@.len(),
                        forall|x: &T, y: &T| call_requires(f, (x, y)),
                        widened@ == access@.extended_left(1),
                        wp == window_pairs_of(access@),
                        pos == window_pairs(ms.take(i as int)),
                        k < items@.len() || items@.len() == 0,
                        items@.len() == widened@.index_seq().len(),
                        widened@.within(src.contents().len()),
                        forall|j: int|
                            0 <= j < items@.len() ==> cloned(
                                src.contents()[widened@.index_seq()[j] as int],
                                #[trigger] items@[j],
                            ),
                        k <= window_count(items@.len() as nat),
                        base == old(out)@.len(),
                        base <= out@.len(),
                        out@.len() == start + k,
                        start == base + pos.len(),
                        out@.subrange(0, base) == old(out)@,
                        outputs_made_from_pairs(f, src.contents(), pos + wp.take(k as int), out@.skip(base)),
                    decreases items@.len() - k,
                {
                    let o = f(&items[k], &items[k + 1]);
                    proof {
                        let p = wp[k as int];
                        assert(p == (widened@.index_seq()[k as int], widened@.index_seq()[k + 1]));
                        let ca = src.contents()[p.0 as int];
                        let cb = src.contents()[p.1 as int];
                        assert(cloned(ca, items@[k as int]) && cloned(cb, items@[k + 1])
                            && call_ensures(f, (&items@[k as int], &items@[k + 1]), o));
                        assert(made_from_pair(f, ca, cb, o));
                        lemma_pair_push(f, src.contents(), pos + wp.take(k as int), out@.skip(base), p, o);
                        assert((pos + wp.take(k as int)).push(p) =~= pos + wp.take(k + 1));
                    }
                    let ghost before = out@;
                    out.push(o);
                    assert(out@.skip(base) =~= before.skip(base).push(o));
                    assert(out@.subrange(0, base) =~= before.subrange(0, base));
                    k = k + 1;
                }
                assert(k == window_count(items@.len() as nat));
                assert(wp.take(k as int) =~= wp);
                res.push(Mutation::Add(Accessor::Range((out.len() - k, out.len()))));
            } else {
                res.push(changes[i].clone());
            }
            assert(res@.map_values(|m: Mutation| m@) =~= windowed_changes(ms.take(i + 1), base as nat));
            i = i + 1;
        }
        assert(ms.take(changes@.len() as int) =~= ms);
        MutateInfo::Change(res)
    } else {
        assert(out@.skip(base) =~= Seq::<O>::empty());
        assert(out@.subrange(0, base) =~= old(out)@);
        MutateInfo::NoChange
    }
}


/// When points are appended behind at least one earlier point, every new
/// point yields exactly one pair, joining it to the point before it; when
/// there was no earlier point, `e` points yield `e - 1` pairs.
pub proof fn law_one_pair_per_new_point(b: usize, e: usize)
    requires
        b <= e,
        b <= i32::MAX,
    ensures
        b >= 1 ==> window_pairs_of(AccessorView::Range(b, e)).len() == e - b,
        b >= 1 ==> forall|i: int|
            0 <= i < e - b ==> #[trigger] window_pairs_of(AccessorView::Range(b, e))[i] == (
                (b - 1 + i) as usize,
                (b + i) as usize,
            ),
        b == 0 && e >= 1 ==> window_pairs_of(AccessorView::Range(b, e)).len() == e - 1,
        b == 0 ==> forall|i: int|
            0 <= i < e - 1 ==> #[trigger] window_pairs_of(AccessorView::Range(b, e))[i] == (
                i as usize,
                (i + 1) as usize,
            ),
{
    assert((b as i32) as int == b as int);
    assert((1usize as i32) as int == 1);
}


/// An addition that lists positions `s` yields one pair per listed position:
/// the first joins the position before `s[0]` (or position 0) to `s[0]`, and
/// every later one joins the listed position before it to its own.
pub proof fn law_pairs_of_listed_positions(s: Seq<usize>)
    requires
        s.len() > 0,
        s[0] <= i32::MAX,
    ensures
        window_pairs_of(AccessorView::Indices(s)).len() == s.len(),
        window_pairs_of(AccessorView::Indices(s))[0] == (
            (if s[0] >= 1 { s[0] - 1 } else { 0 }) as usize,
            s[0],
        ),
        forall|i: int|
            1 <= i < s.len() ==> #[trigger] window_pairs_of(AccessorView::Indices(s))[i] == (
                s[i - 1],
                s[i],
            ),
{
    assert((s[0] as i32) as int == s[0] as int);
    assert((1usize as i32) as int == 1);
    let p = AccessorView::Indices(s).extended_left(1).index_seq();
    assert forall|i: int| 1 <= i < s.len() implies #[trigger] window_pairs_of(AccessorView::Indices(s))[i]
        == (s[i - 1], s[i]) by {
        assert(p[i] == s[i - 1]);
        assert(p[i + 1] == s[i]);
    }
}

/// The pairs of a list of changes are the pairs of its first part followed
/// by those of its second part.
pub proof fn law_window_pairs_concat(ms: Seq<MutationView>, ns: Seq<MutationView>)
    ensures
        window_pairs(ms + ns) == window_pairs(ms) + window_pairs(ns),
    decreases ns.len(),
{
    if ns.len() == 0 {
        assert(ms + ns =~= ms);
        assert(window_pairs(ms) + window_pairs(ns) =~= window_pairs(ms));
    } else {
        assert((ms + ns).drop_last() =~= ms + ns.drop_last());
        assert((ms + ns).last() == ns.last());
        law_window_pairs_concat(ms, ns.drop_last());
        match ns.last() {
            MutationView::Add(a) => {
                assert(window_pairs(ms) + window_pairs(ns.drop_last()) + window_pairs_of(a)
                    =~= window_pairs(ms) + (window_pairs(ns.drop_last()) + window_pairs_of(a)));
            },
            _ => {},
        }
    }
}

/// A single addition yields the pairs of its widened positions; any other
/// single change yields none.
pub proof fn law_window_pairs_single(m: MutationView)
    ensures
        m matches MutationView::Add(a) ==> window_pairs(seq![m]) == window_pairs_of(a),
        !(m is Add) ==> window_pairs(seq![m]) == Seq::<(usize, usize)>::empty(),
{
    let ms = seq![m];
    assert(ms.len() == 1);
    assert(ms.drop_last() =~= Seq::<MutationView>::empty());
    assert(ms.last() == m);
    assert(window_pairs(ms.drop_last()) == Seq::<(usize, usize)>::empty());
    if let MutationView::Add(a) = m {
        assert(window_pairs(ms) =~= window_pairs_of(a));
    } else {
        assert(window_pairs(ms) =~= Seq::<(usize, usize)>::empty());
    }
}

/// The description of the output's change has one entry per source change;
/// a change that is no addition is passed on as it is, and an addition
/// becomes the range its pairs' results occupy, between the pairs of the
/// additions before it and those up to and including it.
pub proof fn law_windowed_changes_shape(ms: Seq<MutationView>, base: nat)
    ensures
        windowed_changes(ms, base).len() == ms.len(),
        forall|i: int|
            0 <= i < ms.len() && !(ms[i] is Add) ==> #[trigger] windowed_changes(ms, base)[i] == ms[i],
        forall|i: int|
            0 <= i < ms.len() && ms[i] is Add ==> #[trigger] windowed_changes(ms, base)[i]
                == MutationView::Add(
                AccessorView::Range(
                    (base + window_pairs(ms.take(i)).len()) as usize,
                    (base + window_pairs(ms.take(i + 1)).len()) as usize,
                ),
            ),
    decreases ms.len(),
{
    if ms.len() > 0 {
        let d = ms.drop_last();
        law_windowed_changes_shape(d, base);
        assert forall|i: int| 0 <= i < d.len() implies d.take(i) == ms.take(i) && d.take(i + 1) == ms.take(
            i + 1,
        ) && d[i] == ms[i] by {
            assert(d.take(i) =~= ms.take(i));
            assert(d.take(i + 1) =~= ms.take(i + 1));
        }
        assert(ms.take(ms.len() - 1) =~= d);
        assert(ms.take(ms.len() as int) =~= ms);
    }
}

/// Changes after the last addition yield no pairs.
proof fn lemma_no_pairs_after(ms: Seq<MutationView>, j: int)
    requires
        0 <= j < ms.len(),
        forall|i: int| j < i < ms.len() ==> !(#[trigger] ms[i] is Add),
    ensures
        window_pairs(ms.take(j + 1)) == window_pairs(ms),
    decreases ms.len(),
{
    if ms.len() == j + 1 {
        assert(ms.take(j + 1) =~= ms);
    } else {
        let d = ms.drop_last();
        assert(!(ms[ms.len() - 1] is Add));
        lemma_no_pairs_after(d, j);
        assert(d.take(j + 1) =~= ms.take(j + 1));
    }
}

/// The range reported for the last addition ends where the output ends:
/// at the old length plus the number of all pairs.
pub proof fn law_last_add_range_ends_at_total(ms: Seq<MutationView>, base: nat, j: int)
    requires
        0 <= j < ms.len(),
        ms[j] is Add,
        forall|i: int| j < i < ms.len() ==> !(#[trigger] ms[i] is Add),
    ensures
        windowed_changes(ms, base)[j] is Add,
        windowed_changes(ms, base)[j]->Add_0 is Range,
        windowed_changes(ms, base)[j]->Add_0->Range_1 == (base + window_pairs(ms).len()) as usize,
{
    law_windowed_changes_shape(ms, base);
    lemma_no_pairs_after(ms, j);
}

/// The description of `k` entries appended to a store of `n`.
pub open spec fn appended_info(n: usize, k: usize) -> MutateInfoView {
    MutateInfoView::Change(seq![MutationView::Add(AccessorView::Range(n, (n + k) as usize))])
}

/// One chunk through the point and cylinder steps keeps the buffers in step
/// with the source: if `n` sources had `n` points and `window_count(n)`
/// cylinders, then after `k` sources are appended (described as
/// `Identity::add` describes it), the point step appends `k` points and
/// passes the description on, and the cylinder step appends what makes
/// `window_count(n + k)` cylinders.  Nothing is appended when nothing
/// changed.
pub proof fn law_pipeline_keeps_pace(n: usize, k: usize)
    requires
        n + k <= usize::MAX,
        n <= i32::MAX,
    ensures
        notified_positions(appended_info(n, k)).len() == k,
        mapped_info(appended_info(n, k)) == appended_info(n, k),
        window_count(n as nat) + pairs_of_change(appended_info(n, k)).len() == window_count((n + k) as nat),
        pairs_of_change(MutateInfoView::NoChange).len() == 0,
        pairs_of_change(MutateInfoView::Reset).len() == 0,
        notified_positions(MutateInfoView::NoChange).len() == 0,
        notified_positions(MutateInfoView::Reset).len() == 0,
{
    let a = AccessorView::Range(n, (n + k) as usize);
    law_single_add_announced(a);
    let ms = seq![MutationView::Add(a)];
    assert(ms.drop_last() =~= Seq::<MutationView>::empty());
    assert(ms.last() == MutationView::Add(a));
    assert(window_pairs(ms.drop_last()) == Seq::<(usize, usize)>::empty());
    assert(window_pairs(ms) =~= window_pairs_of(a));
    law_one_pair_per_new_point(n, (n + k) as usize);
    if n == 0 && k == 0 {
        assert(a.extended_left(1).index_seq().len() == 0);
    }
}

} // verus!
