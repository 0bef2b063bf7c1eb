use vstd::prelude::*;

verus! {

/// What an accessor designates, as mathematical values.
pub enum AccessorView {
    Range(usize, usize),
    Indices(Seq<usize>),
}

impl AccessorView {
    /// The positions the accessor designates, in order.  A range whose
    /// begin lies past its end designates nothing.
    pub open spec fn index_seq(self) -> Seq<usize> {
        match self {
            AccessorView::Range(b, e) => if b <= e {
                Seq::new((e - b) as nat, |i: int| (b + i) as usize)
            } else {
                Seq::empty()
            },
            AccessorView::Indices(s) => s,
        }
    }

    /// Every designated position lies below `len`.
    pub open spec fn within(self, len: nat) -> bool {
        forall|i: int| 0 <= i < self.index_seq().len() ==> (#[trigger] self.index_seq()[i]) < len
    }
}

/// One edit of a container.
pub enum MutationView {
    Add(AccessorView),
    Replace(AccessorView),
    Insert(AccessorView),
    Remove(AccessorView),
}

/// A description of how a container changed.
pub enum MutateInfoView {
    NoChange,
    Reset,
    Change(Seq<MutationView>),
}

#[derive(PartialEq, Debug)]
pub enum MutateInfo {
    NoChange,
    Reset,
    Change(Vec<Mutation>),
}

#[derive(PartialEq, Debug)]
pub enum Mutation {
    Add(Accessor),
    Replace(Accessor),
    Insert(Accessor),
    Remove(Accessor),
}

#[derive(PartialEq, Debug)]
pub enum Accessor {
    Range((usize, usize)),
    Indices(Vec<usize>),
}

impl View for Accessor {
    type V = AccessorView;

    open spec fn view(&self) -> AccessorView {
        match self {
            Accessor::Range((b, e)) => AccessorView::Range(*b, *e),
            Accessor::Indices(v) => AccessorView::Indices(v@),
        }
    }
}

impl View for Mutation {
    type V = MutationView;

    open spec fn view(&self) -> MutationView {
        match self {
            Mutation::Add(a) => MutationView::Add(a@),
            Mutation::Replace(a) => MutationView::Replace(a@),
            Mutation::Insert(a) => MutationView::Insert(a@),
            Mutation::Remove(a) => MutationView::Remove(a@),
        }
    }
}

impl View for MutateInfo {
    type V = MutateInfoView;

    open spec fn view(&self) -> MutateInfoView {
        match self {
            MutateInfo::NoChange => MutateInfoView::NoChange,
            MutateInfo::Reset => MutateInfoView::Reset,
            MutateInfo::Change(v) => MutateInfoView::Change(v@.map_values(|m: Mutation| m@)),
        }
    }
}


impl Clone for Accessor {
    fn clone(&self) -> (r: Self)
        ensures
            r@ == self@,
    {
        match self {
            Accessor::Range((b, e)) => Accessor::Range((*b, *e)),
            Accessor::Indices(v) => {
                let c = v.clone();
                assert(c@ =~= v@);
                Accessor::Indices(c)
            },
        }
    }
}

impl Clone for Mutation {
    fn clone(&self) -> (r: Self)
        ensures
            r@ == self@,
    {
        match self {
            Mutation::Add(a) => Mutation::Add(a.clone()),
            Mutation::Replace(a) => Mutation::Replace(a.clone()),
            Mutation::Insert(a) => Mutation::Insert(a.clone()),
            Mutation::Remove(a) => Mutation::Remove(a.clone()),
        }
    }
}

/// Copies a list of mutations, element by element.
pub fn clone_mutations(v: &Vec<Mutation>) -> (r: Vec<Mutation>)
    ensures
        r@.map_values(|m: Mutation| m@) == v@.map_values(|m: Mutation| m@),
{
    let mut r: Vec<Mutation> = Vec::new();
    let mut i: usize = 0;
    while i < v.len()
        invariant
            i <= v.len(),
            r@.len() == i,
            forall|j: int| 0 <= j < i ==> (#[trigger] r@[j])@ == v@[j]@,
        decreases v.len() - i,
    {
        r.push(v[i].clone());
        i = i + 1;
    }
    assert(r@.map_values(|m: Mutation| m@) =~= v@.map_values(|m: Mutation| m@));
    r
}

impl Clone for MutateInfo {
    fn clone(&self) -> (r: Self)
        ensures
            r@ == self@,
    {
        match self {
            MutateInfo::NoChange => MutateInfo::NoChange,
            MutateInfo::Reset => MutateInfo::Reset,
            MutateInfo::Change(v) => MutateInfo::Change(clone_mutations(v)),
        }
    }
}

/// The value an index takes after being moved `by` places to the left the
/// way the accessor does it: both are read as `i32` (so large values wrap),
/// subtracted, and a negative difference is raised to zero.
pub open spec fn shifted_left(x: usize, by: usize) -> int {
    let d = (x as i32) as int - (by as i32) as int;
    if d < 0 { 0 } else { d }
}

/// The subtraction that `extend_left` performs fits in an `i32`.
pub open spec fn shift_fits(x: usize, by: usize) -> bool {
    i32::MIN <= (x as i32) as int - (by as i32) as int <= i32::MAX
}

impl AccessorView {
    /// The accessor after its last designated position is limited to `max`.
    pub open spec fn capped(self, max: usize) -> AccessorView {
        match self {
            AccessorView::Range(b, e) => AccessorView::Range(b, if e <= max { e } else { max }),
            AccessorView::Indices(s) => {
                let last = s[s.len() - 1];
                AccessorView::Indices(s.update(s.len() - 1, if last <= max { last } else { max }))
            },
        }
    }

    /// The accessor after it is widened `by` places to the left.
    pub open spec fn extended_left(self, by: usize) -> AccessorView {
        match self {
            AccessorView::Range(b, e) => AccessorView::Range(shifted_left(b, by) as usize, e),
            AccessorView::Indices(s) => AccessorView::Indices(
                seq![shifted_left(s[0], by) as usize] + s,
            ),
        }
    }

    /// `extend_left` can run on this accessor without panicking.
    pub open spec fn can_extend_left(self, by: usize) -> bool {
        match self {
            AccessorView::Range(b, _) => shift_fits(b, by),
            AccessorView::Indices(s) => s.len() > 0 && shift_fits(s[0], by),
        }
    }
}

impl MutateInfo {
    /// Describes `reach` entries appended at the end of a container that now
    /// holds `len` entries.
    pub fn new_add(reach: usize, len: usize) -> (r: Self)
        requires
            reach <= len,
        ensures
            r@ == MutateInfoView::Change(
                seq![MutationView::Add(AccessorView::Range((len - reach) as usize, len))],
            ),
    {
        let r = Self::Change(vec![Mutation::Add(Accessor::reverse_range(reach, len))]);
        assert(r@->Change_0 =~= seq![MutationView::Add(AccessorView::Range((len - reach) as usize, len))]);
        r
    }

    /// Describes a single entry appended to a container that now holds
    /// `len` entries.
    pub fn new_add_single(len: usize) -> (r: Self)
        requires
            len >= 1,
        ensures
            r@ == MutateInfoView::Change(
                seq![MutationView::Add(AccessorView::Indices(seq![(len - 1) as usize]))],
            ),
    {
        let r = Self::Change(vec![Mutation::Add(Accessor::single(len - 1))]);
        assert(r@->Change_0 =~= seq![MutationView::Add(AccessorView::Indices(seq![(len - 1) as usize]))]);
        r
    }
}

impl Accessor {
    /// Collects a list of positions into an accessor.
    pub fn from_indices(index_iter: &[usize]) -> (r: Accessor)
        ensures
            r@ == AccessorView::Indices(index_iter@),
    {
        let mut v: Vec<usize> = Vec::new();
        let mut i: usize = 0;
        while i < index_iter.len()
            invariant
                i <= index_iter@.len(),
                v@ == index_iter@.subrange(0, i as int),
            decreases index_iter@.len() - i,
        {
            v.push(index_iter[i]);
            i = i + 1;
            assert(v@ =~= index_iter@.subrange(0, i as int));
        }
        assert(v@ =~= index_iter@);
        Accessor::Indices(v)
    }

    /// Collects the positions of a list of (position, entry) pairs.
    pub fn from_assoc<T>(assoc_iter: &[(usize, T)]) -> (r: Accessor)
        ensures
            r@ == AccessorView::Indices(assoc_iter@.map_values(|p: (usize, T)| p.0)),
    {
        let mut v: Vec<usize> = Vec::new();
        let mut i: usize = 0;
        while i < assoc_iter.len()
            invariant
                i <= assoc_iter@.len(),
                v@ == assoc_iter@.subrange(0, i as int).map_values(|p: (usize, T)| p.0),
            decreases assoc_iter@.len() - i,
        {
            v.push(assoc_iter[i].0);
            i = i + 1;
            assert(v@ =~= assoc_iter@.subrange(0, i as int).map_values(|p: (usize, T)| p.0));
        }
        assert(assoc_iter@.subrange(0, assoc_iter@.len() as int) =~= assoc_iter@);
        Accessor::Indices(v)
    }

    /// Lists the positions the accessor designates, in order.
    pub fn to_indices(&self) -> (r: Vec<usize>)
        ensures
            r@ == self@.index_seq(),
    {
        match self {
            Accessor::Range((begin, end)) => {
                let mut v: Vec<usize> = Vec::new();
                let mut i: usize = *begin;
                while i < *end
                    invariant
                        *begin <= i <= *end || (*end < *begin && i == *begin),
                        v@.len() == i - *begin,
                        forall|j: int| 0 <= j < v@.len() ==> #[trigger] v@[j] == *begin + j,
                    decreases *end - i,
                {
                    v.push(i);
                    i = i + 1;
                }
                assert(v@ =~= self@.index_seq());
                v
            },
            Accessor::Indices(indices) => {
                let c = indices.clone();
                assert(c@ =~= indices@);
                c
            },
        }
    }

    /// Limits the last designated position to `max`.
    pub fn cap(&mut self, max: usize)
        requires
            old(self)@ is Indices ==> old(self)@->Indices_0.len() > 0,
        ensures
            final(self)@ == old(self)@.capped(max),
    {
        match self {
            Accessor::Range((begin, end)) => {
                let e = if *end <= max { *end } else { max };
                *self = Accessor::Range((*begin, e));
            },
            Accessor::Indices(indices) => {
                let n = indices.len();
                let last = indices[n - 1];
                let capped = if last <= max { last } else { max };
                indices.set(n - 1, capped);
            },
        }
    }

    /// Widens the accessor `by` places to the left: a range gets an earlier
    /// begin, a list of positions gets one more position in front.
    pub fn extend_left(&mut self, by: usize)
        requires
            old(self)@.can_extend_left(by),
        ensures
            final(self)@ == old(self)@.extended_left(by),
    {
        match self {
            Accessor::Range((begin, end)) => {
                let d: i32 = (*begin as i32) - (by as i32);
                let b: usize = if d < 0 { 0 } else { d as usize };
                *self = Accessor::Range((b, *end));
            },
            Accessor::Indices(indices) => {
                let d: i32 = (indices[0] as i32) - (by as i32);
                let b: usize = if d < 0 { 0 } else { d as usize };
                indices.insert(0, b);
                proof {
                    assert(indices@ =~= seq![b] + old(self)@->Indices_0);
                }
            },
        }
    }

    /// The last `reach` positions below `len`.
    pub fn reverse_range(reach: usize, len: usize) -> (r: Self)
        requires
            reach <= len,
        ensures
            r@ == AccessorView::Range((len - reach) as usize, len),
    {
        Accessor::Range((len - reach, len))
    }

    /// The single position `index`.
    pub fn single(index: usize) -> (r: Self)
        ensures
            r@ == AccessorView::Indices(seq![index]),
    {
        let r = Self::Indices(vec![index]);
        assert(r@->Indices_0 =~= seq![index]);
        r
    }
}


/// Listing the positions of an accessor built from a list of positions gives
/// that list back.
pub proof fn law_indices_round_trip(v: Seq<usize>)
    ensures
        AccessorView::Indices(v).index_seq() == v,
{
}

/// The accessor `reverse_range(reach, len)` designates exactly the last
/// `reach` positions below `len`, in increasing order.
pub proof fn law_reverse_range_is_tail(reach: usize, len: usize)
    requires
        reach <= len,
    ensures
        AccessorView::Range((len - reach) as usize, len).index_seq().len() == reach,
        forall|i: int|
            0 <= i < reach ==> #[trigger] AccessorView::Range((len - reach) as usize, len).index_seq()[i]
                == len - reach + i,
        AccessorView::Range((len - reach) as usize, len).within(len as nat),
{
}

/// Capping keeps the shape of an accessor and leaves its last position at
/// most `max`.
pub proof fn law_cap_bounds_last(a: AccessorView, max: usize)
    requires
        a is Indices ==> a->Indices_0.len() > 0,
    ensures
        a.capped(max) is Range <==> a is Range,
        a is Range ==> a.capped(max)->Range_0 == a->Range_0 && a.capped(max)->Range_1 <= max,
        a is Indices ==> a.capped(max)->Indices_0.len() == a->Indices_0.len()
            && a.capped(max)->Indices_0.last() <= max
            && a.capped(max)->Indices_0.drop_last() == a->Indices_0.drop_last(),
{
    if let AccessorView::Indices(s) = a {
        assert(a.capped(max)->Indices_0.drop_last() =~= s.drop_last());
    }
}

/// For positions and widths that fit in an `i32`, widening to the left is a
/// subtraction that stops at zero; a range keeps its end, and a list of
/// positions keeps its positions behind the new first one.
pub proof fn law_extend_left_saturates(a: AccessorView, by: usize)
    requires
        a.can_extend_left(by),
        by <= i32::MAX,
        a matches AccessorView::Range(b, _) ==> b <= i32::MAX,
        a matches AccessorView::Indices(s) ==> s[0] <= i32::MAX,
    ensures
        a matches AccessorView::Range(b, e) ==> a.extended_left(by) == AccessorView::Range(
            (if b >= by { b - by } else { 0 }) as usize,
            e,
        ),
        a matches AccessorView::Indices(s) ==> a.extended_left(by)->Indices_0.drop_first() == s
            && a.extended_left(by)->Indices_0[0] == (if s[0] >= by { s[0] - by } else { 0 }),
{
    match a {
        AccessorView::Range(b, e) => {
            assert((b as i32) as int == b as int);
            assert((by as i32) as int == by as int);
        },
        AccessorView::Indices(s) => {
            assert((s[0] as i32) as int == s[0] as int);
            assert((by as i32) as int == by as int);
            assert(a.extended_left(by)->Indices_0.drop_first() =~= s);
        },
    }
}

} // verus!
