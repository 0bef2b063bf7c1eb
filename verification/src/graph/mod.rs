use vstd::prelude::*;

pub mod cyls;
pub mod mesh;
pub mod notify;
pub mod pts;
pub mod types;

verus! {

/// The entries that are present in a chunk, in order.
pub open spec fn present<T>(s: Seq<Option<T>>) -> Seq<T>
    decreases s.len(),
{
    if s.len() == 0 {
        Seq::empty()
    } else {
        let before = present(s.drop_last());
        match s.last() {
            Some(x) => before.push(x),
            None => before,
        }
    }
}

/// Every present slot of a chunk is kept, the last one included, and an
/// empty slot adds nothing.
pub proof fn law_present_push<T>(s: Seq<Option<T>>, x: T)
    ensures
        present(s.push(Some(x))) == present(s).push(x),
        present(s.push(None)) == present(s),
        present(Seq::<Option<T>>::empty()) == Seq::<T>::empty(),
{
    assert(s.push(Some(x)).drop_last() =~= s);
    assert(s.push(None::<T>).drop_last() =~= s);
}

/// The present entries of two chunks one after the other are those of the
/// first followed by those of the second.
pub proof fn law_present_concat<T>(s: Seq<Option<T>>, t: Seq<Option<T>>)
    ensures
        present(s + t) == present(s) + present(t),
    decreases t.len(),
{
    if t.len() == 0 {
        assert(s + t =~= s);
        assert(present(s) + present(t) =~= present(s));
    } else {
        assert((s + t).drop_last() =~= s + t.drop_last());
        assert((s + t).last() == t.last());
        law_present_concat(s, t.drop_last());
        match t.last() {
            Some(x) => {
                assert(present(s) + present(t.drop_last()).push(x) =~= (present(s) + present(
                    t.drop_last(),
                )).push(x));
            },
            None => {},
        }
    }
}

/// The present entries are exactly the values of the present slots: there
/// are as many as there are present slots.
pub proof fn law_present_counts<T>(s: Seq<Option<T>>)
    ensures
        present(s).len() == s.filter(|o: Option<T>| o is Some).len(),
    decreases s.len(),
{
    reveal_with_fuel(Seq::filter, 1);
    if s.len() > 0 {
        law_present_counts(s.drop_last());
    }
}

/// Keeps the entries of a chunk that are present, in order.
pub fn present_entries<T: Copy>(chunk: &[Option<T>]) -> (r: Vec<T>)
    ensures
        r@ == present(chunk@),
{
    let mut r: Vec<T> = Vec::new();
    let mut i: usize = 0;
    while i < chunk.len()
        invariant
            i <= chunk@.len(),
            r@ == present(chunk@.take(i as int)),
        decreases chunk@.len() - i,
    {
        assert(chunk@.take(i + 1).drop_last() =~= chunk@.take(i as int));
        if let Some(x) = chunk[i] {
            r.push(x);
        }
        i = i + 1;
    }
    assert(chunk@.take(chunk@.len() as int) =~= chunk@);
    r
}

} // verus!
