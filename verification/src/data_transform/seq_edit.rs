use vstd::prelude::*;

verus! {

/// `s` after removing, one after the other, the entry at each position of
/// `idx` (each position read against the sequence as it stands by then).
pub open spec fn removed_each<T>(s: Seq<T>, idx: Seq<usize>) -> Seq<T>
    decreases idx.len(),
{
    if idx.len() == 0 {
        s
    } else {
        removed_each(s.remove(idx[0] as int), idx.drop_first())
    }
}

/// Every removal of `removed_each` hits an existing entry of a sequence
/// that starts with `len` entries.
pub open spec fn can_remove_each(len: nat, idx: Seq<usize>) -> bool
    decreases idx.len(),
{
    idx.len() == 0 || (idx[0] < len && can_remove_each((len - 1) as nat, idx.drop_first()))
}

/// `s` after inserting, one after the other, each entry of `assoc` at its
/// position.
pub open spec fn inserted_each<T>(s: Seq<T>, assoc: Seq<(usize, T)>) -> Seq<T>
    decreases assoc.len(),
{
    if assoc.len() == 0 {
        s
    } else {
        inserted_each(s.insert(assoc[0].0 as int, assoc[0].1), assoc.drop_first())
    }
}

/// Every insertion of `inserted_each` lands within a sequence that starts
/// with `len` entries.
pub open spec fn can_insert_each<T>(len: nat, assoc: Seq<(usize, T)>) -> bool
    decreases assoc.len(),
{
    assoc.len() == 0 || (assoc[0].0 <= len && can_insert_each(len + 1, assoc.drop_first()))
}

/// `s` after overwriting, one after the other, the entry at each position of
/// `assoc` with the entry paired with it.
pub open spec fn updated_each<T>(s: Seq<T>, assoc: Seq<(usize, T)>) -> Seq<T>
    decreases assoc.len(),
{
    if assoc.len() == 0 {
        s
    } else {
        updated_each(s.update(assoc[0].0 as int, assoc[0].1), assoc.drop_first())
    }
}

/// Every position of `assoc` lies below `len`.
pub open spec fn can_update_each<T>(len: nat, assoc: Seq<(usize, T)>) -> bool {
    forall|i: int| 0 <= i < assoc.len() ==> (#[trigger] assoc[i]).0 < len
}

/// Removing entries at valid positions shortens a sequence by one entry per
/// position.
pub proof fn law_remove_each_len<T>(s: Seq<T>, idx: Seq<usize>)
    requires
        can_remove_each(s.len(), idx),
    ensures
        removed_each(s, idx).len() == s.len() - idx.len(),
    decreases idx.len(),
{
    if idx.len() > 0 {
        law_remove_each_len(s.remove(idx[0] as int), idx.drop_first());
    }
}

/// Inserting entries at valid positions lengthens a sequence by one entry
/// per insertion.
pub proof fn law_insert_each_len<T>(s: Seq<T>, assoc: Seq<(usize, T)>)
    requires
        can_insert_each(s.len(), assoc),
    ensures
        inserted_each(s, assoc).len() == s.len() + assoc.len(),
    decreases assoc.len(),
{
    if assoc.len() > 0 {
        law_insert_each_len(s.insert(assoc[0].0 as int, assoc[0].1), assoc.drop_first());
    }
}

/// Overwriting entries at valid positions keeps the length; the position of
/// the last pair holds that pair's entry, and positions that no pair names
/// keep their entry.
pub proof fn law_update_each<T>(s: Seq<T>, assoc: Seq<(usize, T)>)
    requires
        can_update_each(s.len(), assoc),
    ensures
        updated_each(s, assoc).len() == s.len(),
        assoc.len() > 0 ==> updated_each(s, assoc)[assoc.last().0 as int] == assoc.last().1,
        forall|k: int|
            0 <= k < s.len() && (forall|j: int| 0 <= j < assoc.len() ==> (#[trigger] assoc[j]).0 != k)
                ==> #[trigger] updated_each(s, assoc)[k] == s[k],
    decreases assoc.len(),
{
    if assoc.len() > 0 {
        let rest = assoc.drop_first();
        let t = s.update(assoc[0].0 as int, assoc[0].1);
        assert(assoc[0].0 < s.len());
        assert forall|i: int| 0 <= i < rest.len() implies (#[trigger] rest[i]).0 < t.len() by {
            assert(rest[i] == assoc[i + 1]);
        }
        law_update_each(t, rest);
        if rest.len() > 0 {
            assert(rest.last() == assoc.last());
        }
        assert forall|k: int|
            0 <= k < s.len() && (forall|j: int| 0 <= j < assoc.len() ==> (#[trigger] assoc[j]).0 != k)
                implies #[trigger] updated_each(s, assoc)[k] == s[k] by {
            assert(assoc[0].0 != k);
            assert forall|j: int| 0 <= j < rest.len() implies (#[trigger] rest[j]).0 != k by {
                assert(rest[j] == assoc[j + 1]);
            }
        }
    }
}

/// Removing at the positions of two lists one after the other is removing
/// at the positions of the first list and then at those of the second.
pub proof fn law_remove_each_concat<T>(s: Seq<T>, a: Seq<usize>, b: Seq<usize>)
    ensures
        removed_each(s, a + b) == removed_each(removed_each(s, a), b),
    decreases a.len(),
{
    if a.len() == 0 {
        assert(a + b =~= b);
    } else {
        assert((a + b).drop_first() =~= a.drop_first() + b);
        assert((a + b)[0] == a[0]);
        law_remove_each_concat(s.remove(a[0] as int), a.drop_first(), b);
    }
}

/// Removing at a single position is removing the entry there.
pub proof fn law_remove_each_single<T>(s: Seq<T>, k: usize)
    ensures
        removed_each(s, seq![k]) == s.remove(k as int),
{
    let idx = seq![k];
    assert(idx.len() == 1 && idx[0] == k);
    assert(idx.drop_first() =~= Seq::<usize>::empty());
    assert(removed_each(s.remove(k as int), Seq::<usize>::empty()) == s.remove(k as int));
}

/// Inserting the pairs of two lists one after the other is inserting those
/// of the first list and then those of the second.
pub proof fn law_insert_each_concat<T>(s: Seq<T>, a: Seq<(usize, T)>, b: Seq<(usize, T)>)
    ensures
        inserted_each(s, a + b) == inserted_each(inserted_each(s, a), b),
    decreases a.len(),
{
    if a.len() == 0 {
        assert(a + b =~= b);
    } else {
        assert((a + b).drop_first() =~= a.drop_first() + b);
        assert((a + b)[0] == a[0]);
        law_insert_each_concat(s.insert(a[0].0 as int, a[0].1), a.drop_first(), b);
    }
}

/// Inserting a single pair puts its entry at its position and moves the
/// entries from there on one place back.
pub proof fn law_insert_each_single<T>(s: Seq<T>, k: usize, e: T)
    ensures
        inserted_each(s, seq![(k, e)]) == s.insert(k as int, e),
{
    let a = seq![(k, e)];
    assert(a.len() == 1 && a[0] == (k, e));
    assert(a.drop_first() =~= Seq::<(usize, T)>::empty());
    assert(inserted_each(s.insert(k as int, e), Seq::<(usize, T)>::empty()) == s.insert(k as int, e));
}

/// Overwriting with the pairs of two lists one after the other is
/// overwriting with those of the first list and then those of the second.
pub proof fn law_update_each_concat<T>(s: Seq<T>, a: Seq<(usize, T)>, b: Seq<(usize, T)>)
    ensures
        updated_each(s, a + b) == updated_each(updated_each(s, a), b),
    decreases a.len(),
{
    if a.len() == 0 {
        assert(a + b =~= b);
    } else {
        assert((a + b).drop_first() =~= a.drop_first() + b);
        assert((a + b)[0] == a[0]);
        law_update_each_concat(s.update(a[0].0 as int, a[0].1), a.drop_first(), b);
    }
}

/// Overwriting with a single pair puts its entry at its position.
pub proof fn law_update_each_single<T>(s: Seq<T>, k: usize, e: T)
    ensures
        updated_each(s, seq![(k, e)]) == s.update(k as int, e),
{
    let a = seq![(k, e)];
    assert(a.len() == 1 && a[0] == (k, e));
    assert(a.drop_first() =~= Seq::<(usize, T)>::empty());
    assert(updated_each(s.update(k as int, e), Seq::<(usize, T)>::empty()) == s.update(k as int, e));
}

/// After overwriting, every position named by some pair holds the entry of
/// the last pair naming it.
pub proof fn law_update_each_last_naming_wins<T>(s: Seq<T>, assoc: Seq<(usize, T)>, j: int)
    requires
        can_update_each(s.len(), assoc),
        0 <= j < assoc.len(),
        forall|l: int| j < l < assoc.len() ==> (#[trigger] assoc[l]).0 != assoc[j].0,
    ensures
        updated_each(s, assoc)[assoc[j].0 as int] == assoc[j].1,
    decreases assoc.len(),
{
    let rest = assoc.drop_first();
    let t = s.update(assoc[0].0 as int, assoc[0].1);
    assert(assoc[0].0 < s.len());
    assert forall|i: int| 0 <= i < rest.len() implies (#[trigger] rest[i]).0 < t.len() by {
        assert(rest[i] == assoc[i + 1]);
    }
    if j == 0 {
        law_update_each(t, rest);
        assert forall|l: int| 0 <= l < rest.len() implies (#[trigger] rest[l]).0 != assoc[0].0 by {
            assert(rest[l] == assoc[l + 1]);
        }
    } else {
        assert forall|l: int| j - 1 < l < rest.len() implies (#[trigger] rest[l]).0 != rest[j - 1].0 by {
            assert(rest[l] == assoc[l + 1]);
        }
        law_update_each_last_naming_wins(t, rest, j - 1);
    }
}

/// Removes from `v`, one after the other, the entry at each position of
/// `idx`.
pub fn vec_remove_each<T>(v: &mut Vec<T>, idx: Vec<usize>)
    requires
        can_remove_each(old(v)@.len(), idx@),
    ensures
        final(v)@ == removed_each(old(v)@, idx@),
{
    let mut rest = idx;
    while rest.len() > 0
        invariant
            removed_each(v@, rest@) == removed_each(old(v)@, idx@),
            can_remove_each(v@.len(), rest@),
        decreases rest@.len(),
    {
        let ghost before = rest@;
        let k = rest.remove(0);
        assert(rest@ =~= before.drop_first());
        v.remove(k);
    }
}

/// Inserts into `v`, one after the other, each entry of `assoc` at its
/// position.
pub fn vec_insert_each<T>(v: &mut Vec<T>, assoc: Vec<(usize, T)>)
    requires
        can_insert_each(old(v)@.len(), assoc@),
    ensures
        final(v)@ == inserted_each(old(v)@, assoc@),
{
    let mut rest = assoc;
    while rest.len() > 0
        invariant
            inserted_each(v@, rest@) == inserted_each(old(v)@, assoc@),
            can_insert_each(v@.len(), rest@),
        decreases rest@.len(),
    {
        let ghost before = rest@;
        let (k, e) = rest.remove(0);
        assert(rest@ =~= before.drop_first());
        v.insert(k, e);
    }
}

/// Overwrites in `v`, one after the other, the entry at each position of
/// `assoc` with the entry paired with it.
pub fn vec_update_each<T>(v: &mut Vec<T>, assoc: Vec<(usize, T)>)
    requires
        can_update_each(old(v)@.len(), assoc@),
    ensures
        final(v)@ == updated_each(old(v)@, assoc@),
{
    let mut rest = assoc;
    while rest.len() > 0
        invariant
            updated_each(v@, rest@) == updated_each(old(v)@, assoc@),
            can_update_each(v@.len(), rest@),
            v@.len() == old(v)@.len(),
        decreases rest@.len(),
    {
        let ghost before = rest@;
        let (k, e) = rest.remove(0);
        assert(rest@ =~= before.drop_first());
        assert(before[0].0 < v@.len());
        v.set(k, e);
        assert forall|i: int| 0 <= i < rest@.len() implies (#[trigger] rest@[i]).0 < v@.len() by {
            assert(rest@[i] == before[i + 1]);
        }
    }
}

/// Copies of the entries of `v` at the positions `idx`, in that order.
pub fn vec_clone_at<T: Clone>(v: &Vec<T>, idx: &Vec<usize>) -> (r: Vec<T>)
    requires
        forall|i: int| 0 <= i < idx@.len() ==> (#[trigger] idx@[i]) < v@.len(),
    ensures
        r@.len() == idx@.len(),
        forall|i: int| 0 <= i < r@.len() ==> cloned(v@[idx@[i] as int], #[trigger] r@[i]),
{
    let mut r: Vec<T> = Vec::new();
    let mut i: usize = 0;
    while i < idx.len()
        invariant
            i <= idx@.len(),
            r@.len() == i,
            forall|j: int| 0 <= j < idx@.len() ==> (#[trigger] idx@[j]) < v@.len(),
            forall|j: int| 0 <= j < i ==> cloned(v@[idx@[j] as int], #[trigger] r@[j]),
        decreases idx@.len() - i,
    {
        let c = v[idx[i]].clone();
        r.push(c);
        i = i + 1;
    }
    r
}

} // verus!
