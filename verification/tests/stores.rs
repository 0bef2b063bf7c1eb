use rust_plotter::data_transform::change_desrip::{self, ChangeDescrip};
use rust_plotter::data_transform::identity::Identity;
use rust_plotter::data_transform::len::Len;
use rust_plotter::data_transform::mutate_info::{Accessor, MutateInfo, Mutation};
use rust_plotter::data_transform::mutator::Mutator;
use rust_plotter::data_transform::orig::Raw;
use rust_plotter::data_transform::retrieve::Retrieve;
use rust_plotter::data_transform::transform::{Transform, VecTransform};

fn all<S: Retrieve<u32>>(s: &S) -> Vec<u32> {
    s.get(&Accessor::Range((0, s.len())))
}

#[test]
fn add_then_get_reads_back() {
    let mut store = Identity::new(vec![1u32, 2]);
    let info = store.add(vec![7, 8, 9]);
    assert_eq!(info, MutateInfo::Change(vec![Mutation::Add(Accessor::Range((2, 5)))]));
    assert_eq!(store.get(&Accessor::Range((2, 5))), vec![7, 8, 9]);
    assert_eq!(store.len(), 5);
    let info = store.add(vec![]);
    assert_eq!(info, MutateInfo::Change(vec![Mutation::Add(Accessor::Range((5, 5)))]));
}

#[test]
fn remove_goes_position_by_position() {
    let mut store = Identity::new(vec![10u32, 11, 12, 13]);
    let info = store.remove(vec![0, 0, 1]);
    assert_eq!(info, MutateInfo::Change(vec![Mutation::Remove(Accessor::Indices(vec![0, 0, 1]))]));
    assert_eq!(all(&store), vec![12]);
}

#[test]
fn replace_inserts_and_insert_overwrites() {
    let mut store = Identity::new(vec![1u32, 2]);
    let info = store.replace(vec![(1, 9), (0, 8)]);
    assert_eq!(info, MutateInfo::Change(vec![Mutation::Replace(Accessor::Indices(vec![1, 0]))]));
    assert_eq!(all(&store), vec![8, 1, 9, 2]);
    let info = store.insert(vec![(3, 5), (3, 6), (0, 4)]);
    assert_eq!(info, MutateInfo::Change(vec![Mutation::Insert(Accessor::Indices(vec![3, 3, 0]))]));
    assert_eq!(all(&store), vec![4, 1, 9, 6]);
}

#[test]
fn reset_only_describes() {
    let mut store = Identity::new(vec![1u32, 2]);
    assert_eq!(store.reset(), MutateInfo::Reset);
    assert_eq!(all(&store), vec![1, 2]);
}

#[test]
fn get_by_positions() {
    let store = Identity::new(vec![5u32, 6, 7]);
    assert_eq!(store.get(&Accessor::Indices(vec![2, 0, 2])), vec![7, 5, 7]);
    assert_eq!(store.get(&Accessor::Range((1, 1))), Vec::<u32>::new());
}

#[test]
fn raw_store_edits() {
    let mut raw = Raw::new(vec![1u32, 2, 3]);
    let info = raw.add(vec![4]);
    assert_eq!(
        info,
        ChangeDescrip::Change(vec![change_desrip::Change::Add(change_desrip::Accessor::Range((3, 4)))])
    );
    let info = raw.remove(vec![1]);
    assert_eq!(
        info,
        ChangeDescrip::Change(vec![change_desrip::Change::Remove(change_desrip::Accessor::Indices(vec![1]))])
    );
    let info = raw.replace(vec![(0, 0)]);
    assert_eq!(
        info,
        ChangeDescrip::Change(vec![change_desrip::Change::Replace(change_desrip::Accessor::Indices(vec![0]))])
    );
    let info = raw.insert(vec![(1, 9)]);
    assert_eq!(
        info,
        ChangeDescrip::Change(vec![change_desrip::Change::Insert(change_desrip::Accessor::Indices(vec![1]))])
    );
    assert_eq!(raw.len(), 4);
    let got: Vec<u32> = raw.get(change_desrip::Accessor::Range((0, 4))).into_iter().copied().collect();
    assert_eq!(got, vec![0, 9, 3, 4]);
    let got: Vec<u32> = raw.get(change_desrip::Accessor::Indices(vec![3, 1])).into_iter().copied().collect();
    assert_eq!(got, vec![4, 9]);
    assert_eq!(raw.reset(), ChangeDescrip::Reset);
    assert_eq!(raw.len(), 4);
}

struct Copier;

impl Mutator<u32, Vec<u32>> for Copier {
    fn mutate<Source: Retrieve<u32>>(
        &mut self,
        src: &Source,
        out: &mut Vec<u32>,
        change: &MutateInfo,
    ) -> MutateInfo {
        if let MutateInfo::Change(changes) = change {
            for c in changes {
                if let Mutation::Add(a) = c {
                    out.extend(src.get(a));
                }
            }
        }
        change.clone()
    }
}

#[test]
fn transform_follows_its_source() {
    let mut store = Identity::new(Vec::<u32>::new());
    let mut t = VecTransform::new_empty(Copier);
    let info = store.add(vec![3, 4]);
    assert_eq!(t.mutate(&store, &info), info);
    assert_eq!(t.len(), 2);
    assert_eq!(t.get(&Accessor::Indices(vec![1, 0])), vec![4, 3]);
    // A range that begins past its end designates nothing.
    assert_eq!(t.get(&Accessor::Range((2, 0))), Vec::<u32>::new());
    let t2 = VecTransform::new(vec![1u32, 2, 3], Copier);
    assert_eq!(t2.len(), 3);
}
