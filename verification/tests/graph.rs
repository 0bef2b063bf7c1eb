use rust_plotter::chart::{get_pts_for_cyl, new_index_iter};
use rust_plotter::data_transform::identity::Identity;
use rust_plotter::data_transform::mutate_info::{Accessor, MutateInfo, Mutation};
use rust_plotter::graph::cyls::mutate_windows;
use rust_plotter::graph::mesh::MeshMutate;
use rust_plotter::graph::notify::added_indices;
use rust_plotter::graph::present_entries;
use rust_plotter::graph::pts::{mutate_added, mutate_added_flat};

#[test]
fn announced_positions_are_those_of_additions() {
    let info = MutateInfo::Change(vec![
        Mutation::Add(Accessor::Range((2, 4))),
        Mutation::Remove(Accessor::Indices(vec![9])),
        Mutation::Add(Accessor::Indices(vec![7, 1])),
    ]);
    assert_eq!(added_indices(&info), vec![2, 3, 7, 1]);
    assert_eq!(added_indices(&MutateInfo::Reset), Vec::<usize>::new());
    assert_eq!(added_indices(&MutateInfo::NoChange), Vec::<usize>::new());
}

#[test]
fn mapping_follows_additions() {
    let src = Identity::new(vec![1i64, 2, 3, 4]);
    let mut out = vec![100i64];
    let info = MutateInfo::Change(vec![
        Mutation::Add(Accessor::Range((2, 4))),
        Mutation::Remove(Accessor::Indices(vec![0])),
        Mutation::Add(Accessor::Indices(vec![0])),
    ]);
    let r = mutate_added(&src, &mut out, &info, |x: &i64| x * 10);
    assert_eq!(out, vec![100, 30, 40, 10]);
    assert_eq!(r, info);
    let r = mutate_added(&src, &mut out, &MutateInfo::Reset, |x: &i64| x * 10);
    assert_eq!(r, MutateInfo::NoChange);
    assert_eq!(out, vec![100, 30, 40, 10]);
}

#[test]
fn flat_mapping_appends_whole_lists() {
    let src = Identity::new(vec![vec![1u8, 2], vec![], vec![3]]);
    let mut out = Vec::new();
    let info = MutateInfo::Change(vec![Mutation::Add(Accessor::Range((0, 3)))]);
    let r = mutate_added_flat(&src, &mut out, &info, |v: &Vec<u8>| v.iter().map(|x| *x as u32 + 1).collect());
    assert_eq!(out, vec![2u32, 3, 4]);
    assert_eq!(r, info);
}

#[test]
fn pairs_join_each_new_point_to_the_one_before() {
    let src = Identity::new(vec![1i64, 2, 4, 8, 16]);
    let mut out = vec![0i64];
    let info = MutateInfo::Change(vec![
        Mutation::Add(Accessor::Range((0, 2))),
        Mutation::Replace(Accessor::Indices(vec![3])),
        Mutation::Add(Accessor::Range((2, 5))),
    ]);
    let r = mutate_windows(&src, &mut out, &info, |a: &i64, b: &i64| b - a);
    assert_eq!(out, vec![0, 1, 2, 4, 8]);
    assert_eq!(
        r,
        MutateInfo::Change(vec![
            Mutation::Add(Accessor::Range((1, 2))),
            Mutation::Replace(Accessor::Indices(vec![3])),
            Mutation::Add(Accessor::Range((2, 5))),
        ])
    );
    let r = mutate_windows(&src, &mut out, &MutateInfo::Reset, |a: &i64, b: &i64| b - a);
    assert_eq!(r, MutateInfo::NoChange);
}

#[test]
fn pairs_from_listed_positions() {
    let src = Identity::new(vec![1i64, 2, 4, 8, 16]);
    let mut out = Vec::new();
    let info = MutateInfo::Change(vec![Mutation::Add(Accessor::Indices(vec![4]))]);
    let r = mutate_windows(&src, &mut out, &info, |a: &i64, b: &i64| b - a);
    // position 4 widened to the left gives positions [3, 4]: one pair.
    assert_eq!(out, vec![8]);
    assert_eq!(r, MutateInfo::Change(vec![Mutation::Add(Accessor::Range((0, 1)))]));
}

#[test]
fn mesh_adds_one_entry() {
    let mut m = MeshMutate::new();
    let mut out = vec!["a"];
    let r = m.push_mesh(&mut out, "b");
    assert_eq!(out, vec!["a", "b"]);
    assert_eq!(r, MutateInfo::new_add_single(2));
    assert_eq!(added_indices(&r), vec![1]);
}

#[test]
fn present_entries_skip_gaps() {
    assert_eq!(present_entries(&[Some(1), None, Some(3), None]), vec![1, 3]);
    assert_eq!(present_entries::<u8>(&[None, None]), Vec::<u8>::new());
}

#[test]
fn chart_helpers() {
    assert_eq!(new_index_iter(2, 5), vec![3, 4]);
    assert_eq!(new_index_iter(0, 5), Vec::<usize>::new());
    let pts = vec![1, 2, 3, 4];
    assert_eq!(get_pts_for_cyl(&pts, 0), Vec::<i32>::new());
    assert_eq!(get_pts_for_cyl(&pts, 2), vec![2, 3, 4]);
    assert_eq!(get_pts_for_cyl(&pts, 5), Vec::<i32>::new());
}

#[test]
fn one_chunk_keeps_points_and_cylinders_in_step() {
    let mut src = Identity::new(vec![1i64, 2]);
    let mut pts = vec![10i64, 20];
    let mut cyls = vec![10i64];
    let info = src.add(vec![4, 8, 16]);
    let pts_info = mutate_added(&src, &mut pts, &info, |x: &i64| x * 10);
    assert_eq!(pts.len(), 5);
    let cyl_info = mutate_windows(&pts, &mut cyls, &pts_info, |a: &i64, b: &i64| b - a);
    assert_eq!(cyls, vec![10, 20, 40, 80]);
    assert_eq!(cyl_info, MutateInfo::Change(vec![Mutation::Add(Accessor::Range((1, 4)))]));
    assert_eq!(added_indices(&cyl_info), vec![1, 2, 3]);
}

#[test]
fn nothing_changed_nothing_appended() {
    let src = Identity::new(vec![1i64, 2]);
    let mut out = vec![5i64];
    assert_eq!(mutate_windows(&src, &mut out, &MutateInfo::NoChange, |a: &i64, b: &i64| b - a), MutateInfo::NoChange);
    assert_eq!(mutate_added(&src, &mut out, &MutateInfo::Reset, |x: &i64| *x), MutateInfo::NoChange);
    assert_eq!(out, vec![5]);
}
