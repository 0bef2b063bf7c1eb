use rust_plotter::data_transform::change_desrip;
use rust_plotter::data_transform::mutate_info::{Accessor, MutateInfo, Mutation};

#[test]
fn new_add_names_the_tail() {
    assert_eq!(
        MutateInfo::new_add(3, 10),
        MutateInfo::Change(vec![Mutation::Add(Accessor::Range((7, 10)))])
    );
    assert_eq!(
        MutateInfo::new_add(0, 0),
        MutateInfo::Change(vec![Mutation::Add(Accessor::Range((0, 0)))])
    );
}

#[test]
fn new_add_single_names_the_last_position() {
    assert_eq!(
        MutateInfo::new_add_single(4),
        MutateInfo::Change(vec![Mutation::Add(Accessor::Indices(vec![3]))])
    );
}

#[test]
fn indices_round_trip() {
    let acc = Accessor::from_indices(&[3, 1, 2]);
    assert_eq!(acc, Accessor::Indices(vec![3, 1, 2]));
    assert_eq!(acc.to_indices(), vec![3, 1, 2]);
    assert_eq!(Accessor::from_indices(&[]).to_indices(), Vec::<usize>::new());
}

#[test]
fn from_assoc_keeps_positions() {
    let acc = Accessor::from_assoc(&[(2, 'a'), (0, 'b'), (2, 'c')]);
    assert_eq!(acc, Accessor::Indices(vec![2, 0, 2]));
}

#[test]
fn range_lists_its_positions() {
    assert_eq!(Accessor::Range((2, 5)).to_indices(), vec![2, 3, 4]);
    assert_eq!(Accessor::Range((5, 5)).to_indices(), Vec::<usize>::new());
    assert_eq!(Accessor::Range((5, 2)).to_indices(), Vec::<usize>::new());
}

#[test]
fn cap_limits_the_end() {
    let mut r = Accessor::Range((0, 10));
    r.cap(4);
    assert_eq!(r, Accessor::Range((0, 4)));
    let mut r = Accessor::Range((1, 3));
    r.cap(4);
    assert_eq!(r, Accessor::Range((1, 3)));
    let mut i = Accessor::Indices(vec![9, 1, 9]);
    i.cap(5);
    assert_eq!(i, Accessor::Indices(vec![9, 1, 5]));
    let mut i = Accessor::Indices(vec![2]);
    i.cap(5);
    assert_eq!(i, Accessor::Indices(vec![2]));
}

#[test]
fn extend_left_widens_and_stops_at_zero() {
    let mut r = Accessor::Range((3, 8));
    r.extend_left(1);
    assert_eq!(r, Accessor::Range((2, 8)));
    let mut r = Accessor::Range((1, 8));
    r.extend_left(4);
    assert_eq!(r, Accessor::Range((0, 8)));
    let mut i = Accessor::Indices(vec![4, 5]);
    i.extend_left(2);
    assert_eq!(i, Accessor::Indices(vec![2, 4, 5]));
    let mut i = Accessor::Indices(vec![1]);
    i.extend_left(3);
    assert_eq!(i, Accessor::Indices(vec![0, 1]));
}

#[test]
fn extend_left_reads_positions_as_i32() {
    // 2^31 read as an i32 is negative, so the widened begin is raised to zero.
    let mut r = Accessor::Range((2147483648, 2147483650));
    r.extend_left(0);
    assert_eq!(r, Accessor::Range((0, 2147483650)));
}

#[test]
fn reverse_range_and_single() {
    assert_eq!(Accessor::reverse_range(3, 10), Accessor::Range((7, 10)));
    assert_eq!(Accessor::reverse_range(3, 10).to_indices(), vec![7, 8, 9]);
    assert_eq!(Accessor::single(5), Accessor::Indices(vec![5]));
}

#[test]
fn clones_are_equal() {
    let info = MutateInfo::Change(vec![
        Mutation::Add(Accessor::Range((1, 2))),
        Mutation::Remove(Accessor::Indices(vec![4, 0])),
    ]);
    assert_eq!(info.clone(), info);
    assert_eq!(MutateInfo::Reset.clone(), MutateInfo::Reset);
    assert_eq!(MutateInfo::NoChange.clone(), MutateInfo::NoChange);
}

#[test]
fn change_descrip_accessors() {
    let acc = change_desrip::Accessor::from_indices(&[4, 4, 1]);
    assert_eq!(acc, change_desrip::Accessor::Indices(vec![4, 4, 1]));
    assert_eq!(change_desrip::Accessor::to_indices(acc), vec![4, 4, 1]);
    assert_eq!(
        change_desrip::Accessor::to_indices(change_desrip::Accessor::Range((1, 4))),
        vec![1, 2, 3]
    );
    assert_eq!(
        change_desrip::Accessor::to_indices(change_desrip::Accessor::Range((4, 1))),
        Vec::<usize>::new()
    );
    assert_eq!(
        change_desrip::Accessor::from_assoc(&[(7, "x"), (3, "y")]),
        change_desrip::Accessor::Indices(vec![7, 3])
    );
}
