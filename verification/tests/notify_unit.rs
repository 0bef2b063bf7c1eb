use rust_plotter::notify_unit::URMap;

#[test]
fn insert_notify_retrieve() {}

#[test]
fn new_map_ignores_registration_list() {
    let urmap = URMap::<u8>::new(Vec::new());
    drop(urmap);
}
