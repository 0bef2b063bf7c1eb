use rust_plotter::single_consumable::{SingleConsumable, SingleConsume};
use rust_plotter::test_fake_blck::{get_blck_fake, init_state, next_blck_index};

#[test]
fn consumed_only_once() {
    let mut c = SingleConsumable::new(7);
    assert_eq!(c.try_consume(), Some(7));
    assert_eq!(c.try_consume(), None);
    assert_eq!(c.try_consume(), None);
}

#[test]
fn fake_repo_serves_its_two_blocks() {
    let repo = init_state();
    assert_eq!(repo.get(0).map(|b| b.thing()), Ok("wow blck is fake?"));
    assert_eq!(repo.get(1).map(|b| b.thing()), Ok("wow blck is NOT fake?"));
    assert!(repo.get(2).is_err());
    assert!(repo.get(-1).is_err());
    assert!(repo.get(i32::MIN).is_err());
}

#[test]
fn fake_block_errors_name_the_index() {
    let repo = init_state();
    assert_eq!(get_blck_fake(1, &repo).map(|b| b.thing()), Ok("wow blck is NOT fake?"));
    assert_eq!(
        get_blck_fake(2, &repo).map(|b| b.thing()),
        Err("Failure to retrieve blck at index 2".to_string())
    );
    assert_eq!(
        get_blck_fake(-15, &repo).map(|b| b.thing()),
        Err("Failure to retrieve blck at index -15".to_string())
    );
}

#[test]
fn fake_block_index_alternates() {
    assert_eq!(next_blck_index(0), 1);
    assert_eq!(next_blck_index(1), 0);
}
