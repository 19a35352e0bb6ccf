use tx_manager::endpoints::{URL_1, URL_2};
use tx_manager::get_end_points;

#[test]
fn one_names_the_first_node() {
    assert_eq!(get_end_points("one"), vec![URL_1]);
    assert_eq!(get_end_points("one"), vec!["http://localhost:9501"]);
}

#[test]
fn two_names_both_nodes() {
    assert_eq!(get_end_points("two"), vec![URL_1, URL_2]);
    assert_eq!(
        get_end_points("two"),
        vec!["http://localhost:9501", "http://localhost:9601"]
    );
}

#[test]
fn other_names_have_no_node() {
    assert!(get_end_points("three").is_empty());
    assert!(get_end_points("").is_empty());
    assert!(get_end_points("One").is_empty());
}
