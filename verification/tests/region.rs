use avalanche_ops::region::{default_region, has_explicit_region, select_region};

#[test]
fn explicit_region_wins() {
    assert_eq!(select_region(Some("eu-west-1".to_string()), None), "eu-west-1");
    assert_eq!(
        select_region(Some("eu-west-1".to_string()), Some("ap-south-1".to_string())),
        "eu-west-1"
    );
}

#[test]
fn no_region_anywhere_gives_the_fallback() {
    assert_eq!(select_region(None, None), "us-west-2");
    assert_eq!(default_region(), "us-west-2");
}

#[test]
fn environment_region_comes_second() {
    assert_eq!(select_region(None, Some("ap-south-1".to_string())), "ap-south-1");
}

#[test]
fn empty_explicit_region_counts_as_none() {
    assert_eq!(select_region(Some(String::new()), Some("ap-south-1".to_string())), "ap-south-1");
    assert_eq!(select_region(Some(String::new()), None), "us-west-2");
}

#[test]
fn environment_region_is_taken_as_given() {
    assert_eq!(select_region(None, Some(String::new())), "");
}

#[test]
fn explicit_region_is_told_from_an_empty_one() {
    assert!(has_explicit_region(&Some("eu-west-1".to_string())));
    assert!(!has_explicit_region(&Some(String::new())));
    assert!(!has_explicit_region(&None));
}
