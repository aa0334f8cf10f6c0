use angular_deploy::names::get_app_names;

fn owned(names: &[&str]) -> Vec<String> {
    names.iter().map(|s| s.to_string()).collect()
}

#[test]
fn core_duplicates_are_dropped_in_order() {
    let input = owned(&["a", "b", "a"]);
    let r = get_app_names(&input);
    assert_eq!(r.core_app_names, vec!["a", "b"]);
    assert!(r.portal_app_names.is_empty());
}

#[test]
fn names_split_by_portal_suffix() {
    let input = owned(&["shop", "shop-portal", "admin", "admin-portal", "shop"]);
    let r = get_app_names(&input);
    assert_eq!(r.core_app_names, vec!["shop", "admin"]);
    assert_eq!(r.portal_app_names, vec!["shop-portal", "admin-portal"]);
}

#[test]
fn suffix_match_is_case_sensitive() {
    let input = owned(&["shop-Portal", "portal", "-portal", "portal-x"]);
    let r = get_app_names(&input);
    assert_eq!(r.core_app_names, vec!["shop-Portal", "portal", "portal-x"]);
    assert_eq!(r.portal_app_names, vec!["-portal"]);
}

#[test]
fn portal_duplicates_keep_first_occurrence() {
    let input = owned(&["b-portal", "a-portal", "b-portal", "a-portal", "c"]);
    let r = get_app_names(&input);
    assert_eq!(r.portal_app_names, vec!["b-portal", "a-portal"]);
    assert_eq!(r.core_app_names, vec!["c"]);
}

#[test]
fn empty_input_gives_empty_categories() {
    let input: Vec<String> = Vec::new();
    let r = get_app_names(&input);
    assert!(r.core_app_names.is_empty());
    assert!(r.portal_app_names.is_empty());
}

#[test]
fn classifying_the_output_again_changes_nothing() {
    let input = owned(&["x-portal", "y", "x-portal", "z", "y"]);
    let first = get_app_names(&input);
    let again: Vec<String> = first
        .core_app_names
        .iter()
        .chain(first.portal_app_names.iter())
        .map(|s| s.to_string())
        .collect();
    let second = get_app_names(&again);
    assert_eq!(second.core_app_names, first.core_app_names);
    assert_eq!(second.portal_app_names, first.portal_app_names);
}
