use kratos_flow::cookies::CookieSet;

#[test]
fn an_empty_set_has_an_empty_header() {
    let set = CookieSet::new();
    assert!(set.is_empty());
    assert_eq!(set.len(), 0);
    assert_eq!(set.header(), "");
}

#[test]
fn a_set_starts_with_the_callers_cookie_if_there_is_one() {
    assert_eq!(CookieSet::from_cookie(Some("A")).into_vec(), vec!["A".to_string()]);
    assert!(CookieSet::from_cookie(None).into_vec().is_empty());
}

#[test]
fn cookie_header_is_a_then_b_then_c() {
    let mut set = CookieSet::from_cookie(Some("A"));
    set.extend(&vec!["B".to_string()]);
    set.extend(&vec!["C".to_string()]);
    assert_eq!(set.len(), 3);
    assert_eq!(set.header(), "A; B; C");
}

#[test]
fn duplicates_are_kept_and_order_is_arrival_order() {
    let mut set = CookieSet::from_vec(vec!["k=1".to_string()]);
    set.push("k=2");
    set.extend(&vec!["k=1".to_string(), "z=0".to_string()]);
    let copy = set.duplicate();
    assert_eq!(set.header(), "k=1; k=2; k=1; z=0");
    assert_eq!(
        copy.into_vec(),
        vec!["k=1".to_string(), "k=2".to_string(), "k=1".to_string(), "z=0".to_string()]
    );
}

#[test]
fn extending_by_nothing_changes_nothing() {
    let mut set = CookieSet::from_cookie(Some("A"));
    set.extend(&vec![]);
    assert_eq!(set.header(), "A");
}
