use surface_lib::market::single_expiration_tag;

#[test]
fn test_single_tag_uniform_slice() {
    let tags: Vec<i64> = vec![1736467200, 1736467200, 1736467200];
    assert_eq!(single_expiration_tag(&tags), Some(1736467200));
}

#[test]
fn test_single_tag_empty_slice() {
    let tags: Vec<i64> = vec![];
    assert_eq!(single_expiration_tag(&tags), None);
}

#[test]
fn test_single_tag_two_expiries_rejected() {
    // a smile slice with two quotes tagged for another expiry must be refused
    let mut tags: Vec<i64> = vec![1736467200; 5];
    tags.push(1737072000);
    tags.push(1737072000);
    assert_eq!(single_expiration_tag(&tags), None);
}

#[test]
fn test_single_tag_disagreement_anywhere_rejected() {
    assert_eq!(single_expiration_tag(&vec![3, 1, 1]), None);
    assert_eq!(single_expiration_tag(&vec![1, 3, 1]), None);
    assert_eq!(single_expiration_tag(&vec![1, 1, 3]), None);
}

#[test]
fn test_single_tag_singleton() {
    assert_eq!(single_expiration_tag(&vec![-7]), Some(-7));
}
