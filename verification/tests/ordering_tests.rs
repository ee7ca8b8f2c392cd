use surface_lib::ordering::stable_sort_order;

#[test]
fn test_sort_order_ascending() {
    let keys: Vec<u64> = vec![30, 10, 20];
    assert_eq!(stable_sort_order(&keys), vec![1, 2, 0]);
}

#[test]
fn test_sort_order_stable_on_ties() {
    // equal keys keep their insertion order
    let keys: Vec<u64> = vec![30, 10, 20, 10];
    assert_eq!(stable_sort_order(&keys), vec![1, 3, 2, 0]);

    let all_equal: Vec<u64> = vec![5, 5, 5, 5];
    assert_eq!(stable_sort_order(&all_equal), vec![0, 1, 2, 3]);
}

#[test]
fn test_sort_order_empty_and_singleton() {
    let empty: Vec<u64> = vec![];
    assert_eq!(stable_sort_order(&empty), Vec::<usize>::new());
    assert_eq!(stable_sort_order(&vec![42]), vec![0]);
}

#[test]
fn test_sort_order_already_sorted() {
    let keys: Vec<u64> = vec![1, 2, 3, 4, 5];
    assert_eq!(stable_sort_order(&keys), vec![0, 1, 2, 3, 4]);
}

#[test]
fn test_sort_order_strike_bits() {
    // positive doubles compare like their bit patterns, so sorting the bits
    // of strikes sorts the strikes
    let strikes = [102.5f64, 95.0, 100.0, 97.5, 105.0];
    let keys: Vec<u64> = strikes.iter().map(|s| s.to_bits()).collect();
    let order = stable_sort_order(&keys);
    let sorted: Vec<f64> = order.iter().map(|&i| strikes[i]).collect();
    assert_eq!(sorted, vec![95.0, 97.5, 100.0, 102.5, 105.0]);
}
