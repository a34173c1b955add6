use dialect_mir::{count_ops, find_all, find_first};

#[test]
fn count_counts_matches() {
    let c = vec![None, Some(1), None, Some(2), Some(3)];
    assert_eq!(count_ops(&c), 3);
    let none: Vec<Option<u8>> = vec![None, None];
    assert_eq!(count_ops(&none), 0);
    let empty: Vec<Option<u8>> = vec![];
    assert_eq!(count_ops(&empty), 0);
}

#[test]
fn find_first_takes_earliest_match() {
    assert_eq!(find_first(vec![None, Some(5), Some(6)]), Some(5));
    assert_eq!(find_first(vec![Some(9), None]), Some(9));
    let none: Vec<Option<u8>> = vec![None, None];
    assert_eq!(find_first(none), None);
    let empty: Vec<Option<u8>> = vec![];
    assert_eq!(find_first(empty), None);
}

#[test]
fn find_all_keeps_order() {
    assert_eq!(find_all(vec![None, Some("a"), None, Some("b"), Some("c")]), vec!["a", "b", "c"]);
    let none: Vec<Option<u8>> = vec![None];
    assert!(find_all(none).is_empty());
}

#[test]
fn queries_agree_across_blocks() {
    let block1 = vec![None, Some(1)];
    let block2 = vec![Some(2), None, Some(3)];
    let mut joined = block1.clone();
    joined.extend(block2.clone());
    let mut expected = find_all(block1.clone());
    expected.extend(find_all(block2.clone()));
    assert_eq!(find_all(joined.clone()), expected);
    assert_eq!(count_ops(&joined), find_all(joined.clone()).len());
    assert_eq!(find_first(joined.clone()), find_all(joined).first().copied());
}
