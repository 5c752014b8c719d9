use steering::selection::{count_interactions, nearest};

#[test]
fn nearest_picks_the_smallest_key() {
    let keys = vec![Some(7u64), None, Some(3u64), Some(9u64)];
    assert_eq!(nearest(&keys), Some(2));
}

#[test]
fn nearest_keeps_the_first_of_equal_keys() {
    let keys = vec![None, Some(5u64), Some(3u64), Some(3u64)];
    assert_eq!(nearest(&keys), Some(2));
}

#[test]
fn nearest_of_no_interactions_is_none() {
    assert_eq!(nearest(&vec![None, None, None]), None);
    assert_eq!(nearest(&Vec::new()), None);
}

#[test]
fn nearest_of_a_single_interaction() {
    assert_eq!(nearest(&vec![None, Some(u64::MAX), None]), Some(1));
}

#[test]
fn count_counts_present_keys() {
    let keys = vec![Some(1u64), None, Some(0u64), Some(1u64), None];
    assert_eq!(count_interactions(&keys), 3);
    assert_eq!(count_interactions(&Vec::new()), 0);
}

#[test]
fn force_exactly_when_counted() {
    let cases = vec![
        vec![None, None],
        vec![None, Some(4u64)],
        vec![Some(2u64)],
        Vec::new(),
    ];
    for keys in cases.iter() {
        assert_eq!(count_interactions(keys) > 0, nearest(keys).is_some());
    }
}
