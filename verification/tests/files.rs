use evosim::ranking::{rank_descending, surplus};
use evosim::text::text_contains;

#[test]
fn ranking_is_a_stable_descending_sort() {
    assert_eq!(rank_descending(&vec![5, 9, 5, 1]), vec![1, 0, 2, 3]);
    assert_eq!(rank_descending(&vec![]), Vec::<usize>::new());
    assert_eq!(rank_descending(&vec![3, 3, 3]), vec![0, 1, 2]);
    assert_eq!(rank_descending(&vec![1, 2, 3, 4]), vec![3, 2, 1, 0]);
}

#[test]
fn surplus_lists_what_falls_off_the_ranking() {
    assert_eq!(surplus(&vec![5, 9, 5, 1], 2), vec![2, 3]);
    assert_eq!(surplus(&vec![5, 9, 5, 1], 0), vec![1, 0, 2, 3]);
    assert_eq!(surplus(&vec![5, 9, 5, 1], 4), Vec::<usize>::new());
    assert_eq!(surplus(&vec![5, 9, 5, 1], 25), Vec::<usize>::new());
    let times: Vec<u128> = (0..30).collect();
    let discard = surplus(&times, 25);
    assert_eq!(discard, vec![4, 3, 2, 1, 0]);
}

#[test]
fn text_search() {
    assert!(text_contains("src/nn/samples/herbi/.DS_Store", ".DS_Store"));
    assert!(!text_contains("src/nn/samples/herbi/abc", ".DS_Store"));
    assert!(text_contains("abc", ""));
    assert!(text_contains("abcabd", "abd"));
    assert!(!text_contains("ab", "abc"));
}

#[test]
fn kept_entries_outrank_discarded_ones() {
    let keys: Vec<u128> = vec![7, 3, 9, 3, 12, 0, 7, 5];
    let discard = surplus(&keys, 3);
    assert_eq!(discard.len(), 5);
    let kept: Vec<usize> = (0..keys.len()).filter(|i| !discard.contains(i)).collect();
    assert_eq!(kept, vec![0, 2, 4]);
    for &k in &kept {
        for &d in &discard {
            assert!(keys[k] >= keys[d]);
        }
    }
    assert_eq!(discard, vec![6, 7, 1, 3, 5]);
}
