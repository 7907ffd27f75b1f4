use stars::pairs::interaction_pairs;

#[test]
fn no_pairs_without_two_bodies() {
    assert!(interaction_pairs(0).is_empty());
    assert!(interaction_pairs(1).is_empty());
}

#[test]
fn three_bodies_in_lexicographic_order() {
    assert_eq!(interaction_pairs(3), vec![(0, 1), (0, 2), (1, 2)]);
}

#[test]
fn two_bodies_one_pair() {
    assert_eq!(interaction_pairs(2), vec![(0, 1)]);
}

#[test]
fn every_pair_once_and_ordered() {
    let n = 7;
    let pairs = interaction_pairs(n);
    assert_eq!(pairs.len(), n * (n - 1) / 2);
    for i in 0..n {
        for j in (i + 1)..n {
            assert_eq!(pairs.iter().filter(|p| **p == (i, j)).count(), 1);
        }
    }
    for p in &pairs {
        assert!(p.0 < p.1 && p.1 < n);
    }
    for w in pairs.windows(2) {
        assert!(w[0] < w[1]);
    }
}

#[test]
fn each_body_in_n_minus_one_pairs() {
    let n = 52;
    let pairs = interaction_pairs(n);
    for k in 0..n {
        let count = pairs.iter().filter(|p| p.0 == k || p.1 == k).count();
        assert_eq!(count, n - 1);
    }
}
