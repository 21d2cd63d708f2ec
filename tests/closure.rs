use libtmsu::closure::{closure, Implication};

fn implication(tag_id: u64, value_id: u64, implied_tag_id: u64, implied_value_id: u64) -> Implication {
    Implication {
        tag_id,
        value_id,
        implied_tag_id,
        implied_value_id,
    }
}

fn sorted(mut pairs: Vec<(u64, u64)>) -> Vec<(u64, u64)> {
    pairs.sort();
    pairs
}

#[test]
fn closure_follows_implications_backwards() {
    let edges = vec![implication(1, 1, 2, 1)];
    assert_eq!(vec![(1, 1), (2, 1)], sorted(closure((2, 1), &edges)));
    assert_eq!(vec![(1, 1)], sorted(closure((1, 1), &edges)));
}

#[test]
fn cyclic_closure_terminates() {
    let edges = vec![implication(1, 0, 2, 0), implication(2, 0, 1, 0)];
    assert_eq!(vec![(1, 0), (2, 0)], sorted(closure((2, 0), &edges)));
    assert_eq!(vec![(1, 0), (2, 0)], sorted(closure((1, 0), &edges)));

    let self_loop = vec![implication(3, 0, 3, 0)];
    assert_eq!(vec![(3, 0)], closure((3, 0), &self_loop));
}

#[test]
fn wildcard_target_matches_any_implied_value() {
    let edges = vec![
        implication(1, 5, 2, 7),
        implication(3, 0, 2, 8),
        implication(4, 4, 9, 9),
    ];
    assert_eq!(vec![(1, 5), (2, 0), (3, 0)], sorted(closure((2, 0), &edges)));
    assert_eq!(vec![(1, 5), (2, 7)], sorted(closure((2, 7), &edges)));
}

#[test]
fn transitive_chain() {
    let edges = vec![
        implication(3, 0, 2, 0),
        implication(2, 0, 1, 0),
        implication(4, 0, 3, 0),
    ];
    assert_eq!(
        vec![(1, 0), (2, 0), (3, 0), (4, 0)],
        sorted(closure((1, 0), &edges))
    );
}
