use numerical_solvers::ordering::{order_key, vertex_order};

fn key(v: f64) -> u64 {
    order_key(v.to_bits())
}

#[test]
fn order_key_follows_value_order() {
    let values = [f64::NEG_INFINITY, -1e300, -2.5, -1.0, -1e-300, 0.0, 1e-300, 1.0, 2.5, 1e300, f64::INFINITY];
    for w in values.windows(2) {
        assert!(key(w[0]) < key(w[1]), "{} vs {}", w[0], w[1]);
    }
}

#[test]
fn order_key_exact_values() {
    assert_eq!(order_key(0), 0x8000_0000_0000_0000);
    assert_eq!(order_key(0x8000_0000_0000_0000), 0x7fff_ffff_ffff_ffff);
    assert_eq!(order_key(u64::MAX), 0);
    assert_eq!(order_key(0x7fff_ffff_ffff_ffff), u64::MAX);
    assert_eq!(order_key(1.0f64.to_bits()), 0xbff0_0000_0000_0000);
}

#[test]
fn vertex_order_sorts_ascending() {
    assert_eq!(vertex_order(&vec![30, 10, 20]), vec![1, 2, 0]);
}

#[test]
fn vertex_order_keeps_ties_in_place() {
    assert_eq!(vertex_order(&vec![5, 1, 5, 1, 5]), vec![1, 3, 0, 2, 4]);
}

#[test]
fn vertex_order_empty_and_single() {
    assert_eq!(vertex_order(&vec![]), Vec::<usize>::new());
    assert_eq!(vertex_order(&vec![9]), vec![0]);
}

#[test]
fn vertex_order_of_values() {
    let values = [1.5f64, -3.0, 0.0, 100.0, -0.5];
    let keys: Vec<u64> = values.iter().map(|v| key(*v)).collect();
    assert_eq!(vertex_order(&keys), vec![1, 4, 2, 0, 3]);
}

#[test]
fn vertex_order_is_repeatable() {
    let keys = vec![4, 4, 2, 8, 2, 0, 8];
    assert_eq!(vertex_order(&keys), vertex_order(&keys));
    assert_eq!(vertex_order(&keys), vec![5, 2, 4, 0, 1, 3, 6]);
}

#[test]
fn vertex_order_extreme_keys() {
    assert_eq!(vertex_order(&vec![u64::MAX, 0, u64::MAX, 0]), vec![1, 3, 0, 2]);
}
