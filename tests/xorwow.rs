use numerical_solvers::xorwow::Xorwow;

fn first_outputs(seed: u32, n: usize) -> Vec<u32> {
    let mut g = Xorwow::new(seed);
    let mut out = Vec::new();
    for _ in 0..n {
        out.push(g.next_u32());
    }
    out
}

#[test]
fn xorwow_known_stream_seed_zero() {
    assert_eq!(first_outputs(0, 5), vec![2563829592, 786265836, 2224380097, 3782347658, 2906970838]);
}

#[test]
fn xorwow_known_stream_seed_42() {
    assert_eq!(first_outputs(42, 5), vec![1599498576, 356797860, 2233294265, 3773442976, 885966931]);
}

#[test]
fn xorwow_known_stream_largest_seed() {
    assert_eq!(first_outputs(u32::MAX, 5), vec![3906006872, 2128443116, 3029686464, 1165101962, 88398551]);
}

#[test]
fn xorwow_same_seed_same_stream() {
    assert_eq!(first_outputs(7, 100), first_outputs(7, 100));
    assert_ne!(first_outputs(7, 10), first_outputs(8, 10));
}

#[test]
fn xorwow_long_run_does_not_panic() {
    let mut g = Xorwow::new(1);
    for _ in 0..20000 {
        g.next_u32();
    }
}
