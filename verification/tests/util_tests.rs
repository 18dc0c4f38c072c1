use dataplotlib::util::{zip2, LengthMismatch};

#[test]
fn zip2_pairs_by_index() {
    let xs: Vec<f64> = vec![1.0, 2.0, 3.0];
    let ys: Vec<f64> = vec![4.0, 5.0, 6.0];
    let ps = zip2(&xs, &ys).unwrap();
    assert_eq!(ps, vec![(1.0, 4.0), (2.0, 5.0), (3.0, 6.0)]);
}

#[test]
fn zip2_empty_inputs_give_empty_output() {
    let xs: Vec<f64> = Vec::new();
    let ys: Vec<f64> = Vec::new();
    let ps = zip2(&xs, &ys).unwrap();
    assert!(ps.is_empty());
}

#[test]
fn zip2_unequal_lengths_fail_with_both_lengths() {
    let xs: Vec<f64> = vec![1.0, 2.0];
    let ys: Vec<f64> = vec![4.0, 5.0, 6.0];
    let e = zip2(&xs, &ys).unwrap_err();
    assert_eq!(e, LengthMismatch { xs_len: 2, ys_len: 3 });
}

#[test]
fn zip2_is_generic_over_the_scalar() {
    let xs: Vec<i32> = vec![10, 20];
    let ys: Vec<i32> = vec![-1, -2];
    let ps = zip2(&xs, &ys).unwrap();
    assert_eq!(ps, vec![(10, -1), (20, -2)]);
}
