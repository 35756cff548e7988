use nk_rust::arith::nk_rust_example;

#[test]
fn two_plus_three_is_five() {
    assert_eq!(nk_rust_example(2, 3), 5);
}

#[test]
fn minus_one_plus_one_is_zero() {
    assert_eq!(nk_rust_example(-1, 1), 0);
}

#[test]
fn zero_is_neutral() {
    assert_eq!(nk_rust_example(0, 0), 0);
    assert_eq!(nk_rust_example(0, 41), 41);
    assert_eq!(nk_rust_example(-41, 0), -41);
}

#[test]
fn sum_does_not_depend_on_the_order() {
    assert_eq!(nk_rust_example(17, -4), 13);
    assert_eq!(nk_rust_example(-4, 17), 13);
}

#[test]
fn sums_at_the_ends_of_the_range() {
    assert_eq!(nk_rust_example(i32::MAX, 0), i32::MAX);
    assert_eq!(nk_rust_example(i32::MAX - 1, 1), i32::MAX);
    assert_eq!(nk_rust_example(i32::MIN, 0), i32::MIN);
    assert_eq!(nk_rust_example(i32::MIN + 1, -1), i32::MIN);
    assert_eq!(nk_rust_example(i32::MAX, i32::MIN), -1);
    assert_eq!(nk_rust_example(i32::MIN, i32::MAX), -1);
}

#[test]
fn every_call_gives_the_same_sum() {
    let first: i32 = nk_rust_example(2, 3);
    for _ in 0..100 {
        assert_eq!(nk_rust_example(2, 3), first);
    }
    let second: i32 = nk_rust_example(-1, 1);
    for _ in 0..100 {
        assert_eq!(nk_rust_example(-1, 1), second);
    }
    assert_eq!(first, 5);
    assert_eq!(second, 0);
}
