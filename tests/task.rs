use engine_core::fib::{fib_fits, DecodeError, FibTask};

fn ran(iter: u64) -> u64 {
    let mut t = FibTask { iter, result: 0 };
    t.run_cpu();
    t.result
}

#[test]
fn fib_of_zero_is_zero() {
    assert_eq!(ran(0), 0);
}

#[test]
fn fib_of_one_is_one() {
    assert_eq!(ran(1), 1);
}

#[test]
fn fib_of_ten_is_fifty_five() {
    assert_eq!(ran(10), 55);
}

#[test]
fn fib_of_largest_fitting_iteration() {
    assert_eq!(ran(93), 12200160415121876738);
}

#[test]
fn fib_fits_up_to_ninety_three() {
    assert!(fib_fits(0));
    assert!(fib_fits(1));
    assert!(fib_fits(93));
    assert!(!fib_fits(94));
    assert!(!fib_fits(u64::MAX));
}

#[test]
fn run_keeps_iteration_count() {
    let mut t = FibTask { iter: 20, result: 7 };
    t.run_cpu();
    assert_eq!(t.iter, 20);
    assert_eq!(t.result, 6765);
}

#[test]
fn runs_are_deterministic_across_clones() {
    let template = FibTask::new();
    let mut a = template.clone_box();
    let mut b = template.clone_box();
    a.iter = 12;
    b.iter = 12;
    a.run_cpu();
    b.run_cpu();
    assert_eq!(a.result, 144);
    assert_eq!(a, b);
}

#[test]
fn task_round_trips_through_bytes() {
    let t = FibTask { iter: 10, result: 55 };
    let bytes = t.to_bytes();
    assert_eq!(bytes.len(), 16);
    assert_eq!(t.from_bytes(&bytes), Ok(t));
    let big = FibTask { iter: u64::MAX, result: 0x0102030405060708 };
    assert_eq!(t.from_bytes(&big.to_bytes()), Ok(big));
}

#[test]
fn task_bytes_are_little_endian_fields() {
    let t = FibTask { iter: 1, result: 0x0102 };
    assert_eq!(
        t.to_bytes(),
        vec![1, 0, 0, 0, 0, 0, 0, 0, 2, 1, 0, 0, 0, 0, 0, 0]
    );
}

#[test]
fn short_or_long_bytes_are_rejected() {
    let t = FibTask::new();
    assert_eq!(t.from_bytes(&[]), Err(DecodeError::WrongLength));
    assert_eq!(t.from_bytes(&[0u8; 15]), Err(DecodeError::WrongLength));
    assert_eq!(t.from_bytes(&[0u8; 17]), Err(DecodeError::WrongLength));
}

#[test]
fn task_id_is_stable() {
    let t = FibTask { iter: 5, result: 5 };
    let expected = ("engine_core".to_string(), "fib".to_string());
    assert_eq!(t.get_id(), expected);
    assert_eq!(t.clone_box().get_id(), expected);
    let back = t.from_bytes(&t.to_bytes()).unwrap();
    assert_eq!(back.get_id(), expected);
}

#[test]
fn mutating_a_task_clone_leaves_original() {
    let original = FibTask { iter: 10, result: 0 };
    let mut copy = original.clone_box();
    copy.run_cpu();
    copy.iter = 3;
    assert_eq!(original, FibTask { iter: 10, result: 0 });
    assert_eq!(copy.result, 55);
}
