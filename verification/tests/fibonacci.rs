use katas::fibonacci::Fibonacci;

#[test]
fn test_fibonacci_creation() {
    let fib = Fibonacci::default();
    assert_eq!(fib.curr, 0);
    assert_eq!(fib.next, 1);
}

#[test]
fn test_fibonacci_vector() {
    let mut fib = Fibonacci::default();
    let mut coll: Vec<u128> = Vec::new();
    for _ in 0..10 {
        coll.push(fib.next().unwrap());
    }
    assert_eq!(coll, vec![1, 1, 2, 3, 5, 8, 13, 21, 34, 55]);
}

#[test]
fn fibonacci_stops_cleanly_at_overflow() {
    let mut fib = Fibonacci {
        curr: u128::MAX,
        next: u128::MAX,
    };
    assert_eq!(fib.next(), None);
    assert_eq!(fib.curr, u128::MAX);
    assert_eq!(fib.next, u128::MAX);
    assert_eq!(fib.next(), None);
}

#[test]
fn fibonacci_ends_within_the_u128_range() {
    let mut fib = Fibonacci::default();
    let mut count: u32 = 0;
    let mut last: u128 = 0;
    while let Some(v) = fib.next() {
        assert!(v >= last);
        last = v;
        count += 1;
        assert!(count < 1000);
    }
    assert!(count > 100);
    assert_eq!(fib.next(), None);
}
