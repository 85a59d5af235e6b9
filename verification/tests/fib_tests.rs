use cliu::fib::fibonnacci;

#[test]
fn small_fibonacci_values() {
    assert_eq!(fibonnacci(0), 0);
    assert_eq!(fibonnacci(1), 1);
    assert_eq!(fibonnacci(2), 1);
    assert_eq!(fibonnacci(3), 2);
    assert_eq!(fibonnacci(10), 55);
}

#[test]
fn largest_fibonacci_in_u32() {
    assert_eq!(fibonnacci(47), 2971215073);
}
