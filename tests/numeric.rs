use native_compute::calculate_fibonacci;
use native_compute::calculate_power;
use native_compute::greet;
use native_compute::MAX_FIB_INDEX;

#[test]
fn greet_wraps_name() {
    assert_eq!(greet("Tom".to_string()), "Hello, Tom!");
}

#[test]
fn greet_empty_name() {
    assert_eq!(greet(String::new()), "Hello, !");
}

#[test]
fn power_of_positive_base() {
    assert_eq!(calculate_power(2, 10), 1024);
    assert_eq!(calculate_power(3, 4), 81);
    assert_eq!(calculate_power(7, 1), 7);
}

#[test]
fn power_zero_exponent_is_one() {
    assert_eq!(calculate_power(5, 0), 1);
    assert_eq!(calculate_power(0, 0), 1);
    assert_eq!(calculate_power(-9, 0), 1);
}

#[test]
fn power_negative_exponent_is_one() {
    assert_eq!(calculate_power(5, -3), 1);
}

#[test]
fn power_negative_base_alternates_sign() {
    assert_eq!(calculate_power(-2, 3), -8);
    assert_eq!(calculate_power(-2, 4), 16);
    assert_eq!(calculate_power(-1, 1001), -1);
}

#[test]
fn power_zero_base() {
    assert_eq!(calculate_power(0, 5), 0);
}

#[test]
fn power_reaches_i32_limits() {
    assert_eq!(calculate_power(-2, 31), i32::MIN);
    assert_eq!(calculate_power(2, 30), 1 << 30);
    assert_eq!(calculate_power(46340, 2), 2147395600);
}

#[test]
fn power_is_repeated_multiplication() {
    for base in -5..=5 {
        let mut expected: i32 = 1;
        for e in 0..10 {
            assert_eq!(calculate_power(base, e), expected);
            expected *= base;
        }
    }
}

#[test]
fn fibonacci_first_values() {
    assert_eq!(calculate_fibonacci(0), 0);
    assert_eq!(calculate_fibonacci(1), 1);
    assert_eq!(calculate_fibonacci(2), 1);
    assert_eq!(calculate_fibonacci(3), 2);
    assert_eq!(calculate_fibonacci(10), 55);
    assert_eq!(calculate_fibonacci(50), 12586269025);
}

#[test]
fn fibonacci_recurrence_holds() {
    for n in 2..=MAX_FIB_INDEX {
        assert_eq!(
            calculate_fibonacci(n),
            calculate_fibonacci(n - 1) + calculate_fibonacci(n - 2)
        );
    }
}

#[test]
fn fibonacci_largest_index() {
    assert_eq!(MAX_FIB_INDEX, 92);
    assert_eq!(calculate_fibonacci(92), 7540113804746346429);
}

#[test]
fn fibonacci_negative_index_is_returned() {
    assert_eq!(calculate_fibonacci(-4), -4);
}
