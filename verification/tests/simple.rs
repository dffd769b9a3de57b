use simple_utils::add_numbers;
use simple_utils::calculate_fibonacci;
use simple_utils::greet;

#[test]
fn greet_embeds_the_name() {
    assert_eq!(greet(String::from("World")), "Hello, World! 🦀");
}

#[test]
fn greet_accepts_the_empty_name() {
    assert_eq!(greet(String::from("")), "Hello, ! 🦀");
}

#[test]
fn greet_echoes_unusual_names_verbatim() {
    assert_eq!(greet(String::from("a\tb\nc")), "Hello, a\tb\nc! 🦀");
}

#[test]
fn fibonacci_base_cases() {
    assert_eq!(calculate_fibonacci(0), 0);
    assert_eq!(calculate_fibonacci(1), 1);
}

#[test]
fn fibonacci_known_values() {
    assert_eq!(calculate_fibonacci(2), 1);
    assert_eq!(calculate_fibonacci(10), 55);
    assert_eq!(calculate_fibonacci(20), 6765);
}

#[test]
fn fibonacci_recurrence_holds_in_range() {
    assert_eq!(
        calculate_fibonacci(10),
        calculate_fibonacci(9) + calculate_fibonacci(8)
    );
    assert_eq!(
        calculate_fibonacci(93),
        calculate_fibonacci(92) + calculate_fibonacci(91)
    );
}

#[test]
fn fibonacci_largest_exact_index() {
    assert_eq!(calculate_fibonacci(93), 12200160415121876738);
}

#[test]
fn fibonacci_wraps_past_the_representable_range() {
    assert_eq!(
        calculate_fibonacci(94),
        12200160415121876738u64.wrapping_add(7540113804746346429)
    );
    assert_eq!(calculate_fibonacci(94), 1293530146158671551);
}

#[test]
fn add_small_numbers() {
    assert_eq!(add_numbers(2, 3), 5);
}

#[test]
fn add_cancelling_numbers() {
    assert_eq!(add_numbers(-5, 5), 0);
}

#[test]
fn add_wraps_on_negative_overflow() {
    assert_eq!(add_numbers(i64::MIN, -1), i64::MAX);
}

#[test]
fn add_wraps_on_positive_overflow() {
    assert_eq!(add_numbers(i64::MAX, 1), i64::MIN);
}
