use ic_eth::request_id::{next_id, RequestIdCounter};

#[test]
fn the_first_identifier_is_zero() {
    let mut counter = RequestIdCounter::new();
    assert_eq!(counter.peek(), 0);
    assert_eq!(next_id(&mut counter), 0);
}

#[test]
fn the_default_counter_starts_at_zero() {
    let mut counter = RequestIdCounter::default();
    assert_eq!(next_id(&mut counter), 0);
}

#[test]
fn sequential_identifiers_increase_by_one() {
    let mut counter = RequestIdCounter::new();
    let first = next_id(&mut counter);
    let second = next_id(&mut counter);
    let third = next_id(&mut counter);
    assert_eq!((first, second, third), (0, 1, 2));
    assert_eq!(counter.peek(), 3);
}

#[test]
fn the_counter_wraps_to_zero_after_the_largest_identifier() {
    let mut counter = RequestIdCounter::starting_at(u64::MAX - 1);
    assert_eq!(next_id(&mut counter), u64::MAX - 1);
    assert_eq!(next_id(&mut counter), u64::MAX);
    assert_eq!(next_id(&mut counter), 0);
    assert_eq!(next_id(&mut counter), 1);
}

#[test]
fn no_identifier_repeats_in_a_run_of_allocations() {
    let mut counter = RequestIdCounter::starting_at(u64::MAX - 500);
    let mut seen: Vec<u64> = Vec::new();
    for _ in 0..1000 {
        let id = next_id(&mut counter);
        assert!(!seen.contains(&id));
        seen.push(id);
    }
}
