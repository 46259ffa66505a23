use funwrap::double::{double_one, doubling};
use funwrap::{id, Fun};
use std::cell::Cell;
use std::rc::Rc;

fn double(x: u64) -> u64 {
    x * 2
}

fn increment(x: u64) -> u64 {
    x + 1
}

fn square(x: u64) -> u64 {
    x * x
}

#[test]
fn doubling_wrapper_called_with_one_gives_two() {
    let f = Fun::new(|x: u64| x * 2);
    let result = f.call(1);
    assert_eq!(result, 2);
    assert_eq!(format!("Result: {}", result), "Result: 2");
}

#[test]
fn doubling_and_incrementing_called_with_three_gives_seven() {
    let f = Fun::new(|x: u64| x * 2);
    let g = Fun::new(|x: u64| x + 1);
    assert_eq!(f.and_then(g).call(3), 7);
}

#[test]
fn order_of_composition_matters() {
    let f = Fun::new(|x: u64| x + 1);
    let g = Fun::new(|x: u64| x * 2);
    assert_eq!(f.and_then(g).call(3), 8);
}

#[test]
fn wrapper_of_a_named_function() {
    assert_eq!(Fun::new(square).call(12), 144);
}

#[test]
fn wrapper_owns_what_its_function_captured() {
    let words = vec![String::from("zero"), String::from("one"), String::from("two")];
    let f = Fun::new(move |i: usize| words[i].clone());
    assert_eq!(f.call(2), "two");
}

#[test]
fn identity_returns_its_argument() {
    assert_eq!(id::<u64>().call(41), 41);
    assert_eq!(id::<String>().call(String::from("same")), "same");
    assert_eq!(id::<Vec<u8>>().call(vec![1, 2, 3]), vec![1, 2, 3]);
}

#[test]
fn identity_on_the_left_changes_nothing() {
    for x in [0u64, 1, 3, 1000] {
        assert_eq!(id().and_then(Fun::new(double)).call(x), Fun::new(double).call(x));
    }
    assert_eq!(id().and_then(Fun::new(double)).call(21), 42);
}

#[test]
fn identity_on_the_right_changes_nothing() {
    for x in [0u64, 1, 3, 1000] {
        assert_eq!(Fun::new(double).and_then(id()).call(x), Fun::new(double).call(x));
    }
    assert_eq!(Fun::new(double).and_then(id()).call(21), 42);
}

#[test]
fn composition_is_associative() {
    for x in [0u64, 1, 3, 17] {
        let left = Fun::new(double).and_then(Fun::new(increment)).and_then(Fun::new(square));
        let right = Fun::new(double).and_then(Fun::new(increment).and_then(Fun::new(square)));
        assert_eq!(left.call(x), right.call(x));
    }
    let left = Fun::new(double).and_then(Fun::new(increment)).and_then(Fun::new(square));
    assert_eq!(left.call(3), 49);
    let right = Fun::new(double).and_then(Fun::new(increment).and_then(Fun::new(square)));
    assert_eq!(right.call(3), 49);
}

#[test]
fn composition_applies_the_first_and_hands_on_to_the_second() {
    for x in [0u64, 2, 5, 99] {
        let composed = Fun::new(double).and_then(Fun::new(increment)).call(x);
        let in_sequence = Fun::new(increment).call(Fun::new(double).call(x));
        assert_eq!(composed, in_sequence);
        assert_eq!(composed, 2 * x + 1);
    }
}

#[test]
fn composition_may_change_the_type_at_each_stage() {
    let digits = Fun::new(|x: u64| x.to_string());
    let length = Fun::new(|s: String| s.len());
    let even = Fun::new(|n: usize| n % 2 == 0);
    assert_eq!(digits.and_then(length).and_then(even).call(12345), false);
    let digits = Fun::new(|x: u64| x.to_string());
    let length = Fun::new(|s: String| s.len());
    assert_eq!(digits.and_then(length).call(1234), 4);
}

#[test]
fn composition_runs_nothing_until_it_is_invoked() {
    let calls = Rc::new(Cell::new(0u32));
    let seen_by_first = Rc::clone(&calls);
    let seen_by_second = Rc::clone(&calls);
    let f = Fun::new(move |x: u64| {
        seen_by_first.set(seen_by_first.get() + 1);
        x * 2
    });
    let g = Fun::new(move |x: u64| {
        seen_by_second.set(seen_by_second.get() + 10);
        x + 1
    });
    assert_eq!(calls.get(), 0);
    let composed = f.and_then(g);
    assert_eq!(calls.get(), 0);
    assert_eq!(composed.call(3), 7);
    assert_eq!(calls.get(), 11);
}

#[test]
fn composition_runs_the_first_before_the_second() {
    let trace = Rc::new(Cell::new(0u32));
    let first_trace = Rc::clone(&trace);
    let second_trace = Rc::clone(&trace);
    let f = Fun::new(move |x: u64| {
        first_trace.set(first_trace.get() * 10 + 1);
        x
    });
    let g = Fun::new(move |x: u64| {
        second_trace.set(second_trace.get() * 10 + 2);
        x
    });
    assert_eq!(f.and_then(g).call(5), 5);
    assert_eq!(trace.get(), 12);
}

#[test]
fn identity_composed_with_itself_is_the_identity() {
    assert_eq!(id::<u64>().and_then(id()).call(9), 9);
}

#[test]
fn library_doubling_wrapper_doubles() {
    assert_eq!(doubling().call(1), 2);
    assert_eq!(doubling().call(0), 0);
    assert_eq!(doubling().call(u64::MAX / 2), u64::MAX - 1);
    assert_eq!(doubling().and_then(Fun::new(increment)).call(3), 7);
}

#[test]
fn double_of_one_is_two() {
    assert_eq!(double_one(), 2);
}
