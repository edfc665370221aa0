use souvenir::Memory;
use std::cell::Cell;

#[test]
fn memory_it_works_with_primatives() {
    let mut doubler = Memory::new(|key: &u32| key * 2);
    assert_eq!(doubler.resolve(&2), 4);
}

#[test]
fn memory_it_works_with_strings() {
    let mut doubler = Memory::new(|key: &String| key.to_string() + "test");
    let test_input = String::from("test");
    assert_eq!(doubler.resolve(&test_input), "testtest");
}

#[test]
fn memory_it_only_runs_once() {
    let counter: Cell<u32> = Cell::new(0);
    let tool = |key: &u32| {
        counter.set(counter.get() + 1);
        key * 2
    };

    let mut doubler = Memory::new(tool);
    assert_eq!(doubler.resolve(&2), 4); // counter == 1
    assert_eq!(doubler.resolve(&2), 4); // counter == 1
    assert_eq!(doubler.resolve(&3), 6); // counter == 2
    assert_eq!(counter.get(), 2);
}

#[derive(Hash, PartialEq, Eq, Clone)]
struct User {
    scores: Vec<u32>,
}

impl User {
    fn total_score(&self) -> u32 {
        self.scores.iter().sum()
    }
}

#[test]
fn memory_it_works_with_structs() {
    let trigger: Cell<u32> = Cell::new(0);
    let tool = |user: &User| -> u32 {
        trigger.set(trigger.get() + 1);
        user.total_score()
    };
    let test_user = User {
        scores: Vec::from([1, 2, 3]),
    };

    let mut memory = Memory::new(tool);
    let user1_score = memory.resolve(&test_user);
    let user2_score = memory.resolve(&test_user);
    assert_eq!(user1_score, 6);
    assert_eq!(user1_score, user2_score);
    assert_eq!(trigger.get(), 1);
}

#[test]
fn memory_distinct_keys_compute_independently() {
    let counter: Cell<u32> = Cell::new(0);
    let tool = |key: &u32| {
        counter.set(counter.get() + 1);
        key * 2
    };

    let mut doubler = Memory::new(tool);
    assert_eq!(doubler.resolve(&2), 4);
    // A different key is a fresh miss: it must not be satisfied by the entry
    // stored for the first key.
    assert_eq!(doubler.resolve(&3), 6);
    assert_eq!(doubler.resolve(&4), 8);
    assert_eq!(counter.get(), 3);
}

#[test]
fn memory_hits_by_equality_not_identity() {
    let counter: Cell<u32> = Cell::new(0);
    let tool = |key: &String| {
        counter.set(counter.get() + 1);
        key.len()
    };

    let mut sizer = Memory::new(tool);
    // Two separately constructed strings that compare equal must share one
    // cache entry.
    let first = String::from("same");
    let second = String::from("same");
    assert_eq!(sizer.resolve(&first), 4);
    assert_eq!(sizer.resolve(&second), 4);
    assert_eq!(counter.get(), 1);
}

#[test]
fn memory_struct_keys_hit_by_field_equality() {
    let counter: Cell<u32> = Cell::new(0);
    let tool = |user: &User| {
        counter.set(counter.get() + 1);
        user.total_score()
    };

    let mut memory = Memory::new(tool);
    // Two separately built values with identical fields hit one entry.
    let one = User {
        scores: Vec::from([5, 7]),
    };
    let other = User {
        scores: Vec::from([5, 7]),
    };
    assert_eq!(memory.resolve(&one), 12);
    assert_eq!(memory.resolve(&other), 12);
    assert_eq!(counter.get(), 1);

    // A value with different fields is its own entry.
    let third = User {
        scores: Vec::from([7, 5, 1]),
    };
    assert_eq!(memory.resolve(&third), 13);
    assert_eq!(counter.get(), 2);
}

#[test]
fn memory_empty_string_key() {
    let counter: Cell<u32> = Cell::new(0);
    let tool = |key: &String| {
        counter.set(counter.get() + 1);
        key.clone() + "suffix"
    };

    let mut appender = Memory::new(tool);
    let empty = String::new();
    assert_eq!(appender.resolve(&empty), "suffix");
    assert_eq!(appender.resolve(&empty), "suffix");
    assert_eq!(counter.get(), 1);
}

#[test]
fn memory_caller_keeps_ownership_of_input() {
    let mut doubler = Memory::new(|key: &u32| key * 2);
    let input: u32 = 21;
    assert_eq!(doubler.resolve(&input), 42);
    // resolve borrows the input; the caller still owns it afterwards.
    assert_eq!(input, 21);
    assert_eq!(doubler.resolve(&input), 42);
}
