use memoize_macro::decl::Parameter;
use memoize_macro::runtime::{begin, call_with, finish, key_of, Cache, Lookup};
use std::cell::Cell;

#[test]
fn a_new_cache_is_empty() {
    let cache = Cache::new();
    assert_eq!(cache.get(&vec![]), None);
    assert_eq!(cache.get(&vec![0]), None);
}

#[test]
fn a_cache_holds_what_was_stored_last() {
    let mut cache = Cache::new();
    cache.insert(vec![1, 2], 3);
    cache.insert(vec![2, 1], 4);
    assert_eq!(cache.get(&vec![1, 2]), Some(3));
    assert_eq!(cache.get(&vec![2, 1]), Some(4));
    assert_eq!(cache.get(&vec![1]), None);
    cache.insert(vec![1, 2], 5);
    assert_eq!(cache.get(&vec![1, 2]), Some(5));
    assert_eq!(cache.get(&vec![2, 1]), Some(4));
}

#[test]
fn the_key_is_the_retained_arguments_in_order() {
    let params = vec![
        Parameter::simple("a", "u64"),
        Parameter::wildcard("u64"),
        Parameter::simple("b", "u64"),
        Parameter::Bare { ty: "u64".to_string() },
    ];
    assert_eq!(key_of(&params, &vec![10, 20, 30, 40]), vec![10, 30]);
    assert_eq!(key_of(&vec![], &vec![]), Vec::<u64>::new());
}

#[test]
fn a_call_returns_what_the_function_returns() {
    let params = vec![Parameter::simple("n", "u64")];
    let mut cache = Cache::new();
    let square = |args: &Vec<u64>| args[0] * args[0];
    for n in [3u64, 5, 3, 0, 5, 7] {
        assert_eq!(call_with(&mut cache, &params, &vec![n], square), n * n);
    }
}

#[test]
fn a_second_call_does_not_compute_again() {
    let params = vec![Parameter::simple("n", "u64")];
    let mut cache = Cache::new();
    let calls = Cell::new(0u64);
    let inner = |args: &Vec<u64>| {
        calls.set(calls.get() + 1);
        args[0] + 1
    };
    assert_eq!(call_with(&mut cache, &params, &vec![7], &inner), 8);
    assert_eq!(call_with(&mut cache, &params, &vec![7], &inner), 8);
    assert_eq!(calls.get(), 1);
    assert_eq!(call_with(&mut cache, &params, &vec![8], &inner), 9);
    assert_eq!(calls.get(), 2);
}

#[test]
fn swapped_arguments_have_entries_of_their_own() {
    let params = vec![Parameter::simple("a", "u64"), Parameter::simple("b", "u64")];
    let mut cache = Cache::new();
    let calls = Cell::new(0u64);
    let inner = |args: &Vec<u64>| {
        calls.set(calls.get() + 1);
        args[0] * 10 + args[1]
    };
    assert_eq!(call_with(&mut cache, &params, &vec![1, 2], &inner), 12);
    assert_eq!(call_with(&mut cache, &params, &vec![2, 1], &inner), 21);
    assert_eq!(calls.get(), 2);
    assert_eq!(cache.get(&vec![1, 2]), Some(12));
    assert_eq!(cache.get(&vec![2, 1]), Some(21));
}

#[test]
fn an_ignored_argument_does_not_reach_the_key() {
    let params = vec![Parameter::simple("n", "u64"), Parameter::wildcard("u64")];
    let mut cache = Cache::new();
    let calls = Cell::new(0u64);
    let inner = |args: &Vec<u64>| {
        calls.set(calls.get() + 1);
        assert_eq!(args.len(), 2);
        args[0] * 2
    };
    assert_eq!(call_with(&mut cache, &params, &vec![5, 1], &inner), 10);
    assert_eq!(call_with(&mut cache, &params, &vec![5, 2], &inner), 10);
    assert_eq!(calls.get(), 1);
    assert_eq!(cache.get(&vec![5]), Some(10));
    assert_eq!(cache.get(&vec![5, 1]), None);
}

#[test]
fn begin_and_finish_are_the_two_halves_of_a_call() {
    let params = vec![Parameter::simple("n", "u64")];
    let mut cache = Cache::new();
    let key = match begin(&cache, &params, &vec![4]) {
        Lookup::Miss(key) => key,
        Lookup::Hit(_) => panic!("nothing was stored"),
    };
    assert_eq!(key, vec![4]);
    assert_eq!(finish(&mut cache, key, 16), 16);
    match begin(&cache, &params, &vec![4]) {
        Lookup::Hit(value) => assert_eq!(value, 16),
        Lookup::Miss(_) => panic!("the value was stored"),
    }
}

#[test]
fn a_hit_asks_nothing_of_the_inner_implementation() {
    let params = vec![Parameter::simple("n", "u64")];
    let mut cache = Cache::new();
    cache.insert(vec![9], 3);
    let never = |_: &Vec<u64>| -> u64 { panic!("the value is in the cache") };
    assert_eq!(call_with(&mut cache, &params, &vec![9], never), 3);
}

#[test]
fn storing_under_a_key_again_keeps_one_entry_for_it() {
    let mut cache = Cache::new();
    for round in 0..3 {
        for n in 0..5 {
            cache.insert(vec![n], n + round);
        }
    }
    for n in 0..5 {
        assert_eq!(cache.get(&vec![n]), Some(n + 2));
    }
    assert_eq!(format!("{:?}", cache).matches("], ").count(), 5);
}
