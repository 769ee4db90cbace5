use icacher::ICacher;
use std::cell::Cell;
use std::rc::Rc;

type Counted = Box<dyn Fn(u32) -> u64>;

fn counted(calls: &Rc<Cell<usize>>, factor: u64) -> Counted {
    let calls = Rc::clone(calls);
    Box::new(move |x: u32| {
        calls.set(calls.get() + 1);
        u64::from(x) * factor
    })
}

fn triple(x: u32) -> u32 {
    x * 3
}

#[test]
fn adds_a_pair_and_forgets_it() {
    let mut wrapper = ICacher::new(|(a, b): (i32, i32)| a + b, None);
    assert_eq!(wrapper.with_arg((20, 30)), 50);
    assert!(wrapper.is_cached(&(20, 30)));
    assert_eq!(wrapper.remove_cache((20, 30)), Some(50));
    assert!(!wrapper.is_cached(&(20, 30)));
}

#[test]
fn new_wrapper_holds_nothing() {
    let wrapper = ICacher::new(|x: u8| x, Some(16));
    for x in 0..=255u8 {
        assert!(!wrapper.is_cached(&x));
    }
}

#[test]
fn capacity_hint_does_not_limit_growth() {
    for hint in [None, Some(0), Some(1), Some(3), Some(1000)] {
        let mut wrapper = ICacher::new(|x: u32| x * 2, hint);
        for x in 0..50u32 {
            assert_eq!(wrapper.with_arg(x), x * 2);
        }
        for x in 0..50u32 {
            assert!(wrapper.is_cached(&x));
        }
        assert!(!wrapper.is_cached(&50));
    }
}

#[test]
fn repeated_argument_runs_function_once() {
    let calls = Rc::new(Cell::new(0));
    let mut wrapper = ICacher::new(counted(&calls, 3), None);
    assert_eq!(calls.get(), 0);
    assert_eq!(wrapper.with_arg(7), 21);
    assert_eq!(calls.get(), 1);
    for _ in 0..10 {
        assert_eq!(wrapper.with_arg(7), 21);
    }
    assert_eq!(calls.get(), 1);
}

#[test]
fn each_distinct_argument_runs_function_once() {
    let calls = Rc::new(Cell::new(0));
    let mut wrapper = ICacher::new(counted(&calls, 5), Some(4));
    for round in 0..3 {
        for x in 0..20u32 {
            assert_eq!(wrapper.with_arg(x), u64::from(x) * 5);
        }
        assert_eq!(calls.get(), 20, "round {}", round);
    }
}

#[test]
fn returned_value_is_function_value() {
    let square = |x: i64| x * x;
    let mut wrapper = ICacher::new(square, None);
    for x in -20..20i64 {
        assert_eq!(wrapper.with_arg(x), square(x));
        assert_eq!(wrapper.with_arg(x), square(x));
    }
    assert_eq!(wrapper.with_arg(12), 144);
}

#[test]
fn removal_hands_back_result_and_forces_recomputation() {
    let calls = Rc::new(Cell::new(0));
    let mut wrapper = ICacher::new(counted(&calls, 2), None);
    assert_eq!(wrapper.with_arg(21), 42);
    assert_eq!(calls.get(), 1);
    assert_eq!(wrapper.remove_cache(21), Some(42));
    assert!(!wrapper.is_cached(&21));
    assert_eq!(calls.get(), 1);
    assert_eq!(wrapper.with_arg(21), 42);
    assert_eq!(calls.get(), 2);
    assert!(wrapper.is_cached(&21));
}

#[test]
fn removal_of_absent_argument_gives_none() {
    let mut wrapper = ICacher::new(|x: u32| x + 1, None);
    assert_eq!(wrapper.remove_cache(3), None);
    assert_eq!(wrapper.with_arg(4), 5);
    assert_eq!(wrapper.remove_cache(3), None);
    assert!(wrapper.is_cached(&4));
    assert_eq!(wrapper.remove_cache(4), Some(5));
    assert_eq!(wrapper.remove_cache(4), None);
}

#[test]
fn removal_leaves_other_arguments() {
    let calls = Rc::new(Cell::new(0));
    let mut wrapper = ICacher::new(counted(&calls, 1), None);
    wrapper.void(1);
    wrapper.void(2);
    wrapper.void(3);
    assert_eq!(wrapper.remove_cache(2), Some(2));
    assert!(wrapper.is_cached(&1));
    assert!(!wrapper.is_cached(&2));
    assert!(wrapper.is_cached(&3));
    assert_eq!(wrapper.with_arg(1), 1);
    assert_eq!(wrapper.with_arg(3), 3);
    assert_eq!(calls.get(), 3);
}

#[test]
fn reset_clears_every_argument() {
    let calls = Rc::new(Cell::new(0));
    let mut wrapper = ICacher::new(counted(&calls, 10), Some(8));
    for x in 0..30u32 {
        wrapper.void(x);
    }
    assert_eq!(calls.get(), 30);
    wrapper.reset();
    for x in 0..30u32 {
        assert!(!wrapper.is_cached(&x));
    }
    assert_eq!(calls.get(), 30);
    assert_eq!(wrapper.with_arg(4), 40);
    assert_eq!(calls.get(), 31);
}

#[test]
fn reset_of_empty_wrapper_is_harmless() {
    let mut wrapper = ICacher::new(|x: u32| x, None);
    wrapper.reset();
    assert!(!wrapper.is_cached(&0));
    assert_eq!(wrapper.with_arg(9), 9);
}

#[test]
fn to_unchanged_keeps_old_results() {
    let old_calls = Rc::new(Cell::new(0));
    let new_calls = Rc::new(Cell::new(0));
    let mut wrapper = ICacher::new(counted(&old_calls, 2), None);
    assert_eq!(wrapper.with_arg(5), 10);
    wrapper.to_unchanged(counted(&new_calls, 100));
    assert!(wrapper.is_cached(&5));
    assert_eq!(wrapper.with_arg(5), 10);
    assert_eq!(new_calls.get(), 0);
    assert_eq!(wrapper.with_arg(6), 600);
    assert_eq!(new_calls.get(), 1);
    assert_eq!(old_calls.get(), 1);
}

#[test]
fn to_drops_old_results() {
    let old_calls = Rc::new(Cell::new(0));
    let new_calls = Rc::new(Cell::new(0));
    let mut wrapper = ICacher::new(counted(&old_calls, 2), None);
    assert_eq!(wrapper.with_arg(5), 10);
    wrapper.to(counted(&new_calls, 100));
    assert!(!wrapper.is_cached(&5));
    assert_eq!(wrapper.with_arg(5), 500);
    assert_eq!(new_calls.get(), 1);
    assert_eq!(wrapper.with_arg(5), 500);
    assert_eq!(new_calls.get(), 1);
    assert_eq!(old_calls.get(), 1);
}

#[test]
fn to_equals_to_unchanged_then_reset() {
    let calls = Rc::new(Cell::new(0));
    let mut one = ICacher::new(counted(&calls, 2), None);
    let mut two = ICacher::new(counted(&calls, 2), None);
    for x in 0..5u32 {
        one.void(x);
        two.void(x);
    }
    one.to(counted(&calls, 7));
    two.to_unchanged(counted(&calls, 7));
    two.reset();
    for x in 0..8u32 {
        assert_eq!(one.is_cached(&x), two.is_cached(&x));
        assert_eq!(one.with_arg(x), two.with_arg(x));
        assert_eq!(one.with_arg(x), u64::from(x) * 7);
    }
}

#[test]
fn void_primes_the_cache() {
    let calls = Rc::new(Cell::new(0));
    let mut wrapper = ICacher::new(counted(&calls, 4), None);
    wrapper.void(3);
    assert!(wrapper.is_cached(&3));
    assert_eq!(calls.get(), 1);
    wrapper.void(3);
    assert_eq!(calls.get(), 1);
    assert_eq!(wrapper.with_arg(3), 12);
    assert_eq!(calls.get(), 1);
}

#[test]
fn cache_if_false_condition_leaves_argument_uncached() {
    let calls = Rc::new(Cell::new(0));
    let mut wrapper = ICacher::new(counted(&calls, 4), None);
    assert!(!wrapper.cache_if(|| false, 3));
    assert!(!wrapper.is_cached(&3));
    assert_eq!(calls.get(), 0);
}

#[test]
fn cache_if_true_condition_caches_once() {
    let calls = Rc::new(Cell::new(0));
    let mut wrapper = ICacher::new(counted(&calls, 4), None);
    assert!(wrapper.cache_if(|| true, 3));
    assert!(wrapper.is_cached(&3));
    assert_eq!(calls.get(), 1);
    assert_eq!(wrapper.with_arg(3), 12);
    assert_eq!(calls.get(), 1);
}

#[test]
fn cache_if_on_cached_argument_skips_condition() {
    let calls = Rc::new(Cell::new(0));
    let asked = Cell::new(0);
    let mut wrapper = ICacher::new(counted(&calls, 4), None);
    assert!(wrapper.cache_if(|| true, 3));
    assert!(!wrapper.cache_if(
        || {
            asked.set(asked.get() + 1);
            true
        },
        3
    ));
    assert!(!wrapper.cache_if(|| -> bool { panic!("the condition was evaluated") }, 3));
    assert_eq!(asked.get(), 0);
    assert_eq!(calls.get(), 1);
    assert_eq!(wrapper.with_arg(3), 12);
}

#[test]
fn cache_if_evaluates_condition_once_on_a_miss() {
    let asked = Cell::new(0);
    let mut wrapper = ICacher::new(|x: u32| x, None);
    let added = wrapper.cache_if(
        || {
            asked.set(asked.get() + 1);
            asked.get() == 1
        },
        8,
    );
    assert!(added);
    assert_eq!(asked.get(), 1);
}

#[test]
fn cache_if_follows_the_state_it_finds() {
    let mut adder = ICacher::new(|(a, b): (i32, i32)| a + b, Some(1));
    let a = 10;
    let b = 10;
    let c = 5;
    adder.void((a, b));
    let value = adder.cache_if(|| a == b, (a, b));
    let is_cached = adder.is_cached(&(a, b));
    let result = adder.cache_if(|| is_cached, (b, c));
    assert!(!value);
    assert!(result);
    assert_eq!(adder.with_arg((b, c)), 15);
}

#[test]
fn multiplier_is_cached_until_removed() {
    let mut multiplier = ICacher::new(|(a, b): (i32, i32)| a * b, Some(1));
    let _ = multiplier.with_arg((5, 5));
    assert!(multiplier.is_cached(&(5, 5)));
    let _ = multiplier.remove_cache((5, 5));
    assert!(!multiplier.is_cached(&(5, 5)));
}

#[test]
fn is_cached_borrows_its_argument() {
    let mut wrapper = ICacher::new(|s: String| s.len(), None);
    let key = String::from("memo");
    assert!(!wrapper.is_cached(&key));
    assert_eq!(wrapper.with_arg(key.clone()), 4);
    assert!(wrapper.is_cached(&key));
    assert_eq!(key, "memo");
    assert!(!wrapper.is_cached(&String::from("Memo")));
}

#[test]
fn results_are_handed_out_as_duplicates() {
    let mut wrapper = ICacher::new(|n: usize| vec![n; n], None);
    let mut first = wrapper.with_arg(3);
    assert_eq!(first, vec![3, 3, 3]);
    first.push(99);
    assert_eq!(wrapper.with_arg(3), vec![3, 3, 3]);
    let mut second = wrapper.with_arg(3);
    second.clear();
    assert_eq!(wrapper.remove_cache(3), Some(vec![3, 3, 3]));
}

#[test]
fn unit_result_is_cached_too() {
    let calls = Cell::new(0);
    let mut wrapper = ICacher::new(
        |_: u8| {
            calls.set(calls.get() + 1);
        },
        None,
    );
    wrapper.with_arg(1);
    wrapper.with_arg(1);
    assert_eq!(calls.get(), 1);
    assert_eq!(wrapper.remove_cache(1), Some(()));
}

#[test]
fn clone_is_independent_of_its_source() {
    let triple: fn(u32) -> u32 = triple;
    let mut first = ICacher::new(triple, None);
    assert_eq!(first.with_arg(2), 6);
    let mut copy = first.clone();
    assert!(copy.is_cached(&2));
    assert_eq!(copy.with_arg(2), 6);
    assert_eq!(copy.with_arg(4), 12);
    assert!(!first.is_cached(&4));
    first.reset();
    assert!(copy.is_cached(&2));
    assert!(copy.is_cached(&4));
}

#[test]
fn function_runs_again_only_after_invalidation() {
    let calls = Rc::new(Cell::new(0));
    let mut wrapper = ICacher::new(counted(&calls, 2), None);
    assert_eq!(wrapper.with_arg(1), 2);
    assert_eq!(wrapper.with_arg(2), 4);
    assert_eq!(wrapper.with_arg(1), 2);
    assert_eq!(calls.get(), 2);
    assert_eq!(wrapper.remove_cache(2), Some(4));
    assert_eq!(wrapper.with_arg(1), 2);
    assert_eq!(calls.get(), 2);
    assert_eq!(wrapper.with_arg(2), 4);
    assert_eq!(calls.get(), 3);
    wrapper.reset();
    assert_eq!(wrapper.with_arg(1), 2);
    assert_eq!(wrapper.with_arg(1), 2);
    assert_eq!(calls.get(), 4);
    wrapper.to(counted(&calls, 2));
    assert_eq!(wrapper.with_arg(1), 2);
    assert_eq!(wrapper.with_arg(1), 2);
    assert_eq!(calls.get(), 5);
    wrapper.to_unchanged(counted(&calls, 2));
    assert_eq!(wrapper.with_arg(1), 2);
    assert_eq!(calls.get(), 5);
}

#[test]
fn stale_results_survive_until_reset() {
    let calls = Rc::new(Cell::new(0));
    let mut wrapper = ICacher::new(counted(&calls, 1), None);
    for x in 0..4u32 {
        wrapper.void(x);
    }
    wrapper.to_unchanged(counted(&calls, 1000));
    for x in 0..4u32 {
        assert_eq!(wrapper.with_arg(x), u64::from(x));
    }
    assert_eq!(wrapper.with_arg(4), 4000);
    assert_eq!(wrapper.remove_cache(2), Some(2));
    assert_eq!(wrapper.with_arg(2), 2000);
    wrapper.reset();
    for x in 0..5u32 {
        assert_eq!(wrapper.with_arg(x), u64::from(x) * 1000);
    }
    assert_eq!(calls.get(), 4 + 2 + 5);
}

#[test]
fn to_on_empty_wrapper_only_replaces_function() {
    let mut wrapper = ICacher::new(triple as fn(u32) -> u32, Some(2));
    wrapper.to(|x| x + 1);
    assert!(!wrapper.is_cached(&1));
    assert_eq!(wrapper.with_arg(1), 2);
    wrapper.to_unchanged(triple);
    assert_eq!(wrapper.with_arg(1), 2);
    assert_eq!(wrapper.with_arg(3), 9);
}

#[test]
fn equal_keys_share_one_result() {
    let calls = Cell::new(0);
    let mut wrapper = ICacher::new(
        |words: Vec<String>| {
            calls.set(calls.get() + 1);
            words.join(" ")
        },
        None,
    );
    let key = vec![String::from("a"), String::from("b")];
    assert_eq!(wrapper.with_arg(key.clone()), "a b");
    assert_eq!(wrapper.with_arg(vec![String::from("a"), String::from("b")]), "a b");
    assert_eq!(calls.get(), 1);
    assert!(!wrapper.is_cached(&vec![String::from("b"), String::from("a")]));
    assert_eq!(wrapper.remove_cache(key), Some(String::from("a b")));
}
