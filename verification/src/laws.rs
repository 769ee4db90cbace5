//! What holds of the wrapper over several operations.
//!
//! Each law is stated over the states and steps of [`CacheState`], which the
//! contracts of [`crate::ICacher`] speak of, and is proved from their
//! definitions. The laws on the values returned take as hypotheses that the
//! function is deterministic and that `clone` gives exact duplicates, where
//! they need them; the laws on what is stored and on how often the function
//! runs hold of any function.

use crate::model::{clones_exactly, computes, record_of, result_of, CacheState};
use vstd::prelude::*;

verus! {

/// A lookup is one operation of the wrapper.
pub proof fn lemma_lookup_is_step<F: Fn(A) -> R, A: Clone, R: Clone>(
    state: CacheState<F, A, R>,
    arg: A,
    next: CacheState<F, A, R>,
    value: R,
)
    requires
        state.lookup(arg, next, value),
    ensures
        state.step(next),
{
}

/// A lookup whose value is dropped is one operation of the wrapper.
pub proof fn lemma_primed_is_step<F: Fn(A) -> R, A: Clone, R: Clone>(
    state: CacheState<F, A, R>,
    arg: A,
    next: CacheState<F, A, R>,
)
    requires
        state.primed(arg, next),
    ensures
        state.step(next),
{
}

/// A conditional lookup is one operation of the wrapper.
pub proof fn lemma_gated_is_step<F: Fn(A) -> R, A: Clone, R: Clone, C: Fn() -> bool>(
    state: CacheState<F, A, R>,
    condition: C,
    arg: A,
    next: CacheState<F, A, R>,
    added: bool,
)
    requires
        state.gated(condition, arg, next, added),
    ensures
        state.step(next),
{
}

/// A new wrapper is well formed and holds no stale result.
pub proof fn lemma_new_is_wf<F: Fn(A) -> R, A: Clone, R: Clone>(callable: F)
    ensures
        CacheState::<F, A, R>::empty(callable).wf(),
        CacheState::<F, A, R>::empty(callable).is_current(),
{
}

/// Every operation keeps a well-formed wrapper well formed: each stored result
/// stays a duplicate of what its source gave for its argument, whatever is
/// looked up, removed or replaced.
pub proof fn lemma_step_keeps_wf<F: Fn(A) -> R, A: Clone, R: Clone>(
    state: CacheState<F, A, R>,
    next: CacheState<F, A, R>,
)
    requires
        state.wf(),
        state.step(next),
    ensures
        next.wf(),
{
}

/// Every state that a wrapper goes through is well formed.
pub proof fn lemma_history_is_wf<F: Fn(A) -> R, A: Clone, R: Clone>(
    states: Seq<CacheState<F, A, R>>,
    i: int,
)
    requires
        CacheState::history(states),
        0 <= i < states.len(),
    ensures
        states[i].wf(),
    decreases i,
{
    if i > 0 {
        lemma_history_is_wf(states, i - 1);
        lemma_step_keeps_wf(states[i - 1], states[i]);
    }
}

/// A result enters the store only by a lookup of its argument that ran the
/// function.
pub proof fn lemma_only_a_miss_adds<F: Fn(A) -> R, A: Clone, R: Clone>(
    state: CacheState<F, A, R>,
    next: CacheState<F, A, R>,
    arg: A,
)
    requires
        state.step(next),
        !state.is_cached(arg),
        next.is_cached(arg),
    ensures
        exists|value: R| state.miss(arg, next, value),
{
}

/// A result leaves the store only by its removal, by a reset, or by a
/// replacement of the function that drops the results: until then every lookup
/// of its argument is a hit.
pub proof fn lemma_only_invalidation_removes<F: Fn(A) -> R, A: Clone, R: Clone>(
    state: CacheState<F, A, R>,
    next: CacheState<F, A, R>,
    arg: A,
)
    requires
        state.step(next),
        state.is_cached(arg),
        !next.is_cached(arg),
    ensures
        next == state.without(arg) || next == state.cleared() || exists|callable: F|
            next == state.with_callable(callable).cleared(),
{
}

/// A stored result becomes stale only where the function is replaced and the
/// results are kept: every other operation leaves a wrapper without stale
/// results without them.
pub proof fn lemma_only_to_unchanged_makes_stale<F: Fn(A) -> R, A: Clone, R: Clone>(
    state: CacheState<F, A, R>,
    next: CacheState<F, A, R>,
)
    requires
        state.is_current(),
        state.step(next),
        !next.is_current(),
    ensures
        exists|callable: F| callable != state.callable && next == state.with_callable(callable),
{
}

/// The function runs only in a miss, and once in each: an operation leaves the
/// number of runs as it is, or is a miss and adds one.
pub proof fn lemma_only_a_miss_runs_the_function<F: Fn(A) -> R, A: Clone, R: Clone>(
    state: CacheState<F, A, R>,
    next: CacheState<F, A, R>,
)
    requires
        state.step(next),
    ensures
        next.invocations == state.invocations || (next.invocations == state.invocations + 1
            && exists|arg: A, value: R| state.miss(arg, next, value)),
{
}

/// Nothing is stored for an argument that was never looked up: behind every
/// stored result lies a miss on its argument.
pub proof fn lemma_stored_arguments_were_looked_up<F: Fn(A) -> R, A: Clone, R: Clone>(
    states: Seq<CacheState<F, A, R>>,
    i: int,
    arg: A,
)
    requires
        CacheState::history(states),
        0 <= i < states.len(),
        states[i].is_cached(arg),
    ensures
        exists|j: int, value: R|
            0 <= j < i && #[trigger] states[j].miss(arg, states[j + 1], value),
    decreases i,
{
    if i > 0 {
        if states[i - 1].is_cached(arg) {
            lemma_stored_arguments_were_looked_up(states, i - 1, arg);
        } else {
            lemma_only_a_miss_adds(states[i - 1], states[i], arg);
        }
    }
}

/// Between two operations, a result that is stored after the first and not
/// stored after the second was dropped by one in between.
proof fn lemma_dropped_in_between<F: Fn(A) -> R, A: Clone, R: Clone>(
    states: Seq<CacheState<F, A, R>>,
    from: int,
    to: int,
    arg: A,
)
    requires
        0 <= from < to < states.len(),
        states[from].is_cached(arg),
        !states[to].is_cached(arg),
    ensures
        exists|k: int|
            from <= k < to && (#[trigger] states[k]).is_cached(arg) && !states[k + 1].is_cached(arg),
    decreases to - from,
{
    if !states[to - 1].is_cached(arg) {
        lemma_dropped_in_between(states, from, to - 1, arg);
    }
}

/// The function runs at most once for an argument until its result is dropped:
/// whatever the operations in between, two misses on one argument are separated
/// by a removal of that argument, a reset, or a replacement of the function
/// that drops the results.
pub proof fn lemma_one_miss_until_invalidation<F: Fn(A) -> R, A: Clone, R: Clone>(
    states: Seq<CacheState<F, A, R>>,
    i: int,
    j: int,
    arg: A,
    first: R,
    second: R,
)
    requires
        CacheState::chain(states),
        0 <= i < j < states.len() - 1,
        states[i].miss(arg, states[i + 1], first),
        states[j].miss(arg, states[j + 1], second),
    ensures
        exists|k: int|
            i < k < j && {
                ||| states[k + 1] == (#[trigger] states[k]).without(arg)
                ||| states[k + 1] == states[k].cleared()
                ||| exists|callable: F| states[k + 1] == states[k].with_callable(callable).cleared()
            },
{
    lemma_dropped_in_between(states, i + 1, j, arg);
    let k = choose|k: int|
        i + 1 <= k < j && (#[trigger] states[k]).is_cached(arg) && !states[k + 1].is_cached(arg);
    lemma_only_invalidation_removes(states[k], states[k + 1], arg);
}

/// Memoization. However many lookups of one argument follow one another, only
/// the first can run the function, and it does so only where nothing was stored
/// for the argument. Every later lookup is allowed whatever the function
/// accepts, leaves the state as the first left it, and returns a duplicate of
/// the result stored there.
pub proof fn lemma_memoization<F: Fn(A) -> R, A: Clone, R: Clone>(
    states: Seq<CacheState<F, A, R>>,
    values: Seq<R>,
    arg: A,
)
    requires
        CacheState::lookups(states, values, arg),
        values.len() >= 1,
    ensures
        states[1].is_cached(arg),
        states[1].invocations == states[0].invocations + if states[0].is_cached(arg) {
            0nat
        } else {
            1nat
        },
        forall|i: int| 1 <= i < states.len() ==> (#[trigger] states[i]) == states[1],
        forall|i: int| 1 <= i < states.len() ==> (#[trigger] states[i]).permits_lookup(arg),
        forall|i: int|
            1 <= i < values.len() ==> states[i].hit(arg, states[i + 1], #[trigger] values[i]),
{
    let _ = values[0];
    assert forall|i: int| 1 <= i < states.len() implies (#[trigger] states[i]) == states[1] by {
        lemma_later_lookups_change_nothing(states, values, arg, i);
    }
}

/// In a row of lookups of one argument, the state after the first lookup is the
/// state after every later one.
proof fn lemma_later_lookups_change_nothing<F: Fn(A) -> R, A: Clone, R: Clone>(
    states: Seq<CacheState<F, A, R>>,
    values: Seq<R>,
    arg: A,
    i: int,
)
    requires
        CacheState::lookups(states, values, arg),
        1 <= i < states.len(),
    ensures
        states[i] == states[1],
        states[1].is_cached(arg),
    decreases i,
{
    let _ = values[0];
    if i > 1 {
        lemma_later_lookups_change_nothing(states, values, arg, i - 1);
        let _ = values[i - 1];
    }
}

/// Where the function held implements `g`, `clone` gives exact duplicates and
/// no stored result is stale, every stored result of a well-formed wrapper is
/// the value of `g` at its argument.
pub proof fn lemma_current_results_agree<F: Fn(A) -> R, A: Clone, R: Clone>(
    state: CacheState<F, A, R>,
    g: spec_fn(A) -> R,
)
    requires
        state.wf(),
        state.is_current(),
        computes(state.callable, g),
        clones_exactly::<A>(),
        clones_exactly::<R>(),
    ensures
        state.agrees_with(g),
{
    assert forall|arg: A| #[trigger] state.cache.contains_key(arg) implies state.cache[arg] == g(
        arg,
    ) by {
        assert(record_of(state.sources[arg], arg, state.cache[arg]));
    }
}

/// Correctness. Where the function held implements `g`, `clone` gives exact
/// duplicates and the stored results are values of `g`, a lookup of `arg`
/// returns `g(arg)` and leaves exactly that stored for `arg`, beside what was
/// stored before.
pub proof fn lemma_lookup_returns_function_value<F: Fn(A) -> R, A: Clone, R: Clone>(
    state: CacheState<F, A, R>,
    arg: A,
    next: CacheState<F, A, R>,
    value: R,
    g: spec_fn(A) -> R,
)
    requires
        state.lookup(arg, next, value),
        state.agrees_with(g),
        computes(state.callable, g),
        clones_exactly::<A>(),
        clones_exactly::<R>(),
    ensures
        value == g(arg),
        next.cache == state.cache.insert(arg, g(arg)),
        next.agrees_with(g),
        state.is_current() ==> next.is_current(),
{
    if state.hit(arg, next, value) {
        assert(state.cache.contains_key(arg));
        assert(state.cache =~= state.cache.insert(arg, g(arg)));
    }
}

/// Invalidation round trip. After a lookup of `arg` a result is stored for it:
/// a duplicate of the value returned, or the result that the value returned is
/// a duplicate of. Removing `arg` hands that result back and leaves nothing
/// stored for `arg`, so that the next lookup of `arg` is a miss and runs the
/// function once more.
pub proof fn lemma_invalidation_round_trip<F: Fn(A) -> R, A: Clone, R: Clone>(
    state: CacheState<F, A, R>,
    arg: A,
    looked_up: CacheState<F, A, R>,
    first: R,
    again: CacheState<F, A, R>,
    second: R,
)
    requires
        state.lookup(arg, looked_up, first),
        looked_up.without(arg).lookup(arg, again, second),
    ensures
        looked_up.stored(arg) is Some,
        cloned(first, looked_up.stored(arg).unwrap()) || cloned(
            looked_up.stored(arg).unwrap(),
            first,
        ),
        clones_exactly::<R>() ==> looked_up.stored(arg) == Some(first),
        !looked_up.without(arg).is_cached(arg),
        looked_up.without(arg).miss(arg, again, second),
        again.invocations == looked_up.invocations + 1,
        result_of(state.callable, arg, second),
{
}

/// Reset clears all. Whatever was stored, after a reset nothing is: every
/// lookup is then a miss.
pub proof fn lemma_reset_clears_all<F: Fn(A) -> R, A: Clone, R: Clone>(
    state: CacheState<F, A, R>,
    arg: A,
    next: CacheState<F, A, R>,
    value: R,
)
    ensures
        !state.cleared().is_cached(arg),
        state.cleared().lookup(arg, next, value) ==> state.cleared().miss(arg, next, value),
{
}

/// Replacing the function and keeping the results. A result stored before the
/// replacement is still returned by a lookup, which is allowed whatever the new
/// function accepts and does not run it.
pub proof fn lemma_to_unchanged_keeps_results<F: Fn(A) -> R, A: Clone, R: Clone>(
    state: CacheState<F, A, R>,
    replacement: F,
    arg: A,
    next: CacheState<F, A, R>,
    value: R,
)
    requires
        state.is_cached(arg),
        state.with_callable(replacement).lookup(arg, next, value),
    ensures
        state.with_callable(replacement).permits_lookup(arg),
        cloned(state.cache[arg], value),
        next == state.with_callable(replacement),
        next.invocations == state.invocations,
        next.sources[arg] == state.sources[arg],
{
}

/// Replacing the function and dropping the results. After the replacement
/// nothing is stored, so a lookup of any argument runs the new function and
/// returns what it gave.
pub proof fn lemma_to_drops_results<F: Fn(A) -> R, A: Clone, R: Clone>(
    state: CacheState<F, A, R>,
    replacement: F,
    arg: A,
    next: CacheState<F, A, R>,
    value: R,
)
    requires
        state.with_callable(replacement).cleared().lookup(arg, next, value),
    ensures
        !state.with_callable(replacement).cleared().is_cached(arg),
        result_of(replacement, arg, value),
        next.invocations == state.invocations + 1,
        next.sources[arg] == replacement,
        next.is_current(),
{
}

/// Dropping the results while replacing the function is replacing it and then
/// resetting, in either order.
pub proof fn lemma_to_is_to_unchanged_then_reset<F: Fn(A) -> R, A: Clone, R: Clone>(
    state: CacheState<F, A, R>,
    replacement: F,
)
    ensures
        state.with_callable(replacement).cleared() == state.cleared().with_callable(replacement),
{
}

/// Conditional caching. Where a result is stored for `arg`, the operation is
/// allowed whatever the condition and the function accept, reports `false` and
/// changes nothing. Where none is stored, the outcome follows the condition: one
/// that can only return `false` leaves the state as it is, and one that can only
/// return `true` adds a result by exactly one run of the function.
pub proof fn lemma_cache_if_gating<F: Fn(A) -> R, A: Clone, R: Clone, C: Fn() -> bool>(
    state: CacheState<F, A, R>,
    condition: C,
    arg: A,
    next: CacheState<F, A, R>,
    added: bool,
)
    requires
        state.gated(condition, arg, next, added),
    ensures
        state.is_cached(arg) ==> state.permits_gated(condition, arg) && !added && next == state,
        !state.is_cached(arg) && (forall|outcome: bool| #[trigger]
            call_ensures(condition, (), outcome) ==> !outcome) ==> !added && next == state,
        !state.is_cached(arg) && (forall|outcome: bool| #[trigger]
            call_ensures(condition, (), outcome) ==> outcome) ==> added && next.is_cached(arg)
            && next.invocations == state.invocations + 1 && exists|value: R|
            state.miss(arg, next, value),
{
}

} // verus!
