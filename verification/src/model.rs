//! The mathematical model of a memoizing wrapper.
//!
//! A [`CacheState`] is what a wrapper is to its callers: the function it holds,
//! the results it has stored, the function that computed each of them, and how
//! often it has run a function. Every operation of the wrapper is described here
//! as a step from one state to the next.
//!
//! Nothing is assumed of the wrapped function or of `clone`: a function may give
//! different results for one argument, and a duplicate may differ from the value
//! it was made from. The steps are therefore relations over what a call of the
//! function and a call of `clone` can give. [`computes`] and [`clones_exactly`]
//! name the well-behaved case, in which a step has one outcome.

use vstd::prelude::*;

verus! {

/// `T::clone` gives exact duplicates: whatever it returns equals the value it
/// was called on.
pub open spec fn clones_exactly<T: Clone>() -> bool {
    forall|value: T, duplicate: T| #[trigger] cloned(value, duplicate) ==> value == duplicate
}

/// `f` is a deterministic implementation of `g`: whatever `f` returns for an
/// input is the value of `g` there.
pub open spec fn computes<F: Fn(A) -> R, A, R>(f: F, g: spec_fn(A) -> R) -> bool {
    forall|input: A, output: R| #[trigger]
        call_ensures(f, (input,), output) ==> output == g(input)
}

/// `f` may be called with every duplicate of `arg`.
pub open spec fn accepts<F: Fn(A) -> R, A: Clone, R>(f: F, arg: A) -> bool {
    forall|input: A|
        #![trigger cloned(arg, input)]
        #![trigger call_requires(f, (input,))]
        cloned(arg, input) ==> call_requires(f, (input,))
}

/// `value` is a result that `f` can give when it is called with a duplicate of
/// `arg`.
pub open spec fn result_of<F: Fn(A) -> R, A: Clone, R>(f: F, arg: A, value: R) -> bool {
    exists|input: A|
        #![trigger cloned(arg, input)]
        #![trigger call_ensures(f, (input,), value)]
        cloned(arg, input) && call_ensures(f, (input,), value)
}

/// `stored` is a duplicate of a result that `f` can give when it is called with
/// a duplicate of `arg`.
pub open spec fn record_of<F: Fn(A) -> R, A: Clone, R: Clone>(f: F, arg: A, stored: R) -> bool {
    exists|value: R| result_of(f, arg, value) && #[trigger] cloned(value, stored)
}

/// The abstract state of a memoizing wrapper.
#[verifier::ext_equal]
#[verifier::reject_recursive_types(A)]
pub struct CacheState<F, A, R> {
    /// The function that the wrapper runs on a miss.
    pub callable: F,
    /// The stored results, by argument.
    pub cache: Map<A, R>,
    /// For each stored result, the function that was held when it was computed.
    pub sources: Map<A, F>,
    /// How many times the wrapper has run a function it held.
    pub invocations: nat,
}

impl<F: Fn(A) -> R, A: Clone, R: Clone> CacheState<F, A, R> {
    /// The state of a new wrapper around `callable`: nothing stored, nothing run.
    pub open spec fn empty(callable: F) -> Self {
        CacheState { callable, cache: Map::empty(), sources: Map::empty(), invocations: 0 }
    }

    /// A result is stored for `arg`.
    pub open spec fn is_cached(self, arg: A) -> bool {
        self.cache.contains_key(arg)
    }

    /// The result stored for `arg`, if there is one.
    pub open spec fn stored(self, arg: A) -> Option<R> {
        if self.is_cached(arg) {
            Some(self.cache[arg])
        } else {
            None
        }
    }

    /// Every stored result has a source, and is a duplicate of a result that its
    /// source can give for a duplicate of its argument.
    ///
    /// This is the invariant of the wrapper. It speaks of the function that was
    /// held when the result was stored, which need not be the one held now.
    pub open spec fn wf(self) -> bool {
        &&& self.sources.dom() == self.cache.dom()
        &&& forall|arg: A| #[trigger]
            self.cache.contains_key(arg) ==> record_of(self.sources[arg], arg, self.cache[arg])
    }

    /// No stored result is stale: each was computed by the function now held.
    pub open spec fn is_current(self) -> bool {
        forall|arg: A| #[trigger] self.cache.contains_key(arg) ==> self.sources[arg] == self.callable
    }

    /// Every stored result is the value of `g` at its argument.
    pub open spec fn agrees_with(self, g: spec_fn(A) -> R) -> bool {
        forall|arg: A| #[trigger] self.cache.contains_key(arg) ==> self.cache[arg] == g(arg)
    }

    /// This state with `stored` added as the result for `arg`, computed by one
    /// more run of the function now held.
    pub open spec fn with_entry(self, arg: A, stored: R) -> Self {
        CacheState {
            callable: self.callable,
            cache: self.cache.insert(arg, stored),
            sources: self.sources.insert(arg, self.callable),
            invocations: self.invocations + 1,
        }
    }

    /// This state without the result for `arg`.
    pub open spec fn without(self, arg: A) -> Self {
        CacheState {
            callable: self.callable,
            cache: self.cache.remove(arg),
            sources: self.sources.remove(arg),
            invocations: self.invocations,
        }
    }

    /// This state with no result stored.
    pub open spec fn cleared(self) -> Self {
        CacheState {
            callable: self.callable,
            cache: Map::empty(),
            sources: Map::empty(),
            invocations: self.invocations,
        }
    }

    /// This state with `callable` in place of the function held, and every stored
    /// result kept under its old source.
    pub open spec fn with_callable(self, callable: F) -> Self {
        CacheState {
            callable,
            cache: self.cache,
            sources: self.sources,
            invocations: self.invocations,
        }
    }

    /// A lookup of `arg` that is answered from the store: the state stays as it
    /// is, and `value` is a duplicate of the stored result.
    pub open spec fn hit(self, arg: A, next: Self, value: R) -> bool {
        &&& self.is_cached(arg)
        &&& next == self
        &&& cloned(self.cache[arg], value)
    }

    /// A lookup of `arg` that runs the function: nothing was stored for `arg`,
    /// `value` is what the function returned for a duplicate of `arg`, and a
    /// duplicate of `value` is now stored for `arg`.
    pub open spec fn miss(self, arg: A, next: Self, value: R) -> bool {
        &&& !self.is_cached(arg)
        &&& result_of(self.callable, arg, value)
        &&& exists|stored: R| #[trigger]
            cloned(value, stored) && next == self.with_entry(arg, stored)
    }

    /// A lookup of `arg` that returns `value` and leaves the state `next`: a hit
    /// where a result is stored for `arg`, a miss where none is.
    pub open spec fn lookup(self, arg: A, next: Self, value: R) -> bool {
        self.hit(arg, next, value) || self.miss(arg, next, value)
    }

    /// A lookup of `arg` whose value is dropped.
    pub open spec fn primed(self, arg: A, next: Self) -> bool {
        exists|value: R| self.lookup(arg, next, value)
    }

    /// A lookup of `arg` is allowed: unless a result is stored for `arg`, the
    /// function held may be called with every duplicate of `arg`.
    pub open spec fn permits_lookup(self, arg: A) -> bool {
        !self.is_cached(arg) ==> accepts(self.callable, arg)
    }

    /// A conditional lookup of `arg` under `condition` is allowed: unless a
    /// result is stored for `arg`, the condition may be evaluated, and where it
    /// can return `true` a lookup of `arg` is allowed.
    pub open spec fn permits_gated<C: Fn() -> bool>(self, condition: C, arg: A) -> bool {
        !self.is_cached(arg) ==> {
            &&& call_requires(condition, ())
            &&& call_ensures(condition, (), true) ==> accepts(self.callable, arg)
        }
    }

    /// A conditional lookup of `arg` under `condition`, which reports `added` and
    /// leaves the state `next`.
    ///
    /// A result is added only where none is stored and the condition returned
    /// `true`; nothing changes only where one is stored or the condition
    /// returned `false`.
    pub open spec fn gated<C: Fn() -> bool>(
        self,
        condition: C,
        arg: A,
        next: Self,
        added: bool,
    ) -> bool {
        if added {
            &&& !self.is_cached(arg)
            &&& call_ensures(condition, (), true)
            &&& self.primed(arg, next)
        } else {
            &&& next == self
            &&& (self.is_cached(arg) || call_ensures(condition, (), false))
        }
    }

    /// One operation of the wrapper leads from this state to `next`: one that
    /// changes nothing, a miss, a removal, a reset, or a replacement of the
    /// function with or without a reset.
    pub open spec fn step(self, next: Self) -> bool {
        ||| next == self
        ||| exists|arg: A, value: R| self.miss(arg, next, value)
        ||| exists|arg: A| next == self.without(arg)
        ||| next == self.cleared()
        ||| exists|callable: F| next == self.with_callable(callable)
        ||| exists|callable: F| next == self.with_callable(callable).cleared()
    }

    /// One operation leads from each of `states` to the next.
    pub open spec fn chain(states: Seq<Self>) -> bool {
        forall|i: int| 0 <= i < states.len() - 1 ==> (#[trigger] states[i]).step(states[i + 1])
    }

    /// The states that a wrapper goes through: the first is that of a new
    /// wrapper, and one operation leads from each to the next.
    pub open spec fn history(states: Seq<Self>) -> bool {
        &&& states.len() >= 1
        &&& states[0] == Self::empty(states[0].callable)
        &&& Self::chain(states)
    }

    /// `values.len()` lookups of `arg` in a row: the lookup at index `i` leads
    /// from `states[i]` to `states[i + 1]` and returns `values[i]`.
    pub open spec fn lookups(states: Seq<Self>, values: Seq<R>, arg: A) -> bool {
        &&& states.len() == values.len() + 1
        &&& forall|i: int|
            0 <= i < values.len() ==> states[i].lookup(arg, states[i + 1], #[trigger] values[i])
    }
}

} // verus!
