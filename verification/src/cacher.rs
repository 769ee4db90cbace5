//! The memoizing wrapper.

use crate::model::CacheState;
use std::collections::HashMap;
use std::hash::Hash;
use vstd::prelude::*;
use vstd::std_specs::hash::obeys_key_model;

verus! {

/// A single-argument function together with the results it has produced.
///
/// A lookup of an argument for which a result is stored returns a duplicate of
/// that result and does not run the function. Any other lookup runs the function
/// once and stores a duplicate of what it returned. For a function of several
/// arguments, wrap one that takes a tuple.
///
/// The wrapper is meant for a function that returns the same value whenever it
/// is given the same argument; the contracts hold of any function, and say of a
/// stored result only that the function once returned it.
///
/// The view of a wrapper is its [`CacheState`]. The contracts that speak of what
/// is stored require the argument type to behave as a key of a hash map: its
/// hash is deterministic, its `==` holds of two values exactly when they are the
/// same value, and its `clone` returns the value it is called on.
#[verifier::reject_recursive_types(IType)]
#[verifier::reject_recursive_types(IReturn)]
pub struct ICacher<IFunc, IType, IReturn> where
    IFunc: Fn(IType) -> IReturn,
    IType: Clone + Hash + Eq,
    IReturn: Clone,
 {
    func: IFunc,
    values: HashMap<IType, IReturn>,
    /// The function that computed each stored result.
    sources: Ghost<Map<IType, IFunc>>,
    /// The number of runs of `func`, and of the functions held before it.
    runs: Ghost<nat>,
}

impl<IFunc, IType, IReturn> View for ICacher<IFunc, IType, IReturn> where
    IFunc: Fn(IType) -> IReturn,
    IType: Clone + Hash + Eq,
    IReturn: Clone,
 {
    type V = CacheState<IFunc, IType, IReturn>;

    closed spec fn view(&self) -> CacheState<IFunc, IType, IReturn> {
        CacheState {
            callable: self.func,
            cache: self.values@,
            sources: self.sources@,
            invocations: self.runs@,
        }
    }
}

impl<IFunc, IType, IReturn> ICacher<IFunc, IType, IReturn> where
    IFunc: Fn(IType) -> IReturn,
    IType: Clone + Hash + Eq,
    IReturn: Clone,
 {
    /// Wraps `func`, with nothing stored.
    ///
    /// `capacity` is the number of distinct arguments to make room for in
    /// advance. It has no bearing on what the wrapper stores or returns.
    pub fn new(func: IFunc, capacity: Option<usize>) -> (cacher: Self)
        ensures
            cacher@ == CacheState::<IFunc, IType, IReturn>::empty(func),
            cacher@.wf(),
    {
        ICacher {
            func,
            values: HashMap::with_capacity(capacity.unwrap_or_default()),
            sources: Ghost(Map::empty()),
            runs: Ghost(0),
        }
    }

    /// Returns the result for `arg`: a duplicate of the stored one where there is
    /// one, and otherwise what the function returns for a duplicate of `arg`, of
    /// which a duplicate is then stored.
    ///
    /// Where a result is stored for `arg` nothing is asked of the function, and
    /// the wrapper is left as it was.
    pub fn with_arg(&mut self, arg: IType) -> (value: IReturn)
        requires
            obeys_key_model::<IType>(),
            old(self)@.permits_lookup(arg),
        ensures
            old(self)@.lookup(arg, final(self)@, value),
            old(self)@.wf() ==> final(self)@.wf(),
    {
        match self.values.get(&arg) {
            Some(stored) => {
                return stored.clone();
            },
            None => {},
        }
        let value = (self.func)(arg.clone());
        self.values.insert(arg, value.clone());
        proof {
            self.sources@ = self.sources@.insert(arg, self.func);
            self.runs@ = self.runs@ + 1;
            let stored = self@.cache[arg];
            assert(cloned(value, stored) && self@ =~= old(self)@.with_entry(arg, stored));
        }
        value
    }

    /// Drops every stored result. The function stays.
    pub fn reset(&mut self)
        ensures
            final(self)@ == old(self)@.cleared(),
            final(self)@.wf(),
    {
        self.values.clear();
        proof {
            self.sources@ = Map::empty();
        }
        assert(self@ =~= old(self)@.cleared());
    }

    /// Puts `func` in place of the function held and drops every stored result,
    /// so that no result of the old function is returned afterwards.
    pub fn to(&mut self, func: IFunc)
        ensures
            final(self)@ == old(self)@.with_callable(func).cleared(),
            final(self)@.wf(),
    {
        self.to_unchanged(func);
        self.values.clear();
        proof {
            self.sources@ = Map::empty();
        }
        assert(self@ =~= old(self)@.with_callable(func).cleared());
    }

    /// Puts `func` in place of the function held and keeps every stored result.
    ///
    /// The results computed by the old function stay, and a lookup of their
    /// arguments returns them: `func` is run only for arguments that have no
    /// stored result. Use [`ICacher::to`] to drop them.
    pub fn to_unchanged(&mut self, func: IFunc)
        ensures
            final(self)@ == old(self)@.with_callable(func),
            old(self)@.wf() ==> final(self)@.wf(),
    {
        self.func = func;
    }

    /// Tells whether a result is stored for `arg`.
    pub fn is_cached(&self, arg: &IType) -> (cached: bool)
        requires
            obeys_key_model::<IType>(),
        ensures
            cached == self@.is_cached(*arg),
    {
        self.values.contains_key(arg)
    }

    /// Removes the result stored for `arg` and returns it, or returns `None`
    /// where there is none.
    pub fn remove_cache(&mut self, arg: IType) -> (removed: Option<IReturn>)
        requires
            obeys_key_model::<IType>(),
        ensures
            final(self)@ == old(self)@.without(arg),
            removed == old(self)@.stored(arg),
            old(self)@.wf() ==> final(self)@.wf(),
    {
        let removed = match self.values.remove(&arg) {
            Some(val) => Some(val),
            None => None,
        };
        proof {
            self.sources@ = self.sources@.remove(arg);
        }
        assert(self@ =~= old(self)@.without(arg));
        removed
    }

    /// Does what [`ICacher::with_arg`] does and returns nothing.
    pub fn void(&mut self, arg: IType)
        requires
            obeys_key_model::<IType>(),
            old(self)@.permits_lookup(arg),
        ensures
            old(self)@.primed(arg, final(self)@),
            old(self)@.wf() ==> final(self)@.wf(),
    {
        self.with_arg(arg);
    }

    /// Stores a result for `arg` if none is stored and `func` returns `true`,
    /// and tells whether it did.
    ///
    /// `func` is evaluated only where no result is stored for `arg`, and the
    /// function held is run only where `func` returned `true`. Where a result is
    /// stored for `arg`, nothing is asked of either.
    pub fn cache_if<Func: Fn() -> bool>(&mut self, func: Func, arg: IType) -> (added: bool)
        requires
            obeys_key_model::<IType>(),
            old(self)@.permits_gated(func, arg),
        ensures
            old(self)@.gated(func, arg, final(self)@, added),
            old(self)@.wf() ==> final(self)@.wf(),
    {
        if self.is_cached(&arg) || !func() {
            return false;
        }
        self.void(arg);
        true
    }
}

impl<IFunc, IType, IReturn> Clone for ICacher<IFunc, IType, IReturn> where
    IFunc: Fn(IType) -> IReturn + Clone,
    IType: Clone + Hash + Eq,
    IReturn: Clone,
 {
    /// A wrapper of its own around a duplicate of the function, with the same
    /// results stored.
    fn clone(&self) -> (copy: Self)
        ensures
            cloned(self@.callable, copy@.callable),
            copy@ == self@.with_callable(copy@.callable),
            self@.wf() ==> copy@.wf(),
    {
        ICacher {
            func: self.func.clone(),
            values: self.values.clone(),
            sources: self.sources,
            runs: self.runs,
        }
    }
}

} // verus!
