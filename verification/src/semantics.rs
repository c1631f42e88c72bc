//! What a call of the wrapper does, and the laws of memoization.
//!
//! The cache is a map from keys to values. A computation is what the inner
//! implementation does when it is called: it yields a value, and since it
//! may call the wrapper again on its way, it yields the cache as it has
//! become. A function is a computation that leaves the cache as it is.

use crate::analysis::retained;
use crate::decl::ParameterView;
use crate::wrapper::{argument_names, key_names};
use vstd::prelude::*;

verus! {

/// The key of a call: the arguments of the retained parameters, in
/// declared order.
pub open spec fn call_key<V>(params: Seq<ParameterView>, args: Seq<V>) -> Seq<V>
    decreases params.len(),
{
    if params.len() == 0 {
        Seq::empty()
    } else {
        let before = call_key(params.drop_last(), args);
        let at = params.len() - 1;
        if params.last().is_retained() && at < args.len() {
            before.push(args[at])
        } else {
            before
        }
    }
}

/// What a call leaves behind.
#[verifier::reject_recursive_types(V)]
pub struct Outcome<V> {
    /// The value that the call returns.
    pub value: V,
    /// The cache after the call.
    pub cache: Map<Seq<V>, V>,
    /// Whether the inner implementation was called.
    pub computed: bool,
}

/// A call of the wrapper with `args`, on a cache, where `inner` is what
/// the inner implementation does.
///
/// A key that the cache holds gives the stored value, and nothing else
/// happens. Otherwise the inner implementation runs on the arguments, its
/// value is stored under the key in the cache as the run left it, and the
/// call returns what the cache then holds under the key.
pub open spec fn call<V>(
    params: Seq<ParameterView>,
    inner: spec_fn(Seq<V>, Map<Seq<V>, V>) -> (V, Map<Seq<V>, V>),
    cache: Map<Seq<V>, V>,
    args: Seq<V>,
) -> Outcome<V> {
    let key = call_key(params, args);
    if cache.contains_key(key) {
        Outcome { value: cache[key], cache, computed: false }
    } else {
        let run = inner(args, cache);
        let stored = run.1.insert(key, run.0);
        Outcome { value: stored[key], cache: stored, computed: true }
    }
}

/// The computation of a function that does not touch the cache.
pub open spec fn pure_inner<V>(f: spec_fn(Seq<V>) -> V) -> spec_fn(Seq<V>, Map<Seq<V>, V>) -> (
    V,
    Map<Seq<V>, V>,
) {
    |args: Seq<V>, cache: Map<Seq<V>, V>| (f(args), cache)
}

/// Whether `f` gives the same value for any two calls with the same key,
/// which is to say that it does not depend on the ignored arguments.
pub open spec fn key_determined<V>(params: Seq<ParameterView>, f: spec_fn(Seq<V>) -> V) -> bool {
    forall|a: Seq<V>, b: Seq<V>|
        a.len() == params.len() && b.len() == params.len() && #[trigger] call_key(params, a)
            == #[trigger] call_key(params, b) ==> f(a) == f(b)
}

/// Whether each entry of the cache holds the value of `f` for its key.
pub open spec fn coherent<V>(
    params: Seq<ParameterView>,
    f: spec_fn(Seq<V>) -> V,
    cache: Map<Seq<V>, V>,
) -> bool {
    forall|args: Seq<V>|
        args.len() == params.len() && cache.contains_key(#[trigger] call_key(params, args))
            ==> cache[call_key(params, args)] == f(args)
}

/// Whether the computation `inner` computes `f`: on a coherent cache it
/// yields the value of `f` and a coherent cache.
pub open spec fn computes<V>(
    params: Seq<ParameterView>,
    f: spec_fn(Seq<V>) -> V,
    inner: spec_fn(Seq<V>, Map<Seq<V>, V>) -> (V, Map<Seq<V>, V>),
) -> bool {
    forall|args: Seq<V>, cache: Map<Seq<V>, V>|
        args.len() == params.len() && coherent(params, f, cache) ==> {
            &&& (#[trigger] inner(args, cache)).0 == f(args)
            &&& coherent(params, f, inner(args, cache).1)
        }
}

/// The empty cache is coherent with every function.
pub proof fn lemma_empty_coherent<V>(params: Seq<ParameterView>, f: spec_fn(Seq<V>) -> V)
    ensures
        coherent(params, f, Map::<Seq<V>, V>::empty()),
{
}

/// A function that leaves the cache alone computes itself.
pub proof fn lemma_pure_computes<V>(params: Seq<ParameterView>, f: spec_fn(Seq<V>) -> V)
    ensures
        computes(params, f, pure_inner(f)),
{
}

/// Where no parameter is ignored, the key of a call is its arguments.
pub proof fn lemma_key_of_all_retained<V>(params: Seq<ParameterView>, args: Seq<V>)
    requires
        args.len() == params.len(),
        forall|i: int| 0 <= i < params.len() ==> (#[trigger] params[i]).is_retained(),
    ensures
        call_key(params, args) == args,
    decreases params.len(),
{
    if params.len() > 0 {
        let shorter = params.drop_last();
        lemma_key_agrees(shorter, args, args.drop_last());
        lemma_key_of_all_retained(shorter, args.drop_last());
    }
}

/// Two lists of arguments that agree at the position of every retained
/// parameter have the same key.
pub proof fn lemma_key_agrees<V>(params: Seq<ParameterView>, a: Seq<V>, b: Seq<V>)
    requires
        forall|i: int|
            0 <= i < params.len() && (#[trigger] params[i]).is_retained() ==> {
                &&& (i < a.len() <==> i < b.len())
                &&& i < a.len() ==> a[i] == b[i]
            },
    ensures
        call_key(params, a) == call_key(params, b),
    decreases params.len(),
{
    if params.len() > 0 {
        let shorter = params.drop_last();
        assert forall|i: int| 0 <= i < shorter.len() && (#[trigger] shorter[i]).is_retained() implies {
            &&& (i < a.len() <==> i < b.len())
            &&& i < a.len() ==> a[i] == b[i]
        } by {
            assert(shorter[i] == params[i]);
        }
        lemma_key_agrees(shorter, a, b);
    }
}

/// Where no parameter is ignored, every function is determined by the
/// key.
pub proof fn lemma_key_determined_without_ignored<V>(
    params: Seq<ParameterView>,
    f: spec_fn(Seq<V>) -> V,
)
    requires
        forall|i: int| 0 <= i < params.len() ==> (#[trigger] params[i]).is_retained(),
    ensures
        key_determined(params, f),
{
    assert forall|a: Seq<V>, b: Seq<V>|
        a.len() == params.len() && b.len() == params.len() && #[trigger] call_key(params, a)
            == #[trigger] call_key(params, b) implies f(a) == f(b) by {
        lemma_key_of_all_retained(params, a);
        lemma_key_of_all_retained(params, b);
    }
}

/// A call of the wrapper returns what the function returns, and leaves a
/// coherent cache, provided that the cache was coherent, that the inner
/// implementation computes the function, and that the function does not
/// depend on the ignored arguments.
pub proof fn law_transparent<V>(
    params: Seq<ParameterView>,
    f: spec_fn(Seq<V>) -> V,
    inner: spec_fn(Seq<V>, Map<Seq<V>, V>) -> (V, Map<Seq<V>, V>),
    cache: Map<Seq<V>, V>,
    args: Seq<V>,
)
    requires
        args.len() == params.len(),
        key_determined(params, f),
        computes(params, f, inner),
        coherent(params, f, cache),
    ensures
        call(params, inner, cache, args).value == f(args),
        coherent(params, f, call(params, inner, cache, args).cache),
{
    let key = call_key(params, args);
    if !cache.contains_key(key) {
        // The inner implementation yields `f(args)` and a coherent cache.
        // The new entry is coherent too: whatever arguments have this
        // key, `f` gives them the value that it gives `args`.
        let run = inner(args, cache);
        assert(coherent(params, f, run.1.insert(key, run.0)));
    }
}

/// The plain case of the law above: for a function without ignored
/// parameters whose inner implementation does not touch the cache, the
/// first call on an empty cache returns what the function returns.
pub proof fn law_transparent_from_empty<V>(
    params: Seq<ParameterView>,
    f: spec_fn(Seq<V>) -> V,
    args: Seq<V>,
)
    requires
        args.len() == params.len(),
        forall|i: int| 0 <= i < params.len() ==> (#[trigger] params[i]).is_retained(),
    ensures
        call(params, pure_inner(f), Map::empty(), args).value == f(args),
{
    lemma_key_determined_without_ignored(params, f);
    lemma_pure_computes(params, f);
    lemma_empty_coherent(params, f);
    law_transparent(params, f, pure_inner(f), Map::empty(), args);
}

/// The wrapper of a function that computes `f` computes `f` itself: a
/// memoized function may be the inner implementation of another, or its
/// own.
pub proof fn law_memoized_computes<V>(
    params: Seq<ParameterView>,
    f: spec_fn(Seq<V>) -> V,
    inner: spec_fn(Seq<V>, Map<Seq<V>, V>) -> (V, Map<Seq<V>, V>),
)
    requires
        key_determined(params, f),
        computes(params, f, inner),
    ensures
        computes(
            params,
            f,
            |args: Seq<V>, cache: Map<Seq<V>, V>|
                (call(params, inner, cache, args).value, call(params, inner, cache, args).cache),
        ),
{
    let memoized = |args: Seq<V>, cache: Map<Seq<V>, V>|
        (call(params, inner, cache, args).value, call(params, inner, cache, args).cache);
    assert forall|args: Seq<V>, cache: Map<Seq<V>, V>|
        args.len() == params.len() && coherent(params, f, cache) implies {
        &&& (#[trigger] memoized(args, cache)).0 == f(args)
        &&& coherent(params, f, memoized(args, cache).1)
    } by {
        law_transparent(params, f, inner, cache, args);
    }
}

/// Nothing is computed twice. Of two calls in a row with the same key,
/// the second does not call the inner implementation: it returns the
/// value of the first and leaves the cache as the first left it.
pub proof fn law_computed_once<V>(
    params: Seq<ParameterView>,
    inner: spec_fn(Seq<V>, Map<Seq<V>, V>) -> (V, Map<Seq<V>, V>),
    cache: Map<Seq<V>, V>,
    first: Seq<V>,
    second: Seq<V>,
)
    requires
        call_key(params, first) == call_key(params, second),
    ensures
        ({
            let one = call(params, inner, cache, first);
            let two = call(params, inner, one.cache, second);
            &&& !two.computed
            &&& two.value == one.value
            &&& two.cache == one.cache
        }),
{
}

/// The cache only grows. A call leaves an entry under its key, and keeps
/// every entry that was there, provided that the inner implementation
/// keeps them.
pub proof fn law_cache_grows<V>(
    params: Seq<ParameterView>,
    inner: spec_fn(Seq<V>, Map<Seq<V>, V>) -> (V, Map<Seq<V>, V>),
    cache: Map<Seq<V>, V>,
    args: Seq<V>,
)
    requires
        cache.submap_of(inner(args, cache).1),
    ensures
        call(params, inner, cache, args).cache.contains_key(call_key(params, args)),
        cache.submap_of(call(params, inner, cache, args).cache),
{
}

/// The order of the arguments counts. For a function of two retained
/// parameters, a call and the call with the two arguments swapped have
/// different keys where the arguments differ, and each leaves its own key
/// in the cache.
pub proof fn law_order_sensitive<V>(
    params: Seq<ParameterView>,
    inner: spec_fn(Seq<V>, Map<Seq<V>, V>) -> (V, Map<Seq<V>, V>),
    cache: Map<Seq<V>, V>,
    a: V,
    b: V,
)
    requires
        params.len() == 2,
        params[0].is_retained(),
        params[1].is_retained(),
        a != b,
    ensures
        call_key(params, seq![a, b]) != call_key(params, seq![b, a]),
        call(params, inner, cache, seq![a, b]).cache.contains_key(seq![a, b]),
        call(params, inner, cache, seq![b, a]).cache.contains_key(seq![b, a]),
{
    lemma_key_of_all_retained(params, seq![a, b]);
    lemma_key_of_all_retained(params, seq![b, a]);
}

/// Ignored arguments do not count. Two calls that differ only in ignored
/// arguments have the same key; the second of them, made after the first,
/// does not call the inner implementation and returns the first one's
/// value.
pub proof fn law_ignored_excluded<V>(
    params: Seq<ParameterView>,
    inner: spec_fn(Seq<V>, Map<Seq<V>, V>) -> (V, Map<Seq<V>, V>),
    cache: Map<Seq<V>, V>,
    first: Seq<V>,
    second: Seq<V>,
)
    requires
        first.len() == params.len(),
        second.len() == params.len(),
        forall|i: int|
            0 <= i < params.len() && (#[trigger] params[i]).is_retained() ==> first[i]
                == second[i],
    ensures
        call_key(params, first) == call_key(params, second),
        ({
            let one = call(params, inner, cache, first);
            let two = call(params, inner, one.cache, second);
            !two.computed && two.value == one.value
        }),
{
    lemma_key_agrees(params, first, second);
    law_computed_once(params, inner, cache, first, second);
}

/// The key that the wrapper's body builds names the retained parameters:
/// it is the key of the call whose arguments are the names that the
/// wrapper hands on.
pub proof fn law_key_names_follow_key(params: Seq<ParameterView>)
    ensures
        key_names(retained(params)) == call_key(params, argument_names(params)),
{
    lemma_key_names_prefix(params, params.len() as int);
    assert(params.take(params.len() as int) =~= params);
}

/// The step of the proof above: the claim for the first `count`
/// parameters.
proof fn lemma_key_names_prefix(params: Seq<ParameterView>, count: int)
    requires
        0 <= count <= params.len(),
    ensures
        key_names(retained(params.take(count))) == call_key(
            params.take(count),
            argument_names(params),
        ),
    decreases count,
{
    if count > 0 {
        lemma_key_names_prefix(params, count - 1);
        assert(params.take(count).drop_last() =~= params.take(count - 1));
    }
}

} // verus!
