//! An executable cache that follows the semantics of the wrapper, for
//! functions from integers to integers.
//!
//! The wrapper's work is split where the inner implementation runs:
//! [`begin`] looks the call up and is done with the cache when it returns,
//! [`finish`] takes the cache again to store the result. Whoever drives
//! the two calls the inner implementation in between, with the cache free
//! for it to use. [`call_with`] does all of it for an inner implementation
//! that needs no cache.

use crate::decl::{parameter_views, Parameter};
use crate::semantics::{call, call_key, pure_inner};
use vstd::prelude::*;

verus! {

/// Whether the entry at `index` is stored under `key`.
spec fn stored_at(entries: Seq<(Vec<u64>, u64)>, index: int, key: Seq<u64>) -> bool {
    0 <= index < entries.len() && entries[index].0@ == key
}

/// Whether no key occurs twice among the entries.
spec fn distinct(entries: Seq<(Vec<u64>, u64)>) -> bool {
    forall|i: int, j: int|
        0 <= i < j < entries.len() ==> (#[trigger] entries[i]).0@ != (#[trigger] entries[j]).0@
}

/// The map that a list of entries stands for: the keys of the entries,
/// each with the value of its entry.
spec fn table(entries: Seq<(Vec<u64>, u64)>) -> Map<Seq<u64>, u64> {
    Map::new(
        |key: Seq<u64>| exists|i: int| stored_at(entries, i, key),
        |key: Seq<u64>| entries[choose|i: int| stored_at(entries, i, key)].1,
    )
}

/// Where no key occurs twice, the entry under a key is the one that the
/// map has for it.
proof fn lemma_entry_is_mapped(entries: Seq<(Vec<u64>, u64)>, index: int)
    requires
        distinct(entries),
        0 <= index < entries.len(),
    ensures
        table(entries).contains_key(entries[index].0@),
        table(entries)[entries[index].0@] == entries[index].1,
{
    let key = entries[index].0@;
    assert(stored_at(entries, index, key));
    let chosen = choose|i: int| stored_at(entries, i, key);
    if chosen < index {
        assert(entries[chosen].0@ != entries[index].0@);
    } else if index < chosen {
        assert(entries[index].0@ != entries[chosen].0@);
    }
}

/// A cache from keys to values.
///
/// The generated code keeps its cache in a hash map or a tree map. Here
/// the entries stand in a vector, each key once: of a standard map keyed
/// by vectors nothing can be proved, since nothing says that vectors hash
/// and compare as such a map needs. What a map gives is kept as the
/// invariant of the type: no key occurs twice.
#[derive(Debug)]
pub struct Cache {
    entries: Vec<(Vec<u64>, u64)>,
}

impl View for Cache {
    type V = Map<Seq<u64>, u64>;

    closed spec fn view(&self) -> Map<Seq<u64>, u64> {
        table(self.entries@)
    }
}

/// Whether two keys are the same.
fn same_key(a: &Vec<u64>, b: &Vec<u64>) -> (same: bool)
    ensures
        same == (a@ == b@),
{
    if a.len() != b.len() {
        return false;
    }
    let mut index: usize = 0;
    while index < a.len()
        invariant
            index <= a.len(),
            a.len() == b.len(),
            forall|j: int| 0 <= j < index ==> a[j] == b[j],
        decreases a.len() - index,
    {
        if a[index] != b[index] {
            return false;
        }
        index += 1;
    }
    assert(a@ =~= b@);
    true
}

impl Cache {
    /// No key occurs twice.
    #[verifier::type_invariant]
    spec fn well_formed(self) -> bool {
        distinct(self.entries@)
    }

    /// An empty cache.
    pub fn new() -> (cache: Cache)
        ensures
            cache@ == Map::<Seq<u64>, u64>::empty(),
    {
        let cache = Cache { entries: Vec::new() };
        assert(cache@ =~= Map::<Seq<u64>, u64>::empty());
        cache
    }

    /// Where the entry of a key stands, if the key has one.
    fn position(&self, key: &Vec<u64>) -> (found: Option<usize>)
        ensures
            match found {
                Some(index) => stored_at(self.entries@, index as int, key@),
                None => forall|i: int| !stored_at(self.entries@, i, key@),
            },
    {
        let mut index: usize = 0;
        while index < self.entries.len()
            invariant
                index <= self.entries.len(),
                forall|i: int| 0 <= i < index ==> !stored_at(self.entries@, i, key@),
            decreases self.entries.len() - index,
        {
            if same_key(&self.entries[index].0, key) {
                return Some(index);
            }
            index += 1;
        }
        None
    }

    /// The value stored under a key, if there is one.
    pub fn get(&self, key: &Vec<u64>) -> (value: Option<u64>)
        ensures
            value == (if self@.contains_key(key@) {
                Some(self@[key@])
            } else {
                None
            }),
    {
        proof {
            use_type_invariant(self);
        }
        match self.position(key) {
            Some(index) => {
                proof {
                    lemma_entry_is_mapped(self.entries@, index as int);
                }
                Some(self.entries[index].1)
            },
            None => None,
        }
    }

    /// Stores a value under a key, in place of what was stored there.
    pub fn insert(&mut self, key: Vec<u64>, value: u64)
        ensures
            final(self)@ == old(self)@.insert(key@, value),
    {
        proof {
            use_type_invariant(&*self);
        }
        let ghost before = self.entries@;
        let ghost wanted = key@;
        let found = self.position(&key);
        let mut entries: Vec<(Vec<u64>, u64)> = Vec::new();
        std::mem::swap(&mut self.entries, &mut entries);
        let ghost at: int = match found {
            Some(index) => index as int,
            None => before.len() as int,
        };
        match found {
            Some(index) => {
                entries.set(index, (key, value));
            },
            None => {
                entries.push((key, value));
            },
        }
        proof {
            let after = entries@;
            // The entry at `at` is the new one; every other entry is as it
            // was, and none of them has the key.
            assert(after[at] == (key, value));
            assert forall|i: int| 0 <= i < after.len() && i != at implies after[i] == before[i]
                && before[i].0@ != wanted by {
                assert(!stored_at(before, i, wanted) || i == at);
                if found is Some {
                    if i < at {
                        assert(before[i].0@ != before[at].0@);
                    } else {
                        assert(before[at].0@ != before[i].0@);
                    }
                }
            }
            assert(distinct(after)) by {
                assert forall|i: int, j: int| 0 <= i < j < after.len() implies (
                #[trigger] after[i]).0@ != (#[trigger] after[j]).0@ by {
                    if i != at && j != at {
                        assert(before[i].0@ != before[j].0@);
                    }
                }
            }
            assert(stored_at(after, at, wanted));
            assert forall|k: Seq<u64>| #[trigger]
                table(after).contains_key(k) <==> (k == wanted || table(before).contains_key(
                    k,
                )) by {
                if table(after).contains_key(k) && k != wanted {
                    let i = choose|i: int| stored_at(after, i, k);
                    assert(stored_at(before, i, k));
                }
                if table(before).contains_key(k) && k != wanted {
                    let i = choose|i: int| stored_at(before, i, k);
                    assert(stored_at(after, i, k));
                }
            }
            assert forall|k: Seq<u64>| #[trigger]
                table(after).contains_key(k) implies table(after)[k] == (if k == wanted {
                value
            } else {
                table(before)[k]
            }) by {
                let i = choose|i: int| stored_at(after, i, k);
                lemma_entry_is_mapped(after, i);
                if k != wanted {
                    assert(stored_at(before, i, k));
                    lemma_entry_is_mapped(before, i);
                }
            }
            assert(table(after) =~= table(before).insert(wanted, value));
        }
        self.entries = entries;
    }
}

/// How a call of the wrapper starts out.
#[derive(Clone, Debug, PartialEq, Eq)]
pub enum Lookup {
    /// The cache holds the key: this is the stored value, and the call is
    /// over.
    Hit(u64),
    /// The cache does not hold the key. The inner implementation is to be
    /// called, and its result stored under this key.
    Miss(Vec<u64>),
}

/// The key of a call.
pub fn key_of(params: &Vec<Parameter>, args: &Vec<u64>) -> (key: Vec<u64>)
    ensures
        key@ == call_key(parameter_views(params@), args@),
{
    let ghost views = parameter_views(params@);
    let mut key: Vec<u64> = Vec::new();
    let mut index: usize = 0;
    while index < params.len()
        invariant
            index <= params.len(),
            views == parameter_views(params@),
            key@ == call_key(views.take(index as int), args@),
        decreases params.len() - index,
    {
        assert(views.take(index + 1).drop_last() =~= views.take(index as int));
        match &params[index] {
            Parameter::Named { .. } => {
                if index < args.len() {
                    key.push(args[index]);
                }
            },
            _ => {},
        }
        index += 1;
    }
    assert(views.take(index as int) =~= views);
    key
}

/// The first half of a call of the wrapper: builds the key and looks it
/// up.
pub fn begin(cache: &Cache, params: &Vec<Parameter>, args: &Vec<u64>) -> (found: Lookup)
    ensures
        match found {
            Lookup::Hit(value) => {
                &&& cache@.contains_key(call_key(parameter_views(params@), args@))
                &&& value == cache@[call_key(parameter_views(params@), args@)]
            },
            Lookup::Miss(key) => {
                &&& !cache@.contains_key(call_key(parameter_views(params@), args@))
                &&& key@ == call_key(parameter_views(params@), args@)
            },
        },
{
    let key = key_of(params, args);
    match cache.get(&key) {
        Some(value) => Lookup::Hit(value),
        None => Lookup::Miss(key),
    }
}

/// The second half of a call of the wrapper, after a miss: stores the
/// result of the inner implementation under the key and returns what the
/// cache then holds there.
pub fn finish(cache: &mut Cache, key: Vec<u64>, value: u64) -> (stored: u64)
    ensures
        final(cache)@ == old(cache)@.insert(key@, value),
        stored == final(cache)@[key@],
{
    let held = clone_key(&key);
    cache.insert(key, value);
    cache.get(&held).unwrap()
}

/// A copy of a key.
fn clone_key(key: &Vec<u64>) -> (copy: Vec<u64>)
    ensures
        copy@ == key@,
{
    let mut copy: Vec<u64> = Vec::new();
    let mut index: usize = 0;
    while index < key.len()
        invariant
            index <= key.len(),
            copy@ == key@.take(index as int),
        decreases key.len() - index,
    {
        copy.push(key[index]);
        index += 1;
    }
    copy
}

/// A whole call of the wrapper, for an inner implementation that does not
/// use the cache.
///
/// The inner implementation is called with the arguments if the cache
/// does not hold the key of the call, and not at all if it does: only a
/// call that misses has to meet what the inner implementation asks. The
/// outcome is that of the semantics, for an inner implementation that
/// yields the value returned here.
pub fn call_with<F: Fn(&Vec<u64>) -> u64>(
    cache: &mut Cache,
    params: &Vec<Parameter>,
    args: &Vec<u64>,
    inner: F,
) -> (value: u64)
    requires
        !old(cache)@.contains_key(call_key(parameter_views(params@), args@)) ==> call_requires(
            inner,
            (args,),
        ),
    ensures
        ({
            let outcome = call(
                parameter_views(params@),
                pure_inner(|given: Seq<u64>| value),
                old(cache)@,
                args@,
            );
            &&& value == outcome.value
            &&& final(cache)@ == outcome.cache
            &&& outcome.computed ==> call_ensures(inner, (args,), value)
        }),
{
    match begin(cache, params, args) {
        Lookup::Hit(value) => value,
        Lookup::Miss(key) => {
            let value = inner(args);
            finish(cache, key, value)
        },
    }
}

} // verus!
