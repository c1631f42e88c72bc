//! The declaration of the cache.
//!
//! Each memoized function gets one cache of its own: a container that maps
//! the tuple of the retained arguments to the result, created empty on
//! first use by each thread and never shared between threads.

use crate::analysis::{analyze, diagnosis, signature, FunctionSignature, FunctionSignatureView};
use crate::decl::FunctionDecl;
use crate::diagnostic::Diagnostic;
use crate::text::{join, joined};
use crate::wrapper::inner_name_text;
use vstd::prelude::*;

verus! {

/// The upper-case form of a text, as the standard library maps it.
pub uninterp spec fn uppercased(text: Seq<char>) -> Seq<char>;

/// Calls `str::to_uppercase` of the standard library.
///
/// The contract gives the result a name and claims nothing else of it: the
/// mapping follows the Unicode case tables, character by character, and
/// depends on the text alone.
#[verifier::external_body]
fn to_uppercase(text: &str) -> (upper: String)
    ensures
        upper@ == uppercased(text@),
{
    text.to_uppercase()
}

/// The identifier of a cache, given the upper-case form of the function's
/// name: an underscore ahead of it and `_CACHE` behind.
pub open spec fn cache_ident_text(upper: Seq<char>) -> Seq<char> {
    "_"@ + upper + "_CACHE"@
}

/// The identifier of the cache of the function whose name has this
/// upper-case form.
pub fn cache_ident(upper: &str) -> (ident: String)
    ensures
        ident@ == cache_ident_text(upper@),
{
    let mut ident = String::from_str("_");
    ident.append(upper);
    ident.append("_CACHE");
    ident
}

/// The identifier of the cache of the function with this name.
///
/// It is derived from the name alone, so that the same function always
/// gets the same cache, and decorated so that it stays clear of the
/// identifiers that people write.
pub fn cache_name(function_name: &str) -> (ident: String)
    ensures
        ident@ == cache_ident_text(uppercased(function_name@)),
{
    let upper = to_uppercase(function_name);
    cache_ident(upper.as_str())
}

/// Two functions whose names differ in their upper-case forms have
/// different caches, and the identifier of a cache is the inner name of
/// no function.
pub proof fn law_cache_idents_apart(upper: Seq<char>, other: Seq<char>, name: Seq<char>)
    ensures
        upper != other ==> cache_ident_text(upper) != cache_ident_text(other),
        cache_ident_text(upper) != inner_name_text(name),
{
    reveal_strlit("_");
    reveal_strlit("_CACHE");
    reveal_strlit("_aux");
    assert(cache_ident_text(upper).len() == upper.len() + 7);
    assert(cache_ident_text(upper).last() == 'E');
    assert(inner_name_text(name).last() == 'x');
    if cache_ident_text(upper) == cache_ident_text(other) {
        assert(cache_ident_text(other).len() == other.len() + 7);
        assert(upper =~= cache_ident_text(upper).subrange(1, 1 + upper.len() as int));
        assert(other =~= cache_ident_text(other).subrange(1, 1 + other.len() as int));
    }
}

/// What a cache is made of.
///
/// The generated code copies keys and values and looks keys up: the key
/// types must allow what the container asks of its keys, and keys and
/// values must be cheap to copy. The compiler holds the generated code to
/// that; nothing here can.
#[derive(Clone, Debug, PartialEq, Eq)]
pub struct CacheSpec {
    /// The kind of container: the path of a type with two parameters that
    /// offers `get` and `insert` by key and has a default value.
    pub container: String,
    /// The types of the fields of the key, in order.
    pub key_types: Vec<String>,
    /// The type of the values.
    pub value_type: String,
}

/// The mathematical value of a [`CacheSpec`].
pub struct CacheSpecView {
    pub container: Seq<char>,
    pub key_types: Seq<Seq<char>>,
    pub value_type: Seq<char>,
}

impl View for CacheSpec {
    type V = CacheSpecView;

    open spec fn view(&self) -> CacheSpecView {
        CacheSpecView {
            container: self.container@,
            key_types: self.key_types.deep_view(),
            value_type: self.value_type@,
        }
    }
}

/// The types of the retained parameters, in declared order.
pub open spec fn key_types(pairs: Seq<(Seq<char>, Seq<char>)>) -> Seq<Seq<char>> {
    Seq::new(pairs.len(), |i: int| pairs[i].1)
}

/// The cache of a function with this signature, in this kind of
/// container: keyed by the types of the retained parameters, in their
/// order, with values of the return type.
pub open spec fn cache_spec_of(container: Seq<char>, read: FunctionSignatureView) -> CacheSpecView {
    CacheSpecView { container, key_types: key_types(read.retained), value_type: read.output }
}

/// The cache of a function with this signature, in this kind of
/// container.
pub fn cache_spec(container: &str, read: &FunctionSignature) -> (cache: CacheSpec)
    ensures
        cache@ == cache_spec_of(container@, read@),
{
    let mut keys: Vec<String> = Vec::new();
    let mut index: usize = 0;
    while index < read.retained.len()
        invariant
            index <= read.retained.len(),
            keys.deep_view() == key_types(read@.retained).take(index as int),
        decreases read.retained.len() - index,
    {
        let ghost before = keys.deep_view();
        let ty = read.retained[index].1.clone();
        keys.push(ty);
        assert(keys.deep_view() =~= before.push(ty@));
        index += 1;
    }
    assert(keys.deep_view() =~= key_types(read@.retained));
    CacheSpec {
        container: String::from_str(container),
        key_types: keys,
        value_type: read.output.clone(),
    }
}

/// The declaration of a cache: a thread-local, mutable container of the
/// given kind from the tuple of the key types to the value type, which
/// starts out as the container's default value.
pub open spec fn cache_declaration_text(ident: Seq<char>, cache: CacheSpecView) -> Seq<char> {
    "thread_local!(\n    static "@ + ident + ": std::cell::RefCell<\n        "@ + cache.container
        + "<("@ + joined(cache.key_types, ", "@) + "), "@ + cache.value_type
        + ">\n    > = Default::default()\n);\n"@
}

/// Writes the declaration of a cache under an identifier.
pub fn cache_declaration(ident: &str, cache: &CacheSpec) -> (text: String)
    ensures
        text@ == cache_declaration_text(ident@, cache@),
{
    let tuple = join(&cache.key_types, ", ");
    let mut text = String::from_str("thread_local!(\n    static ");
    text.append(ident);
    text.append(": std::cell::RefCell<\n        ");
    text.append(cache.container.as_str());
    text.append("<(");
    text.append(tuple.as_str());
    text.append("), ");
    text.append(cache.value_type.as_str());
    text.append(">\n    > = Default::default()\n);\n");
    text
}

/// The identifier and the declaration of the cache of a function.
///
/// The key is the tuple of the types of the retained parameters, the value
/// the function's return type. A function with a parameter that cannot be
/// handled, or without a return type, is refused.
pub fn cache_initialization(cache_type: &str, function: &FunctionDecl) -> (result: Result<
    (String, String),
    Diagnostic,
>)
    ensures
        result is Err <==> diagnosis(function@) is Some,
        result matches Err(d) ==> diagnosis(function@) == Some(d),
        result matches Ok(cache) ==> {
            &&& cache.0@ == cache_ident_text(uppercased(function@.name))
            &&& cache.1@ == cache_declaration_text(
                cache.0@,
                cache_spec_of(cache_type@, signature(function@)),
            )
        },
{
    let read = match analyze(function) {
        Ok(read) => read,
        Err(d) => {
            return Err(d);
        },
    };
    let cache = cache_spec(cache_type, &read);
    let ident = cache_name(function.name.as_str());
    let declaration = cache_declaration(ident.as_str(), &cache);
    Ok((ident, declaration))
}

} // verus!
