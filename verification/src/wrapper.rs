//! The wrapper: the function that takes the place of the memoized one.
//!
//! It keeps the name and the signature. Its body builds the key from
//! copies of the retained arguments and looks it up; on a hit it returns a
//! copy of the stored value. On a miss it calls the inner implementation
//! with the arguments themselves, stores the result under the key and
//! returns a copy of what the cache then holds. The cache is borrowed for
//! the lookup and again for the store, never in between: the inner
//! implementation may call the wrapper again, and finds the cache free.
//!
//! A parameter without a name cannot be handed on, so the wrapper gives it
//! one. That name is longer than every name the function's author wrote
//! and differs in length from every other such name.

use crate::decl::{Parameter, ParameterView};
use crate::text::{join, joined};
use vstd::prelude::*;

verus! {

/// The name of the inner implementation of the function with this name: an
/// underscore ahead of it and `_aux` behind.
pub open spec fn inner_name_text(name: Seq<char>) -> Seq<char> {
    "_"@ + name + "_aux"@
}

/// The name under which the function's own implementation is kept.
pub fn inner_name(name: &str) -> (inner: String)
    ensures
        inner@ == inner_name_text(name@),
{
    let mut inner = String::from_str("_");
    inner.append(name);
    inner.append("_aux");
    inner
}

/// The inner name of a function is not the function's name, so that the
/// wrapper and the inner implementation can stand side by side, and two
/// functions with different names have different inner names.
pub proof fn law_inner_names_apart(name: Seq<char>, other: Seq<char>)
    ensures
        inner_name_text(name) != name,
        name != other ==> inner_name_text(name) != inner_name_text(other),
{
    reveal_strlit("_");
    reveal_strlit("_aux");
    assert(inner_name_text(name).len() == name.len() + 5);
    if inner_name_text(name) == inner_name_text(other) {
        assert(inner_name_text(other).len() == other.len() + 5);
        assert(name =~= inner_name_text(name).subrange(1, 1 + name.len() as int));
        assert(other =~= inner_name_text(other).subrange(1, 1 + other.len() as int));
    }
}

/// The length of the longest name among the named parameters.
pub open spec fn longest_name(params: Seq<ParameterView>) -> nat
    decreases params.len(),
{
    if params.len() == 0 {
        0
    } else {
        let before = longest_name(params.drop_last());
        match params.last() {
            ParameterView::Named { name, .. } => if name.len() > before {
                name.len()
            } else {
                before
            },
            _ => before,
        }
    }
}

/// No named parameter has a name longer than the longest.
pub proof fn lemma_longest_name_bounds(params: Seq<ParameterView>, index: int)
    requires
        0 <= index < params.len(),
        params[index] is Named,
    ensures
        params[index]->name.len() <= longest_name(params),
    decreases params.len(),
{
    if index < params.len() - 1 {
        lemma_longest_name_bounds(params.drop_last(), index);
    }
}

/// A text of `count` underscores.
pub open spec fn underscores(count: nat) -> Seq<char> {
    Seq::new(count, |i: int| '_')
}

/// The name that the wrapper gives to the nameless parameter at
/// `position`, where `width` is the length of the longest name in use.
pub open spec fn forward_name(width: nat, position: nat) -> Seq<char> {
    "_ignored"@ + underscores(width + position)
}

/// A forward name is longer than every name among the named parameters,
/// and the forward names of two positions differ: the wrapper's
/// parameter at an ignored position has a name that no other of its
/// parameters has.
pub proof fn law_forward_names_fresh(params: Seq<ParameterView>, ignored: int, other: int)
    requires
        0 <= ignored < params.len(),
        0 <= other < params.len(),
        ignored != other,
        params[ignored].form() == crate::decl::ParameterForm::Ignored,
    ensures
        argument_names(params)[ignored] != argument_names(params)[other],
{
    reveal_strlit("_ignored");
    let width = longest_name(params);
    assert(argument_names(params)[ignored].len() == 8 + width + ignored);
    match params[other] {
        ParameterView::Named { .. } => {
            // A name that the author wrote is no longer than `width`.
            lemma_longest_name_bounds(params, other);
        },
        ParameterView::Wildcard { .. } => {
            assert(argument_names(params)[other].len() == 8 + width + other);
        },
        ParameterView::Bare { .. } => {
            assert(argument_names(params)[other].len() == 8 + width + other);
        },
        _ => {
            assert(argument_names(params)[other].len() == 0);
        },
    }
}

/// The parameter as the wrapper declares it: a nameless parameter gets its
/// forward name, any other parameter stays as it is.
pub open spec fn forwarded(param: ParameterView, width: nat, position: nat) -> ParameterView {
    match param {
        ParameterView::Wildcard { ty } => ParameterView::Named {
            binding: forward_name(width, position),
            name: forward_name(width, position),
            ty,
        },
        ParameterView::Bare { ty } => ParameterView::Named {
            binding: forward_name(width, position),
            name: forward_name(width, position),
            ty,
        },
        other => other,
    }
}

/// The parameters of the wrapper.
pub open spec fn wrapper_params(params: Seq<ParameterView>) -> Seq<ParameterView> {
    Seq::new(params.len(), |i: int| forwarded(params[i], longest_name(params), i as nat))
}

/// The name that a parameter binds, or nothing where it binds none.
pub open spec fn bound_name(param: ParameterView) -> Seq<char> {
    match param {
        ParameterView::Named { name, .. } => name,
        _ => Seq::empty(),
    }
}

/// The names that the wrapper hands to the inner implementation: one for
/// each parameter, in declared order.
pub open spec fn argument_names(params: Seq<ParameterView>) -> Seq<Seq<char>> {
    Seq::new(params.len(), |i: int| bound_name(wrapper_params(params)[i]))
}

/// The names of the retained parameters.
pub open spec fn key_names(pairs: Seq<(Seq<char>, Seq<char>)>) -> Seq<Seq<char>> {
    Seq::new(pairs.len(), |i: int| pairs[i].0)
}

/// The expression that builds the key: the tuple of a copy of each
/// retained argument.
pub open spec fn key_expression_text(names: Seq<Seq<char>>) -> Seq<char> {
    "("@ + joined(Seq::new(names.len(), |i: int| names[i] + ".clone()"@), ", "@) + ")"@
}

/// The first step: the key is built from copies of the retained
/// arguments, in declared order.
pub open spec fn key_step_text(keys: Seq<Seq<char>>) -> Seq<char> {
    "    let key = "@ + key_expression_text(keys) + ";\n"@
}

/// The second step: the key is looked up. The cache is borrowed inside
/// the closure, which copies what it finds; when `cached` is bound the
/// borrow is over.
pub open spec fn lookup_step_text(cache: Seq<char>) -> Seq<char> {
    "    let cached = "@ + cache + ".with(|cell| cell.borrow_mut().get(&key).cloned());\n"@
}

/// The third step, on a miss: the inner implementation is called with the
/// arguments themselves. Nothing holds the cache here.
pub open spec fn compute_step_text(inner: Seq<char>, arguments: Seq<Seq<char>>) -> Seq<char> {
    "        let value = "@ + inner + "("@ + joined(arguments, ", "@) + ");\n"@
}

/// The fourth step: the cache is borrowed again, the value is stored
/// under a copy of the key, and the call returns a copy of what the cache
/// then holds under the key.
pub open spec fn store_step_text(cache: Seq<char>) -> Seq<char> {
    "        "@ + cache
        + ".with(|cell| {\n            let mut cache = cell.borrow_mut();\n            cache.insert(key.clone(), value);\n            cache.get(&key).cloned().unwrap()\n        })\n"@
}

/// The body of the wrapper: the four steps, where a hit ends the call
/// after the second with a copy of the value that was found.
pub open spec fn body_text(
    keys: Seq<Seq<char>>,
    arguments: Seq<Seq<char>>,
    cache: Seq<char>,
    inner: Seq<char>,
) -> Seq<char> {
    "{\n"@ + key_step_text(keys) + lookup_step_text(cache)
        + "    if let Some(value) = cached {\n        value.clone()\n    } else {\n"@
        + compute_step_text(inner, arguments) + store_step_text(cache) + "    }\n}"@
}

/// The length of the longest name among the named parameters.
pub fn name_width(params: &Vec<Parameter>) -> (width: usize)
    ensures
        width == longest_name(crate::decl::parameter_views(params@)),
{
    let ghost views = crate::decl::parameter_views(params@);
    let mut width: usize = 0;
    let mut index: usize = 0;
    while index < params.len()
        invariant
            index <= params.len(),
            views == crate::decl::parameter_views(params@),
            width == longest_name(views.take(index as int)),
        decreases params.len() - index,
    {
        assert(views.take(index + 1).drop_last() =~= views.take(index as int));
        match &params[index] {
            Parameter::Named { name, .. } => {
                let length = name.as_str().unicode_len();
                if length > width {
                    width = length;
                }
            },
            _ => {},
        }
        index += 1;
    }
    assert(views.take(index as int) =~= views);
    width
}

/// The forward name of the nameless parameter at `position`.
pub fn forward(width: usize, position: usize) -> (name: String)
    ensures
        name@ == forward_name(width as nat, position as nat),
{
    let mut name = String::from_str("_ignored");
    let mut count: usize = 0;
    while count < width
        invariant
            count <= width,
            name@ == "_ignored"@ + underscores(count as nat),
        decreases width - count,
    {
        name.append("_");
        proof {
            reveal_strlit("_");
        }
        count += 1;
    }
    let mut extra: usize = 0;
    while extra < position
        invariant
            extra <= position,
            name@ == "_ignored"@ + underscores((width + extra) as nat),
        decreases position - extra,
    {
        name.append("_");
        proof {
            reveal_strlit("_");
        }
        extra += 1;
    }
    name
}

/// The parameters of the wrapper: those of the function, each nameless
/// one under its forward name.
pub fn wrapper_parameters(params: &Vec<Parameter>) -> (wrapped: Vec<Parameter>)
    ensures
        crate::decl::parameter_views(wrapped@) == wrapper_params(
            crate::decl::parameter_views(params@),
        ),
{
    let ghost views = crate::decl::parameter_views(params@);
    let width = name_width(params);
    let mut wrapped: Vec<Parameter> = Vec::new();
    let mut index: usize = 0;
    while index < params.len()
        invariant
            index <= params.len(),
            views == crate::decl::parameter_views(params@),
            width == longest_name(views),
            crate::decl::parameter_views(wrapped@) == wrapper_params(views).take(index as int),
        decreases params.len() - index,
    {
        let ghost before = crate::decl::parameter_views(wrapped@);
        let next = match &params[index] {
            Parameter::Wildcard { ty } => {
                let name = forward(width, index);
                Parameter::Named { binding: name.clone(), name, ty: ty.clone() }
            },
            Parameter::Bare { ty } => {
                let name = forward(width, index);
                Parameter::Named { binding: name.clone(), name, ty: ty.clone() }
            },
            other => other.duplicate(),
        };
        wrapped.push(next);
        assert(crate::decl::parameter_views(wrapped@) =~= before.push(next@));
        index += 1;
    }
    wrapped
}

/// Writes the first step.
fn key_step(retained: &Vec<(String, String)>) -> (text: String)
    ensures
        text@ == key_step_text(key_names(retained.deep_view())),
{
    let ghost names = key_names(retained.deep_view());
    let ghost copies = Seq::new(names.len(), |i: int| names[i] + ".clone()"@);
    let mut parts: Vec<String> = Vec::new();
    let mut index: usize = 0;
    while index < retained.len()
        invariant
            index <= retained.len(),
            names == key_names(retained.deep_view()),
            copies == Seq::new(names.len(), |i: int| names[i] + ".clone()"@),
            parts.deep_view() == copies.take(index as int),
        decreases retained.len() - index,
    {
        let ghost before = parts.deep_view();
        let mut part = retained[index].0.clone();
        part.append(".clone()");
        parts.push(part);
        assert(parts.deep_view() =~= before.push(part@));
        index += 1;
    }
    assert(parts.deep_view() =~= copies);
    let mut key = String::from_str("(");
    key.append(join(&parts, ", ").as_str());
    key.append(")");
    let mut text = String::from_str("    let key = ");
    text.append(key.as_str());
    text.append(";\n");
    text
}

/// Writes the second step.
fn lookup_step(cache: &str) -> (text: String)
    ensures
        text@ == lookup_step_text(cache@),
{
    let mut text = String::from_str("    let cached = ");
    text.append(cache);
    text.append(".with(|cell| cell.borrow_mut().get(&key).cloned());\n");
    text
}

/// Writes the third step.
fn compute_step(inner: &str, arguments: &Vec<String>) -> (text: String)
    ensures
        text@ == compute_step_text(inner@, arguments.deep_view()),
{
    let mut text = String::from_str("        let value = ");
    text.append(inner);
    text.append("(");
    text.append(join(arguments, ", ").as_str());
    text.append(");\n");
    text
}

/// Writes the fourth step.
fn store_step(cache: &str) -> (text: String)
    ensures
        text@ == store_step_text(cache@),
{
    let mut text = String::from_str("        ");
    text.append(cache);
    text.append(
        ".with(|cell| {\n            let mut cache = cell.borrow_mut();\n            cache.insert(key.clone(), value);\n            cache.get(&key).cloned().unwrap()\n        })\n",
    );
    text
}

/// The body of the wrapper of a function.
///
/// `retained` holds the retained parameters with their types, `arguments`
/// the names to hand to the inner implementation, `cache` the identifier
/// of the cache and `inner` the name of the inner implementation.
pub fn synthesize(
    retained: &Vec<(String, String)>,
    arguments: &Vec<String>,
    cache: &str,
    inner: &str,
) -> (body: String)
    ensures
        body@ == body_text(key_names(retained.deep_view()), arguments.deep_view(), cache@, inner@),
{
    let mut body = String::from_str("{\n");
    body.append(key_step(retained).as_str());
    body.append(lookup_step(cache).as_str());
    body.append("    if let Some(value) = cached {\n        value.clone()\n    } else {\n");
    body.append(compute_step(inner, arguments).as_str());
    body.append(store_step(cache).as_str());
    body.append("    }\n}");
    body
}

} // verus!
