//! The transformation as a whole.
//!
//! One declaration goes in. Either three come out, in this order: the
//! cache, the wrapper under the function's name, and the function's own
//! implementation under its inner name; or the declaration is refused with
//! one diagnostic and nothing is generated.

use crate::analysis::{diagnosis, parameters, signature};
use crate::cache::{
    cache_declaration_text, cache_ident_text, cache_initialization, cache_spec_of, uppercased,
};
use crate::decl::{function_text, parameter_views, FunctionDecl, FunctionDeclView, Parameter};
use crate::diagnostic::Diagnostic;
use crate::wrapper::{
    argument_names, body_text, bound_name, inner_name, inner_name_text, key_names, synthesize,
    wrapper_parameters, wrapper_params,
};
use vstd::prelude::*;

verus! {

/// What takes the place of a memoized function.
#[derive(Clone, Debug, PartialEq, Eq)]
pub struct GeneratedArtifact {
    /// The declaration of the cache.
    pub cache: String,
    /// The wrapper: the function's name and signature, with the body that
    /// consults the cache.
    pub wrapper: FunctionDecl,
    /// The function's own implementation, under its inner name.
    pub inner: FunctionDecl,
}

/// The mathematical value of a [`GeneratedArtifact`].
pub struct GeneratedArtifactView {
    pub cache: Seq<char>,
    pub wrapper: FunctionDeclView,
    pub inner: FunctionDeclView,
}

impl View for GeneratedArtifact {
    type V = GeneratedArtifactView;

    open spec fn view(&self) -> GeneratedArtifactView {
        GeneratedArtifactView { cache: self.cache@, wrapper: self.wrapper@, inner: self.inner@ }
    }
}

/// The container that is used where none is asked for.
pub open spec fn default_container() -> Seq<char> {
    "std::collections::HashMap"@
}

/// The container kind that an attribute asks for: what it names, or the
/// default where it is empty.
pub open spec fn container_kind(attr: Seq<char>) -> Seq<char> {
    if attr.len() == 0 {
        default_container()
    } else {
        attr
    }
}

/// The three declarations that a function is replaced by, for a container
/// kind. It is meant for functions that are not refused.
pub open spec fn expansion(container: Seq<char>, function: FunctionDeclView) -> GeneratedArtifactView
    recommends
        diagnosis(function) is None,
{
    let cache = cache_ident_text(uppercased(function.name));
    let inner = inner_name_text(function.name);
    let read = signature(function);
    GeneratedArtifactView {
        cache: cache_declaration_text(cache, cache_spec_of(container, read)),
        wrapper: FunctionDeclView {
            params: wrapper_params(function.params),
            body: body_text(key_names(read.retained), argument_names(function.params), cache, inner),
            ..function
        },
        inner: FunctionDeclView { name: inner, ..function },
    }
}

/// The source text of the three declarations, in their order.
pub open spec fn artifact_text(artifact: GeneratedArtifactView) -> Seq<char> {
    artifact.cache + function_text(artifact.wrapper) + "\n"@ + function_text(artifact.inner)
        + "\n"@
}

impl GeneratedArtifact {
    /// The source text of the three declarations, in their order.
    pub fn render(&self) -> (text: String)
        ensures
            text@ == artifact_text(self@),
    {
        let mut text = self.cache.clone();
        text.append(self.wrapper.render().as_str());
        text.append("\n");
        text.append(self.inner.render().as_str());
        text.append("\n");
        text
    }
}

/// The names that the wrapper's parameters bind, in order.
fn bound_names(wrapped: &Vec<Parameter>) -> (names: Vec<String>)
    ensures
        names.deep_view() == Seq::new(
            wrapped.len() as nat,
            |i: int| bound_name(parameter_views(wrapped@)[i]),
        ),
{
    let ghost views = parameter_views(wrapped@);
    let ghost all = Seq::new(wrapped.len() as nat, |i: int| bound_name(views[i]));
    let mut names: Vec<String> = Vec::new();
    let mut index: usize = 0;
    while index < wrapped.len()
        invariant
            index <= wrapped.len(),
            views == parameter_views(wrapped@),
            all == Seq::new(wrapped.len() as nat, |i: int| bound_name(views[i])),
            names.deep_view() == all.take(index as int),
        decreases wrapped.len() - index,
    {
        let ghost before = names.deep_view();
        let name = match &wrapped[index] {
            Parameter::Named { name, .. } => name.clone(),
            _ => String::new(),
        };
        names.push(name);
        assert(names.deep_view() =~= before.push(name@));
        index += 1;
    }
    names
}

/// Replaces a function by its memoized form.
///
/// `attr` names the kind of container to cache in; where it is empty the
/// default is taken. The function is refused if one of its parameters
/// cannot be handled or if it declares no return type; nothing is generated
/// then.
pub fn expand(attr: &str, function: &FunctionDecl) -> (result: Result<
    GeneratedArtifact,
    Diagnostic,
>)
    ensures
        result is Err <==> diagnosis(function@) is Some,
        result matches Err(d) ==> diagnosis(function@) == Some(d),
        result matches Ok(artifact) ==> artifact@ == expansion(container_kind(attr@), function@),
{
    let container = if attr.is_empty() {
        "std::collections::HashMap"
    } else {
        attr
    };
    let (cache, declaration) = match cache_initialization(container, function) {
        Ok(cache) => cache,
        Err(d) => {
            return Err(d);
        },
    };
    let inner = inner_name(function.name.as_str());
    let pairs = parameters(function).unwrap();
    let wrapped = wrapper_parameters(&function.params);
    let arguments = bound_names(&wrapped);
    assert(arguments.deep_view() =~= argument_names(function@.params)) by {
        assert(wrapper_params(function@.params).len() == function@.params.len());
    }
    let body = synthesize(&pairs, &arguments, cache.as_str(), inner.as_str());
    let mut wrapper = function.duplicate();
    wrapper.params = wrapped;
    wrapper.body = body;
    let mut renamed = function.duplicate();
    renamed.name = inner;
    Ok(GeneratedArtifact { cache: declaration, wrapper, inner: renamed })
}

} // verus!
