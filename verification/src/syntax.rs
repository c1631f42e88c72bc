//! Reading a declaration from a syntax tree.
//!
//! Whoever calls has parsed the source with the `syn` crate and holds the
//! tree of a function. Here `quote` prints the pieces of the tree that the
//! model carries as text, and what is read is turned into a
//! [`FunctionDecl`]; the transformation itself never sees the tree.
//!
//! The functions that touch the tree are short and are believed, not
//! proved. Each of them reads one piece. What the pieces are worth is
//! given a name, [`contents`]; nothing is said of it but that each reader
//! returns its piece.

use crate::analysis::diagnosis;
use crate::decl::{FunctionDecl, FunctionDeclView, Parameter, ParameterView};
use crate::diagnostic::Diagnostic;
use crate::expand::{artifact_text, container_kind, expand, expansion};
use crate::text::{join, joined};
use quote::ToTokens;
use syn::{AttrStyle, FnArg, ItemFn, Pat, ReturnType};
use vstd::prelude::*;

verus! {

/// `syn::ItemFn`, the syntax tree of a free-standing function.
#[verifier::external_type_specification]
#[verifier::external_body]
pub struct ExItemFn(syn::ItemFn);

/// What a syntax tree holds, piece by piece, each printed as text.
pub struct ItemContents {
    /// One entry for each attribute, in order: the text of an outer
    /// attribute, nothing for an inner one.
    pub attributes: Seq<Option<Seq<char>>>,
    /// The visibility and the keywords ahead of `fn`.
    pub keywords: Seq<char>,
    /// The function's name.
    pub name: Seq<char>,
    /// The generic parameters.
    pub generics: Seq<char>,
    /// The parameters.
    pub params: Seq<ParameterView>,
    /// The return type.
    pub output: Option<Seq<char>>,
    /// The `where` clause.
    pub where_clause: Seq<char>,
    /// The body, with its braces and the attributes inside them.
    pub body: Seq<char>,
}

/// What the syntax tree of a function holds.
pub uninterp spec fn contents(item: syn::ItemFn) -> ItemContents;

/// Whether a parameter is a pattern with a type.
pub open spec fn is_typed_pattern(param: ParameterView) -> bool {
    param is Named || param is Wildcard || param is Destructured
}

/// Calls `to_string` on the field `ident`, a `proc_macro2::Ident`: the
/// function's name as it was written.
#[verifier::external_body]
fn name_of(item: &ItemFn) -> (text: String)
    ensures
        text@ == contents(*item).name,
{
    item.ident.to_string()
}

/// The length of the field `attrs`, which holds the function's outer
/// attributes and, behind them, the inner attributes of its body.
#[verifier::external_body]
fn attribute_count(item: &ItemFn) -> (count: usize)
    ensures
        count == contents(*item).attributes.len(),
{
    item.attrs.len()
}

/// Prints the attribute at `index` if its style is `AttrStyle::Outer`,
/// with `quote::ToTokens::into_token_stream` and the `to_string` of the
/// tokens. An attribute of the style `AttrStyle::Inner` gives nothing.
#[verifier::external_body]
fn outer_attribute(item: &ItemFn, index: usize) -> (text: Option<String>)
    requires
        index < contents(*item).attributes.len(),
    ensures
        text.deep_view() == contents(*item).attributes[index as int],
{
    match item.attrs[index].style {
        AttrStyle::Outer => Some((&item.attrs[index]).into_token_stream().to_string()),
        AttrStyle::Inner(_) => None,
    }
}

/// Prints the fields `vis`, `constness`, `asyncness`, `unsafety` and
/// `abi` with `quote::ToTokens::to_tokens`, in this order, which is the
/// order they are written in, into one `proc_macro2::TokenStream`, and
/// calls `to_string` on it.
#[verifier::external_body]
fn keywords_of(item: &ItemFn) -> (text: String)
    ensures
        text@ == contents(*item).keywords,
{
    let mut tokens = proc_macro2::TokenStream::new();
    item.vis.to_tokens(&mut tokens);
    item.constness.to_tokens(&mut tokens);
    item.asyncness.to_tokens(&mut tokens);
    item.unsafety.to_tokens(&mut tokens);
    item.abi.to_tokens(&mut tokens);
    tokens.to_string()
}

/// Prints the field `generics` of the declaration, with
/// `quote::ToTokens::into_token_stream` and the `to_string` of the tokens:
/// the generic parameters in their angle brackets, without the `where`
/// clause, and nothing where there are none.
#[verifier::external_body]
fn generics_of(item: &ItemFn) -> (text: String)
    ensures
        text@ == contents(*item).generics,
{
    (&item.decl.generics).into_token_stream().to_string()
}

/// Prints the field `where_clause` of the generics in the same way:
/// nothing where the function has no such clause.
#[verifier::external_body]
fn where_clause_of(item: &ItemFn) -> (text: String)
    ensures
        text@ == contents(*item).where_clause,
{
    (&item.decl.generics.where_clause).into_token_stream().to_string()
}

/// The length of the field `inputs` of the declaration, a
/// `syn::punctuated::Punctuated`: the number of parameters.
#[verifier::external_body]
fn parameter_count(item: &ItemFn) -> (count: usize)
    ensures
        count == contents(*item).params.len(),
{
    item.decl.inputs.len()
}

/// Reads the parameter at `index` if it is a typed pattern, which is
/// `FnArg::Captured`: a binding for `Pat::Ident`, a wildcard for
/// `Pat::Wild`, a destructuring pattern for every other `syn::Pat`, with
/// the pattern and the type printed.
#[verifier::external_body]
fn captured_parameter(item: &ItemFn, index: usize) -> (param: Option<Parameter>)
    requires
        index < contents(*item).params.len(),
    ensures
        param is Some <==> is_typed_pattern(contents(*item).params[index as int]),
        param matches Some(p) ==> p@ == contents(*item).params[index as int],
{
    let arg = match &item.decl.inputs[index] {
        FnArg::Captured(arg) => arg,
        _ => return None,
    };
    let ty = (&arg.ty).into_token_stream().to_string();
    Some(match &arg.pat {
        Pat::Ident(p) => {
            Parameter::Named { binding: p.into_token_stream().to_string(), name: p.ident.to_string(), ty }
        },
        Pat::Wild(_) => Parameter::Wildcard { ty },
        pat => Parameter::Destructured { pattern: pat.into_token_stream().to_string(), ty },
    })
}

/// Reads the parameter at `index` if it is not a typed pattern: a
/// receiver for `FnArg::SelfRef` and `FnArg::SelfValue`, a pattern for
/// `FnArg::Inferred`, a type for `FnArg::Ignored`, each printed.
#[verifier::external_body]
fn uncaptured_parameter(item: &ItemFn, index: usize) -> (param: Option<Parameter>)
    requires
        index < contents(*item).params.len(),
    ensures
        param is None <==> is_typed_pattern(contents(*item).params[index as int]),
        param matches Some(p) ==> p@ == contents(*item).params[index as int],
{
    match &item.decl.inputs[index] {
        FnArg::SelfRef(arg) => Some(Parameter::Receiver { text: arg.into_token_stream().to_string() }),
        FnArg::SelfValue(arg) => Some(Parameter::Receiver { text: arg.into_token_stream().to_string() }),
        FnArg::Inferred(pat) => Some(Parameter::Untyped { pattern: pat.into_token_stream().to_string() }),
        FnArg::Ignored(ty) => Some(Parameter::Bare { ty: ty.into_token_stream().to_string() }),
        FnArg::Captured(_) => None,
    }
}

/// Prints the type in the field `output` of the declaration, a
/// `syn::ReturnType`, with `quote::ToTokens::into_token_stream` and the
/// `to_string` of the tokens. `ReturnType::Default` gives nothing.
#[verifier::external_body]
fn output_of(item: &ItemFn) -> (text: Option<String>)
    ensures
        text.deep_view() == contents(*item).output,
{
    match &item.decl.output {
        ReturnType::Default => None,
        ReturnType::Type(_, ty) => Some(ty.into_token_stream().to_string()),
    }
}

/// Prints the function with `quote::ToTokens::into_token_stream` and
/// calls `to_string` on the last of its token trees: `syn` prints a
/// function so that it ends with one group in braces, which holds the
/// inner attributes and the statements.
#[verifier::external_body]
fn body_of(item: &ItemFn) -> (text: String)
    ensures
        text@ == contents(*item).body,
{
    let last = item.into_token_stream().into_iter().last();
    last.into_iter().collect::<proc_macro2::TokenStream>().to_string()
}

/// The texts of the outer attributes, in order.
pub open spec fn outer_texts(attributes: Seq<Option<Seq<char>>>) -> Seq<Seq<char>>
    decreases attributes.len(),
{
    if attributes.len() == 0 {
        Seq::empty()
    } else {
        let before = outer_texts(attributes.drop_last());
        match attributes.last() {
            Some(text) => before.push(text),
            None => before,
        }
    }
}

/// What stands ahead of `fn`: the outer attributes, then the visibility
/// and the keywords where there are any, with a space between each two.
pub open spec fn qualifiers_text(held: ItemContents) -> Seq<char> {
    joined(
        if held.keywords.len() == 0 {
            outer_texts(held.attributes)
        } else {
            outer_texts(held.attributes).push(held.keywords)
        },
        " "@,
    )
}

/// The declaration that a syntax tree with these contents stands for.
pub open spec fn declaration(held: ItemContents) -> FunctionDeclView {
    FunctionDeclView {
        qualifiers: qualifiers_text(held),
        name: held.name,
        generics: held.generics,
        params: held.params,
        output: held.output,
        where_clause: held.where_clause,
        body: held.body,
    }
}

/// Reads the declaration of a function from its syntax tree.
pub fn read_function(item: &ItemFn) -> (function: FunctionDecl)
    ensures
        function@ == declaration(contents(*item)),
{
    let ghost held = contents(*item);
    let mut parts: Vec<String> = Vec::new();
    let attributes = attribute_count(item);
    let mut index: usize = 0;
    while index < attributes
        invariant
            index <= attributes,
            attributes == held.attributes.len(),
            held == contents(*item),
            parts.deep_view() == outer_texts(held.attributes.take(index as int)),
        decreases attributes - index,
    {
        assert(held.attributes.take(index + 1).drop_last() =~= held.attributes.take(
            index as int,
        ));
        if let Some(text) = outer_attribute(item, index) {
            parts.push(text);
        }
        index += 1;
    }
    assert(held.attributes.take(index as int) =~= held.attributes);
    let keywords = keywords_of(item);
    if !keywords.as_str().is_empty() {
        let ghost before = parts.deep_view();
        parts.push(keywords);
        assert(parts.deep_view() =~= before.push(held.keywords));
    }
    let qualifiers = join(&parts, " ");
    let mut params: Vec<Parameter> = Vec::new();
    let count = parameter_count(item);
    let mut at: usize = 0;
    while at < count
        invariant
            at <= count,
            count == held.params.len(),
            held == contents(*item),
            crate::decl::parameter_views(params@) == held.params.take(at as int),
        decreases count - at,
    {
        let ghost before = crate::decl::parameter_views(params@);
        let param = match captured_parameter(item, at) {
            Some(param) => param,
            None => uncaptured_parameter(item, at).unwrap(),
        };
        params.push(param);
        assert(crate::decl::parameter_views(params@) =~= before.push(param@));
        at += 1;
    }
    assert(held.params.take(at as int) =~= held.params);
    FunctionDecl {
        qualifiers,
        name: name_of(item),
        generics: generics_of(item),
        params,
        output: output_of(item),
        where_clause: where_clause_of(item),
        body: body_of(item),
    }
}

/// The source text of the memoized form of a function, given its syntax
/// tree.
///
/// `attr` names the kind of container to cache in; where it is empty the
/// default is taken.
pub fn memoize_item(attr: &str, item: &ItemFn) -> (result: Result<String, Diagnostic>)
    ensures
        result is Err <==> diagnosis(declaration(contents(*item))) is Some,
        result matches Err(d) ==> diagnosis(declaration(contents(*item))) == Some(d),
        result matches Ok(text) ==> text@ == artifact_text(
            expansion(container_kind(attr@), declaration(contents(*item))),
        ),
{
    let function = read_function(item);
    match expand(attr, &function) {
        Ok(artifact) => Ok(artifact.render()),
        Err(d) => Err(d),
    }
}

} // verus!
