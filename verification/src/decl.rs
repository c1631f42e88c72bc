//! A function declaration as plain data.
//!
//! Names, types and bodies are kept as the source text they were written
//! with. The transformation never looks inside a type or a body: it reads
//! which shape each parameter has, and carries the rest through.

use crate::text::{join, joined};
use vstd::prelude::*;

verus! {

/// One parameter of a function, as it was written.
#[derive(Clone, Debug, PartialEq, Eq)]
pub enum Parameter {
    /// A binding with a type, `mut n: u64`. `binding` is the whole pattern
    /// ahead of the colon, `name` the identifier it introduces.
    Named { binding: String, name: String, ty: String },
    /// A wildcard with a type, `_: u64`.
    Wildcard { ty: String },
    /// A type with no pattern at all, `u64`.
    Bare { ty: String },
    /// `self` in any of its forms.
    Receiver { text: String },
    /// A pattern whose type is left to inference.
    Untyped { pattern: String },
    /// A typed pattern that takes its argument apart, `(a, b): (u8, u8)`.
    Destructured { pattern: String, ty: String },
}

/// The mathematical value of a [`Parameter`].
pub enum ParameterView {
    Named { binding: Seq<char>, name: Seq<char>, ty: Seq<char> },
    Wildcard { ty: Seq<char> },
    Bare { ty: Seq<char> },
    Receiver { text: Seq<char> },
    Untyped { pattern: Seq<char> },
    Destructured { pattern: Seq<char>, ty: Seq<char> },
}

/// What a parameter means to the cache.
#[derive(Clone, Copy, Debug, PartialEq, Eq, Structural)]
pub enum ParameterForm {
    /// Named and typed: its value is part of the key.
    Simple,
    /// Without a name: left out of the key, still handed to the computation.
    Ignored,
    /// A method's receiver: not supported.
    Receiver,
    /// Without a type: not supported.
    Untyped,
    /// Not a single identifier: not supported.
    Destructured,
}

impl ParameterView {
    /// The form of the parameter.
    pub open spec fn form(self) -> ParameterForm {
        match self {
            ParameterView::Named { .. } => ParameterForm::Simple,
            ParameterView::Wildcard { .. } => ParameterForm::Ignored,
            ParameterView::Bare { .. } => ParameterForm::Ignored,
            ParameterView::Receiver { .. } => ParameterForm::Receiver,
            ParameterView::Untyped { .. } => ParameterForm::Untyped,
            ParameterView::Destructured { .. } => ParameterForm::Destructured,
        }
    }

    /// Whether the parameter's value is part of the cache key.
    pub open spec fn is_retained(self) -> bool {
        self.form() == ParameterForm::Simple
    }

    /// Whether a function with this parameter can be memoized.
    pub open spec fn is_supported(self) -> bool {
        self.form() == ParameterForm::Simple || self.form() == ParameterForm::Ignored
    }

    /// The source text of the parameter.
    pub open spec fn source(self) -> Seq<char> {
        match self {
            ParameterView::Named { binding, ty, .. } => binding + ": "@ + ty,
            ParameterView::Wildcard { ty } => "_: "@ + ty,
            ParameterView::Bare { ty } => ty,
            ParameterView::Receiver { text } => text,
            ParameterView::Untyped { pattern } => pattern,
            ParameterView::Destructured { pattern, ty } => pattern + ": "@ + ty,
        }
    }
}

impl View for Parameter {
    type V = ParameterView;

    open spec fn view(&self) -> ParameterView {
        match *self {
            Parameter::Named { binding, name, ty } => ParameterView::Named {
                binding: binding@,
                name: name@,
                ty: ty@,
            },
            Parameter::Wildcard { ty } => ParameterView::Wildcard { ty: ty@ },
            Parameter::Bare { ty } => ParameterView::Bare { ty: ty@ },
            Parameter::Receiver { text } => ParameterView::Receiver { text: text@ },
            Parameter::Untyped { pattern } => ParameterView::Untyped { pattern: pattern@ },
            Parameter::Destructured { pattern, ty } => ParameterView::Destructured {
                pattern: pattern@,
                ty: ty@,
            },
        }
    }
}

impl Parameter {
    /// A plain named parameter, `name: ty`.
    pub fn simple(name: &str, ty: &str) -> (p: Parameter)
        ensures
            p@ == (ParameterView::Named { binding: name@, name: name@, ty: ty@ }),
    {
        Parameter::Named {
            binding: String::from_str(name),
            name: String::from_str(name),
            ty: String::from_str(ty),
        }
    }

    /// A wildcard parameter, `_: ty`.
    pub fn wildcard(ty: &str) -> (p: Parameter)
        ensures
            p@ == (ParameterView::Wildcard { ty: ty@ }),
    {
        Parameter::Wildcard { ty: String::from_str(ty) }
    }

    /// The form of the parameter.
    pub fn form(&self) -> (f: ParameterForm)
        ensures
            f == self@.form(),
    {
        match self {
            Parameter::Named { .. } => ParameterForm::Simple,
            Parameter::Wildcard { .. } => ParameterForm::Ignored,
            Parameter::Bare { .. } => ParameterForm::Ignored,
            Parameter::Receiver { .. } => ParameterForm::Receiver,
            Parameter::Untyped { .. } => ParameterForm::Untyped,
            Parameter::Destructured { .. } => ParameterForm::Destructured,
        }
    }

    /// A copy of the parameter: what `clone` gives, with the contract
    /// that a derived `clone` does not carry.
    pub fn duplicate(&self) -> (p: Parameter)
        ensures
            p@ == self@,
    {
        match self {
            Parameter::Named { binding, name, ty } => Parameter::Named {
                binding: binding.clone(),
                name: name.clone(),
                ty: ty.clone(),
            },
            Parameter::Wildcard { ty } => Parameter::Wildcard { ty: ty.clone() },
            Parameter::Bare { ty } => Parameter::Bare { ty: ty.clone() },
            Parameter::Receiver { text } => Parameter::Receiver { text: text.clone() },
            Parameter::Untyped { pattern } => Parameter::Untyped { pattern: pattern.clone() },
            Parameter::Destructured { pattern, ty } => Parameter::Destructured {
                pattern: pattern.clone(),
                ty: ty.clone(),
            },
        }
    }

    /// The source text of the parameter.
    pub fn source(&self) -> (text: String)
        ensures
            text@ == self@.source(),
    {
        match self {
            Parameter::Named { binding, ty, .. } => {
                let mut text = binding.clone();
                text.append(": ");
                text.append(ty.as_str());
                text
            },
            Parameter::Wildcard { ty } => {
                let mut text = String::from_str("_: ");
                text.append(ty.as_str());
                text
            },
            Parameter::Bare { ty } => ty.clone(),
            Parameter::Receiver { text } => text.clone(),
            Parameter::Untyped { pattern } => pattern.clone(),
            Parameter::Destructured { pattern, ty } => {
                let mut text = pattern.clone();
                text.append(": ");
                text.append(ty.as_str());
                text
            },
        }
    }
}

/// The views of a vector of parameters, in order.
pub open spec fn parameter_views(params: Seq<Parameter>) -> Seq<ParameterView> {
    Seq::new(params.len(), |i: int| params[i]@)
}

/// The source texts of the parameters, in order.
pub open spec fn parameter_sources(params: Seq<ParameterView>) -> Seq<Seq<char>> {
    Seq::new(params.len(), |i: int| params[i].source())
}

/// A copy of the parameters.
fn duplicate_parameters(params: &Vec<Parameter>) -> (copy: Vec<Parameter>)
    ensures
        parameter_views(copy@) == parameter_views(params@),
{
    let mut copy: Vec<Parameter> = Vec::new();
    let mut index: usize = 0;
    while index < params.len()
        invariant
            index <= params.len(),
            parameter_views(copy@) == parameter_views(params@).take(index as int),
        decreases params.len() - index,
    {
        let ghost before = parameter_views(copy@);
        let next = params[index].duplicate();
        copy.push(next);
        assert(parameter_views(copy@) =~= before.push(next@));
        index += 1;
    }
    copy
}

/// A copy of an optional text.
fn duplicate_text(text: &Option<String>) -> (copy: Option<String>)
    ensures
        copy.deep_view() == text.deep_view(),
{
    match text {
        Some(t) => Some(t.clone()),
        None => None,
    }
}

/// A function declaration.
#[derive(Clone, Debug, PartialEq, Eq)]
pub struct FunctionDecl {
    /// What stands ahead of `fn`: attributes, visibility, `const`, `unsafe`
    /// and the like. Empty where nothing does.
    pub qualifiers: String,
    /// The function's name.
    pub name: String,
    /// The generic parameters with their angle brackets, or nothing.
    pub generics: String,
    /// The parameters, in declared order.
    pub params: Vec<Parameter>,
    /// The declared return type, if there is one.
    pub output: Option<String>,
    /// The `where` clause, or nothing.
    pub where_clause: String,
    /// The body, braces included.
    pub body: String,
}

/// The mathematical value of a [`FunctionDecl`].
pub struct FunctionDeclView {
    pub qualifiers: Seq<char>,
    pub name: Seq<char>,
    pub generics: Seq<char>,
    pub params: Seq<ParameterView>,
    pub output: Option<Seq<char>>,
    pub where_clause: Seq<char>,
    pub body: Seq<char>,
}

impl View for FunctionDecl {
    type V = FunctionDeclView;

    open spec fn view(&self) -> FunctionDeclView {
        FunctionDeclView {
            qualifiers: self.qualifiers@,
            name: self.name@,
            generics: self.generics@,
            params: parameter_views(self.params@),
            output: self.output.deep_view(),
            where_clause: self.where_clause@,
            body: self.body@,
        }
    }
}

/// The source text of a function declaration.
pub open spec fn function_text(function: FunctionDeclView) -> Seq<char> {
    (if function.qualifiers.len() == 0 {
        Seq::empty()
    } else {
        function.qualifiers + " "@
    }) + "fn "@ + function.name + function.generics + "("@ + joined(
        parameter_sources(function.params),
        ", "@,
    ) + ")"@ + (match function.output {
        Some(ty) => " -> "@ + ty,
        None => Seq::empty(),
    }) + (if function.where_clause.len() == 0 {
        Seq::empty()
    } else {
        " "@ + function.where_clause
    }) + " "@ + function.body
}

impl FunctionDecl {
    /// A copy of the declaration: what `clone` gives, with the contract
    /// that a derived `clone` does not carry.
    pub fn duplicate(&self) -> (copy: FunctionDecl)
        ensures
            copy@ == self@,
    {
        FunctionDecl {
            qualifiers: self.qualifiers.clone(),
            name: self.name.clone(),
            generics: self.generics.clone(),
            params: duplicate_parameters(&self.params),
            output: duplicate_text(&self.output),
            where_clause: self.where_clause.clone(),
            body: self.body.clone(),
        }
    }

    /// The source text of the declaration.
    pub fn render(&self) -> (text: String)
        ensures
            text@ == function_text(self@),
    {
        let mut sources: Vec<String> = Vec::new();
        let mut index: usize = 0;
        while index < self.params.len()
            invariant
                index <= self.params.len(),
                sources.deep_view() == parameter_sources(self@.params).take(index as int),
            decreases self.params.len() - index,
        {
            let ghost before = sources.deep_view();
            let source = self.params[index].source();
            sources.push(source);
            assert(sources.deep_view() =~= before.push(source@));
            index += 1;
        }
        assert(sources.deep_view() =~= parameter_sources(self@.params));
        let mut text = String::new();
        if !self.qualifiers.as_str().is_empty() {
            text.append(self.qualifiers.as_str());
            text.append(" ");
        }
        text.append("fn ");
        text.append(self.name.as_str());
        text.append(self.generics.as_str());
        text.append("(");
        text.append(join(&sources, ", ").as_str());
        text.append(")");
        if let Some(ty) = &self.output {
            let mut arrow = String::from_str(" -> ");
            arrow.append(ty.as_str());
            text.append(arrow.as_str());
        }
        if !self.where_clause.as_str().is_empty() {
            let mut clause = String::from_str(" ");
            clause.append(self.where_clause.as_str());
            text.append(clause.as_str());
        }
        text.append(" ");
        text.append(self.body.as_str());
        text
    }
}

} // verus!
