//! Reading a declaration: which parameters form the cache key, and what
//! type the cached values have.

use crate::decl::{FunctionDecl, FunctionDeclView, Parameter, ParameterForm, ParameterView};
use crate::diagnostic::{Diagnostic, DiagnosticKind, Site};
use vstd::prelude::*;

verus! {

/// Whether every parameter can be handled.
pub open spec fn all_supported(params: Seq<ParameterView>) -> bool {
    forall|i: int| 0 <= i < params.len() ==> (#[trigger] params[i]).is_supported()
}

/// Whether the parameter at `index` is the first that cannot be handled.
pub open spec fn first_unsupported(params: Seq<ParameterView>, index: int) -> bool {
    &&& 0 <= index < params.len()
    &&& !params[index].is_supported()
    &&& forall|j: int| 0 <= j < index ==> (#[trigger] params[j]).is_supported()
}

/// The diagnostic that an unsupported form of parameter is refused with.
pub open spec fn refusal(form: ParameterForm) -> DiagnosticKind {
    match form {
        ParameterForm::Untyped => DiagnosticKind::UntypedParameter,
        ParameterForm::Destructured => DiagnosticKind::DestructuredParameter,
        _ => DiagnosticKind::UnsupportedParameterForm,
    }
}

/// The names and types of the retained parameters, in declared order.
pub open spec fn retained(params: Seq<ParameterView>) -> Seq<(Seq<char>, Seq<char>)>
    decreases params.len(),
{
    if params.len() == 0 {
        Seq::empty()
    } else {
        let before = retained(params.drop_last());
        match params.last() {
            ParameterView::Named { name, ty, .. } => before.push((name, ty)),
            _ => before,
        }
    }
}

/// The first reason, if any, for which a declaration is refused: the first
/// parameter that cannot be handled, or else a missing return type.
pub open spec fn diagnosis(function: FunctionDeclView) -> Option<Diagnostic> {
    if !all_supported(function.params) {
        let at = choose|k: int| first_unsupported(function.params, k);
        Some(
            Diagnostic {
                kind: refusal(function.params[at].form()),
                site: Site::Parameter(at as usize),
            },
        )
    } else if function.output is None {
        Some(Diagnostic { kind: DiagnosticKind::MissingReturnType, site: Site::Body })
    } else {
        None
    }
}

/// Taking one more parameter into account adds it to the retained ones if
/// it is named, and changes nothing otherwise.
pub proof fn lemma_retained_step(params: Seq<ParameterView>, count: int)
    requires
        0 <= count < params.len(),
    ensures
        retained(params.take(count + 1)) == match params[count] {
            ParameterView::Named { name, ty, .. } => retained(params.take(count)).push((name, ty)),
            _ => retained(params.take(count)),
        },
{
    assert(params.take(count + 1).drop_last() =~= params.take(count));
}

/// At most one parameter is the first that cannot be handled.
pub proof fn lemma_first_unsupported_unique(params: Seq<ParameterView>, a: int, b: int)
    requires
        first_unsupported(params, a),
        first_unsupported(params, b),
    ensures
        a == b,
{
}

/// A function with a parameter that cannot be handled is refused at the
/// first such parameter, for the reason that belongs to its form.
pub proof fn lemma_refused_at_first_unsupported(function: FunctionDeclView, at: usize)
    requires
        first_unsupported(function.params, at as int),
    ensures
        diagnosis(function) == Some(
            Diagnostic {
                kind: refusal(function.params[at as int].form()),
                site: Site::Parameter(at),
            },
        ),
{
    let chosen = choose|k: int| first_unsupported(function.params, k);
    lemma_first_unsupported_unique(function.params, chosen, at as int);
}

/// A function that declares no return type is refused for that reason,
/// with the diagnostic at its body, provided that each of its parameters
/// can be handled.
pub proof fn law_missing_return_type(function: FunctionDeclView)
    requires
        function.output is None,
        all_supported(function.params),
    ensures
        diagnosis(function) == Some(
            Diagnostic { kind: DiagnosticKind::MissingReturnType, site: Site::Body },
        ),
{
}

/// A function that takes a receiver is refused for that reason, with the
/// diagnostic at the receiver, provided that each parameter ahead of the
/// receiver can be handled.
pub proof fn law_receiver_refused(function: FunctionDeclView, at: usize)
    requires
        at < function.params.len(),
        function.params[at as int] is Receiver,
        forall|j: int| 0 <= j < at ==> (#[trigger] function.params[j]).is_supported(),
    ensures
        diagnosis(function) == Some(
            Diagnostic {
                kind: DiagnosticKind::UnsupportedParameterForm,
                site: Site::Parameter(at),
            },
        ),
{
    lemma_refused_at_first_unsupported(function, at);
}

/// The parameters whose values form the cache key, each with its name and
/// its type, in declared order.
///
/// Parameters without a name are left out. The first parameter that cannot
/// be handled ends the analysis with a diagnostic at its position.
pub fn parameters(function: &FunctionDecl) -> (result: Result<Vec<(String, String)>, Diagnostic>)
    ensures
        result is Ok <==> all_supported(function@.params),
        result matches Ok(pairs) ==> pairs.deep_view() == retained(function@.params),
        result matches Err(d) ==> {
            &&& d.site matches Site::Parameter(at)
            &&& first_unsupported(function@.params, at as int)
            &&& d.kind == refusal(function@.params[at as int].form())
        },
{
    let mut pairs: Vec<(String, String)> = Vec::new();
    let mut index: usize = 0;
    while index < function.params.len()
        invariant
            index <= function.params.len(),
            forall|j: int| 0 <= j < index ==> (#[trigger] function@.params[j]).is_supported(),
            pairs.deep_view() == retained(function@.params.take(index as int)),
        decreases function.params.len() - index,
    {
        proof {
            lemma_retained_step(function@.params, index as int);
        }
        match &function.params[index] {
            Parameter::Named { name, ty, .. } => {
                pairs.push((name.clone(), ty.clone()));
            },
            Parameter::Wildcard { .. } => {},
            Parameter::Bare { .. } => {},
            Parameter::Receiver { .. } => {
                return Err(
                    Diagnostic {
                        kind: DiagnosticKind::UnsupportedParameterForm,
                        site: Site::Parameter(index),
                    },
                );
            },
            Parameter::Untyped { .. } => {
                return Err(
                    Diagnostic { kind: DiagnosticKind::UntypedParameter, site: Site::Parameter(index) },
                );
            },
            Parameter::Destructured { .. } => {
                return Err(
                    Diagnostic {
                        kind: DiagnosticKind::DestructuredParameter,
                        site: Site::Parameter(index),
                    },
                );
            },
        }
        index += 1;
    }
    assert(function@.params.take(index as int) =~= function@.params);
    Ok(pairs)
}

/// The type of the values to cache: the function's declared return type.
///
/// A function that declares none is refused, with a diagnostic at its body.
pub fn return_type(function: &FunctionDecl) -> (result: Result<String, Diagnostic>)
    ensures
        result is Ok <==> function@.output is Some,
        result matches Ok(ty) ==> function@.output == Some(ty@),
        result matches Err(d) ==> d == (Diagnostic {
            kind: DiagnosticKind::MissingReturnType,
            site: Site::Body,
        }),
{
    match &function.output {
        Some(ty) => Ok(ty.clone()),
        None => Err(Diagnostic { kind: DiagnosticKind::MissingReturnType, site: Site::Body }),
    }
}

/// What the cache needs to know of a function: the retained parameters,
/// whose order is the order of the fields of the key, and the type of the
/// result.
#[derive(Clone, Debug, PartialEq, Eq)]
pub struct FunctionSignature {
    /// The retained parameters, each with its name and its type.
    pub retained: Vec<(String, String)>,
    /// The return type.
    pub output: String,
}

/// The mathematical value of a [`FunctionSignature`].
pub struct FunctionSignatureView {
    pub retained: Seq<(Seq<char>, Seq<char>)>,
    pub output: Seq<char>,
}

impl View for FunctionSignature {
    type V = FunctionSignatureView;

    open spec fn view(&self) -> FunctionSignatureView {
        FunctionSignatureView { retained: self.retained.deep_view(), output: self.output@ }
    }
}

/// The signature of a function that is not refused.
pub open spec fn signature(function: FunctionDeclView) -> FunctionSignatureView
    recommends
        diagnosis(function) is None,
{
    FunctionSignatureView {
        retained: retained(function.params),
        output: function.output.unwrap(),
    }
}

/// Reads the signature of a function, or refuses the function.
///
/// The parameters are looked at first: a function with a parameter that
/// cannot be handled is refused for that parameter, whether or not it
/// declares a return type.
pub fn analyze(function: &FunctionDecl) -> (result: Result<FunctionSignature, Diagnostic>)
    ensures
        result is Err <==> diagnosis(function@) is Some,
        result matches Err(d) ==> diagnosis(function@) == Some(d),
        result matches Ok(read) ==> read@ == signature(function@),
{
    let retained = match parameters(function) {
        Ok(pairs) => pairs,
        Err(d) => {
            proof {
                lemma_refused_at_first_unsupported(function@, d.site->0);
            }
            return Err(d);
        },
    };
    let output = match return_type(function) {
        Ok(ty) => ty,
        Err(d) => {
            return Err(d);
        },
    };
    Ok(FunctionSignature { retained, output })
}

} // verus!
