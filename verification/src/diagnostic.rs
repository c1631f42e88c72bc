//! The reasons for which a declaration is refused.
//!
//! A refusal is final for the function it concerns: nothing is generated
//! for that function, and one diagnostic says why and where.

use vstd::prelude::*;

verus! {

/// Why a function cannot be memoized.
#[derive(Clone, Copy, Debug, PartialEq, Eq, Structural)]
pub enum DiagnosticKind {
    /// The function takes a receiver.
    UnsupportedParameterForm,
    /// A parameter has no explicit type.
    UntypedParameter,
    /// A parameter is a pattern other than a single identifier.
    DestructuredParameter,
    /// The function declares no return type.
    MissingReturnType,
}

/// The construct that a diagnostic points at.
#[derive(Clone, Copy, Debug, PartialEq, Eq, Structural)]
pub enum Site {
    /// The parameter at this position, counted from zero.
    Parameter(usize),
    /// The function's body.
    Body,
}

/// One refusal: what is wrong, and where.
#[derive(Clone, Copy, Debug, PartialEq, Eq, Structural)]
pub struct Diagnostic {
    pub kind: DiagnosticKind,
    pub site: Site,
}

/// The text that is shown for a kind of diagnostic.
pub open spec fn message_text(kind: DiagnosticKind) -> Seq<char> {
    match kind {
        DiagnosticKind::UnsupportedParameterForm => "Methods are not supported."@,
        DiagnosticKind::UntypedParameter => "Parameters' types must be explicit."@,
        DiagnosticKind::DestructuredParameter => "Parameters must be simple identifiers."@,
        DiagnosticKind::MissingReturnType => "There's no point in caching the output of a function that doesn't return anything."@,
    }
}

impl Diagnostic {
    /// The text to show for this diagnostic.
    pub fn message(&self) -> (text: String)
        ensures
            text@ == message_text(self.kind),
    {
        match self.kind {
            DiagnosticKind::UnsupportedParameterForm => String::from_str(
                "Methods are not supported.",
            ),
            DiagnosticKind::UntypedParameter => String::from_str(
                "Parameters' types must be explicit.",
            ),
            DiagnosticKind::DestructuredParameter => String::from_str(
                "Parameters must be simple identifiers.",
            ),
            DiagnosticKind::MissingReturnType => String::from_str(
                "There's no point in caching the output of a function that doesn't return anything.",
            ),
        }
    }
}

} // verus!
