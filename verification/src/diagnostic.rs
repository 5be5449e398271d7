//! What a diagnostic holds, and the calls that build one.

use vstd::prelude::*;
use wdl_ast::Diagnostic;
use wdl_ast::Severity;
use wdl_ast::Span;

verus! {

/// How grave a diagnostic is: an error, a warning or a note. The enumeration is
/// declared with its variants, which the verifier reads from `wdl-grammar`
/// itself.
#[verifier::external_type_specification]
pub struct ExSeverity(Severity);

/// A diagnostic of `wdl-grammar`. Its fields are private to that crate; the
/// contracts read them through [`diagnostic_view`].
#[verifier::external_type_specification]
#[verifier::external_body]
pub struct ExDiagnostic(Diagnostic);

/// A label of a diagnostic: a message, which may be empty, on a range of the
/// source.
pub struct LabelView {
    /// The message of the label.
    pub message: Seq<char>,
    /// The range that the label marks.
    pub span: Span,
}

/// The fields of a diagnostic.
pub struct DiagnosticView {
    /// The identifier of the rule that the diagnostic comes from.
    pub rule: Option<Seq<char>>,
    /// How grave the diagnostic is.
    pub severity: Severity,
    /// What the diagnostic says.
    pub message: Seq<char>,
    /// More on the matter, if anything.
    pub help: Option<Seq<char>>,
    /// How to mend what the diagnostic is about, if that is known.
    pub fix: Option<Seq<char>>,
    /// The labels, the primary one first. A highlight is a label with an empty
    /// message.
    pub labels: Seq<LabelView>,
}

/// What a diagnostic holds: the six fields of `wdl_grammar::Diagnostic`, the
/// strings as sequences of characters and each label as its message and span.
pub uninterp spec fn diagnostic_view(diagnostic: Diagnostic) -> DiagnosticView;

/// Calls `Diagnostic::warning`, which makes a diagnostic of severity `Warning`
/// with the given message and with no rule, help, fix or label.
#[verifier::external_body]
pub(crate) fn warning(message: &str) -> (made: Diagnostic)
    ensures
        diagnostic_view(made) == (DiagnosticView {
            rule: None,
            severity: Severity::Warning,
            message: message@,
            help: None,
            fix: None,
            labels: Seq::empty(),
        }),
{
    Diagnostic::warning(message)
}

/// Calls `Diagnostic::with_rule`, which sets the rule of the diagnostic and
/// leaves the other fields as they are.
#[verifier::external_body]
pub(crate) fn with_rule(diagnostic: Diagnostic, rule: &str) -> (made: Diagnostic)
    ensures
        diagnostic_view(made) == (DiagnosticView {
            rule: Some(rule@),
            ..diagnostic_view(diagnostic)
        }),
{
    diagnostic.with_rule(rule)
}

/// Calls `Diagnostic::with_highlight`, which appends a label with an empty
/// message on the given span and leaves the other fields as they are.
#[verifier::external_body]
pub(crate) fn with_highlight(diagnostic: Diagnostic, span: Span) -> (made: Diagnostic)
    ensures
        diagnostic_view(made) == (DiagnosticView {
            labels: diagnostic_view(diagnostic).labels.push(
                LabelView { message: Seq::empty(), span },
            ),
            ..diagnostic_view(diagnostic)
        }),
{
    diagnostic.with_highlight(span)
}

/// Calls `Diagnostic::with_fix`, which sets the suggested fix of the diagnostic
/// and leaves the other fields as they are.
#[verifier::external_body]
pub(crate) fn with_fix(diagnostic: Diagnostic, fix: &str) -> (made: Diagnostic)
    ensures
        diagnostic_view(made) == (DiagnosticView {
            fix: Some(fix@),
            ..diagnostic_view(diagnostic)
        }),
{
    diagnostic.with_fix(fix)
}

} // verus!
