//! The rule itself: the version it keeps while a document is visited, what it
//! does when the walker calls it, and what it tells a registry about itself.

use vstd::prelude::*;
use wdl_analysis::Diagnostics;
use wdl_analysis::VisitReason;
use wdl_ast::Diagnostic;
use wdl_ast::Severity;
use wdl_ast::Span;
use wdl_ast::SupportedVersion;
use wdl_ast::SyntaxKind;

use crate::diagnostic::diagnostic_view;
use crate::diagnostic::warning;
use crate::diagnostic::with_fix;
use crate::diagnostic::with_highlight;
use crate::diagnostic::with_rule;
use crate::diagnostic::DiagnosticView;
use crate::diagnostic::LabelView;
use crate::sink::collected;
use crate::sink::exceptable_add;
use crate::sink::excepted;
use crate::sink::kinds_of;
use crate::syntax::children;
use crate::syntax::children_of;
use crate::syntax::find_input_keyword;
use crate::syntax::first_input_keyword;
use crate::syntax::has_input_keyword;
use crate::syntax::is_first_input_keyword;
use crate::syntax::lemma_first_input_keyword;
use crate::syntax::CallNode;
use crate::syntax::Child;
use crate::tags::Tag;
use crate::tags::TagSet;
use crate::version::input_keyword_is_optional;
use crate::version::keyword_is_optional;

verus! {

/// Why the walker calls: it visits each node twice, on entering it and on
/// leaving it. The enumeration is declared with its two variants, which the
/// verifier reads from `wdl-analysis` itself.
#[verifier::external_type_specification]
pub struct ExVisitReason(VisitReason);

/// The identifier of the rule. Diagnostics carry it, and the exceptions that a
/// document's author writes name the rule by it.
pub const ID: &'static str = "CallInputUnnecessary";

/// What a diagnostic of the rule says.
pub const MESSAGE: &'static str =
    "the 'input:' keyword is unnecessary for WDL version 1.2 and later";

/// The fix that a diagnostic of the rule suggests.
pub const FIX: &'static str = "remove the 'input:' keyword from the call statement";

/// The short description of the rule.
pub const DESCRIPTION: &'static str =
    "Ensures that the 'input:' keyword is not used in call statements when WDL version is 1.2 or later.";

/// The long explanation of the rule.
pub const EXPLANATION: &'static str =
    "Starting with WDL version 1.2, the 'input:' keyword in call statements is optional. The specification change (openwdl/wdl#524) allows call inputs to be specified directly within the braces without the 'input:' prefix, resulting in cleaner and more concise syntax.This rule encourages adoption of the newer, simpler syntax when using WDL 1.2 or later.";

/// The diagnostic of the rule for an `input` keyword at `span`: a warning that
/// carries the rule's identifier, its message and its fix, and highlights the
/// keyword and nothing else.
pub open spec fn unnecessary_input(span: Span) -> DiagnosticView {
    DiagnosticView {
        rule: Some(ID@),
        severity: Severity::Warning,
        message: MESSAGE@,
        help: None,
        fix: Some(FIX@),
        labels: seq![LabelView { message: Seq::empty(), span }],
    }
}

/// The kinds of node at which an exception for the rule is honoured: the
/// version statement, the call statement and the workflow definition.
pub open spec fn exceptable_kinds() -> Seq<SyntaxKind> {
    seq![
        SyntaxKind::VersionStatementNode,
        SyntaxKind::CallStatementNode,
        SyntaxKind::WorkflowDefinitionNode,
    ]
}

/// The version that the rule holds after the walker has called it for the
/// document: the document's version after an entering call, and what it held
/// before after a leaving one.
pub open spec fn after_document(
    recorded: Option<SupportedVersion>,
    reason: VisitReason,
    version: SupportedVersion,
) -> Option<SupportedVersion> {
    if reason == VisitReason::Enter {
        Some(version)
    } else {
        recorded
    }
}

/// Whether the rule looks at a call statement at all: the walker is entering
/// it, a version has been recorded, and in that version the keyword is
/// optional.
pub open spec fn inspects(recorded: Option<SupportedVersion>, reason: VisitReason) -> bool {
    &&& reason == VisitReason::Enter
    &&& recorded matches Some(version)
    &&& keyword_is_optional(version)
}

/// What the rule finds at a call statement with the given children, before any
/// exception is looked for: a diagnostic on the first `input` keyword where the
/// rule looks and there is one, nothing otherwise.
pub open spec fn finding(
    recorded: Option<SupportedVersion>,
    reason: VisitReason,
    children: Seq<Child>,
) -> Option<DiagnosticView> {
    if inspects(recorded, reason) {
        match first_input_keyword(children) {
            Some(span) => Some(unnecessary_input(span)),
            None => None,
        }
    } else {
        None
    }
}

/// Whether the document excepts this rule at the call statement.
pub open spec fn is_excepted(node: CallNode) -> bool {
    excepted(node, ID@, Some(exceptable_kinds()))
}

/// What a call of [`CallInputUnnecessaryRule::call_statement`] adds to the
/// collection: the finding, unless the document excepts the rule at the node.
pub open spec fn reported(
    recorded: Option<SupportedVersion>,
    reason: VisitReason,
    node: CallNode,
) -> Option<DiagnosticView> {
    if is_excepted(node) {
        None
    } else {
        finding(recorded, reason, children(node))
    }
}

/// Whatever the rule reports is a warning under the rule's own identifier with
/// exactly one label, and that label is a highlight of an `input` keyword
/// directly below the call statement.
pub proof fn law_reports_are_the_rules_own(
    recorded: Option<SupportedVersion>,
    reason: VisitReason,
    node: CallNode,
)
    ensures
        reported(recorded, reason, node) matches Some(diagnostic) ==> {
            &&& diagnostic.rule == Some(ID@)
            &&& diagnostic.severity == Severity::Warning
            &&& diagnostic.labels.len() == 1
            &&& diagnostic.labels[0].message.len() == 0
            &&& exists|index: int|
                0 <= index < children(node).len() && #[trigger] children(node)[index].kind
                    == SyntaxKind::InputKeyword && children(node)[index].span
                    == diagnostic.labels[0].span
        },
{
    if reported(recorded, reason, node) is Some {
        let below = children(node);
        lemma_first_input_keyword(below);
        let first: int = choose|index: int| is_first_input_keyword(below, index);
        assert(below[first].kind == SyntaxKind::InputKeyword);
    }
}

/// A collection after something was, or was not, added to it.
pub open spec fn with_report(
    before: Seq<DiagnosticView>,
    report: Option<DiagnosticView>,
) -> Seq<DiagnosticView> {
    match report {
        Some(diagnostic) => before.push(diagnostic),
        None => before,
    }
}

/// Makes the diagnostic for an `input` keyword at `span`.
pub fn call_input_unnecessary(span: Span) -> (diagnostic: Diagnostic)
    ensures
        diagnostic_view(diagnostic) == unnecessary_input(span),
{
    with_fix(with_highlight(with_rule(warning(MESSAGE), ID), span), FIX)
}

/// Detects unnecessary use of the `input:` keyword in call statements.
///
/// One instance serves one document at a time. It starts out knowing no
/// version, learns the document's version when the walker enters the document,
/// and forgets it again on [`reset`](CallInputUnnecessaryRule::reset).
#[derive(Clone, Copy, Debug)]
pub struct CallInputUnnecessaryRule {
    /// The version of the document being visited, once it is known.
    version: Option<SupportedVersion>,
}

impl Default for CallInputUnnecessaryRule {
    /// A rule that knows no version yet.
    fn default() -> (rule: Self)
        ensures
            rule.recorded() is None,
    {
        CallInputUnnecessaryRule { version: None }
    }
}

impl CallInputUnnecessaryRule {
    /// The version that the rule has recorded, if any.
    pub closed spec fn recorded(&self) -> Option<SupportedVersion> {
        self.version
    }

    /// The identifier of the rule.
    pub fn id(&self) -> (id: &'static str)
        ensures
            id@ == ID@,
    {
        ID
    }

    /// A short description of the rule.
    pub fn description(&self) -> (text: &'static str)
        ensures
            text@ == DESCRIPTION@,
    {
        DESCRIPTION
    }

    /// A longer explanation of the rule.
    pub fn explanation(&self) -> (text: &'static str)
        ensures
            text@ == EXPLANATION@,
    {
        EXPLANATION
    }

    /// The tags that classify the rule: it is about a deprecated form.
    pub fn tags(&self) -> (tags: TagSet)
        ensures
            tags@ == set![Tag::Deprecated],
    {
        TagSet::new(&[Tag::Deprecated])
    }

    /// The kinds of node at which an exception for the rule is honoured.
    pub fn exceptable_nodes(&self) -> (kinds: Option<&'static [SyntaxKind]>)
        ensures
            kinds_of(kinds) == Some(exceptable_kinds()),
    {
        Some(
            &[
                SyntaxKind::VersionStatementNode,
                SyntaxKind::CallStatementNode,
                SyntaxKind::WorkflowDefinitionNode,
            ],
        )
    }

    /// The identifiers of related rules: there are none.
    pub fn related_rules(&self) -> (related: &'static [&'static str])
        ensures
            related@.len() == 0,
    {
        &[]
    }

    /// Brings the rule back to where it started, with no version recorded, so
    /// that it can serve the next document.
    pub fn reset(&mut self)
        ensures
            final(self).recorded() is None,
    {
        *self = CallInputUnnecessaryRule::default();
    }

    /// Takes note of the document's version when the walker enters the
    /// document. The call on leaving it changes nothing, and neither call
    /// submits a diagnostic.
    pub fn document(
        &mut self,
        diagnostics: &mut Diagnostics,
        reason: VisitReason,
        version: SupportedVersion,
    )
        ensures
            final(self).recorded() == after_document(old(self).recorded(), reason, version),
            collected(*final(diagnostics)) == collected(*old(diagnostics)),
    {
        match reason {
            VisitReason::Enter => {
                self.version = Some(version);
            },
            VisitReason::Exit => {},
        }
    }

    /// Tells whether the rule looks at a call statement that the walker visits
    /// for `reason`: only on entering it, and only in a document whose recorded
    /// version is 1.2 or later.
    pub fn looks_at(&self, reason: VisitReason) -> (looks: bool)
        ensures
            looks == inspects(self.recorded(), reason),
    {
        match reason {
            VisitReason::Exit => false,
            VisitReason::Enter => match self.version {
                Some(version) => input_keyword_is_optional(version),
                None => false,
            },
        }
    }

    /// Visits a call statement. Where the walker is entering it, the document's
    /// version is 1.2 or later and the statement holds the `input` keyword
    /// directly below it, one diagnostic that highlights the first such
    /// keyword is submitted to the collection, which drops it if the document
    /// excepts the rule at the statement. In every other case nothing is
    /// submitted. The rule itself is left as it was.
    pub fn call_statement(
        &mut self,
        diagnostics: &mut Diagnostics,
        reason: VisitReason,
        call: &CallNode,
    )
        ensures
            *final(self) == *old(self),
            collected(*final(diagnostics)) == with_report(
                collected(*old(diagnostics)),
                reported(old(self).recorded(), reason, *call),
            ),
            // What was collected before stays, in its order.
            collected(*old(diagnostics)).is_prefix_of(collected(*final(diagnostics))),
            // Nothing is added on leaving a node.
            reason != VisitReason::Enter
                ==> collected(*final(diagnostics)) == collected(*old(diagnostics)),
            // Nothing is added before a version is known.
            old(self).recorded() is None
                ==> collected(*final(diagnostics)) == collected(*old(diagnostics)),
            // Nothing is added in a document of a version before 1.2.
            (old(self).recorded() matches Some(version) && !keyword_is_optional(version))
                ==> collected(*final(diagnostics)) == collected(*old(diagnostics)),
            // A statement without the keyword adds nothing.
            !has_input_keyword(children(*call))
                ==> collected(*final(diagnostics)) == collected(*old(diagnostics)),
            // An exception for the rule holds back whatever was found.
            is_excepted(*call)
                ==> collected(*final(diagnostics)) == collected(*old(diagnostics)),
            // Where the rule looks and is not excepted, a statement with the
            // keyword adds exactly one diagnostic, which highlights the first
            // keyword and nothing else.
            forall|index: int|
                inspects(old(self).recorded(), reason) && !is_excepted(*call)
                    && is_first_input_keyword(children(*call), index)
                    ==> collected(*final(diagnostics)) == collected(*old(diagnostics)).push(
                    unnecessary_input(#[trigger] children(*call)[index].span),
                ),
    {
        if !self.looks_at(reason) {
            return ;
        }
        let below = children_of(call);
        if let Some(span) = find_input_keyword(below.as_slice()) {
            exceptable_add(
                diagnostics,
                call_input_unnecessary(span),
                call,
                &self.exceptable_nodes(),
            );
        }
    }
}

} // verus!
