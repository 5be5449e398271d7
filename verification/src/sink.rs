//! The collection that diagnostics are submitted to, and the one way in which
//! the rule writes to it: an addition that an exception in the document can
//! hold back.

use vstd::prelude::*;
use wdl_analysis::Diagnostics;
use wdl_ast::AstNode;
use wdl_ast::Diagnostic;
use wdl_ast::SyntaxElement;
use wdl_ast::SyntaxKind;

use crate::diagnostic::diagnostic_view;
use crate::diagnostic::DiagnosticView;
use crate::syntax::CallNode;

verus! {

/// The diagnostics of one document, as `wdl-analysis` collects them while the
/// document is visited.
#[verifier::external_type_specification]
#[verifier::external_body]
pub struct ExDiagnostics(Diagnostics);

/// What a collection holds: its diagnostics, each by its fields, in the order in
/// which they were added.
pub uninterp spec fn collected(diagnostics: Diagnostics) -> Seq<DiagnosticView>;

/// Whether the document excepts a rule at a node. This is the answer that
/// `Diagnostics::exceptable_add` of `wdl-analysis` comes to: it goes from the
/// node up through its ancestors, passes over those whose kind is not among
/// `kinds` (with `None` it passes over none), and asks each of the others
/// whether an `#@ except:` comment right before it lists the rule.
pub uninterp spec fn excepted(
    node: CallNode,
    rule: Seq<char>,
    kinds: Option<Seq<SyntaxKind>>,
) -> bool;

/// The kinds of a list handed to the collection, as a sequence.
pub open spec fn kinds_of(kinds: Option<&'static [SyntaxKind]>) -> Option<Seq<SyntaxKind>> {
    match kinds {
        Some(list) => Some(list@),
        None => None,
    }
}

/// Calls `Diagnostics::exceptable_add` with the node of the call statement as
/// the element. By its source the call leaves the collection as it is where the
/// diagnostic names a rule that is excepted at the node, and pushes the
/// diagnostic at the end otherwise, a diagnostic without a rule always; nothing
/// already collected is touched.
#[verifier::external_body]
pub(crate) fn exceptable_add(
    diagnostics: &mut Diagnostics,
    diagnostic: Diagnostic,
    node: &CallNode,
    exceptable_nodes: &Option<&'static [SyntaxKind]>,
)
    ensures
        collected(*final(diagnostics)) == if diagnostic_view(diagnostic).rule matches Some(rule)
            && excepted(*node, rule, kinds_of(*exceptable_nodes)) {
            collected(*old(diagnostics))
        } else {
            collected(*old(diagnostics)).push(diagnostic_view(diagnostic))
        },
{
    diagnostics.exceptable_add(
        diagnostic,
        SyntaxElement::from(node.syntax.inner().clone()),
        exceptable_nodes,
    )
}

} // verus!
