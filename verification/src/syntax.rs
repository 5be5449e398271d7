//! A call statement as the rule reads it: the elements directly below it in the
//! syntax tree, each with its kind and its place in the source.

use vstd::prelude::*;
use wdl_ast::v1::CallStatement;
use wdl_ast::AstNode;
use wdl_ast::Span;
use wdl_ast::SyntaxKind;

verus! {

/// The kinds of the tokens and nodes of a syntax tree. The enumeration is
/// declared with its variants, which the verifier reads from `wdl-grammar`
/// itself.
#[verifier::external_type_specification]
pub struct ExSyntaxKind(SyntaxKind);

/// A range of the source text. Its bounds are private to `wdl-grammar`; the
/// rule hands spans on as it got them and never looks inside.
#[verifier::external_type_specification]
#[verifier::external_body]
pub struct ExSpan(Span);

/// A call statement in the syntax tree of a parsed document.
///
/// The node type of `wdl-ast` is generic over a trait of that crate, so the
/// verifier cannot take it as it stands; this holder hides it. To the
/// contracts a call node is an opaque value of which two things are named:
/// the elements directly below it, [`children`], and whether a rule is
/// excepted at it, [`crate::sink::excepted`]. The field is public so that a
/// visitor can wrap the node that a walker hands it.
#[verifier::external_body]
#[derive(Debug)]
pub struct CallNode {
    /// The call statement itself.
    pub syntax: CallStatement,
}

/// One element directly below a node: a token or a child node.
#[derive(Clone, Copy, Debug)]
pub struct Child {
    /// The kind of the element.
    pub kind: SyntaxKind,
    /// The range of the source that the element covers.
    pub span: Span,
}

/// The elements directly below a call statement, tokens and nodes alike, in the
/// order of the source: what `children_with_tokens` of `rowan` walks through,
/// each element taken by its kind and the span of its text range.
pub uninterp spec fn children(node: CallNode) -> Seq<Child>;

/// Calls `SyntaxNode::children_with_tokens` of `rowan` on the node of the call
/// statement and, for each element that it yields, `kind` and `text_range`, the
/// latter turned into a `Span` by the `From` impl of `wdl-grammar`. Nothing is
/// claimed beyond the name: the result is the sequence [`children`], as long as
/// the tree is not edited in place between two calls.
#[verifier::external_body]
pub(crate) fn children_of(node: &CallNode) -> (found: Vec<Child>)
    ensures
        found@ == children(*node),
{
    node.syntax
        .inner()
        .children_with_tokens()
        .map(|element| Child { kind: element.kind(), span: Span::from(element.text_range()) })
        .collect()
}

/// Whether the element at `index` is an `input` keyword and none before it is.
pub open spec fn is_first_input_keyword(children: Seq<Child>, index: int) -> bool {
    &&& 0 <= index < children.len()
    &&& children[index].kind == SyntaxKind::InputKeyword
    &&& forall|earlier: int|
        0 <= earlier < index ==> children[earlier].kind != SyntaxKind::InputKeyword
}

/// Whether any of the elements is an `input` keyword.
pub open spec fn has_input_keyword(children: Seq<Child>) -> bool {
    exists|index: int|
        0 <= index < children.len() && #[trigger] children[index].kind
            == SyntaxKind::InputKeyword
}

/// The span of the first `input` keyword among the elements, if there is one.
pub open spec fn first_input_keyword(children: Seq<Child>) -> Option<Span> {
    if exists|index: int| is_first_input_keyword(children, index) {
        Some(children[choose|index: int| is_first_input_keyword(children, index)].span)
    } else {
        None
    }
}

/// The first `input` keyword is found exactly when there is an `input` keyword
/// at all, and no two positions are the first.
pub proof fn lemma_first_input_keyword(children: Seq<Child>)
    ensures
        has_input_keyword(children) <==> first_input_keyword(children) is Some,
        forall|a: int, b: int|
            is_first_input_keyword(children, a) && is_first_input_keyword(children, b) ==> a
                == b,
        forall|a: int|
            is_first_input_keyword(children, a) ==> first_input_keyword(children) == Some(
                children[a].span,
            ),
{
    assert forall|a: int, b: int|
        is_first_input_keyword(children, a) && is_first_input_keyword(children, b) implies a
        == b by {
        if a < b {
            assert(children[a].kind != SyntaxKind::InputKeyword);
        } else if b < a {
            assert(children[b].kind != SyntaxKind::InputKeyword);
        }
    }
    if has_input_keyword(children) {
        let some: int = choose|index: int|
            0 <= index < children.len() && #[trigger] children[index].kind
                == SyntaxKind::InputKeyword;
        lemma_least_input_keyword(children, some);
    }
}

/// Below any `input` keyword there is a first one.
proof fn lemma_least_input_keyword(children: Seq<Child>, at: int)
    requires
        0 <= at < children.len(),
        children[at].kind == SyntaxKind::InputKeyword,
    ensures
        exists|index: int| is_first_input_keyword(children, index),
    decreases at,
{
    if exists|earlier: int|
        0 <= earlier < at && #[trigger] children[earlier].kind == SyntaxKind::InputKeyword {
        let earlier: int = choose|earlier: int|
            0 <= earlier < at && #[trigger] children[earlier].kind == SyntaxKind::InputKeyword;
        lemma_least_input_keyword(children, earlier);
    } else {
        assert(is_first_input_keyword(children, at));
    }
}

/// Whether an element is an `input` keyword.
pub fn is_input_keyword(child: &Child) -> (keyword: bool)
    ensures
        keyword == (child.kind == SyntaxKind::InputKeyword),
{
    match child.kind {
        SyntaxKind::InputKeyword => true,
        _ => false,
    }
}

/// Searches the elements below a call statement for the `input` keyword and
/// returns the span of the first one. Only the elements given are looked at,
/// not what lies below them, and the search stops at the first match.
pub fn find_input_keyword(children: &[Child]) -> (found: Option<Span>)
    ensures
        found == first_input_keyword(children@),
        found is Some <==> has_input_keyword(children@),
        forall|index: int|
            is_first_input_keyword(children@, index) ==> found == Some(
                #[trigger] children@[index].span,
            ),
{
    let mut index: usize = 0;
    while index < children.len()
        invariant
            index <= children.len(),
            forall|earlier: int|
                0 <= earlier < index ==> children@[earlier].kind != SyntaxKind::InputKeyword,
        decreases children.len() - index,
    {
        if is_input_keyword(&children[index]) {
            proof {
                assert(is_first_input_keyword(children@, index as int));
                lemma_first_input_keyword(children@);
            }
            return Some(children[index].span);
        }
        index += 1;
    }
    proof {
        lemma_first_input_keyword(children@);
    }
    None
}

} // verus!
