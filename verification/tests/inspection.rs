use call_input_rule::rule::call_input_unnecessary;
use call_input_rule::rule::CallInputUnnecessaryRule;
use call_input_rule::syntax::find_input_keyword;
use call_input_rule::syntax::is_input_keyword;
use call_input_rule::syntax::Child;
use call_input_rule::version::input_keyword_is_optional;
use wdl_analysis::Diagnostics;
use wdl_analysis::VisitReason;
use wdl_ast::version::V1;
use wdl_ast::Severity;
use wdl_ast::Span;
use wdl_ast::SupportedVersion;
use wdl_ast::SyntaxKind;

fn rule_for(version: SupportedVersion) -> CallInputUnnecessaryRule {
    let mut rule = CallInputUnnecessaryRule::default();
    let mut diagnostics = Diagnostics::default();
    rule.document(&mut diagnostics, VisitReason::Enter, version);
    assert!(diagnostics.is_empty());
    rule
}

/// The elements of `call foo { input: x = 1 }`, written out by hand.
fn with_keyword() -> Vec<Child> {
    vec![
        Child { kind: SyntaxKind::CallKeyword, span: Span::new(0, 4) },
        Child { kind: SyntaxKind::Whitespace, span: Span::new(4, 1) },
        Child { kind: SyntaxKind::CallTargetNode, span: Span::new(5, 3) },
        Child { kind: SyntaxKind::Whitespace, span: Span::new(8, 1) },
        Child { kind: SyntaxKind::OpenBrace, span: Span::new(9, 1) },
        Child { kind: SyntaxKind::Whitespace, span: Span::new(10, 1) },
        Child { kind: SyntaxKind::InputKeyword, span: Span::new(11, 5) },
        Child { kind: SyntaxKind::Colon, span: Span::new(16, 1) },
        Child { kind: SyntaxKind::Whitespace, span: Span::new(17, 1) },
        Child { kind: SyntaxKind::CallInputItemNode, span: Span::new(18, 5) },
        Child { kind: SyntaxKind::Whitespace, span: Span::new(23, 1) },
        Child { kind: SyntaxKind::CloseBrace, span: Span::new(24, 1) },
    ]
}

/// The elements of `call foo { x = 1 }`, written out by hand.
fn without_keyword() -> Vec<Child> {
    vec![
        Child { kind: SyntaxKind::CallKeyword, span: Span::new(0, 4) },
        Child { kind: SyntaxKind::Whitespace, span: Span::new(4, 1) },
        Child { kind: SyntaxKind::CallTargetNode, span: Span::new(5, 3) },
        Child { kind: SyntaxKind::Whitespace, span: Span::new(8, 1) },
        Child { kind: SyntaxKind::OpenBrace, span: Span::new(9, 1) },
        Child { kind: SyntaxKind::Whitespace, span: Span::new(10, 1) },
        Child { kind: SyntaxKind::CallInputItemNode, span: Span::new(11, 5) },
        Child { kind: SyntaxKind::Whitespace, span: Span::new(16, 1) },
        Child { kind: SyntaxKind::CloseBrace, span: Span::new(17, 1) },
    ]
}

#[test]
fn keyword_is_optional_from_1_2_on() {
    assert!(!input_keyword_is_optional(SupportedVersion::V1(V1::Zero)));
    assert!(!input_keyword_is_optional(SupportedVersion::V1(V1::One)));
    assert!(input_keyword_is_optional(SupportedVersion::V1(V1::Two)));
    assert!(input_keyword_is_optional(SupportedVersion::V1(V1::Three)));
}

#[test]
fn gate_agrees_with_the_order_of_versions() {
    for version in [
        SupportedVersion::V1(V1::Zero),
        SupportedVersion::V1(V1::One),
        SupportedVersion::V1(V1::Two),
        SupportedVersion::V1(V1::Three),
    ] {
        assert_eq!(
            input_keyword_is_optional(version),
            version >= SupportedVersion::V1(V1::Two),
            "{version}"
        );
        assert_eq!(
            input_keyword_is_optional(version),
            !(version <= SupportedVersion::V1(V1::One)),
            "{version}"
        );
    }
}

#[test]
fn only_the_input_keyword_is_an_input_keyword() {
    assert!(is_input_keyword(&Child { kind: SyntaxKind::InputKeyword, span: Span::new(3, 5) }));
    for kind in [
        SyntaxKind::InputSectionNode,
        SyntaxKind::CallInputItemNode,
        SyntaxKind::OutputKeyword,
        SyntaxKind::CallKeyword,
        SyntaxKind::Ident,
        SyntaxKind::Colon,
        SyntaxKind::Whitespace,
        SyntaxKind::Comment,
    ] {
        assert!(!is_input_keyword(&Child { kind, span: Span::new(3, 5) }), "{kind:?}");
    }
}

#[test]
fn finds_the_keyword_among_the_children() {
    assert_eq!(find_input_keyword(&with_keyword()), Some(Span::new(11, 5)));
}

#[test]
fn finds_nothing_without_the_keyword() {
    assert_eq!(find_input_keyword(&without_keyword()), None);
}

#[test]
fn finds_nothing_among_no_children() {
    assert_eq!(find_input_keyword(&[]), None);
}

#[test]
fn finds_the_first_of_several_keywords() {
    let children = [
        Child { kind: SyntaxKind::OpenBrace, span: Span::new(0, 1) },
        Child { kind: SyntaxKind::InputKeyword, span: Span::new(1, 5) },
        Child { kind: SyntaxKind::Colon, span: Span::new(6, 1) },
        Child { kind: SyntaxKind::InputKeyword, span: Span::new(7, 5) },
        Child { kind: SyntaxKind::InputKeyword, span: Span::new(12, 5) },
    ];
    assert_eq!(find_input_keyword(&children), Some(Span::new(1, 5)));
}

#[test]
fn finds_a_keyword_in_first_and_in_last_place() {
    let first = [
        Child { kind: SyntaxKind::InputKeyword, span: Span::new(20, 5) },
        Child { kind: SyntaxKind::Colon, span: Span::new(25, 1) },
    ];
    assert_eq!(find_input_keyword(&first), Some(Span::new(20, 5)));
    let last = [
        Child { kind: SyntaxKind::Colon, span: Span::new(25, 1) },
        Child { kind: SyntaxKind::InputKeyword, span: Span::new(30, 5) },
    ];
    assert_eq!(find_input_keyword(&last), Some(Span::new(30, 5)));
}

#[test]
fn diagnostic_is_a_warning_on_the_keyword() {
    let diagnostic = call_input_unnecessary(Span::new(11, 5));
    assert_eq!(diagnostic.severity(), Severity::Warning);
    assert_eq!(
        diagnostic.message(),
        "the 'input:' keyword is unnecessary for WDL version 1.2 and later"
    );
    assert_eq!(diagnostic.rule(), Some("CallInputUnnecessary"));
    assert_eq!(diagnostic.fix(), Some("remove the 'input:' keyword from the call statement"));
    let labels: Vec<_> = diagnostic.labels().collect();
    assert_eq!(labels.len(), 1);
    assert_eq!(labels[0].span(), Span::new(11, 5));
    assert_eq!(labels[0].message(), "");
}

#[test]
fn diagnostic_equals_the_one_built_by_hand() {
    let expected = wdl_ast::Diagnostic::warning(
        "the 'input:' keyword is unnecessary for WDL version 1.2 and later",
    )
    .with_rule("CallInputUnnecessary")
    .with_highlight(Span::new(40, 5))
    .with_fix("remove the 'input:' keyword from the call statement");
    assert_eq!(call_input_unnecessary(Span::new(40, 5)), expected);
    assert_ne!(call_input_unnecessary(Span::new(41, 5)), expected);
}

#[test]
fn diagnostic_carries_the_identifier_of_the_rule() {
    let rule = CallInputUnnecessaryRule::default();
    let diagnostic = call_input_unnecessary(Span::new(0, 5));
    assert_eq!(diagnostic.rule(), Some(rule.id()));
}

#[test]
fn a_new_rule_looks_at_nothing() {
    let rule = CallInputUnnecessaryRule::default();
    assert!(!rule.looks_at(VisitReason::Enter));
    assert!(!rule.looks_at(VisitReason::Exit));
}

#[test]
fn looks_only_on_entering_and_only_from_1_2_on() {
    for (version, expected) in [
        (SupportedVersion::V1(V1::Zero), false),
        (SupportedVersion::V1(V1::One), false),
        (SupportedVersion::V1(V1::Two), true),
        (SupportedVersion::V1(V1::Three), true),
    ] {
        let rule = rule_for(version);
        assert_eq!(rule.looks_at(VisitReason::Enter), expected, "{version}");
        assert!(!rule.looks_at(VisitReason::Exit), "{version}");
    }
}

#[test]
fn leaving_the_document_records_nothing() {
    let mut rule = CallInputUnnecessaryRule::default();
    let mut diagnostics = Diagnostics::default();
    rule.document(&mut diagnostics, VisitReason::Exit, SupportedVersion::V1(V1::Two));
    assert!(!rule.looks_at(VisitReason::Enter));
    assert!(diagnostics.is_empty());
}

#[test]
fn leaving_the_document_keeps_what_was_recorded() {
    let mut rule = rule_for(SupportedVersion::V1(V1::Two));
    let mut diagnostics = Diagnostics::default();
    rule.document(&mut diagnostics, VisitReason::Exit, SupportedVersion::V1(V1::Zero));
    assert!(rule.looks_at(VisitReason::Enter));
    let mut old = rule_for(SupportedVersion::V1(V1::Zero));
    old.document(&mut diagnostics, VisitReason::Exit, SupportedVersion::V1(V1::Two));
    assert!(!old.looks_at(VisitReason::Enter));
}

#[test]
fn entering_another_document_records_its_version() {
    let mut rule = rule_for(SupportedVersion::V1(V1::Two));
    let mut diagnostics = Diagnostics::default();
    rule.document(&mut diagnostics, VisitReason::Enter, SupportedVersion::V1(V1::One));
    assert!(!rule.looks_at(VisitReason::Enter));
}

#[test]
fn reset_forgets_the_version() {
    let mut rule = rule_for(SupportedVersion::V1(V1::Three));
    assert!(rule.looks_at(VisitReason::Enter));
    rule.reset();
    assert!(!rule.looks_at(VisitReason::Enter));
    assert!(!rule.looks_at(VisitReason::Exit));
}

#[test]
fn reset_of_a_new_rule_changes_nothing() {
    let mut rule = CallInputUnnecessaryRule::default();
    rule.reset();
    assert!(!rule.looks_at(VisitReason::Enter));
    assert_eq!(format!("{rule:?}"), format!("{:?}", CallInputUnnecessaryRule::default()));
}

#[test]
fn a_checked_call_with_the_keyword_calls_for_one_diagnostic() {
    let rule = rule_for(SupportedVersion::V1(V1::Two));
    assert!(rule.looks_at(VisitReason::Enter));
    let span = find_input_keyword(&with_keyword()).expect("the keyword");
    let diagnostic = call_input_unnecessary(span);
    let spans: Vec<_> = diagnostic.labels().map(|label| label.span()).collect();
    assert_eq!(spans, vec![Span::new(11, 5)]);
}
