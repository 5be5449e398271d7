//! A traversal as the rule sees it: the calls that a walker makes, one after
//! another, and what the rule has recorded and reported after them. The
//! functions here say what holds of whole traversals, given what each call
//! does on its own.

use vstd::prelude::*;
use wdl_analysis::Diagnostics;
use wdl_analysis::VisitReason;
use wdl_ast::SupportedVersion;

use crate::diagnostic::DiagnosticView;
use crate::rule::after_document;
use crate::rule::reported;
use crate::rule::with_report;
use crate::rule::CallInputUnnecessaryRule;
use crate::sink::collected;
use crate::syntax::CallNode;
use crate::version::keyword_is_optional;

verus! {

/// One call of the walker.
pub enum Event {
    /// The walker visits the document, whose version it has resolved.
    Document { reason: VisitReason, version: SupportedVersion },
    /// The walker visits a call statement.
    CallStatement { reason: VisitReason, node: CallNode },
}

/// The version that the rule holds after one call, as
/// [`CallInputUnnecessaryRule::document`] and
/// [`CallInputUnnecessaryRule::call_statement`] leave it.
pub open spec fn recorded_after_event(
    recorded: Option<SupportedVersion>,
    event: Event,
) -> Option<SupportedVersion> {
    match event {
        Event::Document { reason, version } => after_document(recorded, reason, version),
        Event::CallStatement { .. } => recorded,
    }
}

/// What one call adds to the collection.
pub open spec fn report_of_event(
    recorded: Option<SupportedVersion>,
    event: Event,
) -> Option<DiagnosticView> {
    match event {
        Event::Document { .. } => None,
        Event::CallStatement { reason, node } => reported(recorded, reason, node),
    }
}

/// The version that the rule holds after a sequence of calls.
pub open spec fn recorded_after(
    recorded: Option<SupportedVersion>,
    events: Seq<Event>,
) -> Option<SupportedVersion>
    decreases events.len(),
{
    if events.len() == 0 {
        recorded
    } else {
        recorded_after_event(recorded_after(recorded, events.drop_last()), events.last())
    }
}

/// What the collection holds after a sequence of calls, when it held `before`
/// at the start.
pub open spec fn collected_after(
    recorded: Option<SupportedVersion>,
    before: Seq<DiagnosticView>,
    events: Seq<Event>,
) -> Seq<DiagnosticView>
    decreases events.len(),
{
    if events.len() == 0 {
        before
    } else {
        with_report(
            collected_after(recorded, before, events.drop_last()),
            report_of_event(recorded_after(recorded, events.drop_last()), events.last()),
        )
    }
}

/// What the call at `index` of a traversal adds to the collection, given all
/// the calls before it.
pub open spec fn report_at(
    recorded: Option<SupportedVersion>,
    events: Seq<Event>,
    index: int,
) -> Option<DiagnosticView> {
    report_of_event(recorded_after(recorded, events.take(index)), events[index])
}

impl CallInputUnnecessaryRule {
    /// Hands one call of the walker to the method that it is for.
    pub fn visit(&mut self, diagnostics: &mut Diagnostics, event: &Event)
        ensures
            final(self).recorded() == recorded_after_event(old(self).recorded(), *event),
            collected(*final(diagnostics)) == with_report(
                collected(*old(diagnostics)),
                report_of_event(old(self).recorded(), *event),
            ),
    {
        match event {
            Event::Document { reason, version } => {
                self.document(diagnostics, *reason, *version);
            },
            Event::CallStatement { reason, node } => {
                self.call_statement(diagnostics, *reason, node);
            },
        }
    }

    /// Hands a whole traversal to the rule, call by call.
    pub fn visit_all(&mut self, diagnostics: &mut Diagnostics, events: &[Event])
        ensures
            final(self).recorded() == recorded_after(old(self).recorded(), events@),
            collected(*final(diagnostics)) == collected_after(
                old(self).recorded(),
                collected(*old(diagnostics)),
                events@,
            ),
    {
        let mut next: usize = 0;
        proof {
            assert(events@.take(0) =~= Seq::<Event>::empty());
        }
        while next < events.len()
            invariant
                next <= events.len(),
                self.recorded() == recorded_after(old(self).recorded(), events@.take(next as int)),
                collected(*diagnostics) == collected_after(
                    old(self).recorded(),
                    collected(*old(diagnostics)),
                    events@.take(next as int),
                ),
            decreases events.len() - next,
        {
            proof {
                assert(events@.take(next + 1).drop_last() =~= events@.take(next as int));
                assert(events@.take(next + 1).last() == events@[next as int]);
            }
            self.visit(diagnostics, &events[next]);
            next += 1;
        }
        proof {
            assert(events@.take(next as int) =~= events@);
        }
    }
}

/// A traversal only ever adds at the end: what the collection held at the start,
/// and what it holds after any number of the calls, stays in place.
pub proof fn law_collection_grows(
    recorded: Option<SupportedVersion>,
    before: Seq<DiagnosticView>,
    events: Seq<Event>,
    shorter: int,
    longer: int,
)
    requires
        0 <= shorter <= longer <= events.len(),
    ensures
        before.is_prefix_of(collected_after(recorded, before, events.take(shorter))),
        collected_after(recorded, before, events.take(shorter)).is_prefix_of(
            collected_after(recorded, before, events.take(longer)),
        ),
    decreases longer,
{
    if longer == 0 {
        assert(events.take(0) =~= Seq::<Event>::empty());
    } else if shorter == longer {
        law_collection_grows(recorded, before, events, shorter - 1, longer - 1);
        assert(events.take(longer).drop_last() =~= events.take(longer - 1));
    } else {
        law_collection_grows(recorded, before, events, shorter, longer - 1);
        assert(events.take(longer).drop_last() =~= events.take(longer - 1));
    }
}

/// The diagnostic that the call at `index` adds stands right behind everything
/// that the calls before it have left in the collection.
pub proof fn law_report_position(
    recorded: Option<SupportedVersion>,
    before: Seq<DiagnosticView>,
    events: Seq<Event>,
    index: int,
)
    requires
        0 <= index < events.len(),
        report_at(recorded, events, index) is Some,
    ensures
        collected_after(recorded, before, events.take(index + 1)) == collected_after(
            recorded,
            before,
            events.take(index),
        ).push(report_at(recorded, events, index).unwrap()),
        collected_after(recorded, before, events.take(index)).len() < collected_after(
            recorded,
            before,
            events,
        ).len(),
        collected_after(recorded, before, events)[collected_after(
            recorded,
            before,
            events.take(index),
        ).len() as int] == report_at(recorded, events, index).unwrap(),
{
    assert(events.take(index + 1).drop_last() =~= events.take(index));
    assert(events.take(index + 1).last() == events[index]);
    law_collection_grows(recorded, before, events, index + 1, events.len() as int);
    assert(events.take(events.len() as int) =~= events);
    let upto = collected_after(recorded, before, events.take(index + 1));
    let all = collected_after(recorded, before, events);
    let position = collected_after(recorded, before, events.take(index)).len() as int;
    assert(all.subrange(0, upto.len() as int)[position] == all[position]);
}

/// Whether the version is one in which the rule stays silent: none at all, or
/// one before the threshold.
pub open spec fn is_exempt(recorded: Option<SupportedVersion>) -> bool {
    recorded matches Some(version) ==> !keyword_is_optional(version)
}

/// Whether every document that the traversal enters declares a version before
/// the threshold.
pub open spec fn enters_only_exempt_documents(events: Seq<Event>) -> bool {
    forall|index: int|
        0 <= index < events.len() ==> (#[trigger] events[index] matches Event::Document {
            reason,
            version,
        } ==> reason == VisitReason::Enter ==> !keyword_is_optional(version))
}

/// Silence before the threshold: a traversal of documents that all declare a
/// version before 1.2 adds nothing to the collection, whatever the call
/// statements hold, as long as the rule did not start out with a later version
/// left over.
pub proof fn law_silent_before_threshold(
    recorded: Option<SupportedVersion>,
    before: Seq<DiagnosticView>,
    events: Seq<Event>,
)
    requires
        is_exempt(recorded),
        enters_only_exempt_documents(events),
    ensures
        collected_after(recorded, before, events) == before,
        is_exempt(recorded_after(recorded, events)),
    decreases events.len(),
{
    if events.len() > 0 {
        let earlier = events.drop_last();
        assert forall|index: int| 0 <= index < earlier.len() implies (
        #[trigger] earlier[index] matches Event::Document { reason, version } ==> reason
            == VisitReason::Enter ==> !keyword_is_optional(version)) by {
            assert(earlier[index] == events[index]);
        }
        law_silent_before_threshold(recorded, before, earlier);
        assert(events.last() == events[events.len() - 1]);
    }
}

/// Order: where two calls of a traversal each add a diagnostic, the diagnostic
/// of the earlier call stands before that of the later call in the collection.
pub proof fn law_document_order(
    recorded: Option<SupportedVersion>,
    before: Seq<DiagnosticView>,
    events: Seq<Event>,
    earlier: int,
    later: int,
)
    requires
        0 <= earlier < later < events.len(),
        report_at(recorded, events, earlier) is Some,
        report_at(recorded, events, later) is Some,
    ensures
        ({
            let all = collected_after(recorded, before, events);
            let first = collected_after(recorded, before, events.take(earlier)).len() as int;
            let second = collected_after(recorded, before, events.take(later)).len() as int;
            &&& 0 <= first < second < all.len()
            &&& all[first] == report_at(recorded, events, earlier).unwrap()
            &&& all[second] == report_at(recorded, events, later).unwrap()
        }),
{
    law_report_position(recorded, before, events, earlier);
    law_report_position(recorded, before, events, later);
    law_collection_grows(recorded, before, events, earlier + 1, later);
}

/// Running again: a rule that has been reset reports on a traversal what any
/// other rule that has been reset reports on it, diagnostic for diagnostic,
/// whatever either of them has visited before.
pub proof fn law_same_after_reset(
    first: CallInputUnnecessaryRule,
    second: CallInputUnnecessaryRule,
    before: Seq<DiagnosticView>,
    events: Seq<Event>,
)
    requires
        first.recorded() is None,
        second.recorded() is None,
    ensures
        collected_after(first.recorded(), before, events) == collected_after(
            second.recorded(),
            before,
            events,
        ),
        recorded_after(first.recorded(), events) == recorded_after(second.recorded(), events),
{
}

/// What a traversal adds does not depend on what the collection held before
/// it: the collection afterwards is what it held, followed by what the same
/// traversal leaves in an empty collection.
pub proof fn law_reports_independent_of_collection(
    recorded: Option<SupportedVersion>,
    before: Seq<DiagnosticView>,
    events: Seq<Event>,
)
    ensures
        collected_after(recorded, before, events) == before + collected_after(
            recorded,
            Seq::empty(),
            events,
        ),
    decreases events.len(),
{
    if events.len() == 0 {
        assert(before + Seq::<DiagnosticView>::empty() =~= before);
    } else {
        law_reports_independent_of_collection(recorded, before, events.drop_last());
        let earlier = collected_after(recorded, Seq::empty(), events.drop_last());
        match report_of_event(recorded_after(recorded, events.drop_last()), events.last()) {
            Some(diagnostic) => {
                assert((before + earlier).push(diagnostic) =~= before + earlier.push(diagnostic));
            },
            None => {},
        }
    }
}

} // verus!
