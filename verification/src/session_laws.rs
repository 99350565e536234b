//! What holds of every run of a session, whatever the databases answer.

use crate::ecosystem::guessed;
use crate::finding::{rendered_all, text_or_empty, FindingView, ScanResultView};
use crate::nvd::{
    search_result, search_url, search_words, NvdErrorView, NvdReplyView, NVD_DELAY_SECONDS,
    NVD_TIMEOUT_SECONDS,
};
use crate::osv::{answered, sweep_findings, OsvReplyView};
use crate::plan::plan_of;
use crate::program::InstalledProgramView;
use crate::session::{
    ActionView, EventView, Misuse, Phase, ScanMode, SessionView, VerdictView,
};
use crate::sweep::{all_quiet, lemma_reasons_not_empty};
use crate::text::lowercase_of;
use vstd::prelude::*;

verus! {

/// A session is well formed at the start of a run and stays so with every step: the
/// four counts add up to the programs processed.
pub proof fn law_counts_add_up(s: SessionView, program: InstalledProgramView, event: EventView)
    requires
        s.well_formed(),
    ensures
        SessionView::fresh(s.mode).well_formed(),
        s.processed < u64::MAX ==> s.begun(program).0.well_formed(),
        s.stepped(event).0.well_formed(),
{
}

/// Whether `after` counts one program more than `before`, under the outcome given
/// and under no other, and has added to the report the rendered findings of a
/// vulnerable outcome, in order, and nothing else.
pub open spec fn counted_once(
    before: SessionView,
    after: SessionView,
    outcome: ScanResultView,
) -> bool {
    &&& after.processed == before.processed + 1
    &&& after.vulnerable == before.vulnerable + if outcome is Vulnerable {
        1nat
    } else {
        0nat
    }
    &&& after.safe == before.safe + if outcome is Safe {
        1nat
    } else {
        0nat
    }
    &&& after.unchecked == before.unchecked + if outcome is Unchecked {
        1nat
    } else {
        0nat
    }
    &&& after.failed == before.failed + if outcome is Failed {
        1nat
    } else {
        0nat
    }
    &&& after.report == before.report + match outcome {
        ScanResultView::Vulnerable(fs) => rendered_all(fs),
        _ => Seq::empty(),
    }
    &&& after.phase == Phase::Idle
}

/// Whether `after` counts and reports what `before` does.
pub open spec fn counted_nothing(before: SessionView, after: SessionView) -> bool {
    &&& after.processed == before.processed
    &&& after.vulnerable == before.vulnerable
    &&& after.safe == before.safe
    &&& after.unchecked == before.unchecked
    &&& after.failed == before.failed
    &&& after.report == before.report
}

/// Every program is counted once, when it is done and under its outcome; the report
/// grows then by the findings of a vulnerable outcome, in order; and no other step
/// counts or reports anything.
pub proof fn law_each_program_counts_once(
    s: SessionView,
    program: InstalledProgramView,
    event: EventView,
)
    ensures
        match s.begun(program).1 {
            Ok(ActionView::Finish(v)) => counted_once(s, s.begun(program).0, v.outcome),
            _ => counted_nothing(s, s.begun(program).0),
        },
        match s.stepped(event).1 {
            Ok(ActionView::Finish(v)) => counted_once(s, s.stepped(event).0, v.outcome),
            _ => counted_nothing(s, s.stepped(event).0),
        },
{
    assert(s.report + Seq::<Seq<char>>::empty() =~= s.report);
}

/// Whenever a program is done, its outcome is well formed: a vulnerable one names at
/// least one finding, and an unchecked one gives a reason.
pub proof fn law_outcomes_well_formed(
    s: SessionView,
    program: InstalledProgramView,
    event: EventView,
)
    ensures
        s.begun(program).1 matches Ok(ActionView::Finish(v)) ==> v.outcome.well_formed(),
        s.stepped(event).1 matches Ok(ActionView::Finish(v)) ==> v.outcome.well_formed(),
{
    lemma_reasons_not_empty();
}

/// A reply of the ecosystem-scoped database that holds findings ends the program at
/// once, in every mode: the outcome is vulnerable with exactly those findings, the
/// candidate asked is named, and the keyword-searched database is not consulted.
pub proof fn law_findings_short_circuit(s: SessionView, reply: OsvReplyView)
    requires
        s.phase == Phase::TryOsv,
        s.sweep is Some,
        s.sweep->0.cursor < s.sweep->0.plan.len(),
        sweep_findings(reply).len() > 0,
    ensures
        s.stepped(EventView::OsvReplied(reply)) == (
            s.tally(ScanResultView::Vulnerable(sweep_findings(reply))),
            Ok::<ActionView, Misuse>(
                ActionView::Finish(
                    VerdictView {
                        outcome: ScanResultView::Vulnerable(sweep_findings(reply)),
                        matched: Some(s.sweep->0.plan[s.sweep->0.cursor as int]),
                        failure: None,
                        incomplete: s.sweep->0.incomplete || !answered(reply),
                    },
                ),
            ),
        ),
        s.stepped(EventView::OsvReplied(reply)).0.nvd_calls == s.nvd_calls,
        s.stepped(EventView::OsvReplied(reply)).0.report == s.report + rendered_all(
            sweep_findings(reply),
        ),
{
}

/// What a step says of the pacing of the keyword-searched database. The count of
/// searches never falls. A search is asked for without a delay before it only where
/// it is the first of the run and the other database came first; every other search
/// is asked for in answer to the delay having passed. And a delay is asked for only
/// on turning to the keyword-searched database, for the fixed number of seconds.
pub open spec fn paced(
    before: SessionView,
    after: SessionView,
    waited: bool,
    action: ActionView,
) -> bool {
    &&& after.nvd_calls >= before.nvd_calls
    &&& action matches ActionView::QueryNvd { timeout_seconds, .. } ==> {
        &&& timeout_seconds == NVD_TIMEOUT_SECONDS
        &&& after.phase == Phase::FallbackSearch
        &&& if waited && before.phase == Phase::FallbackPacing {
            after.nvd_calls == before.nvd_calls
        } else {
            before.nvd_calls == 0 && after.nvd_calls == 1 && before.mode != ScanMode::NvdOnly
        }
    }
    &&& action is Wait ==> {
        &&& action->seconds == NVD_DELAY_SECONDS
        &&& after.phase == Phase::FallbackPacing
        &&& after.nvd_calls == before.nvd_calls + 1
        &&& before.nvd_calls > 0 || before.mode == ScanMode::NvdOnly
    }
}

/// Every step of a session keeps the pacing: the first search of the keyword-searched
/// database in a run that falls back to it follows no delay, and each later one
/// follows the fixed delay.
pub proof fn law_searches_are_paced(
    s: SessionView,
    program: InstalledProgramView,
    event: EventView,
)
    ensures
        s.begun(program).1 matches Ok(action) ==> paced(s, s.begun(program).0, false, action),
        s.stepped(event).1 matches Ok(action) ==> paced(
            s,
            s.stepped(event).0,
            event is Waited,
            action,
        ),
{
}

/// The session after the events given, handed back one after the other, and the
/// answer to the last of them; `last` where there is none.
pub open spec fn fed(
    s: SessionView,
    last: Option<Result<ActionView, Misuse>>,
    events: Seq<EventView>,
) -> (SessionView, Option<Result<ActionView, Misuse>>)
    decreases events.len(),
{
    if events.len() == 0 {
        (s, last)
    } else {
        let (next, answer) = s.stepped(events[0]);
        fed(next, Some(answer), events.subrange(1, events.len() as int))
    }
}

/// The replies of the ecosystem-scoped database as events, in order.
pub open spec fn osv_events(replies: Seq<OsvReplyView>) -> Seq<EventView> {
    Seq::new(replies.len(), |i: int| EventView::OsvReplied(replies[i]))
}

/// Handing back two runs of events one after the other is handing back their
/// concatenation.
pub proof fn lemma_fed_concat(
    s: SessionView,
    last: Option<Result<ActionView, Misuse>>,
    a: Seq<EventView>,
    b: Seq<EventView>,
)
    ensures
        fed(s, last, a + b) == fed(fed(s, last, a).0, fed(s, last, a).1, b),
    decreases a.len(),
{
    if a.len() == 0 {
        assert(a + b =~= b);
    } else {
        let (next, answer) = s.stepped(a[0]);
        assert((a + b)[0] == a[0]);
        assert((a + b).subrange(1, (a + b).len() as int) =~= a.subrange(1, a.len() as int) + b);
        lemma_fed_concat(next, Some(answer), a.subrange(1, a.len() as int), b);
    }
}

/// In a run that falls back, a search that meets no finding and has no likely
/// ecosystem ends in the turn to the keyword-searched database.
proof fn lemma_quiet_search_falls_back(
    s: SessionView,
    last: Option<Result<ActionView, Misuse>>,
    replies: Seq<OsvReplyView>,
)
    requires
        s.mode == ScanMode::Hybrid,
        s.phase == Phase::TryOsv,
        s.sweep is Some,
        s.sweep->0.likely == 0,
        s.sweep->0.cursor < s.sweep->0.plan.len(),
        replies.len() == s.sweep->0.plan.len() - s.sweep->0.cursor,
        all_quiet(replies),
    ensures
        fed(s, last, osv_events(replies)) == (
            s.fallback().0,
            Some(Ok::<ActionView, Misuse>(s.fallback().1)),
        ),
    decreases replies.len(),
{
    let events = osv_events(replies);
    let rest = replies.subrange(1, replies.len() as int);
    let (next, answer) = s.stepped(events[0]);
    assert(sweep_findings(replies[0]).len() == 0);
    assert(events.subrange(1, events.len() as int) =~= osv_events(rest));
    if rest.len() > 0 {
        assert forall|i: int| 0 <= i < rest.len() implies sweep_findings(#[trigger] rest[i]).len()
            == 0 by {
            assert(rest[i] == replies[i + 1]);
        }
        lemma_quiet_search_falls_back(next, Some(answer), rest);
        assert(next.fallback() == s.fallback());
    } else {
        assert(osv_events(rest) =~= Seq::<EventView>::empty());
        assert(fed(next, Some(answer), osv_events(rest)) == (next, Some(answer)));
        assert(next == s.fallback().0);
        assert(answer == Ok::<ActionView, Misuse>(s.fallback().1));
    }
    assert(fed(s, last, events) == fed(next, Some(answer), osv_events(rest)));
}

/// The events of a program for which the ecosystem-scoped database fails on every
/// query and the keyword-searched one then answers: the replies, the delay having
/// passed where one is due, and the answer.
pub open spec fn fallback_events(
    s: SessionView,
    replies: Seq<OsvReplyView>,
    answer: NvdReplyView,
) -> Seq<EventView> {
    osv_events(replies) + if s.nvd_calls > 0 {
        seq![EventView::Waited, EventView::NvdReplied(answer)]
    } else {
        seq![EventView::NvdReplied(answer)]
    }
}

/// Where the ecosystem-scoped database is out of reach for every query of a program
/// whose name holds no keyword, and the keyword-searched database then reports no
/// vulnerability, the program ends safe and counts as checked by fallback.
pub proof fn law_unreachable_osv_falls_back(
    s: SessionView,
    program: InstalledProgramView,
    replies: Seq<OsvReplyView>,
    answer: NvdReplyView,
)
    requires
        s.well_formed(),
        s.mode == ScanMode::Hybrid,
        s.phase == Phase::Idle,
        s.processed < u64::MAX,
        guessed(lowercase_of(program.name)).len() == 0,
        replies.len() == plan_of(program.name).len(),
        forall|i: int| 0 <= i < replies.len() ==> #[trigger] replies[i] is Failed,
        search_result(s.begun(program).0.url, answer) == Ok::<Seq<FindingView>, NvdErrorView>(
            Seq::empty(),
        ),
    ensures
        ({
            let (end, last) = fed(
                s.begun(program).0,
                Some(s.begun(program).1),
                fallback_events(s, replies, answer),
            );
            &&& last == Some(
                Ok::<ActionView, Misuse>(
                    ActionView::Finish(
                        VerdictView {
                            outcome: ScanResultView::Safe,
                            matched: None,
                            failure: None,
                            incomplete: false,
                        },
                    ),
                ),
            )
            &&& end.phase == Phase::Idle
            &&& end.safe == s.safe + 1
            &&& end.processed == s.processed + 1
            &&& end.nvd_calls == s.nvd_calls + 1
            &&& end.report == s.report
        }),
{
    let (begun, first) = s.begun(program);
    let named = SessionView {
        url: search_url(search_words(program.name, text_or_empty(program.version))),
        ..s
    };
    let tail = if s.nvd_calls > 0 {
        seq![EventView::Waited, EventView::NvdReplied(answer)]
    } else {
        seq![EventView::NvdReplied(answer)]
    };
    assert(all_quiet(replies)) by {
        assert forall|i: int| 0 <= i < replies.len() implies sweep_findings(
            #[trigger] replies[i],
        ).len() == 0 by {
            assert(replies[i] is Failed);
        }
    }
    lemma_fed_concat(begun, Some(first), osv_events(replies), tail);
    let (turned, asked) = fed(begun, Some(first), osv_events(replies));
    if replies.len() > 0 {
        lemma_quiet_search_falls_back(begun, Some(first), replies);
        assert(begun.fallback() == named.fallback());
    } else {
        assert(osv_events(replies) =~= Seq::<EventView>::empty());
    }
    assert(turned == named.fallback().0);
    let done = Ok::<ActionView, Misuse>(
        ActionView::Finish(
            VerdictView {
                outcome: ScanResultView::Safe,
                matched: None,
                failure: None,
                incomplete: false,
            },
        ),
    );
    if s.nvd_calls > 0 {
        let searching = SessionView { phase: Phase::FallbackSearch, ..turned };
        let after_wait = tail.subrange(1, 2);
        assert(turned.stepped(tail[0]).0 == searching);
        assert(after_wait[0] == EventView::NvdReplied(answer));
        assert(searching.stepped(after_wait[0]) == (searching.tally(ScanResultView::Safe), done));
        assert(after_wait.subrange(1, 1) =~= Seq::<EventView>::empty());
        assert(fed(searching.tally(ScanResultView::Safe), Some(done), after_wait.subrange(1, 1))
            == (searching.tally(ScanResultView::Safe), Some(done)));
        assert(fed(searching, Some(turned.stepped(tail[0]).1), after_wait) == (
            searching.tally(ScanResultView::Safe),
            Some(done),
        ));
        assert(fed(turned, asked, tail) == (searching.tally(ScanResultView::Safe), Some(done)));
    } else {
        assert(turned.stepped(tail[0]) == (turned.tally(ScanResultView::Safe), done));
        assert(tail.subrange(1, 1) =~= Seq::<EventView>::empty());
        assert(fed(turned.tally(ScanResultView::Safe), Some(done), tail.subrange(1, 1)) == (
            turned.tally(ScanResultView::Safe),
            Some(done),
        ));
        assert(fed(turned, asked, tail) == (turned.tally(ScanResultView::Safe), Some(done)));
    }
}

} // verus!
