//! The search of the ecosystem-scoped database for one program: the candidates are
//! asked one at a time, and the first answer with findings ends the search.

use crate::ecosystem::guessed;
use crate::finding::{opt_text, ScanResult, ScanResultView};
use crate::osv::{
    answered, findings_from_reply, is_answered, sweep_findings, OsvQuery, OsvQueryView, OsvReply,
    OsvReplyView,
};
use crate::plan::{candidates_of, pairs, plan_for, plan_of, Candidate, CandidateView};
use crate::program::{InstalledProgram, InstalledProgramView};
use crate::text::lowercase_of;
use vstd::prelude::*;
use vstd::string::StringExecFns;

verus! {

/// The seconds that one query may take before it counts as failed.
pub const OSV_TIMEOUT_SECONDS: u64 = 10;

/// The state of the search for one program: the candidates, how many of them the
/// guess gave, and which one is being asked.
#[derive(Debug)]
pub struct OsvSweep {
    version: Option<String>,
    plan: Vec<Candidate>,
    likely: usize,
    cursor: usize,
    incomplete: bool,
}

/// The state of a search as plain values.
pub struct OsvSweepView {
    /// The version sent with each query; none where it is unknown or empty.
    pub version: Option<Seq<char>>,
    pub plan: Seq<CandidateView>,
    pub likely: nat,
    /// The index of the candidate whose answer is awaited.
    pub cursor: nat,
    /// Whether a query so far went unanswered: it failed, was refused, or its answer
    /// could not be read.
    pub incomplete: bool,
}

impl View for OsvSweep {
    type V = OsvSweepView;

    closed spec fn view(&self) -> OsvSweepView {
        OsvSweepView {
            version: opt_text(self.version),
            plan: candidates_of(self.plan@),
            likely: self.likely as nat,
            cursor: self.cursor as nat,
            incomplete: self.incomplete,
        }
    }
}

/// What the search does next.
#[derive(Clone, Debug, PartialEq, Eq)]
pub enum OsvStep {
    /// Send this query and hand back the reply.
    Ask(OsvQuery),
    /// The search is over. `matched` is the candidate whose answer held the findings
    /// of a vulnerable result. `incomplete` tells that some query went unanswered, so
    /// that a result without findings rests on fewer answers than questions.
    Done { result: ScanResult, matched: Option<Candidate>, incomplete: bool },
}

/// A step as plain values.
pub enum OsvStepView {
    Ask(OsvQueryView),
    Done { result: ScanResultView, matched: Option<CandidateView>, incomplete: bool },
}

impl View for OsvStep {
    type V = OsvStepView;

    open spec fn view(&self) -> OsvStepView {
        match self {
            OsvStep::Ask(q) => OsvStepView::Ask(q@),
            OsvStep::Done { result, matched, incomplete } => OsvStepView::Done {
                result: result@,
                matched: match matched {
                    Some(c) => Some(c@),
                    None => None,
                },
                incomplete: *incomplete,
            },
        }
    }
}

/// The version to send with a query: that of the program, unless it is unknown or
/// empty.
pub open spec fn query_version(version: Option<Seq<char>>) -> Option<Seq<char>> {
    match version {
        Some(v) => if v.len() == 0 {
            None
        } else {
            Some(v)
        },
        None => None,
    }
}

/// The query for one candidate.
pub open spec fn query_for(c: CandidateView, version: Option<Seq<char>>) -> OsvQueryView {
    OsvQueryView { name: c.name, ecosystem: c.ecosystem, version }
}

/// The reason given where ecosystems were asked but none was a likely match.
pub open spec fn unverified_reason() -> Seq<char> {
    "checked but not able to verify ecosystem"@
}

/// The reason given where no ecosystem could be asked.
pub open spec fn unknown_reason() -> Seq<char> {
    "not in any known package ecosystem"@
}

/// The result of a search in which no answer held a finding: safe where the guess
/// gave an ecosystem to ask, and else unchecked.
pub open spec fn exhausted_result(s: OsvSweepView) -> ScanResultView {
    if s.likely > 0 && s.plan.len() > 0 {
        ScanResultView::Safe
    } else if s.plan.len() > 0 {
        ScanResultView::Unchecked(unverified_reason())
    } else {
        ScanResultView::Unchecked(unknown_reason())
    }
}

/// The state in which the search for a program starts.
pub open spec fn sweep_start(program: InstalledProgramView) -> OsvSweepView {
    OsvSweepView {
        version: query_version(program.version),
        plan: plan_of(program.name),
        likely: guessed(lowercase_of(program.name)).len(),
        cursor: 0,
        incomplete: false,
    }
}

/// The first step of a search in the state given.
pub open spec fn first_step(s: OsvSweepView) -> OsvStepView {
    if s.cursor < s.plan.len() {
        OsvStepView::Ask(query_for(s.plan[s.cursor as int], s.version))
    } else {
        OsvStepView::Done { result: exhausted_result(s), matched: None, incomplete: s.incomplete }
    }
}

/// The state after a reply, and the step that follows it. A reply with findings ends
/// the search; a reply without, or a failed query, moves it to the next candidate.
/// A query that went unanswered is remembered.
pub open spec fn after_reply(s: OsvSweepView, reply: OsvReplyView) -> (OsvSweepView, OsvStepView) {
    let seen = OsvSweepView { incomplete: s.incomplete || !answered(reply), ..s };
    if s.cursor >= s.plan.len() {
        (s, first_step(s))
    } else if sweep_findings(reply).len() > 0 {
        (
            seen,
            OsvStepView::Done {
                result: ScanResultView::Vulnerable(sweep_findings(reply)),
                matched: Some(s.plan[s.cursor as int]),
                incomplete: seen.incomplete,
            },
        )
    } else {
        let next = OsvSweepView { cursor: s.cursor + 1, ..seen };
        (next, first_step(next))
    }
}

/// The step with which a search ends that stands in state `s` and is handed the
/// replies given, one after the other; nothing where the replies run out first.
pub open spec fn sweep_end(s: OsvSweepView, replies: Seq<OsvReplyView>) -> Option<OsvStepView>
    decreases replies.len(),
{
    if replies.len() == 0 {
        None
    } else {
        let (next, step) = after_reply(s, replies[0]);
        if step is Done {
            Some(step)
        } else {
            sweep_end(next, replies.subrange(1, replies.len() as int))
        }
    }
}

/// The step with which the search for a program ends whose queries are answered by
/// the replies given, in the order asked.
pub open spec fn osv_end(program: InstalledProgramView, replies: Seq<OsvReplyView>) -> Option<
    OsvStepView,
> {
    let start = sweep_start(program);
    if first_step(start) is Done {
        Some(first_step(start))
    } else {
        sweep_end(start, replies)
    }
}

/// The result of the search for a program whose queries are answered by the replies
/// given, in the order asked.
pub open spec fn osv_outcome(program: InstalledProgramView, replies: Seq<OsvReplyView>) -> Option<
    ScanResultView,
> {
    match osv_end(program, replies) {
        Some(OsvStepView::Done { result, .. }) => Some(result),
        _ => None,
    }
}

/// Whether no reply among those given holds a finding.
pub open spec fn all_quiet(replies: Seq<OsvReplyView>) -> bool {
    forall|i: int| 0 <= i < replies.len() ==> sweep_findings(#[trigger] replies[i]).len() == 0
}

/// Whether one of the first `n` replies is no answer.
pub open spec fn unanswered_within(replies: Seq<OsvReplyView>, n: int) -> bool
    decreases replies.len(),
{
    if n <= 0 || replies.len() == 0 {
        false
    } else {
        !answered(replies[0]) || unanswered_within(
            replies.subrange(1, replies.len() as int),
            n - 1,
        )
    }
}

/// A reply among the first `n` that is no answer makes them unanswered, and only
/// such a reply does.
pub proof fn lemma_unanswered_within(replies: Seq<OsvReplyView>, n: int)
    ensures
        unanswered_within(replies, n) <==> exists|i: int|
            0 <= i < n && i < replies.len() && !answered(#[trigger] replies[i]),
    decreases replies.len(),
{
    if n > 0 && replies.len() > 0 {
        let rest = replies.subrange(1, replies.len() as int);
        lemma_unanswered_within(rest, n - 1);
        if unanswered_within(replies, n) {
            if answered(replies[0]) {
                let j = choose|j: int|
                    0 <= j < n - 1 && j < rest.len() && !answered(#[trigger] rest[j]);
                assert(rest[j] == replies[j + 1]);
            }
        }
        if exists|i: int| 0 <= i < n && i < replies.len() && !answered(#[trigger] replies[i]) {
            let i = choose|i: int|
                0 <= i < n && i < replies.len() && !answered(#[trigger] replies[i]);
            if i > 0 {
                assert(rest[i - 1] == replies[i]);
            }
        }
    }
}

/// A search that meets no finding ends once every candidate was asked, with the
/// result for an exhausted search, and tells whether a query went unanswered.
pub proof fn lemma_quiet_sweep(s: OsvSweepView, replies: Seq<OsvReplyView>)
    requires
        s.cursor < s.plan.len(),
        replies.len() >= s.plan.len() - s.cursor,
        all_quiet(replies),
    ensures
        sweep_end(s, replies) == Some(
            OsvStepView::Done {
                result: exhausted_result(s),
                matched: None,
                incomplete: s.incomplete || unanswered_within(replies, s.plan.len() - s.cursor),
            },
        ),
    decreases replies.len(),
{
    let rest = replies.subrange(1, replies.len() as int);
    let next = after_reply(s, replies[0]).0;
    assert(sweep_findings(replies[0]).len() == 0);
    if next.cursor < next.plan.len() {
        assert forall|i: int| 0 <= i < rest.len() implies sweep_findings(#[trigger] rest[i]).len()
            == 0 by {
            assert(rest[i] == replies[i + 1]);
        }
        lemma_quiet_sweep(next, rest);
    } else {
        assert(!unanswered_within(rest, 0));
    }
}

/// A search ends at the latest when every candidate was asked, whatever the replies.
pub proof fn law_search_ends(s: OsvSweepView, replies: Seq<OsvReplyView>)
    requires
        s.cursor < s.plan.len(),
        replies.len() >= s.plan.len() - s.cursor,
    ensures
        sweep_end(s, replies) is Some,
    decreases replies.len(),
{
    let next = after_reply(s, replies[0]).0;
    if sweep_findings(replies[0]).len() == 0 && next.cursor < next.plan.len() {
        law_search_ends(next, replies.subrange(1, replies.len() as int));
    }
}

/// Where the name of a program holds no keyword of any ecosystem and no query finds
/// anything, the search ends unchecked, not safe: no ecosystem was a likely match.
pub proof fn law_unmatched_name_ends_unchecked(
    program: InstalledProgramView,
    replies: Seq<OsvReplyView>,
)
    requires
        guessed(lowercase_of(program.name)).len() == 0,
        all_quiet(replies),
        replies.len() >= plan_of(program.name).len(),
    ensures
        osv_outcome(program, replies) == Some(exhausted_result(sweep_start(program))),
        osv_outcome(program, replies)->0 is Unchecked,
{
    let start = sweep_start(program);
    if start.cursor < start.plan.len() {
        lemma_quiet_sweep(start, replies);
    }
}

/// Where the name of a program holds a keyword of some ecosystem and no query finds
/// anything, the search ends safe. It ends safe too where queries went unanswered,
/// and says so then, and only then: a safe result that is not marked incomplete
/// rests on an answer to every query.
pub proof fn law_matched_name_ends_safe(program: InstalledProgramView, replies: Seq<OsvReplyView>)
    requires
        guessed(lowercase_of(program.name)).len() > 0,
        all_quiet(replies),
        replies.len() >= plan_of(program.name).len(),
    ensures
        osv_outcome(program, replies) == Some(ScanResultView::Safe),
        osv_end(program, replies) matches Some(OsvStepView::Done { incomplete, .. })
            && (incomplete <==> exists|i: int|
            0 <= i < plan_of(program.name).len() && !answered(#[trigger] replies[i])),
{
    let start = sweep_start(program);
    let name = program.name;
    let lowered = lowercase_of(name);
    assert(plan_of(name).len() >= pairs(name, guessed(lowered)).len());
    lemma_quiet_sweep(start, replies);
    lemma_unanswered_within(replies, plan_of(name).len() as int);
}

/// A search ends vulnerable only with a finding, and unchecked only with a reason.
pub proof fn law_sweep_results_well_formed(s: OsvSweepView, reply: OsvReplyView)
    ensures
        first_step(s) matches OsvStepView::Done { result, .. } ==> result.well_formed(),
        after_reply(s, reply).1 matches OsvStepView::Done { result, .. } ==> result.well_formed(),
{
    lemma_reasons_not_empty();
}

/// Both reasons for an unchecked result are texts of some length.
pub proof fn lemma_reasons_not_empty()
    ensures
        unverified_reason().len() > 0,
        unknown_reason().len() > 0,
{
    reveal_strlit("checked but not able to verify ecosystem");
    reveal_strlit("not in any known package ecosystem");
}

/// A copy of a candidate.
pub fn copy_candidate(c: &Candidate) -> (r: Candidate)
    ensures
        r@ == c@,
{
    Candidate { name: c.name.clone(), ecosystem: c.ecosystem }
}

/// The query for one candidate, with the version given.
pub fn query_of(c: &Candidate, version: &Option<String>) -> (q: OsvQuery)
    ensures
        q@ == query_for(c@, opt_text(*version)),
{
    let version = match version {
        Some(v) => Some(v.clone()),
        None => None,
    };
    OsvQuery { name: c.name.clone(), ecosystem: c.ecosystem, version }
}

impl OsvSweep {
    /// The result where no answer held a finding.
    fn exhausted(&self) -> (r: ScanResult)
        ensures
            r@ == exhausted_result(self@),
    {
        if self.likely > 0 && self.plan.len() > 0 {
            ScanResult::Safe
        } else if self.plan.len() > 0 {
            ScanResult::Unchecked(String::from_str("checked but not able to verify ecosystem"))
        } else {
            ScanResult::Unchecked(String::from_str("not in any known package ecosystem"))
        }
    }

    /// The step to take in this state: the query for the candidate at the cursor, or
    /// the end of the search where no candidate is left.
    pub fn first(&self) -> (step: OsvStep)
        ensures
            step@ == first_step(self@),
    {
        if self.cursor < self.plan.len() {
            OsvStep::Ask(query_of(&self.plan[self.cursor], &self.version))
        } else {
            OsvStep::Done { result: self.exhausted(), matched: None, incomplete: self.incomplete }
        }
    }

    /// Takes the reply to the query last asked and says what to do next.
    pub fn advance(&mut self, reply: &OsvReply) -> (step: OsvStep)
        ensures
            (final(self)@, step@) == after_reply(old(self)@, reply@),
    {
        if self.cursor >= self.plan.len() {
            return self.first();
        }
        if !is_answered(reply) {
            self.incomplete = true;
        }
        match findings_from_reply(reply) {
            Ok(found) => {
                if found.len() > 0 {
                    let matched = copy_candidate(&self.plan[self.cursor]);
                    return OsvStep::Done {
                        result: ScanResult::Vulnerable(found),
                        matched: Some(matched),
                        incomplete: self.incomplete,
                    };
                }
            },
            Err(_) => {},
        }
        self.cursor = self.cursor + 1;
        self.first()
    }
}

/// Starts the search for one program: lays out the candidates for its name and says
/// what to ask first.
pub fn search_vulns_osv(program: &InstalledProgram) -> (r: (OsvSweep, OsvStep))
    ensures
        r.0@ == sweep_start(program@),
        r.1@ == first_step(r.0@),
{
    let (plan, likely) = plan_for(program.name.as_str());
    let version = match &program.version {
        Some(v) => if v.as_str().is_empty() {
            None
        } else {
            Some(v.clone())
        },
        None => None,
    };
    let sweep = OsvSweep { version, plan, likely, cursor: 0, incomplete: false };
    let step = sweep.first();
    (sweep, step)
}

} // verus!
