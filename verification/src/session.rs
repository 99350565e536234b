//! A scan run: for each program in turn, the ecosystem-scoped database is searched
//! first and the keyword-searched one only where the first could not classify the
//! program. The session decides; the caller performs each action and hands back what
//! happened.

use crate::finding::{
    findings_of, rendered, rendered_all, text_or_empty, ErrorKind, Finding, FindingView,
    ScanResult, ScanResultView,
};
use crate::nvd::{
    query_words, request_url, search_result, search_url, search_vulns_nvd, search_words,
    NvdError, NvdErrorView, NvdReply, NvdReplyView, NVD_DELAY_SECONDS, NVD_TIMEOUT_SECONDS,
};
use crate::osv::{OsvQuery, OsvQueryView, OsvReply, OsvReplyView};
use crate::plan::{Candidate, CandidateView};
use crate::program::{InstalledProgram, InstalledProgramView};
use crate::session_laws::law_counts_add_up;
use crate::sweep::{
    after_reply, first_step, search_vulns_osv, sweep_start, OsvStep, OsvStepView, OsvSweep,
    OsvSweepView, OSV_TIMEOUT_SECONDS,
};
use crate::text::strings_of;
use vstd::prelude::*;
use vstd::string::StringExecFns;

verus! {

/// Which databases a run consults.
#[derive(Clone, Copy, Debug, PartialEq, Eq, Structural)]
pub enum ScanMode {
    /// The ecosystem-scoped database first, the keyword-searched one for programs
    /// that the first could not classify.
    Hybrid,
    /// The ecosystem-scoped database alone.
    OsvOnly,
    /// The keyword-searched database alone.
    NvdOnly,
}

impl ScanMode {
    /// The milliseconds to pause after each program: a short while where only the
    /// ecosystem-scoped database is asked, to go easy on it, and none otherwise.
    pub open spec fn spec_pause_millis(self) -> u64 {
        if self == ScanMode::OsvOnly {
            100
        } else {
            0
        }
    }

    /// The milliseconds to pause after each program.
    pub fn pause_millis(&self) -> (ms: u64)
        ensures
            ms == self.spec_pause_millis(),
    {
        match self {
            ScanMode::OsvOnly => 100,
            _ => 0,
        }
    }
}

/// Where the session stands with the program at hand.
#[derive(Clone, Copy, Debug, PartialEq, Eq, Structural)]
pub enum Phase {
    /// No program is at hand: the last one is done and the next has not started.
    Idle,
    /// The reply to a query of the ecosystem-scoped database is awaited.
    TryOsv,
    /// The keyword-searched database is up next, once the pacing delay has passed.
    FallbackPacing,
    /// The reply of the keyword-searched database is awaited.
    FallbackSearch,
}

/// What the caller hands back to the session.
#[derive(Clone, Debug, PartialEq, Eq)]
pub enum Event {
    /// The reply to the query last asked of the ecosystem-scoped database.
    OsvReplied(OsvReply),
    /// That database cannot be asked at all.
    OsvUnavailable(ErrorKind),
    /// The delay asked for has passed.
    Waited,
    /// The reply to the search of the keyword-searched database.
    NvdReplied(NvdReply),
}

/// An event as plain values.
pub enum EventView {
    OsvReplied(OsvReplyView),
    OsvUnavailable(ErrorKind),
    Waited,
    NvdReplied(NvdReplyView),
}

impl View for Event {
    type V = EventView;

    open spec fn view(&self) -> EventView {
        match self {
            Event::OsvReplied(r) => EventView::OsvReplied(r@),
            Event::OsvUnavailable(e) => EventView::OsvUnavailable(*e),
            Event::Waited => EventView::Waited,
            Event::NvdReplied(r) => EventView::NvdReplied(r@),
        }
    }
}

/// How the scan of one program ended.
#[derive(Clone, Debug, PartialEq, Eq)]
pub struct Verdict {
    pub outcome: ScanResult,
    /// The name and ecosystem under which the findings of a vulnerable outcome were
    /// listed, where the ecosystem-scoped database gave them.
    pub matched: Option<Candidate>,
    /// What is known of a failed search of the keyword-searched database.
    pub failure: Option<NvdError>,
    /// Whether a query of the ecosystem-scoped database went unanswered before it
    /// gave this outcome: a safe outcome then rests on fewer answers than questions.
    pub incomplete: bool,
}

/// A verdict as plain values.
pub struct VerdictView {
    pub outcome: ScanResultView,
    pub matched: Option<CandidateView>,
    pub failure: Option<NvdErrorView>,
    pub incomplete: bool,
}

impl View for Verdict {
    type V = VerdictView;

    open spec fn view(&self) -> VerdictView {
        VerdictView {
            outcome: self.outcome@,
            matched: match self.matched {
                Some(c) => Some(c@),
                None => None,
            },
            failure: match self.failure {
                Some(f) => Some(f@),
                None => None,
            },
            incomplete: self.incomplete,
        }
    }
}

/// What the session asks of the caller.
#[derive(Clone, Debug, PartialEq, Eq)]
pub enum Action {
    /// Send this query to the ecosystem-scoped database, and wait for the reply at
    /// most this many seconds.
    QueryOsv { query: OsvQuery, timeout_seconds: u64 },
    /// Let this many seconds pass.
    Wait { seconds: u64 },
    /// Search the keyword-searched database at this address, for at most this many
    /// seconds.
    QueryNvd { url: String, timeout_seconds: u64 },
    /// The program at hand is done, with this verdict.
    Finish(Verdict),
}

/// An action as plain values.
pub enum ActionView {
    QueryOsv { query: OsvQueryView, timeout_seconds: u64 },
    Wait { seconds: u64 },
    QueryNvd { url: Seq<char>, timeout_seconds: u64 },
    Finish(VerdictView),
}

impl View for Action {
    type V = ActionView;

    open spec fn view(&self) -> ActionView {
        match self {
            Action::QueryOsv { query, timeout_seconds } => ActionView::QueryOsv {
                query: query@,
                timeout_seconds: *timeout_seconds,
            },
            Action::Wait { seconds } => ActionView::Wait { seconds: *seconds },
            Action::QueryNvd { url, timeout_seconds } => ActionView::QueryNvd {
                url: url@,
                timeout_seconds: *timeout_seconds,
            },
            Action::Finish(v) => ActionView::Finish(v@),
        }
    }
}

/// Why the session took no step.
#[derive(Clone, Copy, Debug, PartialEq, Eq, Structural)]
pub enum Misuse {
    /// A program was handed in while another is at hand.
    Busy,
    /// An event was handed back that the session was not waiting for.
    Unexpected,
}

/// What a call of the session gave, as plain values.
pub open spec fn answer_view(r: Result<Action, Misuse>) -> Result<ActionView, Misuse> {
    match r {
        Ok(a) => Ok(a@),
        Err(m) => Err(m),
    }
}

/// A session as plain values.
pub struct SessionView {
    pub mode: ScanMode,
    pub processed: nat,
    pub vulnerable: nat,
    pub safe: nat,
    pub unchecked: nat,
    pub failed: nat,
    /// The searches of the keyword-searched database that were begun.
    pub nvd_calls: nat,
    /// The rendered findings of every vulnerable outcome, in the order of the run.
    pub report: Seq<Seq<char>>,
    pub phase: Phase,
    /// The search of the ecosystem-scoped database for the program at hand.
    pub sweep: Option<OsvSweepView>,
    /// The address of the keyword search for the program at hand.
    pub url: Seq<char>,
}

/// The outcome of a search of the keyword-searched database: safe without findings,
/// vulnerable with findings, failed with the error of a failed search.
pub open spec fn nvd_outcome(found: Result<Seq<FindingView>, NvdErrorView>) -> ScanResultView {
    match found {
        Ok(fs) => if fs.len() == 0 {
            ScanResultView::Safe
        } else {
            ScanResultView::Vulnerable(fs)
        },
        Err(failure) => ScanResultView::Failed(failure.kind),
    }
}

/// The verdict after a search of the keyword-searched database.
pub open spec fn nvd_verdict(found: Result<Seq<FindingView>, NvdErrorView>) -> VerdictView {
    VerdictView {
        outcome: nvd_outcome(found),
        matched: None,
        failure: match found {
            Ok(_) => None,
            Err(failure) => Some(failure),
        },
        incomplete: false,
    }
}

impl SessionView {
    /// The session at the start of a run.
    pub open spec fn fresh(mode: ScanMode) -> SessionView {
        SessionView {
            mode,
            processed: 0,
            vulnerable: 0,
            safe: 0,
            unchecked: 0,
            failed: 0,
            nvd_calls: 0,
            report: Seq::empty(),
            phase: Phase::Idle,
            sweep: None,
            url: Seq::empty(),
        }
    }

    /// The four counts add up to the programs processed, no count outgrows its
    /// counter, and a search was begun for no more programs than were handed in.
    pub open spec fn well_formed(self) -> bool {
        &&& self.processed == self.vulnerable + self.safe + self.unchecked + self.failed
        &&& self.processed <= u64::MAX
        &&& self.phase != Phase::Idle ==> self.processed < u64::MAX
        &&& self.nvd_calls <= self.processed + if self.phase == Phase::FallbackPacing
            || self.phase == Phase::FallbackSearch {
            1nat
        } else {
            0nat
        }
    }

    /// The session with one more program processed and its outcome counted; the
    /// findings of a vulnerable outcome are added to the report as rendered.
    pub open spec fn tally(self, outcome: ScanResultView) -> SessionView {
        let done = SessionView {
            processed: self.processed + 1,
            phase: Phase::Idle,
            sweep: None,
            ..self
        };
        match outcome {
            ScanResultView::Vulnerable(fs) => SessionView {
                vulnerable: self.vulnerable + 1,
                report: self.report + rendered_all(fs),
                ..done
            },
            ScanResultView::Safe => SessionView { safe: self.safe + 1, ..done },
            ScanResultView::Unchecked(_) => SessionView { unchecked: self.unchecked + 1, ..done },
            ScanResultView::Failed(_) => SessionView { failed: self.failed + 1, ..done },
        }
    }

    /// Whether the next search of the keyword-searched database has to wait: always
    /// where that database is the only one, and else unless it is the first search of
    /// the run.
    pub open spec fn must_pace(self) -> bool {
        self.mode == ScanMode::NvdOnly || self.nvd_calls > 0
    }

    /// The turn to the keyword-searched database: one more search is counted, and the
    /// caller is asked to wait where the search has to, and else to search.
    pub open spec fn fallback(self) -> (SessionView, ActionView) {
        let counted = SessionView { nvd_calls: self.nvd_calls + 1, sweep: None, ..self };
        if self.must_pace() {
            (
                SessionView { phase: Phase::FallbackPacing, ..counted },
                ActionView::Wait { seconds: NVD_DELAY_SECONDS },
            )
        } else {
            (
                SessionView { phase: Phase::FallbackSearch, ..counted },
                ActionView::QueryNvd { url: self.url, timeout_seconds: NVD_TIMEOUT_SECONDS },
            )
        }
    }

    /// What follows an outcome of the ecosystem-scoped database: a vulnerable or safe
    /// one ends the program; another one ends it too unless the mode falls back.
    pub open spec fn settle(self, verdict: VerdictView) -> (SessionView, ActionView) {
        let decided = verdict.outcome is Vulnerable || verdict.outcome is Safe;
        if decided || self.mode != ScanMode::Hybrid {
            (self.tally(verdict.outcome), ActionView::Finish(verdict))
        } else {
            self.fallback()
        }
    }

    /// What follows a step of the search of the ecosystem-scoped database.
    pub open spec fn follow(self, sweep: OsvSweepView, step: OsvStepView) -> (
        SessionView,
        ActionView,
    ) {
        match step {
            OsvStepView::Ask(q) => (
                SessionView { phase: Phase::TryOsv, sweep: Some(sweep), ..self },
                ActionView::QueryOsv { query: q, timeout_seconds: OSV_TIMEOUT_SECONDS },
            ),
            OsvStepView::Done { result, matched, incomplete } => self.settle(
                VerdictView { outcome: result, matched, failure: None, incomplete },
            ),
        }
    }

    /// The session after a program is handed in, and what it asks for first.
    pub open spec fn begun(self, program: InstalledProgramView) -> (
        SessionView,
        Result<ActionView, Misuse>,
    ) {
        if self.phase != Phase::Idle {
            (self, Err(Misuse::Busy))
        } else {
            let named = SessionView {
                url: search_url(search_words(program.name, text_or_empty(program.version))),
                ..self
            };
            let (next, action) = if self.mode == ScanMode::NvdOnly {
                named.fallback()
            } else {
                named.follow(sweep_start(program), first_step(sweep_start(program)))
            };
            (next, Ok(action))
        }
    }

    /// The session after an event, and what it asks for next. An event that the
    /// session is not waiting for changes nothing.
    pub open spec fn stepped(self, event: EventView) -> (SessionView, Result<ActionView, Misuse>) {
        match (self.phase, event, self.sweep) {
            (Phase::TryOsv, EventView::OsvReplied(reply), Some(sweep)) => {
                let (moved, step) = after_reply(sweep, reply);
                let (next, action) = self.follow(moved, step);
                (next, Ok(action))
            },
            (Phase::TryOsv, EventView::OsvUnavailable(kind), _) => {
                let (next, action) = self.settle(
                    VerdictView {
                        outcome: ScanResultView::Failed(kind),
                        matched: None,
                        failure: None,
                        incomplete: true,
                    },
                );
                (next, Ok(action))
            },
            (Phase::FallbackPacing, EventView::Waited, _) => (
                SessionView { phase: Phase::FallbackSearch, ..self },
                Ok(ActionView::QueryNvd { url: self.url, timeout_seconds: NVD_TIMEOUT_SECONDS }),
            ),
            (Phase::FallbackSearch, EventView::NvdReplied(reply), _) => {
                let verdict = nvd_verdict(search_result(self.url, reply));
                (self.tally(verdict.outcome), Ok(ActionView::Finish(verdict)))
            },
            _ => (self, Err(Misuse::Unexpected)),
        }
    }
}

/// The counts of a run.
#[derive(Clone, Copy, Debug, PartialEq, Eq, Structural)]
pub struct Summary {
    pub processed: u64,
    pub vulnerable: u64,
    pub safe: u64,
    pub unchecked: u64,
    pub failed: u64,
    /// The programs for which the keyword-searched database was consulted.
    pub checked_via_fallback: u64,
    /// Whether most programs could not be matched to a known ecosystem.
    pub coverage_warning: bool,
}

/// Whether the programs that could not be checked, or those whose lookup failed,
/// outnumber those that were found safe or vulnerable.
pub open spec fn poorly_covered(s: SessionView) -> bool {
    s.unchecked > s.safe + s.vulnerable || s.failed > s.safe + s.vulnerable
}

/// The path of the report file, relative to where the run was started.
pub open spec fn spec_report_path() -> Seq<char> {
    "vulnerable.txt"@
}

/// The path of the report file, relative to where the run was started.
pub fn report_path() -> (path: &'static str)
    ensures
        path@ == spec_report_path(),
{
    "vulnerable.txt"
}

/// The text of the report: each rendered finding, followed by a line break.
pub open spec fn report_text(lines: Seq<Seq<char>>) -> Seq<char>
    decreases lines.len(),
{
    if lines.len() == 0 {
        Seq::empty()
    } else {
        report_text(lines.drop_last()) + lines.last() + "\n"@
    }
}

/// The rendered form of each finding, in order.
pub fn render_all(fs: &Vec<Finding>) -> (lines: Vec<String>)
    ensures
        strings_of(lines@) == rendered_all(findings_of(fs@)),
{
    let mut lines: Vec<String> = Vec::new();
    let mut i: usize = 0;
    while i < fs.len()
        invariant
            i <= fs@.len(),
            lines@.len() == i,
            forall|j: int| 0 <= j < i ==> (#[trigger] lines@[j])@ == rendered(fs@[j]@),
        decreases fs@.len() - i,
    {
        lines.push(fs[i].render());
        i = i + 1;
    }
    proof {
        assert(strings_of(lines@) =~= rendered_all(findings_of(fs@)));
    }
    lines
}

/// The state of a run: the counts, the report, and where the session stands with the
/// program at hand.
#[derive(Debug)]
pub struct ScanSession {
    mode: ScanMode,
    processed: u64,
    vulnerable: u64,
    safe: u64,
    unchecked: u64,
    failed: u64,
    nvd_calls: u64,
    report: Vec<String>,
    phase: Phase,
    sweep: Option<OsvSweep>,
    url: String,
}

impl View for ScanSession {
    type V = SessionView;

    closed spec fn view(&self) -> SessionView {
        SessionView {
            mode: self.mode,
            processed: self.processed as nat,
            vulnerable: self.vulnerable as nat,
            safe: self.safe as nat,
            unchecked: self.unchecked as nat,
            failed: self.failed as nat,
            nvd_calls: self.nvd_calls as nat,
            report: strings_of(self.report@),
            phase: self.phase,
            sweep: match self.sweep {
                Some(sweep) => Some(sweep@),
                None => None,
            },
            url: self.url@,
        }
    }
}

impl ScanSession {
    /// A session at the start of a run.
    pub fn new(mode: ScanMode) -> (s: ScanSession)
        ensures
            s@ == SessionView::fresh(mode),
            s@.well_formed(),
    {
        let s = ScanSession {
            mode,
            processed: 0,
            vulnerable: 0,
            safe: 0,
            unchecked: 0,
            failed: 0,
            nvd_calls: 0,
            report: Vec::new(),
            phase: Phase::Idle,
            sweep: None,
            url: String::new(),
        };
        proof {
            assert(strings_of(s.report@) =~= Seq::<Seq<char>>::empty());
        }
        s
    }

    /// The mode of the run.
    pub fn mode(&self) -> (m: ScanMode)
        ensures
            m == self@.mode,
    {
        self.mode
    }

    /// Where the session stands with the program at hand.
    pub fn phase(&self) -> (p: Phase)
        ensures
            p == self@.phase,
    {
        self.phase
    }

    /// The rendered findings of every vulnerable outcome so far, in the order of the
    /// run.
    pub fn report(&self) -> (lines: &Vec<String>)
        ensures
            strings_of(lines@) == self@.report,
    {
        &self.report
    }

    /// The text to write as the report of the run: it replaces any earlier report.
    pub fn report_text(&self) -> (text: String)
        ensures
            text@ == report_text(self@.report),
    {
        let mut text = String::new();
        let mut i: usize = 0;
        let ghost lines = strings_of(self.report@);
        proof {
            assert(lines.subrange(0, 0) =~= Seq::<Seq<char>>::empty());
        }
        while i < self.report.len()
            invariant
                i <= self.report@.len(),
                lines == strings_of(self.report@),
                text@ == report_text(lines.subrange(0, i as int)),
            decreases self.report@.len() - i,
        {
            proof {
                let next = lines.subrange(0, i + 1);
                assert(next.drop_last() =~= lines.subrange(0, i as int));
                assert(next.last() == self.report@[i as int]@);
            }
            text.append(self.report[i].as_str());
            text.append("\n");
            i = i + 1;
        }
        proof {
            assert(lines.subrange(0, lines.len() as int) =~= lines);
        }
        text
    }

    /// The counts of the run so far, and whether its coverage is poor.
    pub fn summary(&self) -> (r: Summary)
        requires
            self@.well_formed(),
        ensures
            r.processed == self@.processed,
            r.vulnerable == self@.vulnerable,
            r.safe == self@.safe,
            r.unchecked == self@.unchecked,
            r.failed == self@.failed,
            r.checked_via_fallback == self@.nvd_calls,
            r.coverage_warning == poorly_covered(self@),
            r.processed == r.vulnerable + r.safe + r.unchecked + r.failed,
    {
        let cleared: u64 = self.safe + self.vulnerable;
        Summary {
            processed: self.processed,
            vulnerable: self.vulnerable,
            safe: self.safe,
            unchecked: self.unchecked,
            failed: self.failed,
            checked_via_fallback: self.nvd_calls,
            coverage_warning: self.unchecked > cleared || self.failed > cleared,
        }
    }

    /// Counts one more program with its outcome.
    fn tally(&mut self, outcome: &ScanResult)
        requires
            old(self)@.well_formed(),
            old(self)@.processed < u64::MAX,
        ensures
            final(self)@ == old(self)@.tally(outcome@),
    {
        self.processed = self.processed + 1;
        self.phase = Phase::Idle;
        self.sweep = None;
        match outcome {
            ScanResult::Vulnerable(fs) => {
                self.vulnerable = self.vulnerable + 1;
                let mut lines = render_all(fs);
                let ghost before = self.report@;
                let ghost added = lines@;
                self.report.append(&mut lines);
                proof {
                    assert(strings_of(before + added) =~= strings_of(before) + strings_of(added));
                }
            },
            ScanResult::Safe => {
                self.safe = self.safe + 1;
            },
            ScanResult::Unchecked(_) => {
                self.unchecked = self.unchecked + 1;
            },
            ScanResult::Failed(_) => {
                self.failed = self.failed + 1;
            },
        }
    }

    /// Turns to the keyword-searched database.
    fn fallback(&mut self) -> (action: Action)
        requires
            old(self)@.nvd_calls < u64::MAX,
        ensures
            (final(self)@, action@) == old(self)@.fallback(),
    {
        let paced = match self.mode {
            ScanMode::NvdOnly => true,
            _ => self.nvd_calls > 0,
        };
        self.nvd_calls = self.nvd_calls + 1;
        self.sweep = None;
        if paced {
            self.phase = Phase::FallbackPacing;
            Action::Wait { seconds: NVD_DELAY_SECONDS }
        } else {
            self.phase = Phase::FallbackSearch;
            Action::QueryNvd { url: self.url.clone(), timeout_seconds: NVD_TIMEOUT_SECONDS }
        }
    }

    /// Acts on an outcome of the ecosystem-scoped database.
    fn settle(&mut self, verdict: Verdict) -> (action: Action)
        requires
            old(self)@.well_formed(),
            old(self)@.processed < u64::MAX,
            old(self)@.nvd_calls < u64::MAX,
        ensures
            (final(self)@, action@) == old(self)@.settle(verdict@),
    {
        let decided = match &verdict.outcome {
            ScanResult::Vulnerable(_) => true,
            ScanResult::Safe => true,
            _ => false,
        };
        let falls_back = match self.mode {
            ScanMode::Hybrid => true,
            _ => false,
        };
        if decided || !falls_back {
            self.tally(&verdict.outcome);
            Action::Finish(verdict)
        } else {
            self.fallback()
        }
    }

    /// Acts on a step of the search of the ecosystem-scoped database.
    fn follow(&mut self, sweep: OsvSweep, step: OsvStep) -> (action: Action)
        requires
            old(self)@.well_formed(),
            old(self)@.processed < u64::MAX,
            old(self)@.nvd_calls < u64::MAX,
        ensures
            (final(self)@, action@) == old(self)@.follow(sweep@, step@),
    {
        match step {
            OsvStep::Ask(q) => {
                self.phase = Phase::TryOsv;
                self.sweep = Some(sweep);
                Action::QueryOsv { query: q, timeout_seconds: OSV_TIMEOUT_SECONDS }
            },
            OsvStep::Done { result, matched, incomplete } => self.settle(
                Verdict { outcome: result, matched, failure: None, incomplete },
            ),
        }
    }

    /// Takes the next program of the batch and says what to do first. Nothing changes
    /// where another program is still at hand. The count of programs must have room
    /// for one more.
    pub fn begin(&mut self, program: &InstalledProgram) -> (r: Result<Action, Misuse>)
        requires
            old(self)@.well_formed(),
            old(self)@.processed < u64::MAX,
        ensures
            (final(self)@, answer_view(r)) == old(self)@.begun(program@),
            final(self)@.well_formed(),
    {
        proof {
            law_counts_add_up(self@, program@, EventView::Waited);
        }
        match self.phase {
            Phase::Idle => {},
            _ => {
                return Err(Misuse::Busy);
            },
        }
        let version = match &program.version {
            Some(v) => v.clone(),
            None => String::new(),
        };
        let words = query_words(program.name.as_str(), version.as_str());
        self.url = request_url(words.as_str());
        let action = match self.mode {
            ScanMode::NvdOnly => self.fallback(),
            _ => {
                let (sweep, step) = search_vulns_osv(program);
                self.follow(sweep, step)
            },
        };
        Ok(action)
    }

    /// Takes what happened to the action last asked for and says what to do next.
    /// Nothing changes where the event is not the one awaited.
    pub fn step(&mut self, event: Event) -> (r: Result<Action, Misuse>)
        requires
            old(self)@.well_formed(),
        ensures
            (final(self)@, answer_view(r)) == old(self)@.stepped(event@),
            final(self)@.well_formed(),
    {
        proof {
            law_counts_add_up(self@, arbitrary(), event@);
        }
        match (self.phase, event) {
            (Phase::TryOsv, Event::OsvReplied(reply)) => {
                match self.sweep.take() {
                    Some(mut sweep) => {
                        let step = sweep.advance(&reply);
                        Ok(self.follow(sweep, step))
                    },
                    None => Err(Misuse::Unexpected),
                }
            },
            (Phase::TryOsv, Event::OsvUnavailable(kind)) => Ok(
                self.settle(
                    Verdict {
                        outcome: ScanResult::Failed(kind),
                        matched: None,
                        failure: None,
                        incomplete: true,
                    },
                ),
            ),
            (Phase::FallbackPacing, Event::Waited) => {
                self.phase = Phase::FallbackSearch;
                Ok(Action::QueryNvd { url: self.url.clone(), timeout_seconds: NVD_TIMEOUT_SECONDS })
            },
            (Phase::FallbackSearch, Event::NvdReplied(reply)) => {
                let verdict = match search_vulns_nvd(self.url.as_str(), &reply) {
                    Ok(found) => {
                        if found.len() == 0 {
                            Verdict {
                                outcome: ScanResult::Safe,
                                matched: None,
                                failure: None,
                                incomplete: false,
                            }
                        } else {
                            Verdict {
                                outcome: ScanResult::Vulnerable(found),
                                matched: None,
                                failure: None,
                                incomplete: false,
                            }
                        }
                    },
                    Err(failure) => Verdict {
                        outcome: ScanResult::Failed(failure.kind),
                        matched: None,
                        failure: Some(failure),
                        incomplete: false,
                    },
                };
                self.tally(&verdict.outcome);
                Ok(Action::Finish(verdict))
            },
            _ => Err(Misuse::Unexpected),
        }
    }
}

} // verus!
