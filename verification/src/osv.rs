//! The ecosystem-scoped database: what is asked of it, what it answers, and how an
//! answer becomes findings.

use crate::ecosystem::Ecosystem;
use crate::finding::{
    copy_opt, findings_of, is_success, opt_text, status_is_success, ErrorKind, Finding,
    FindingView, Source,
};
use crate::text::{chars_of, contains, contains_text};
use vstd::prelude::*;
use vstd::string::StringExecFns;

verus! {

/// One severity entry of a vulnerability.
#[derive(Clone, Debug, PartialEq, Eq)]
pub struct Severity {
    /// The label of the scoring system.
    pub severity_type: String,
    pub score: Option<String>,
}

/// A severity entry as plain values.
pub struct SeverityView {
    pub severity_type: Seq<char>,
    pub score: Option<Seq<char>>,
}

impl View for Severity {
    type V = SeverityView;

    open spec fn view(&self) -> SeverityView {
        SeverityView { severity_type: self.severity_type@, score: opt_text(self.score) }
    }
}

/// One vulnerability object of a response.
#[derive(Clone, Debug, PartialEq, Eq)]
pub struct OsvVulnerability {
    pub id: String,
    pub summary: Option<String>,
    pub severity: Option<Vec<Severity>>,
}

/// A vulnerability object as plain values.
pub struct OsvVulnerabilityView {
    pub id: Seq<char>,
    pub summary: Option<Seq<char>>,
    pub severity: Option<Seq<SeverityView>>,
}

/// The severity entries that a vector holds, as plain values.
pub open spec fn severities_of(v: Seq<Severity>) -> Seq<SeverityView> {
    Seq::new(v.len(), |i: int| v[i]@)
}

impl View for OsvVulnerability {
    type V = OsvVulnerabilityView;

    open spec fn view(&self) -> OsvVulnerabilityView {
        OsvVulnerabilityView {
            id: self.id@,
            summary: opt_text(self.summary),
            severity: match self.severity {
                Some(entries) => Some(severities_of(entries@)),
                None => None,
            },
        }
    }
}

/// The vulnerability objects that a vector holds, as plain values.
pub open spec fn vulnerabilities_of(v: Seq<OsvVulnerability>) -> Seq<OsvVulnerabilityView> {
    Seq::new(v.len(), |i: int| v[i]@)
}

/// What came back for one query.
#[derive(Clone, Debug, PartialEq, Eq)]
pub enum OsvReply {
    /// No response arrived.
    Failed(ErrorKind),
    /// A response arrived. `body` holds its vulnerability objects, or nothing where
    /// the body did not have the expected shape. It is read only where the status
    /// tells success.
    Answered { status: u16, body: Option<Vec<OsvVulnerability>> },
}

/// A reply as plain values.
pub enum OsvReplyView {
    Failed(ErrorKind),
    Answered { status: u16, body: Option<Seq<OsvVulnerabilityView>> },
}

impl View for OsvReply {
    type V = OsvReplyView;

    open spec fn view(&self) -> OsvReplyView {
        match self {
            OsvReply::Failed(e) => OsvReplyView::Failed(*e),
            OsvReply::Answered { status, body } => OsvReplyView::Answered {
                status: *status,
                body: match body {
                    Some(vulns) => Some(vulnerabilities_of(vulns@)),
                    None => None,
                },
            },
        }
    }
}

/// The body of one query: a package by name and ecosystem, and the version where one
/// is known.
#[derive(Clone, Debug, PartialEq, Eq)]
pub struct OsvQuery {
    pub name: String,
    pub ecosystem: Ecosystem,
    pub version: Option<String>,
}

/// A query as plain values.
pub struct OsvQueryView {
    pub name: Seq<char>,
    pub ecosystem: Ecosystem,
    pub version: Option<Seq<char>>,
}

impl View for OsvQuery {
    type V = OsvQueryView;

    open spec fn view(&self) -> OsvQueryView {
        OsvQueryView {
            name: self.name@,
            ecosystem: self.ecosystem,
            version: opt_text(self.version),
        }
    }
}

/// The address to which queries are posted.
pub open spec fn spec_query_endpoint() -> Seq<char> {
    "https://api.osv.dev/v1/query"@
}

/// The address to which queries are posted.
pub fn query_endpoint() -> (url: &'static str)
    ensures
        url@ == spec_query_endpoint(),
{
    "https://api.osv.dev/v1/query"
}

/// The first severity entry whose label holds "CVSS".
pub open spec fn first_cvss(entries: Seq<SeverityView>) -> Option<SeverityView>
    decreases entries.len(),
{
    if entries.len() == 0 {
        None
    } else if contains_text(entries[0].severity_type, "CVSS"@) {
        Some(entries[0])
    } else {
        first_cvss(entries.subrange(1, entries.len() as int))
    }
}

/// The score and the label of a vulnerability: those of its first severity entry
/// whose label holds "CVSS", if there is one.
pub open spec fn cvss_info(v: OsvVulnerabilityView) -> (Option<Seq<char>>, Option<Seq<char>>) {
    match v.severity {
        Some(entries) => match first_cvss(entries) {
            Some(entry) => (entry.score, Some(entry.severity_type)),
            None => (None, None),
        },
        None => (None, None),
    }
}

/// The finding that a vulnerability object stands for.
pub open spec fn osv_finding(v: OsvVulnerabilityView) -> FindingView {
    FindingView {
        id: v.id,
        summary: match v.summary {
            Some(s) => s,
            None => "No summary available"@,
        },
        cvss_score: cvss_info(v).0,
        severity_label: cvss_info(v).1,
        source: Source::Osv,
    }
}

/// The findings of one query, or the error it ended in. A status outside the 2xx
/// range counts as no findings.
pub open spec fn reply_findings(reply: OsvReplyView) -> Result<Seq<FindingView>, ErrorKind> {
    match reply {
        OsvReplyView::Failed(e) => Err(e),
        OsvReplyView::Answered { status, body } => if !is_success(status) {
            Ok(Seq::empty())
        } else {
            match body {
                Some(vulns) => Ok(Seq::new(vulns.len(), |i: int| osv_finding(vulns[i]))),
                None => Err(ErrorKind::ParseError),
            }
        },
    }
}

/// Whether a query was answered: a response arrived with a status that tells
/// success and a body of the expected shape.
pub open spec fn answered(reply: OsvReplyView) -> bool {
    match reply {
        OsvReplyView::Failed(_) => false,
        OsvReplyView::Answered { status, body } => is_success(status) && body is Some,
    }
}

/// The findings that one query adds to a sweep: those of its reply, and none where
/// the query failed.
pub open spec fn sweep_findings(reply: OsvReplyView) -> Seq<FindingView> {
    match reply_findings(reply) {
        Ok(fs) => fs,
        Err(_) => Seq::empty(),
    }
}

/// Whether a query was answered.
pub fn is_answered(reply: &OsvReply) -> (b: bool)
    ensures
        b == answered(reply@),
{
    match reply {
        OsvReply::Failed(_) => false,
        OsvReply::Answered { status, body } => status_is_success(*status) && body.is_some(),
    }
}

/// The score and the label of the scoring system of a vulnerability, taken from its
/// first severity entry whose label holds "CVSS".
pub fn extract_cvss_info(vuln: &OsvVulnerability) -> (r: (Option<String>, Option<String>))
    ensures
        (opt_text(r.0), opt_text(r.1)) == cvss_info(vuln@),
{
    match &vuln.severity {
        Some(entries) => {
            let marker = chars_of("CVSS");
            let ghost all = severities_of(entries@);
            let mut i: usize = 0;
            proof {
                assert(all.subrange(0, all.len() as int) =~= all);
            }
            while i < entries.len()
                invariant
                    i <= entries@.len(),
                    all == severities_of(entries@),
                    vuln@.severity == Some(all),
                    marker@ == "CVSS"@,
                    first_cvss(all) == first_cvss(all.subrange(i as int, all.len() as int)),
                decreases entries@.len() - i,
            {
                let ghost rest = all.subrange(i as int, all.len() as int);
                proof {
                    assert(rest[0] == entries@[i as int]@);
                    assert(rest.subrange(1, rest.len() as int) =~= all.subrange(
                        i + 1,
                        all.len() as int,
                    ));
                }
                let label = chars_of(entries[i].severity_type.as_str());
                if contains(&label, &marker) {
                    let score = copy_opt(&entries[i].score);
                    let kind = entries[i].severity_type.clone();
                    proof {
                        assert(first_cvss(rest) == Some(rest[0]));
                        assert(opt_text(score) == rest[0].score);
                        assert(opt_text(Some(kind)) == Some(rest[0].severity_type));
                    }
                    return (score, Some(kind));
                }
                i = i + 1;
            }
            (None, None)
        },
        None => (None, None),
    }
}

/// The finding that a vulnerability object stands for.
pub fn finding_of(vuln: &OsvVulnerability) -> (f: Finding)
    ensures
        f@ == osv_finding(vuln@),
{
    let summary = match &vuln.summary {
        Some(s) => s.clone(),
        None => String::from_str("No summary available"),
    };
    let (cvss_score, severity_label) = extract_cvss_info(vuln);
    Finding { id: vuln.id.clone(), summary, cvss_score, severity_label, source: Source::Osv }
}

/// Turns the reply to one query into findings: the error where the query failed or
/// the body was malformed, no findings for a status outside the 2xx range, and else
/// one finding for each vulnerability object, in order.
pub fn findings_from_reply(reply: &OsvReply) -> (r: Result<Vec<Finding>, ErrorKind>)
    ensures
        match r {
            Ok(fs) => reply_findings(reply@) == Ok::<Seq<FindingView>, ErrorKind>(findings_of(fs@)),
            Err(e) => reply_findings(reply@) == Err::<Seq<FindingView>, ErrorKind>(e),
        },
{
    match reply {
        OsvReply::Failed(e) => Err(*e),
        OsvReply::Answered { status, body } => {
            if !status_is_success(*status) {
                let none: Vec<Finding> = Vec::new();
                proof {
                    assert(findings_of(none@) =~= Seq::<FindingView>::empty());
                }
                return Ok(none);
            }
            match body {
                Some(vulns) => {
                    let mut out: Vec<Finding> = Vec::new();
                    let mut i: usize = 0;
                    while i < vulns.len()
                        invariant
                            i <= vulns@.len(),
                            out@.len() == i,
                            forall|j: int|
                                0 <= j < i ==> (#[trigger] out@[j])@ == osv_finding(vulns@[j]@),
                        decreases vulns@.len() - i,
                    {
                        out.push(finding_of(&vulns[i]));
                        i = i + 1;
                    }
                    proof {
                        let views = vulnerabilities_of(vulns@);
                        assert(findings_of(out@) =~= Seq::new(
                            views.len(),
                            |i: int| osv_finding(views[i]),
                        ));
                    }
                    Ok(out)
                },
                None => Err(ErrorKind::ParseError),
            }
        },
    }
}

} // verus!
