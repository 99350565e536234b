//! The keyword-searched database: what is asked of it, what it answers, and how an
//! answer becomes findings.

use crate::finding::{
    findings_of, is_success, opt_text, status_is_success, ErrorKind, Finding, FindingView, Source,
};
use vstd::prelude::*;
use vstd::string::StringExecFns;

verus! {

/// The score of one CVSS v3.1 metric, the base score in text.
#[derive(Clone, Debug, PartialEq, Eq)]
pub struct CvssV31 {
    pub base_score: String,
    pub vector_string: String,
}

/// A CVSS v3.1 metric as plain values.
pub struct CvssV31View {
    pub base_score: Seq<char>,
    pub vector_string: Seq<char>,
}

impl View for CvssV31 {
    type V = CvssV31View;

    open spec fn view(&self) -> CvssV31View {
        CvssV31View { base_score: self.base_score@, vector_string: self.vector_string@ }
    }
}

/// The metrics of one entry.
#[derive(Clone, Debug, PartialEq, Eq)]
pub struct NvdMetrics {
    pub cvss_metric_v31: Option<Vec<CvssV31>>,
}

/// One entry of a response.
#[derive(Clone, Debug, PartialEq, Eq)]
pub struct NvdCve {
    pub id: String,
    /// The text of each description, in order.
    pub descriptions: Vec<String>,
    pub metrics: Option<NvdMetrics>,
}

/// An entry as plain values. `cvss_v31` holds the CVSS v3.1 metrics, or nothing where
/// the entry has no metrics or none of that kind.
pub struct NvdCveView {
    pub id: Seq<char>,
    pub descriptions: Seq<Seq<char>>,
    pub cvss_v31: Option<Seq<CvssV31View>>,
}

impl View for NvdCve {
    type V = NvdCveView;

    open spec fn view(&self) -> NvdCveView {
        NvdCveView {
            id: self.id@,
            descriptions: Seq::new(self.descriptions@.len(), |i: int| self.descriptions@[i]@),
            cvss_v31: match self.metrics {
                Some(metrics) => match metrics.cvss_metric_v31 {
                    Some(list) => Some(Seq::new(list@.len(), |i: int| list@[i]@)),
                    None => None,
                },
                None => None,
            },
        }
    }
}

/// The entries that a vector holds, as plain values.
pub open spec fn entries_of(v: Seq<NvdCve>) -> Seq<NvdCveView> {
    Seq::new(v.len(), |i: int| v[i]@)
}

/// A response body of the expected shape.
#[derive(Clone, Debug, PartialEq, Eq)]
pub struct NvdResponse {
    pub vulnerabilities: Option<Vec<NvdCve>>,
}

impl View for NvdResponse {
    type V = Option<Seq<NvdCveView>>;

    open spec fn view(&self) -> Option<Seq<NvdCveView>> {
        match self.vulnerabilities {
            Some(list) => Some(entries_of(list@)),
            None => None,
        }
    }
}

/// What came back for one search.
#[derive(Clone, Debug, PartialEq, Eq)]
pub enum NvdReply {
    /// No response arrived: the time bound passed, or the transport failed.
    Failed(ErrorKind),
    /// A response arrived. `raw` is its body as text; `body` is the same body read,
    /// or nothing where it did not have the expected shape.
    Answered { status: u16, raw: String, body: Option<NvdResponse> },
}

/// A reply as plain values.
pub enum NvdReplyView {
    Failed(ErrorKind),
    Answered { status: u16, raw: Seq<char>, body: Option<Option<Seq<NvdCveView>>> },
}

impl View for NvdReply {
    type V = NvdReplyView;

    open spec fn view(&self) -> NvdReplyView {
        match self {
            NvdReply::Failed(e) => NvdReplyView::Failed(*e),
            NvdReply::Answered { status, raw, body } => NvdReplyView::Answered {
                status: *status,
                raw: raw@,
                body: match body {
                    Some(response) => Some(response@),
                    None => None,
                },
            },
        }
    }
}

/// A failed search, with what is known for diagnosis: the address asked, and the
/// body where one arrived and could not be read.
#[derive(Clone, Debug, PartialEq, Eq)]
pub struct NvdError {
    pub kind: ErrorKind,
    pub url: String,
    pub raw_body: Option<String>,
}

/// A failed search as plain values.
pub struct NvdErrorView {
    pub kind: ErrorKind,
    pub url: Seq<char>,
    pub raw_body: Option<Seq<char>>,
}

impl View for NvdError {
    type V = NvdErrorView;

    open spec fn view(&self) -> NvdErrorView {
        NvdErrorView { kind: self.kind, url: self.url@, raw_body: opt_text(self.raw_body) }
    }
}

/// The seconds that one search may take.
pub const NVD_TIMEOUT_SECONDS: u64 = 15;

/// The seconds to let pass before a search that is not the first of a run.
pub const NVD_DELAY_SECONDS: u64 = 6;

/// The search words for a program: its name, a space, and its version, which may be
/// empty.
pub open spec fn search_words(name: Seq<char>, version: Seq<char>) -> Seq<char> {
    name + " "@ + version
}

/// The address of a search for the words given.
pub open spec fn search_url(words: Seq<char>) -> Seq<char> {
    "https://services.nvd.nist.gov/rest/json/cves/2.0?keywordSearch="@ + words
}

/// The finding that an entry stands for: its identifier, its first description, and
/// the base score and vector of its first CVSS v3.1 metric.
pub open spec fn nvd_finding(entry: NvdCveView) -> FindingView {
    let first = match entry.cvss_v31 {
        Some(list) => if list.len() > 0 {
            Some(list[0])
        } else {
            None
        },
        None => None,
    };
    FindingView {
        id: entry.id,
        summary: if entry.descriptions.len() > 0 {
            entry.descriptions[0]
        } else {
            Seq::empty()
        },
        cvss_score: match first {
            Some(metric) => Some(metric.base_score),
            None => None,
        },
        severity_label: match first {
            Some(metric) => Some(metric.vector_string),
            None => None,
        },
        source: Source::Nvd,
    }
}

/// The findings of a response body: one for each entry, in order, and none where the
/// body lists no entries.
pub open spec fn response_findings(body: Option<Seq<NvdCveView>>) -> Seq<FindingView> {
    match body {
        Some(list) => Seq::new(list.len(), |i: int| nvd_finding(list[i])),
        None => Seq::empty(),
    }
}

/// The findings of one search, or how it failed: without a response, with the error
/// of the transport; with a status outside the 2xx range, as rate-limited; with a
/// body that cannot be read, as a parse error that keeps the body.
pub open spec fn search_result(url: Seq<char>, reply: NvdReplyView) -> Result<
    Seq<FindingView>,
    NvdErrorView,
> {
    match reply {
        NvdReplyView::Failed(e) => Err(NvdErrorView { kind: e, url, raw_body: None }),
        NvdReplyView::Answered { status, raw, body } => if !is_success(status) {
            Err(NvdErrorView { kind: ErrorKind::RateLimited, url, raw_body: None })
        } else {
            match body {
                Some(response) => Ok(response_findings(response)),
                None => Err(
                    NvdErrorView { kind: ErrorKind::ParseError, url, raw_body: Some(raw) },
                ),
            }
        },
    }
}

/// The search words for a program.
pub fn query_words(name: &str, version: &str) -> (words: String)
    ensures
        words@ == search_words(name@, version@),
{
    let mut words = String::from_str(name);
    words.append(" ");
    words.append(version);
    words
}

/// The address of a search for the words given.
pub fn request_url(words: &str) -> (url: String)
    ensures
        url@ == search_url(words@),
{
    let mut url = String::from_str(
        "https://services.nvd.nist.gov/rest/json/cves/2.0?keywordSearch=",
    );
    url.append(words);
    url
}

/// The finding that an entry stands for.
pub fn finding_of_entry(entry: &NvdCve) -> (f: Finding)
    ensures
        f@ == nvd_finding(entry@),
{
    let summary = if entry.descriptions.len() > 0 {
        entry.descriptions[0].clone()
    } else {
        String::new()
    };
    let mut cvss_score: Option<String> = None;
    let mut severity_label: Option<String> = None;
    match &entry.metrics {
        Some(metrics) => match &metrics.cvss_metric_v31 {
            Some(list) => {
                if list.len() > 0 {
                    cvss_score = Some(list[0].base_score.clone());
                    severity_label = Some(list[0].vector_string.clone());
                }
            },
            None => {},
        },
        None => {},
    }
    Finding { id: entry.id.clone(), summary, cvss_score, severity_label, source: Source::Nvd }
}

/// The findings of a response body.
pub fn findings_of_response(response: &NvdResponse) -> (fs: Vec<Finding>)
    ensures
        findings_of(fs@) == response_findings(response@),
{
    let mut out: Vec<Finding> = Vec::new();
    match &response.vulnerabilities {
        Some(list) => {
            let mut i: usize = 0;
            while i < list.len()
                invariant
                    i <= list@.len(),
                    out@.len() == i,
                    forall|j: int| 0 <= j < i ==> (#[trigger] out@[j])@ == nvd_finding(list@[j]@),
                decreases list@.len() - i,
            {
                out.push(finding_of_entry(&list[i]));
                i = i + 1;
            }
            proof {
                assert(findings_of(out@) =~= response_findings(Some(entries_of(list@))));
            }
        },
        None => {
            proof {
                assert(findings_of(out@) =~= Seq::<FindingView>::empty());
            }
        },
    }
    out
}

/// Turns the reply to the search at `url` into findings, or into the failure with
/// what is known for diagnosis.
pub fn search_vulns_nvd(url: &str, reply: &NvdReply) -> (r: Result<Vec<Finding>, NvdError>)
    ensures
        match r {
            Ok(fs) => search_result(url@, reply@) == Ok::<Seq<FindingView>, NvdErrorView>(
                findings_of(fs@),
            ),
            Err(failure) => search_result(url@, reply@) == Err::<
                Seq<FindingView>,
                NvdErrorView,
            >(failure@),
        },
{
    match reply {
        NvdReply::Failed(e) => Err(
            NvdError { kind: *e, url: String::from_str(url), raw_body: None },
        ),
        NvdReply::Answered { status, raw, body } => {
            if !status_is_success(*status) {
                return Err(
                    NvdError {
                        kind: ErrorKind::RateLimited,
                        url: String::from_str(url),
                        raw_body: None,
                    },
                );
            }
            match body {
                Some(response) => Ok(findings_of_response(response)),
                None => Err(
                    NvdError {
                        kind: ErrorKind::ParseError,
                        url: String::from_str(url),
                        raw_body: Some(raw.clone()),
                    },
                ),
            }
        },
    }
}

} // verus!
