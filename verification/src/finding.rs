//! Findings, the errors of a lookup, and the outcome of scanning one program.

use vstd::prelude::*;
use vstd::string::StringExecFns;

verus! {

/// The database a finding came from.
#[derive(Clone, Copy, Debug, PartialEq, Eq, Structural)]
pub enum Source {
    Osv,
    Nvd,
}

/// Why a lookup gave no answer.
#[derive(Clone, Copy, Debug, PartialEq, Eq, Structural)]
pub enum ErrorKind {
    /// The connection, name resolution or transport failed.
    NetworkError,
    /// The call ran past its time bound.
    Timeout,
    /// The response body did not have the expected shape.
    ParseError,
    /// The remote side answered with a status outside the 2xx range.
    RateLimited,
}

/// Whether an HTTP status tells success: the range 200 to 299.
pub open spec fn is_success(status: u16) -> bool {
    200 <= status <= 299
}

/// Whether an HTTP status tells success.
pub fn status_is_success(status: u16) -> (b: bool)
    ensures
        b == is_success(status),
{
    200 <= status && status <= 299
}

/// One vulnerability matched to a program.
#[derive(Clone, Debug, PartialEq, Eq)]
pub struct Finding {
    pub id: String,
    pub summary: String,
    /// The score as the database gave it, in text.
    pub cvss_score: Option<String>,
    /// The label of the scoring system, or the vector of the score.
    pub severity_label: Option<String>,
    pub source: Source,
}

/// A finding as plain values.
pub struct FindingView {
    pub id: Seq<char>,
    pub summary: Seq<char>,
    pub cvss_score: Option<Seq<char>>,
    pub severity_label: Option<Seq<char>>,
    pub source: Source,
}

/// The text of an optional string.
pub open spec fn opt_text(o: Option<String>) -> Option<Seq<char>> {
    match o {
        Some(s) => Some(s@),
        None => None,
    }
}

/// The text of an optional string, empty where there is none.
pub open spec fn text_or_empty(o: Option<Seq<char>>) -> Seq<char> {
    match o {
        Some(s) => s,
        None => Seq::empty(),
    }
}

/// A copy of an optional string.
pub fn copy_opt(o: &Option<String>) -> (r: Option<String>)
    ensures
        opt_text(r) == opt_text(*o),
{
    match o {
        Some(s) => Some(s.clone()),
        None => None,
    }
}

impl View for Finding {
    type V = FindingView;

    open spec fn view(&self) -> FindingView {
        FindingView {
            id: self.id@,
            summary: self.summary@,
            cvss_score: opt_text(self.cvss_score),
            severity_label: opt_text(self.severity_label),
            source: self.source,
        }
    }
}

/// The findings that a vector holds, as plain values.
pub open spec fn findings_of(v: Seq<Finding>) -> Seq<FindingView> {
    Seq::new(v.len(), |i: int| v[i]@)
}

/// The line of a rendered finding that tells its score.
pub open spec fn score_line(f: FindingView) -> Seq<char> {
    match f.source {
        Source::Osv => match f.cvss_score {
            Some(score) => "CVSS Score: "@ + score + " ("@ + text_or_empty(f.severity_label) + ")"@,
            None => "No CVSS Score available"@,
        },
        Source::Nvd => match f.cvss_score {
            Some(score) => "Base score: "@ + score + "\n\tVectorString: "@ + text_or_empty(
                f.severity_label,
            ),
            None => "No CVSS Score"@,
        },
    }
}

/// A finding as the report shows it: identifier, summary, and the score line below.
pub open spec fn rendered(f: FindingView) -> Seq<char> {
    f.id + " - "@ + f.summary + "\n\t"@ + score_line(f)
}

/// The rendered form of each finding, in order.
pub open spec fn rendered_all(fs: Seq<FindingView>) -> Seq<Seq<char>> {
    Seq::new(fs.len(), |i: int| rendered(fs[i]))
}

impl Finding {
    /// The line that tells the score of this finding.
    pub fn score_line(&self) -> (s: String)
        ensures
            s@ == score_line(self@),
    {
        match self.source {
            Source::Osv => match &self.cvss_score {
                Some(score) => {
                    let mut s = String::from_str("CVSS Score: ");
                    s.append(score.as_str());
                    s.append(" (");
                    match &self.severity_label {
                        Some(label) => {
                            s.append(label.as_str());
                        },
                        None => {
                            assert(s@ + Seq::<char>::empty() =~= s@);
                        },
                    }
                    s.append(")");
                    s
                },
                None => String::from_str("No CVSS Score available"),
            },
            Source::Nvd => match &self.cvss_score {
                Some(score) => {
                    let mut s = String::from_str("Base score: ");
                    s.append(score.as_str());
                    s.append("\n\tVectorString: ");
                    match &self.severity_label {
                        Some(label) => {
                            s.append(label.as_str());
                        },
                        None => {
                            assert(s@ + Seq::<char>::empty() =~= s@);
                        },
                    }
                    s
                },
                None => String::from_str("No CVSS Score"),
            },
        }
    }

    /// This finding as the report shows it.
    pub fn render(&self) -> (s: String)
        ensures
            s@ == rendered(self@),
    {
        let mut s = self.id.clone();
        s.append(" - ");
        s.append(self.summary.as_str());
        s.append("\n\t");
        let line = self.score_line();
        s.append(line.as_str());
        s
    }
}

/// What the scan found out about one program.
#[derive(Clone, Debug, PartialEq, Eq)]
pub enum ScanResult {
    /// Vulnerabilities were found.
    Vulnerable(Vec<Finding>),
    /// The program was checked and nothing was found.
    Safe,
    /// The program could not be checked, for the reason given.
    Unchecked(String),
    /// The lookup failed.
    Failed(ErrorKind),
}

/// A scan result as plain values.
pub enum ScanResultView {
    Vulnerable(Seq<FindingView>),
    Safe,
    Unchecked(Seq<char>),
    Failed(ErrorKind),
}

impl View for ScanResult {
    type V = ScanResultView;

    open spec fn view(&self) -> ScanResultView {
        match self {
            ScanResult::Vulnerable(fs) => ScanResultView::Vulnerable(findings_of(fs@)),
            ScanResult::Safe => ScanResultView::Safe,
            ScanResult::Unchecked(reason) => ScanResultView::Unchecked(reason@),
            ScanResult::Failed(e) => ScanResultView::Failed(*e),
        }
    }
}

impl ScanResultView {
    /// A vulnerable result names at least one finding, and an unchecked one gives a
    /// reason.
    pub open spec fn well_formed(self) -> bool {
        match self {
            ScanResultView::Vulnerable(fs) => fs.len() > 0,
            ScanResultView::Unchecked(reason) => reason.len() > 0,
            _ => true,
        }
    }
}

} // verus!
