use bluescan::ecosystem::Ecosystem;
use bluescan::finding::{ErrorKind, Finding, ScanResult, Source};
use bluescan::nvd::{NvdCve, NvdError, NvdReply, NvdResponse};
use bluescan::osv::{OsvQuery, OsvReply, OsvVulnerability};
use bluescan::plan::Candidate;
use bluescan::program::InstalledProgram;
use bluescan::session::{
    render_all, report_path, Action, Event, Misuse, Phase, ScanMode, ScanSession, Summary,
    Verdict,
};

fn installed(name: &str, version: Option<&str>) -> InstalledProgram {
    InstalledProgram {
        name: name.to_string(),
        version: version.map(|v| v.to_string()),
        publisher: None,
        install_date: None,
    }
}

fn nothing_found() -> OsvReply {
    OsvReply::Answered { status: 200, body: Some(vec![]) }
}

fn one_vulnerability(id: &str, summary: &str) -> OsvReply {
    OsvReply::Answered {
        status: 200,
        body: Some(vec![OsvVulnerability {
            id: id.to_string(),
            summary: Some(summary.to_string()),
            severity: None,
        }]),
    }
}

fn nvd_entries(ids: &[&str]) -> NvdReply {
    NvdReply::Answered {
        status: 200,
        raw: "{}".to_string(),
        body: Some(NvdResponse {
            vulnerabilities: Some(
                ids.iter()
                    .map(|id| NvdCve {
                        id: id.to_string(),
                        descriptions: vec![format!("about {}", id)],
                        metrics: None,
                    })
                    .collect(),
            ),
        }),
    }
}

/// What the caller did for the session, in order.
#[derive(Debug, PartialEq, Eq, Clone)]
enum Did {
    Osv(String, Ecosystem),
    Waited(u64),
    Nvd(String, u64),
}

/// Scans one program against the backends given and returns the verdict.
fn scan(
    session: &mut ScanSession,
    program: &InstalledProgram,
    osv: &dyn Fn(&OsvQuery) -> OsvReply,
    nvd: &dyn Fn(&str) -> NvdReply,
    trace: &mut Vec<Did>,
) -> Verdict {
    let mut action = session.begin(program).unwrap();
    loop {
        let event = match action {
            Action::QueryOsv { query, timeout_seconds } => {
                assert_eq!(timeout_seconds, 10);
                trace.push(Did::Osv(query.name.clone(), query.ecosystem));
                Event::OsvReplied(osv(&query))
            }
            Action::Wait { seconds } => {
                trace.push(Did::Waited(seconds));
                Event::Waited
            }
            Action::QueryNvd { url, timeout_seconds } => {
                trace.push(Did::Nvd(url.clone(), timeout_seconds));
                Event::NvdReplied(nvd(&url))
            }
            Action::Finish(verdict) => return verdict,
        };
        action = session.step(event).unwrap();
    }
}

fn address(words: &str) -> String {
    format!("https://services.nvd.nist.gov/rest/json/cves/2.0?keywordSearch={}", words)
}

#[test]
fn a_new_session_has_counted_nothing() {
    for mode in [ScanMode::Hybrid, ScanMode::OsvOnly, ScanMode::NvdOnly] {
        let s = ScanSession::new(mode);
        assert_eq!(s.mode(), mode);
        assert_eq!(s.phase(), Phase::Idle);
        assert_eq!(
            s.summary(),
            Summary {
                processed: 0,
                vulnerable: 0,
                safe: 0,
                unchecked: 0,
                failed: 0,
                checked_via_fallback: 0,
                coverage_warning: false,
            }
        );
        assert!(s.report().is_empty());
        assert_eq!(s.report_text(), "");
    }
}

#[test]
fn counts_add_up_after_every_program() {
    let mut s = ScanSession::new(ScanMode::Hybrid);
    let mut trace = Vec::new();
    let batch = [
        installed("Python 3", Some("3.11")),
        installed("left-pad", None),
        installed("Notepad", None),
        installed("Paint", None),
        installed("Calc", Some("1")),
    ];
    let osv = |q: &OsvQuery| {
        if q.name == "left-pad" && q.ecosystem == Ecosystem::Npm {
            one_vulnerability("GHSA-1", "pad")
        } else {
            nothing_found()
        }
    };
    let nvd = |url: &str| {
        if url.ends_with("Notepad ") {
            nvd_entries(&["CVE-1"])
        } else if url.ends_with("Paint ") {
            NvdReply::Failed(ErrorKind::Timeout)
        } else {
            nvd_entries(&[])
        }
    };
    let mut outcomes = Vec::new();
    for (i, p) in batch.iter().enumerate() {
        outcomes.push(scan(&mut s, p, &osv, &nvd, &mut trace).outcome);
        let now = s.summary();
        assert_eq!(now.processed, i as u64 + 1);
        assert_eq!(now.processed, now.vulnerable + now.safe + now.unchecked + now.failed);
        assert_eq!(s.phase(), Phase::Idle);
    }
    assert!(matches!(outcomes[0], ScanResult::Safe));
    assert!(matches!(outcomes[1], ScanResult::Vulnerable(_)));
    assert!(matches!(outcomes[2], ScanResult::Vulnerable(_)));
    assert_eq!(outcomes[3], ScanResult::Failed(ErrorKind::Timeout));
    assert_eq!(outcomes[4], ScanResult::Safe);
    assert_eq!(
        s.summary(),
        Summary {
            processed: 5,
            vulnerable: 2,
            safe: 2,
            unchecked: 0,
            failed: 1,
            checked_via_fallback: 3,
            coverage_warning: false,
        }
    );
}

#[test]
fn outcomes_carry_findings_and_reasons() {
    let mut s = ScanSession::new(ScanMode::OsvOnly);
    let mut trace = Vec::new();
    let v = scan(&mut s, &installed("Notepad", None), &|_| nothing_found(), &|_| nvd_entries(&[]), &mut trace);
    match v.outcome {
        ScanResult::Unchecked(reason) => {
            assert!(!reason.is_empty());
            assert_eq!(reason, "checked but not able to verify ecosystem");
        }
        other => panic!("{:?}", other),
    }
    let v = scan(
        &mut s,
        &installed("Notepad", None),
        &|_| one_vulnerability("GHSA-2", "x"),
        &|_| nvd_entries(&[]),
        &mut trace,
    );
    match v.outcome {
        ScanResult::Vulnerable(found) => assert!(!found.is_empty()),
        other => panic!("{:?}", other),
    }
}

#[test]
fn unmatched_name_with_a_silent_backend_is_unchecked_not_safe() {
    let mut s = ScanSession::new(ScanMode::OsvOnly);
    let mut trace = Vec::new();
    let v = scan(&mut s, &installed("Notepad", None), &|_| nothing_found(), &|_| nvd_entries(&[]), &mut trace);
    assert!(matches!(v.outcome, ScanResult::Unchecked(_)));
    assert_eq!(s.summary().unchecked, 1);
    assert_eq!(s.summary().safe, 0);
    assert!(trace.iter().all(|d| matches!(d, Did::Osv(_, _))));
    assert_eq!(trace.len(), 8);
}

#[test]
fn matched_name_with_a_silent_backend_is_safe() {
    for mode in [ScanMode::OsvOnly, ScanMode::Hybrid] {
        let mut s = ScanSession::new(mode);
        let mut trace = Vec::new();
        let v = scan(
            &mut s,
            &installed("python", None),
            &|_| nothing_found(),
            &|_| nvd_entries(&["CVE-never-asked"]),
            &mut trace,
        );
        assert_eq!(v.outcome, ScanResult::Safe);
        assert_eq!(v.matched, None);
        assert_eq!(trace[0], Did::Osv("python".to_string(), Ecosystem::PyPI));
        assert!(trace.iter().all(|d| matches!(d, Did::Osv(_, _))));
        assert_eq!(s.summary().safe, 1);
        assert_eq!(s.summary().checked_via_fallback, 0);
    }
}

#[test]
fn an_npm_finding_ends_the_program_without_fallback() {
    let mut s = ScanSession::new(ScanMode::Hybrid);
    let mut trace = Vec::new();
    let osv = |q: &OsvQuery| {
        if q.ecosystem == Ecosystem::Npm {
            OsvReply::Answered {
                status: 200,
                body: Some(vec![OsvVulnerability {
                    id: "GHSA-xxxx".to_string(),
                    summary: None,
                    severity: None,
                }]),
            }
        } else {
            nothing_found()
        }
    };
    let v = scan(&mut s, &installed("express", Some("4.0.0")), &osv, &|_| nvd_entries(&["CVE-no"]), &mut trace);
    match &v.outcome {
        ScanResult::Vulnerable(found) => {
            assert_eq!(found.len(), 1);
            assert_eq!(found[0].id, "GHSA-xxxx");
        }
        other => panic!("{:?}", other),
    }
    assert_eq!(v.matched, Some(Candidate { name: "express".to_string(), ecosystem: Ecosystem::Npm }));
    assert_eq!(v.failure, None);
    assert_eq!(s.report().len(), 1);
    assert!(s.report()[0].contains("GHSA-xxxx"));
    assert_eq!(s.report()[0], "GHSA-xxxx - No summary available\n\tNo CVSS Score available");
    assert_eq!(
        trace,
        vec![
            Did::Osv("express".to_string(), Ecosystem::PyPI),
            Did::Osv("express".to_string(), Ecosystem::Npm)
        ]
    );
    assert_eq!(s.summary().checked_via_fallback, 0);
    assert_eq!(s.summary().vulnerable, 1);
}

#[test]
fn unreachable_osv_falls_back_and_a_clean_nvd_means_safe() {
    let mut s = ScanSession::new(ScanMode::Hybrid);
    let mut trace = Vec::new();
    let v = scan(
        &mut s,
        &installed("Notepad", Some("11.2")),
        &|_| OsvReply::Failed(ErrorKind::NetworkError),
        &|_| nvd_entries(&[]),
        &mut trace,
    );
    assert_eq!(
        v,
        Verdict { outcome: ScanResult::Safe, matched: None, failure: None, incomplete: false }
    );
    assert_eq!(trace.last(), Some(&Did::Nvd(address("Notepad 11.2"), 15)));
    assert!(!trace.contains(&Did::Waited(6)));
    let now = s.summary();
    assert_eq!(now.safe, 1);
    assert_eq!(now.checked_via_fallback, 1);
    assert_eq!(now.processed, 1);
    assert!(s.report().is_empty());
}

#[test]
fn an_empty_nvd_answer_without_a_list_means_safe() {
    let mut s = ScanSession::new(ScanMode::NvdOnly);
    let mut trace = Vec::new();
    let reply = NvdReply::Answered {
        status: 200,
        raw: "{}".to_string(),
        body: Some(NvdResponse { vulnerabilities: None }),
    };
    let v = scan(&mut s, &installed("Notepad", None), &|_| nothing_found(), &|_| reply.clone(), &mut trace);
    assert_eq!(v.outcome, ScanResult::Safe);
}

#[test]
fn osv_that_cannot_be_asked_falls_back_or_fails() {
    let mut s = ScanSession::new(ScanMode::Hybrid);
    assert!(matches!(s.begin(&installed("python", None)), Ok(Action::QueryOsv { .. })));
    let next = s.step(Event::OsvUnavailable(ErrorKind::NetworkError)).unwrap();
    assert_eq!(next, Action::QueryNvd { url: address("python "), timeout_seconds: 15 });
    assert_eq!(s.phase(), Phase::FallbackSearch);

    let mut s = ScanSession::new(ScanMode::OsvOnly);
    assert!(matches!(s.begin(&installed("python", None)), Ok(Action::QueryOsv { .. })));
    let next = s.step(Event::OsvUnavailable(ErrorKind::NetworkError)).unwrap();
    assert_eq!(
        next,
        Action::Finish(Verdict {
            outcome: ScanResult::Failed(ErrorKind::NetworkError),
            matched: None,
            failure: None,
            incomplete: true,
        })
    );
    assert_eq!(s.summary().failed, 1);
}

#[test]
fn every_search_after_the_first_follows_the_delay() {
    let mut s = ScanSession::new(ScanMode::Hybrid);
    let mut trace = Vec::new();
    for name in ["Notepad", "Paint", "Calc"] {
        scan(&mut s, &installed(name, None), &|_| nothing_found(), &|_| nvd_entries(&[]), &mut trace);
    }
    let paced: Vec<Did> = trace.into_iter().filter(|d| !matches!(d, Did::Osv(_, _))).collect();
    assert_eq!(
        paced,
        vec![
            Did::Nvd(address("Notepad "), 15),
            Did::Waited(6),
            Did::Nvd(address("Paint "), 15),
            Did::Waited(6),
            Did::Nvd(address("Calc "), 15),
        ]
    );
    assert_eq!(s.summary().checked_via_fallback, 3);
}

#[test]
fn the_delay_counts_searches_not_programs() {
    let mut s = ScanSession::new(ScanMode::Hybrid);
    let mut trace = Vec::new();
    scan(&mut s, &installed("python", None), &|_| nothing_found(), &|_| nvd_entries(&[]), &mut trace);
    scan(&mut s, &installed("Notepad", None), &|_| nothing_found(), &|_| nvd_entries(&[]), &mut trace);
    assert!(!trace.contains(&Did::Waited(6)));
    scan(&mut s, &installed("Paint", None), &|_| nothing_found(), &|_| nvd_entries(&[]), &mut trace);
    assert_eq!(trace.iter().filter(|d| **d == Did::Waited(6)).count(), 1);
}

#[test]
fn nvd_only_waits_before_every_search() {
    let mut s = ScanSession::new(ScanMode::NvdOnly);
    let mut trace = Vec::new();
    for name in ["python", "Paint"] {
        scan(&mut s, &installed(name, Some("2")), &|_| one_vulnerability("never", "asked"), &|_| nvd_entries(&[]), &mut trace);
    }
    assert_eq!(
        trace,
        vec![
            Did::Waited(6),
            Did::Nvd(address("python 2"), 15),
            Did::Waited(6),
            Did::Nvd(address("Paint 2"), 15),
        ]
    );
    assert_eq!(s.summary().safe, 2);
    assert_eq!(s.summary().checked_via_fallback, 2);
}

#[test]
fn osv_only_never_falls_back() {
    let mut s = ScanSession::new(ScanMode::OsvOnly);
    let mut trace = Vec::new();
    for name in ["Notepad", "Paint", "python"] {
        scan(&mut s, &installed(name, None), &|_| OsvReply::Failed(ErrorKind::Timeout), &|_| nvd_entries(&["x"]), &mut trace);
    }
    assert!(trace.iter().all(|d| matches!(d, Did::Osv(_, _))));
    let now = s.summary();
    assert_eq!((now.unchecked, now.safe, now.checked_via_fallback), (2, 1, 0));
    assert!(now.coverage_warning);
}

#[test]
fn the_report_holds_the_rendered_findings_in_order() {
    let mut s = ScanSession::new(ScanMode::Hybrid);
    let mut trace = Vec::new();
    let osv = |q: &OsvQuery| {
        if q.name == "left-pad" {
            one_vulnerability("GHSA-osv", "from the first database")
        } else {
            nothing_found()
        }
    };
    let nvd = |url: &str| {
        if url.ends_with("Notepad ") {
            nvd_entries(&["CVE-2", "CVE-1"])
        } else {
            nvd_entries(&[])
        }
    };
    for name in ["Paint", "Notepad", "python", "left-pad"] {
        scan(&mut s, &installed(name, None), &osv, &nvd, &mut trace);
    }
    let expected = vec![
        "CVE-2 - about CVE-2\n\tNo CVSS Score".to_string(),
        "CVE-1 - about CVE-1\n\tNo CVSS Score".to_string(),
        "GHSA-osv - from the first database\n\tNo CVSS Score available".to_string(),
    ];
    assert_eq!(s.report(), &expected);
    assert_eq!(
        s.report_text(),
        "CVE-2 - about CVE-2\n\tNo CVSS Score\nCVE-1 - about CVE-1\n\tNo CVSS Score\nGHSA-osv - from the first database\n\tNo CVSS Score available\n"
    );
    assert_eq!(s.summary().vulnerable, 2);
}

#[test]
fn the_same_finding_twice_is_reported_twice() {
    let mut s = ScanSession::new(ScanMode::OsvOnly);
    let mut trace = Vec::new();
    for _ in 0..2 {
        scan(&mut s, &installed("left-pad", None), &|_| one_vulnerability("GHSA-d", "dup"), &|_| nvd_entries(&[]), &mut trace);
    }
    assert_eq!(s.report().len(), 2);
    assert_eq!(s.report()[0], s.report()[1]);
}

#[test]
fn a_failed_search_is_reported_and_the_batch_goes_on() {
    let mut s = ScanSession::new(ScanMode::Hybrid);
    let mut trace = Vec::new();
    let bad = NvdReply::Answered { status: 200, raw: "not json".to_string(), body: None };
    let v = scan(&mut s, &installed("Notepad", None), &|_| nothing_found(), &|_| bad.clone(), &mut trace);
    assert_eq!(v.outcome, ScanResult::Failed(ErrorKind::ParseError));
    assert_eq!(
        v.failure,
        Some(NvdError {
            kind: ErrorKind::ParseError,
            url: address("Notepad "),
            raw_body: Some("not json".to_string()),
        })
    );
    let limited = NvdReply::Answered { status: 429, raw: String::new(), body: None };
    let v = scan(&mut s, &installed("Paint", None), &|_| nothing_found(), &|_| limited.clone(), &mut trace);
    assert_eq!(v.outcome, ScanResult::Failed(ErrorKind::RateLimited));
    let v = scan(&mut s, &installed("Calc", None), &|_| nothing_found(), &|_| nvd_entries(&[]), &mut trace);
    assert_eq!(v.outcome, ScanResult::Safe);
    let now = s.summary();
    assert_eq!((now.processed, now.failed, now.safe), (3, 2, 1));
    assert!(now.coverage_warning);
    assert!(s.report().is_empty());
}

#[test]
fn a_second_program_must_wait_for_the_first() {
    let mut s = ScanSession::new(ScanMode::Hybrid);
    let first = s.begin(&installed("python", None)).unwrap();
    assert!(matches!(first, Action::QueryOsv { .. }));
    assert_eq!(s.phase(), Phase::TryOsv);
    assert_eq!(s.begin(&installed("Paint", None)), Err(Misuse::Busy));
    assert_eq!(s.phase(), Phase::TryOsv);
    assert_eq!(s.summary().processed, 0);
}

#[test]
fn events_out_of_turn_change_nothing() {
    let mut s = ScanSession::new(ScanMode::Hybrid);
    assert_eq!(s.step(Event::Waited), Err(Misuse::Unexpected));
    assert_eq!(s.step(Event::OsvReplied(nothing_found())), Err(Misuse::Unexpected));
    assert_eq!(s.step(Event::NvdReplied(nvd_entries(&[]))), Err(Misuse::Unexpected));
    assert_eq!(s.step(Event::OsvUnavailable(ErrorKind::Timeout)), Err(Misuse::Unexpected));
    s.begin(&installed("python", None)).unwrap();
    assert_eq!(s.step(Event::Waited), Err(Misuse::Unexpected));
    assert_eq!(s.step(Event::NvdReplied(nvd_entries(&["CVE-1"]))), Err(Misuse::Unexpected));
    assert_eq!(s.phase(), Phase::TryOsv);
    assert_eq!(s.summary().processed, 0);

    let mut n = ScanSession::new(ScanMode::NvdOnly);
    assert_eq!(n.begin(&installed("python", None)), Ok(Action::Wait { seconds: 6 }));
    assert_eq!(n.phase(), Phase::FallbackPacing);
    assert_eq!(n.step(Event::NvdReplied(nvd_entries(&[]))), Err(Misuse::Unexpected));
    assert_eq!(n.step(Event::OsvReplied(nothing_found())), Err(Misuse::Unexpected));
    assert_eq!(
        n.step(Event::Waited),
        Ok(Action::QueryNvd { url: address("python "), timeout_seconds: 15 })
    );
    assert_eq!(n.step(Event::Waited), Err(Misuse::Unexpected));
    assert_eq!(n.phase(), Phase::FallbackSearch);
}

#[test]
fn an_empty_batch_is_a_run_with_nothing_to_report() {
    let s = ScanSession::new(ScanMode::Hybrid);
    assert_eq!(s.summary().processed, 0);
    assert!(!s.summary().coverage_warning);
    assert_eq!(s.report_text(), "");
}

#[test]
fn coverage_warning_compares_with_cleared_programs() {
    let mut s = ScanSession::new(ScanMode::OsvOnly);
    let mut trace = Vec::new();
    scan(&mut s, &installed("python", None), &|_| nothing_found(), &|_| nvd_entries(&[]), &mut trace);
    scan(&mut s, &installed("Paint", None), &|_| nothing_found(), &|_| nvd_entries(&[]), &mut trace);
    assert!(!s.summary().coverage_warning);
    scan(&mut s, &installed("Calc", None), &|_| nothing_found(), &|_| nvd_entries(&[]), &mut trace);
    assert!(s.summary().coverage_warning);
}

#[test]
fn render_all_renders_each_finding() {
    let fs = vec![
        Finding {
            id: "A".to_string(),
            summary: "a".to_string(),
            cvss_score: None,
            severity_label: None,
            source: Source::Osv,
        },
        Finding {
            id: "B".to_string(),
            summary: "b".to_string(),
            cvss_score: None,
            severity_label: None,
            source: Source::Nvd,
        },
    ];
    assert_eq!(
        render_all(&fs),
        vec!["A - a\n\tNo CVSS Score available".to_string(), "B - b\n\tNo CVSS Score".to_string()]
    );
    assert_eq!(render_all(&vec![]), Vec::<String>::new());
}

#[test]
fn the_report_goes_to_a_fixed_file() {
    assert_eq!(report_path(), "vulnerable.txt");
}

#[test]
fn only_the_osv_run_pauses_between_programs() {
    assert_eq!(ScanMode::OsvOnly.pause_millis(), 100);
    assert_eq!(ScanMode::Hybrid.pause_millis(), 0);
    assert_eq!(ScanMode::NvdOnly.pause_millis(), 0);
}

#[test]
fn a_safe_outcome_tells_whether_every_query_was_answered() {
    let mut s = ScanSession::new(ScanMode::Hybrid);
    let mut trace = Vec::new();
    let clean = scan(&mut s, &installed("python", None), &|_| nothing_found(), &|_| nvd_entries(&[]), &mut trace);
    assert_eq!(clean.outcome, ScanResult::Safe);
    assert!(!clean.incomplete);
    let shaky = scan(
        &mut s,
        &installed("python", None),
        &|_| OsvReply::Failed(ErrorKind::NetworkError),
        &|_| nvd_entries(&[]),
        &mut trace,
    );
    assert_eq!(shaky.outcome, ScanResult::Safe);
    assert!(shaky.incomplete);
    assert_eq!(s.summary().safe, 2);
    assert_eq!(s.summary().checked_via_fallback, 0);
}
