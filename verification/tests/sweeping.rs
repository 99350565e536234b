use bluescan::ecosystem::Ecosystem;
use bluescan::finding::{ErrorKind, ScanResult};
use bluescan::osv::{OsvQuery, OsvReply, OsvVulnerability};
use bluescan::plan::{plan_for, plan_with, Candidate};
use bluescan::program::InstalledProgram;
use bluescan::sweep::{copy_candidate, query_of, search_vulns_osv, OsvStep};

fn program(name: &str, version: Option<&str>) -> InstalledProgram {
    InstalledProgram {
        name: name.to_string(),
        version: version.map(|v| v.to_string()),
        publisher: None,
        install_date: None,
    }
}

fn empty_reply() -> OsvReply {
    OsvReply::Answered { status: 200, body: Some(vec![]) }
}

fn hit(id: &str) -> OsvReply {
    OsvReply::Answered {
        status: 200,
        body: Some(vec![OsvVulnerability { id: id.to_string(), summary: None, severity: None }]),
    }
}

fn pair(name: &str, ecosystem: Ecosystem) -> Candidate {
    Candidate { name: name.to_string(), ecosystem }
}

const ALL: [Ecosystem; 8] = [
    Ecosystem::PyPI,
    Ecosystem::Npm,
    Ecosystem::NuGet,
    Ecosystem::Maven,
    Ecosystem::CratesIo,
    Ecosystem::Go,
    Ecosystem::Packagist,
    Ecosystem::RubyGems,
];

/// Runs a search to its end against a backend and returns the queries asked with the result.
fn run_search(
    p: &InstalledProgram,
    backend: &dyn Fn(&OsvQuery) -> OsvReply,
) -> (Vec<OsvQuery>, ScanResult, Option<Candidate>, bool) {
    let (mut sweep, mut step) = search_vulns_osv(p);
    let mut asked = Vec::new();
    loop {
        match step {
            OsvStep::Ask(q) => {
                let reply = backend(&q);
                asked.push(q);
                step = sweep.advance(&reply);
            }
            OsvStep::Done { result, matched, incomplete } => {
                return (asked, result, matched, incomplete)
            }
        }
    }
}

#[test]
fn plan_tries_likely_then_others_then_variations() {
    let (plan, likely) = plan_for("Node");
    assert_eq!(likely, 1);
    let mut expected = vec![pair("Node", Ecosystem::Npm)];
    for e in ALL {
        if e != Ecosystem::Npm {
            expected.push(pair("Node", e));
        }
    }
    assert_eq!(plan, expected);
    assert_eq!(plan.len(), 8);
}

#[test]
fn plan_sweeps_every_ecosystem_for_each_further_variation() {
    let (plan, likely) = plan_for("My Tool");
    assert_eq!(likely, 0);
    let mut expected = Vec::new();
    for e in ALL {
        expected.push(pair("My Tool", e));
    }
    for variant in ["my-tool", "mytool"] {
        for e in ALL {
            expected.push(pair(variant, e));
        }
    }
    assert_eq!(plan, expected);
}

#[test]
fn plan_with_skips_the_name_and_its_lowercase() {
    let lowered: Vec<char> = "ab".chars().collect();
    let plan = plan_with(
        "Ab",
        &lowered,
        &vec![Ecosystem::Go],
        &vec![Ecosystem::Npm],
        &vec!["Ab".to_string(), "ab".to_string(), "x".to_string()],
    );
    let mut expected = vec![pair("Ab", Ecosystem::Go), pair("Ab", Ecosystem::Npm)];
    for e in ALL {
        expected.push(pair("x", e));
    }
    assert_eq!(plan, expected);
}

#[test]
fn query_carries_the_version_unless_empty() {
    let (_, step) = search_vulns_osv(&program("Python", Some("3.11")));
    assert_eq!(
        step,
        OsvStep::Ask(OsvQuery {
            name: "Python".to_string(),
            ecosystem: Ecosystem::PyPI,
            version: Some("3.11".to_string()),
        })
    );
    let (_, step) = search_vulns_osv(&program("Python", Some("")));
    assert_eq!(
        step,
        OsvStep::Ask(OsvQuery {
            name: "Python".to_string(),
            ecosystem: Ecosystem::PyPI,
            version: None,
        })
    );
    let (_, step) = search_vulns_osv(&program("Python", None));
    assert!(matches!(step, OsvStep::Ask(OsvQuery { version: None, .. })));
}

#[test]
fn query_of_and_copy_candidate_copy() {
    let c = pair("n", Ecosystem::Maven);
    assert_eq!(copy_candidate(&c), c);
    assert_eq!(
        query_of(&c, &Some("1".to_string())),
        OsvQuery { name: "n".to_string(), ecosystem: Ecosystem::Maven, version: Some("1".to_string()) }
    );
}

#[test]
fn unmatched_name_without_findings_is_unchecked() {
    let p = program("7-Zip 23.01", Some("23.01"));
    let (asked, result, matched, incomplete) = run_search(&p, &|_| empty_reply());
    assert_eq!(asked.len(), 32);
    assert_eq!(
        result,
        ScanResult::Unchecked("checked but not able to verify ecosystem".to_string())
    );
    assert_eq!(matched, None);
    assert!(!incomplete);
}

#[test]
fn matched_name_without_findings_is_safe() {
    let p = program("Python 3", None);
    let (asked, result, matched, incomplete) = run_search(&p, &|_| empty_reply());
    assert_eq!(result, ScanResult::Safe);
    assert_eq!(matched, None);
    assert!(!incomplete);
    assert_eq!(asked[0].ecosystem, Ecosystem::PyPI);
    assert_eq!(asked[0].name, "Python 3");
    assert!(asked.iter().all(|q| q.version.is_none()));
}

#[test]
fn matched_name_is_safe_even_when_every_query_fails() {
    let p = program("Python 3", None);
    let (_, result, _, incomplete) = run_search(&p, &|_| OsvReply::Failed(ErrorKind::NetworkError));
    assert_eq!(result, ScanResult::Safe);
    assert!(incomplete);
    let refused = |_: &OsvQuery| OsvReply::Answered { status: 429, body: None };
    assert!(run_search(&p, &refused).3);
    let unreadable = |_: &OsvQuery| OsvReply::Answered { status: 200, body: None };
    assert!(run_search(&p, &unreadable).3);
    let one_failure = |q: &OsvQuery| {
        if q.ecosystem == Ecosystem::Go {
            OsvReply::Failed(ErrorKind::Timeout)
        } else {
            empty_reply()
        }
    };
    assert_eq!(run_search(&p, &one_failure).1, ScanResult::Safe);
    assert!(run_search(&p, &one_failure).3);
}

#[test]
fn first_findings_end_the_search() {
    let p = program("left-pad", None);
    let backend = |q: &OsvQuery| {
        if q.ecosystem == Ecosystem::Npm {
            hit("GHSA-xxxx")
        } else {
            empty_reply()
        }
    };
    let (asked, result, matched, incomplete) = run_search(&p, &backend);
    assert!(!incomplete);
    assert_eq!(asked.len(), 2);
    assert_eq!(asked[1].ecosystem, Ecosystem::Npm);
    match result {
        ScanResult::Vulnerable(found) => {
            assert_eq!(found.len(), 1);
            assert_eq!(found[0].id, "GHSA-xxxx");
        }
        other => panic!("{:?}", other),
    }
    assert_eq!(matched, Some(pair("left-pad", Ecosystem::Npm)));
}

#[test]
fn findings_under_a_variation_name_the_variation() {
    let p = program("Left Pad", None);
    let backend = |q: &OsvQuery| {
        if q.name == "left-pad" && q.ecosystem == Ecosystem::Npm {
            hit("GHSA-v")
        } else {
            empty_reply()
        }
    };
    let (asked, result, matched, _) = run_search(&p, &backend);
    assert!(matches!(result, ScanResult::Vulnerable(_)));
    assert_eq!(matched, Some(pair("left-pad", Ecosystem::Npm)));
    assert!(asked.iter().all(|q| q.name != "left pad"));
    assert!(asked.len() > 8);
}

#[test]
fn failed_and_rejected_queries_do_not_stop_the_sweep() {
    let p = program("left-pad", None);
    let backend = |q: &OsvQuery| match q.ecosystem {
        Ecosystem::PyPI => OsvReply::Failed(ErrorKind::Timeout),
        Ecosystem::Npm => OsvReply::Answered { status: 503, body: None },
        Ecosystem::NuGet => OsvReply::Answered { status: 200, body: None },
        Ecosystem::Maven => hit("GHSA-m"),
        _ => empty_reply(),
    };
    let (asked, result, matched, incomplete) = run_search(&p, &backend);
    assert_eq!(asked.len(), 4);
    assert!(matches!(result, ScanResult::Vulnerable(_)));
    assert_eq!(matched, Some(pair("left-pad", Ecosystem::Maven)));
    assert!(incomplete);
}

#[test]
fn a_finished_search_repeats_its_end() {
    let (mut sweep, mut step) = search_vulns_osv(&program("curl", None));
    let mut replies = 0;
    while let OsvStep::Ask(_) = step {
        step = sweep.advance(&empty_reply());
        replies += 1;
    }
    assert_eq!(replies, 8);
    let again = sweep.advance(&hit("late"));
    assert_eq!(again, step);
    assert_eq!(sweep.first(), step);
}
