use bluescan::ecosystem::{ecosystems, guess_ecosystems, select_ecosystems, Ecosystem};
use bluescan::names::get_name_variations;

fn strings(v: &[&str]) -> Vec<String> {
    v.iter().map(|s| s.to_string()).collect()
}

#[test]
fn catalog_lists_the_eight_ecosystems_in_order() {
    let labels: Vec<&str> = ecosystems().iter().map(|e| e.label()).collect();
    assert_eq!(
        labels,
        vec!["PyPI", "npm", "NuGet", "Maven", "crates.io", "Go", "Packagist", "RubyGems"]
    );
}

#[test]
fn python_name_points_to_pypi() {
    assert_eq!(guess_ecosystems("Python 3.11.4 (64-bit)"), vec![Ecosystem::PyPI]);
}

#[test]
fn keywords_match_without_regard_to_case() {
    assert_eq!(guess_ecosystems("PYTHON"), vec![Ecosystem::PyPI]);
    assert_eq!(guess_ecosystems("NodeJS"), vec![Ecosystem::Npm]);
    assert_eq!(guess_ecosystems("Microsoft .NET Runtime"), vec![Ecosystem::NuGet]);
    assert_eq!(guess_ecosystems("OpenJDK"), vec![Ecosystem::Maven]);
    assert_eq!(guess_ecosystems("Rustup"), vec![Ecosystem::CratesIo]);
    assert_eq!(guess_ecosystems("GoLang tools"), vec![Ecosystem::Go]);
    assert_eq!(guess_ecosystems("PHP 8"), vec![Ecosystem::Packagist]);
    assert_eq!(guess_ecosystems("Ruby"), vec![Ecosystem::RubyGems]);
}

#[test]
fn every_keyword_points_to_its_ecosystem() {
    let table = [
        ("python", Ecosystem::PyPI),
        ("pip", Ecosystem::PyPI),
        ("conda", Ecosystem::PyPI),
        ("node", Ecosystem::Npm),
        ("npm", Ecosystem::Npm),
        ("yarn", Ecosystem::Npm),
        (".net", Ecosystem::NuGet),
        ("nuget", Ecosystem::NuGet),
        ("dotnet", Ecosystem::NuGet),
        ("java", Ecosystem::Maven),
        ("maven", Ecosystem::Maven),
        ("jdk", Ecosystem::Maven),
        ("rust", Ecosystem::CratesIo),
        ("cargo", Ecosystem::CratesIo),
        ("golang", Ecosystem::Go),
        ("a go b", Ecosystem::Go),
        ("php", Ecosystem::Packagist),
        ("composer", Ecosystem::Packagist),
        ("ruby", Ecosystem::RubyGems),
        ("gem", Ecosystem::RubyGems),
    ];
    for (name, ecosystem) in table {
        assert!(guess_ecosystems(name).contains(&ecosystem), "{}", name);
    }
}

#[test]
fn go_needs_spaces_around_it() {
    assert_eq!(guess_ecosystems("Go"), Vec::<Ecosystem>::new());
    assert_eq!(guess_ecosystems("Let us go now"), vec![Ecosystem::Go]);
}

#[test]
fn several_matches_come_in_catalog_order() {
    assert_eq!(
        guess_ecosystems("ruby gems for node and python with pip"),
        vec![Ecosystem::PyPI, Ecosystem::Npm, Ecosystem::RubyGems]
    );
    assert_eq!(guess_ecosystems("javascript rust"), vec![Ecosystem::Maven, Ecosystem::CratesIo]);
}

#[test]
fn name_without_keyword_points_nowhere() {
    assert_eq!(guess_ecosystems("7-Zip 23.01"), Vec::<Ecosystem>::new());
    assert_eq!(guess_ecosystems(""), Vec::<Ecosystem>::new());
}

#[test]
fn select_ecosystems_splits_the_catalog() {
    let lowered: Vec<char> = "python and node".chars().collect();
    let likely = select_ecosystems(&lowered, true);
    let others = select_ecosystems(&lowered, false);
    assert_eq!(likely, vec![Ecosystem::PyPI, Ecosystem::Npm]);
    assert_eq!(
        others,
        vec![
            Ecosystem::NuGet,
            Ecosystem::Maven,
            Ecosystem::CratesIo,
            Ecosystem::Go,
            Ecosystem::Packagist,
            Ecosystem::RubyGems
        ]
    );
    assert!(!Ecosystem::PyPI.matches_lowered(&"PYTHON".chars().collect()));
}

#[test]
fn variations_are_sorted_and_distinct() {
    assert_eq!(
        get_name_variations("Microsoft .NET Runtime 6.0"),
        strings(&[
            ".net 6.0",
            "Microsoft .NET Runtime 6.0",
            "microsoft",
            "microsoft .net runtime 6.0",
            "microsoft-.net-runtime-6.0",
            "microsoft.netruntime6.0",
        ])
    );
}

#[test]
fn variations_of_a_plain_lowercase_name_collapse() {
    assert_eq!(get_name_variations("curl"), strings(&["curl"]));
}

#[test]
fn variations_of_a_name_that_starts_with_a_digit_hold_the_empty_stem() {
    assert_eq!(
        get_name_variations("7-Zip 23.01"),
        strings(&["", "7-Zip 23.01", "7-zip 23.01", "7-zip-23.01", "7-zip23.01"])
    );
}

#[test]
fn variations_agree_with_sorting_the_candidates() {
    for name in ["Python 3.11 SDK for Windows", "  Padded Name  ", "Ünïcode Äpp 2", "A B C"] {
        let lower = name.to_lowercase();
        let cleaned = lower
            .replace(" runtime", "")
            .replace(" sdk", "")
            .replace(" framework", "")
            .replace("microsoft ", "")
            .replace(" for windows", "")
            .trim()
            .to_string();
        let stem = name
            .split(|c: char| c.is_numeric() || c == '.')
            .next()
            .unwrap_or(name)
            .trim()
            .to_lowercase();
        let mut expected = vec![
            name.to_string(),
            lower.clone(),
            cleaned,
            name.replace(' ', "-").to_lowercase(),
            name.replace(' ', "").to_lowercase(),
            stem,
        ];
        expected.sort();
        expected.dedup();
        assert_eq!(get_name_variations(name), expected, "{}", name);
    }
}
