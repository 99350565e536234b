//! The package ecosystems a vulnerability lookup can be scoped to, and the heuristic
//! that guesses them from a program's name.

use crate::text::{chars_of, contains, contains_text, lowercase_of, to_lowercase};
use vstd::prelude::*;

verus! {

/// A package-hosting system known to the ecosystem-scoped vulnerability database.
#[derive(Clone, Copy, Debug, PartialEq, Eq, Structural)]
pub enum Ecosystem {
    PyPI,
    Npm,
    NuGet,
    Maven,
    CratesIo,
    Go,
    Packagist,
    RubyGems,
}

impl Ecosystem {
    /// The name under which the database knows this ecosystem.
    pub open spec fn spec_label(self) -> Seq<char> {
        match self {
            Ecosystem::PyPI => "PyPI"@,
            Ecosystem::Npm => "npm"@,
            Ecosystem::NuGet => "NuGet"@,
            Ecosystem::Maven => "Maven"@,
            Ecosystem::CratesIo => "crates.io"@,
            Ecosystem::Go => "Go"@,
            Ecosystem::Packagist => "Packagist"@,
            Ecosystem::RubyGems => "RubyGems"@,
        }
    }

    /// The keywords that, found in a lowercased name, point to this ecosystem.
    pub open spec fn keywords(self) -> Seq<Seq<char>> {
        match self {
            Ecosystem::PyPI => seq!["python"@, "pip"@, "conda"@],
            Ecosystem::Npm => seq!["node"@, "npm"@, "yarn"@],
            Ecosystem::NuGet => seq![".net"@, "nuget"@, "dotnet"@],
            Ecosystem::Maven => seq!["java"@, "maven"@, "jdk"@],
            Ecosystem::CratesIo => seq!["rust"@, "cargo"@],
            Ecosystem::Go => seq!["golang"@, " go "@],
            Ecosystem::Packagist => seq!["php"@, "composer"@],
            Ecosystem::RubyGems => seq!["ruby"@, "gem"@],
        }
    }

    /// Whether a lowercased name holds one of this ecosystem's keywords.
    pub open spec fn is_likely(self, lowered: Seq<char>) -> bool {
        exists|k: int|
            0 <= k < self.keywords().len() && contains_text(lowered, #[trigger] self.keywords()[k])
    }

    pub fn label(&self) -> (s: &'static str)
        ensures
            s@ == self.spec_label(),
    {
        match self {
            Ecosystem::PyPI => "PyPI",
            Ecosystem::Npm => "npm",
            Ecosystem::NuGet => "NuGet",
            Ecosystem::Maven => "Maven",
            Ecosystem::CratesIo => "crates.io",
            Ecosystem::Go => "Go",
            Ecosystem::Packagist => "Packagist",
            Ecosystem::RubyGems => "RubyGems",
        }
    }

    fn keyword_table(&self) -> (t: Vec<&'static str>)
        ensures
            t@.len() == self.keywords().len(),
            forall|k: int| 0 <= k < t@.len() ==> (#[trigger] t@[k])@ == self.keywords()[k],
    {
        match self {
            Ecosystem::PyPI => vec!["python", "pip", "conda"],
            Ecosystem::Npm => vec!["node", "npm", "yarn"],
            Ecosystem::NuGet => vec![".net", "nuget", "dotnet"],
            Ecosystem::Maven => vec!["java", "maven", "jdk"],
            Ecosystem::CratesIo => vec!["rust", "cargo"],
            Ecosystem::Go => vec!["golang", " go "],
            Ecosystem::Packagist => vec!["php", "composer"],
            Ecosystem::RubyGems => vec!["ruby", "gem"],
        }
    }

    /// Tests a lowercased name against this ecosystem's keywords.
    pub fn matches_lowered(&self, lowered: &Vec<char>) -> (b: bool)
        ensures
            b == self.is_likely(lowered@),
    {
        let table = self.keyword_table();
        let mut k: usize = 0;
        while k < table.len()
            invariant
                k <= table@.len(),
                table@.len() == self.keywords().len(),
                forall|j: int|
                    0 <= j < table@.len() ==> (#[trigger] table@[j])@ == self.keywords()[j],
                forall|j: int|
                    0 <= j < k ==> !contains_text(lowered@, #[trigger] self.keywords()[j]),
            decreases table@.len() - k,
        {
            let keyword = chars_of(table[k]);
            if contains(lowered, &keyword) {
                return true;
            }
            k = k + 1;
        }
        false
    }
}

/// Every known ecosystem, in the order in which lookups try them.
pub open spec fn catalog() -> Seq<Ecosystem> {
    seq![
        Ecosystem::PyPI,
        Ecosystem::Npm,
        Ecosystem::NuGet,
        Ecosystem::Maven,
        Ecosystem::CratesIo,
        Ecosystem::Go,
        Ecosystem::Packagist,
        Ecosystem::RubyGems,
    ]
}

/// The members of `among` that are likely for a lowercased name (`want`) or that are
/// not (`!want`), in the order of `among`.
pub open spec fn selected(among: Seq<Ecosystem>, lowered: Seq<char>, want: bool) -> Seq<Ecosystem>
    decreases among.len(),
{
    if among.len() == 0 {
        Seq::empty()
    } else {
        let before = selected(among.drop_last(), lowered, want);
        if among.last().is_likely(lowered) == want {
            before.push(among.last())
        } else {
            before
        }
    }
}

/// The ecosystems guessed for a lowercased name: those of the catalog with a keyword
/// in it, in catalog order.
pub open spec fn guessed(lowered: Seq<char>) -> Seq<Ecosystem> {
    selected(catalog(), lowered, true)
}

/// The ecosystems of the catalog that the guess left out, in catalog order.
pub open spec fn not_guessed(lowered: Seq<char>) -> Seq<Ecosystem> {
    selected(catalog(), lowered, false)
}

/// Every member of `among` is either likely for a name or not: the two selections
/// share out `among` between them.
pub proof fn law_selection_splits(among: Seq<Ecosystem>, lowered: Seq<char>)
    ensures
        selected(among, lowered, true).len() + selected(among, lowered, false).len()
            == among.len(),
    decreases among.len(),
{
    if among.len() > 0 {
        law_selection_splits(among.drop_last(), lowered);
    }
}

/// Every known ecosystem, in catalog order.
pub fn ecosystems() -> (v: Vec<Ecosystem>)
    ensures
        v@ == catalog(),
{
    let v = vec![
        Ecosystem::PyPI,
        Ecosystem::Npm,
        Ecosystem::NuGet,
        Ecosystem::Maven,
        Ecosystem::CratesIo,
        Ecosystem::Go,
        Ecosystem::Packagist,
        Ecosystem::RubyGems,
    ];
    proof {
        assert(v@ =~= catalog());
    }
    v
}

/// The ecosystems of the catalog that are likely (`want`) or not (`!want`) for a name
/// already lowercased.
pub fn select_ecosystems(lowered: &Vec<char>, want: bool) -> (v: Vec<Ecosystem>)
    ensures
        v@ == selected(catalog(), lowered@, want),
{
    let all = ecosystems();
    let mut out: Vec<Ecosystem> = Vec::new();
    let mut i: usize = 0;
    while i < all.len()
        invariant
            all@ == catalog(),
            i <= all@.len(),
            out@ == selected(all@.subrange(0, i as int), lowered@, want),
        decreases all@.len() - i,
    {
        proof {
            assert(all@.subrange(0, i + 1).drop_last() =~= all@.subrange(0, i as int));
        }
        if all[i].matches_lowered(lowered) == want {
            out.push(all[i]);
        }
        i = i + 1;
    }
    proof {
        assert(all@.subrange(0, all@.len() as int) =~= all@);
    }
    out
}

/// Guesses the ecosystems a program may belong to from its name: the name is
/// lowercased and tested against each ecosystem's keywords.
pub fn guess_ecosystems(name: &str) -> (v: Vec<Ecosystem>)
    ensures
        v@ == guessed(lowercase_of(name@)),
{
    let lowered = chars_of(to_lowercase(name).as_str());
    select_ecosystems(&lowered, true)
}

} // verus!
