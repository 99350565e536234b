//! The order in which names and ecosystems are tried for one program.

use crate::ecosystem::{
    catalog, ecosystems, guessed, law_selection_splits, not_guessed, select_ecosystems,
    Ecosystem,
};
use crate::names::{get_name_variations, name_variations};
use crate::text::{chars_of, lowercase_of, strings_of, text_eq, to_lowercase};
use vstd::prelude::*;
use vstd::string::StringExecFns;

verus! {

/// A name to look up in one ecosystem.
#[derive(Clone, Debug, PartialEq, Eq)]
pub struct Candidate {
    pub name: String,
    pub ecosystem: Ecosystem,
}

/// A candidate as plain values.
pub struct CandidateView {
    pub name: Seq<char>,
    pub ecosystem: Ecosystem,
}

impl View for Candidate {
    type V = CandidateView;

    open spec fn view(&self) -> CandidateView {
        CandidateView { name: self.name@, ecosystem: self.ecosystem }
    }
}

/// The candidates that a vector holds, as plain values.
pub open spec fn candidates_of(v: Seq<Candidate>) -> Seq<CandidateView> {
    Seq::new(v.len(), |i: int| v[i]@)
}

/// One name paired with each of the ecosystems given, in their order.
pub open spec fn pairs(name: Seq<char>, among: Seq<Ecosystem>) -> Seq<CandidateView> {
    Seq::new(among.len(), |i: int| CandidateView { name, ecosystem: among[i] })
}

/// The sweep of the whole catalog for each variation that is neither the name nor
/// its lowercase, in the order of the variations.
pub open spec fn variant_pairs(
    name: Seq<char>,
    lowered: Seq<char>,
    variations: Seq<Seq<char>>,
) -> Seq<CandidateView>
    decreases variations.len(),
{
    if variations.len() == 0 {
        Seq::empty()
    } else {
        let before = variant_pairs(name, lowered, variations.drop_last());
        let last = variations.last();
        if last == name || last == lowered {
            before
        } else {
            before + pairs(last, catalog())
        }
    }
}

/// The candidates for a name, given what the heuristic and the variations are: first
/// the name in each likely ecosystem, then the name in each other ecosystem, then
/// each further variation in every ecosystem.
pub open spec fn plan_from(
    name: Seq<char>,
    lowered: Seq<char>,
    likely: Seq<Ecosystem>,
    others: Seq<Ecosystem>,
    variations: Seq<Seq<char>>,
) -> Seq<CandidateView> {
    pairs(name, likely) + pairs(name, others) + variant_pairs(name, lowered, variations)
}

/// The candidates for a program's name, in the order in which they are tried.
pub open spec fn plan_of(name: Seq<char>) -> Seq<CandidateView> {
    let lowered = lowercase_of(name);
    plan_from(name, lowered, guessed(lowered), not_guessed(lowered), name_variations(name))
}

/// The candidates for any name start with that name in every ecosystem of the
/// catalog, the likely ones first: there is always something to ask.
pub proof fn law_plan_asks_every_ecosystem(name: Seq<char>)
    ensures
        plan_of(name).len() >= catalog().len(),
        catalog().len() == 8,
        forall|i: int| 0 <= i < catalog().len() ==> (#[trigger] plan_of(name)[i]).name == name,
{
    let lowered = lowercase_of(name);
    law_selection_splits(catalog(), lowered);
}

/// Appends `name` paired with each ecosystem of `among`.
fn push_pairs(out: &mut Vec<Candidate>, name: &str, among: &Vec<Ecosystem>)
    ensures
        candidates_of(final(out)@) == candidates_of(old(out)@) + pairs(name@, among@),
{
    let mut i: usize = 0;
    proof {
        assert(candidates_of(out@) + pairs(name@, among@.subrange(0, 0)) =~= candidates_of(out@));
    }
    while i < among.len()
        invariant
            i <= among@.len(),
            candidates_of(out@) == candidates_of(old(out)@) + pairs(
                name@,
                among@.subrange(0, i as int),
            ),
        decreases among@.len() - i,
    {
        let ghost before = out@;
        out.push(Candidate { name: String::from_str(name), ecosystem: among[i] });
        proof {
            assert(candidates_of(out@) =~= candidates_of(before).push(out@[i + old(out)@.len()]@));
            assert(candidates_of(out@) =~= candidates_of(old(out)@) + pairs(
                name@,
                among@.subrange(0, i + 1),
            ));
        }
        i = i + 1;
    }
    proof {
        assert(among@.subrange(0, among@.len() as int) =~= among@);
    }
}

/// Lays out the candidates for a name from what the heuristic and the variations
/// gave for it.
pub fn plan_with(
    name: &str,
    lowered: &Vec<char>,
    likely: &Vec<Ecosystem>,
    others: &Vec<Ecosystem>,
    variations: &Vec<String>,
) -> (plan: Vec<Candidate>)
    ensures
        candidates_of(plan@) == plan_from(
            name@,
            lowered@,
            likely@,
            others@,
            strings_of(variations@),
        ),
{
    let mut plan: Vec<Candidate> = Vec::new();
    proof {
        assert(candidates_of(plan@) =~= Seq::<CandidateView>::empty());
    }
    push_pairs(&mut plan, name, likely);
    push_pairs(&mut plan, name, others);
    let given = chars_of(name);
    let all = ecosystems();
    let ghost first = pairs(name@, likely@) + pairs(name@, others@);
    let ghost vars = strings_of(variations@);
    let mut i: usize = 0;
    proof {
        assert(candidates_of(plan@) =~= first + variant_pairs(
            name@,
            lowered@,
            vars.subrange(0, 0),
        ));
    }
    while i < variations.len()
        invariant
            i <= variations@.len(),
            vars == strings_of(variations@),
            given@ == name@,
            all@ == catalog(),
            candidates_of(plan@) == first + variant_pairs(
                name@,
                lowered@,
                vars.subrange(0, i as int),
            ),
        decreases variations@.len() - i,
    {
        let ghost done = variant_pairs(name@, lowered@, vars.subrange(0, i as int));
        proof {
            let next = vars.subrange(0, i + 1);
            assert(next.drop_last() =~= vars.subrange(0, i as int));
            assert(next.last() == variations@[i as int]@);
        }
        let variant = chars_of(variations[i].as_str());
        if !text_eq(&variant, &given) && !text_eq(&variant, lowered) {
            push_pairs(&mut plan, variations[i].as_str(), &all);
            proof {
                assert((first + done) + pairs(variant@, catalog()) =~= first + (done + pairs(
                    variant@,
                    catalog(),
                )));
            }
        }
        i = i + 1;
    }
    proof {
        assert(vars.subrange(0, vars.len() as int) =~= vars);
    }
    plan
}

/// The candidates for a program's name, in the order in which they are tried, and
/// how many of them come from the guess.
pub fn plan_for(name: &str) -> (r: (Vec<Candidate>, usize))
    ensures
        candidates_of(r.0@) == plan_of(name@),
        r.1 == guessed(lowercase_of(name@)).len(),
{
    let lowered = chars_of(to_lowercase(name).as_str());
    let likely = select_ecosystems(&lowered, true);
    let others = select_ecosystems(&lowered, false);
    let variations = get_name_variations(name);
    let plan = plan_with(name, &lowered, &likely, &others, &variations);
    (plan, likely.len())
}

} // verus!
