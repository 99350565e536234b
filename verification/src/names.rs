//! Variations of a program's name under which a package may be listed.

use crate::text::{
    char_is_numeric, chars_of, is_numeric_char, lemma_text_lt_irreflexive, lemma_text_lt_total,
    lemma_text_lt_transitive,
    lowercase_of, replace_all, replaced, string_of, strings_of, sub_text, text_eq, text_less,
    text_lt, texts_of, to_lowercase, trim, trimmed,
};
use vstd::prelude::*;

verus! {

/// A lowercased name without the words that vendors add to a package's name:
/// " runtime", " sdk", " framework", "microsoft " and " for windows" are taken out
/// wherever they occur, in this order, and the rest is trimmed.
pub open spec fn cleaned(lowered: Seq<char>) -> Seq<char> {
    let none = Seq::<char>::empty();
    let a = replaced(lowered, " runtime"@, none);
    let b = replaced(a, " sdk"@, none);
    let c = replaced(b, " framework"@, none);
    let d = replaced(c, "microsoft "@, none);
    trimmed(replaced(d, " for windows"@, none))
}

/// Whether a character starts a version number: a numeric character or a period.
pub open spec fn is_version_mark(c: char) -> bool {
    is_numeric_char(c) || c == '.'
}

/// The number of characters of `s` before its first version mark.
pub open spec fn stem_len(s: Seq<char>) -> nat
    decreases s.len(),
{
    if s.len() > 0 && !is_version_mark(s[0]) {
        1 + stem_len(s.subrange(1, s.len() as int))
    } else {
        0
    }
}

/// The part of a name before its first version mark, trimmed.
pub open spec fn version_stem(name: Seq<char>) -> Seq<char> {
    trimmed(name.subrange(0, stem_len(name) as int))
}

/// `s`, kept in ascending order without repeats, with `x` added unless it is there.
pub open spec fn inserted(s: Seq<Seq<char>>, x: Seq<char>) -> Seq<Seq<char>>
    decreases s.len(),
{
    if s.len() == 0 {
        seq![x]
    } else if s.last() == x {
        s
    } else if text_lt(s.last(), x) {
        s.push(x)
    } else {
        inserted(s.drop_last(), x).push(s.last())
    }
}

/// The texts of `c` in ascending order, each once.
pub open spec fn sorted_distinct(c: Seq<Seq<char>>) -> Seq<Seq<char>>
    decreases c.len(),
{
    if c.len() == 0 {
        Seq::empty()
    } else {
        inserted(sorted_distinct(c.drop_last()), c.last())
    }
}

/// The forms of a name that are tried, before ordering: the name, its lowercase, the
/// cleaned lowercase, the lowercase joined by hyphens, the lowercase without spaces,
/// and the lowercased part before the version.
pub open spec fn variation_candidates(name: Seq<char>) -> Seq<Seq<char>> {
    seq![
        name,
        lowercase_of(name),
        cleaned(lowercase_of(name)),
        lowercase_of(replaced(name, " "@, "-"@)),
        lowercase_of(replaced(name, " "@, Seq::<char>::empty())),
        lowercase_of(version_stem(name)),
    ]
}

/// The variations of a name: its candidates in ascending order, each once.
pub open spec fn name_variations(name: Seq<char>) -> Seq<Seq<char>> {
    sorted_distinct(variation_candidates(name))
}

/// Whether each text of `s` comes before all that follow it.
pub open spec fn ascending(s: Seq<Seq<char>>) -> bool {
    forall|i: int, j: int| 0 <= i < j < s.len() ==> text_lt(#[trigger] s[i], #[trigger] s[j])
}

/// An ascending sequence holds no text twice.
pub proof fn law_ascending_has_no_repeats(s: Seq<Seq<char>>)
    requires
        ascending(s),
    ensures
        forall|i: int, j: int| 0 <= i < s.len() && 0 <= j < s.len() && i != j ==> s[i] != s[j],
{
    assert forall|i: int, j: int| 0 <= i < s.len() && 0 <= j < s.len() && i != j implies s[i]
        != s[j] by {
        lemma_text_lt_irreflexive(s[i]);
        if i < j {
            assert(text_lt(s[i], s[j]));
        } else {
            assert(text_lt(s[j], s[i]));
        }
    }
}

/// Adding a text to an ascending sequence keeps it ascending, and adds that text and
/// no other.
pub proof fn lemma_inserted(s: Seq<Seq<char>>, x: Seq<char>)
    requires
        ascending(s),
    ensures
        ascending(inserted(s, x)),
        forall|y: Seq<char>|
            #![trigger inserted(s, x).contains(y)]
            inserted(s, x).contains(y) <==> (y == x || s.contains(y)),
    decreases s.len(),
{
    let r = inserted(s, x);
    if s.len() == 0 {
        assert(r[0] == x);
    } else if s.last() == x {
        assert(s.contains(x));
    } else if text_lt(s.last(), x) {
        assert forall|i: int, j: int| 0 <= i < j < r.len() implies text_lt(
            #[trigger] r[i],
            #[trigger] r[j],
        ) by {
            if j == s.len() && i < s.len() - 1 {
                lemma_text_lt_transitive(s[i], s.last(), x);
            }
        }
        assert forall|y: Seq<char>| r.contains(y) <==> (y == x || s.contains(y)) by {
            if r.contains(y) {
                let k = choose|k: int| 0 <= k < r.len() && r[k] == y;
                if k < s.len() {
                    assert(s[k] == y);
                }
            }
            if s.contains(y) {
                let k = choose|k: int| 0 <= k < s.len() && s[k] == y;
                assert(r[k] == y);
            }
            if y == x {
                assert(r[s.len() as int] == x);
            }
        }
    } else {
        let front = s.drop_last();
        let f = inserted(front, x);
        lemma_text_lt_total(s.last(), x);
        assert(ascending(front)) by {
            assert forall|i: int, j: int| 0 <= i < j < front.len() implies text_lt(
                #[trigger] front[i],
                #[trigger] front[j],
            ) by {
                assert(front[i] == s[i] && front[j] == s[j]);
            }
        }
        lemma_inserted(front, x);
        assert forall|i: int, j: int| 0 <= i < j < r.len() implies text_lt(
            #[trigger] r[i],
            #[trigger] r[j],
        ) by {
            if j == f.len() {
                assert(r[i] == f[i] && r[j] == s.last());
                assert(f.contains(f[i]));
                if f[i] != x {
                    assert(front.contains(f[i]));
                    let k = choose|k: int| 0 <= k < front.len() && front[k] == f[i];
                    assert(s[k] == f[i]);
                    assert(text_lt(s[k], s[s.len() - 1]));
                }
            } else {
                assert(r[i] == f[i] && r[j] == f[j]);
            }
        }
        assert forall|y: Seq<char>| r.contains(y) <==> (y == x || s.contains(y)) by {
            if r.contains(y) {
                let k = choose|k: int| 0 <= k < r.len() && r[k] == y;
                if k < f.len() {
                    assert(f.contains(f[k]));
                    if y != x {
                        assert(front.contains(y));
                        let m = choose|m: int| 0 <= m < front.len() && front[m] == y;
                        assert(s[m] == y);
                    }
                } else {
                    assert(s[s.len() - 1] == y);
                }
            }
            if s.contains(y) {
                let k = choose|k: int| 0 <= k < s.len() && s[k] == y;
                if k < front.len() {
                    assert(front[k] == y);
                    assert(f.contains(y));
                    let m = choose|m: int| 0 <= m < f.len() && f[m] == y;
                    assert(r[m] == y);
                } else {
                    assert(r[f.len() as int] == y);
                }
            }
            if y == x {
                assert(f.contains(x));
                let m = choose|m: int| 0 <= m < f.len() && f[m] == x;
                assert(r[m] == x);
            }
        }
    }
}

/// Ordering texts gives an ascending sequence, so one without repeats, that holds
/// exactly the texts that went in.
pub proof fn law_sorted_distinct(c: Seq<Seq<char>>)
    ensures
        ascending(sorted_distinct(c)),
        forall|y: Seq<char>|
            #![trigger sorted_distinct(c).contains(y)]
            sorted_distinct(c).contains(y) <==> c.contains(y),
    decreases c.len(),
{
    if c.len() > 0 {
        let front = c.drop_last();
        law_sorted_distinct(front);
        lemma_inserted(sorted_distinct(front), c.last());
        assert forall|y: Seq<char>| sorted_distinct(c).contains(y) <==> c.contains(y) by {
            if c.contains(y) {
                let k = choose|k: int| 0 <= k < c.len() && c[k] == y;
                if k < front.len() {
                    assert(front[k] == y);
                }
            }
            if front.contains(y) {
                let k = choose|k: int| 0 <= k < front.len() && front[k] == y;
                assert(c[k] == y);
            }
            if y == c.last() {
                assert(c[c.len() - 1] == y);
            }
        }
    }
}

/// The variations of a name are ascending, so without repeats, and hold each
/// candidate form of the name and nothing else.
pub proof fn law_variations(name: Seq<char>)
    ensures
        ascending(name_variations(name)),
        forall|y: Seq<char>|
            #![trigger name_variations(name).contains(y)]
            name_variations(name).contains(y) <==> variation_candidates(name).contains(y),
        name_variations(name).contains(name),
        name_variations(name).contains(lowercase_of(name)),
{
    let c = variation_candidates(name);
    law_sorted_distinct(c);
    assert(c[0] == name && c[1] == lowercase_of(name));
    assert(c.contains(name) && c.contains(lowercase_of(name)));
}

/// Removes the vendor words from a lowercased name and trims it.
pub fn clean_lowered(lowered: &Vec<char>) -> (r: Vec<char>)
    ensures
        r@ == cleaned(lowered@),
{
    let none: Vec<char> = Vec::new();
    let a = replace_all(lowered, &chars_of(" runtime"), &none);
    let b = replace_all(&a, &chars_of(" sdk"), &none);
    let c = replace_all(&b, &chars_of(" framework"), &none);
    let d = replace_all(&c, &chars_of("microsoft "), &none);
    let e = replace_all(&d, &chars_of(" for windows"), &none);
    proof {
        assert(none@ =~= Seq::<char>::empty());
    }
    trim(&e)
}

/// The stem of a name ends at its first version mark, or with the name.
proof fn lemma_stem_len(s: Seq<char>, k: int)
    requires
        0 <= k <= s.len(),
        forall|j: int| 0 <= j < k ==> !is_version_mark(s[j]),
        k == s.len() || is_version_mark(s[k]),
    ensures
        stem_len(s) == k,
    decreases k,
{
    if k > 0 {
        lemma_stem_len(s.subrange(1, s.len() as int), k - 1);
    }
}

/// The part of a name before its first numeric character or period, trimmed.
pub fn stem_of(name: &Vec<char>) -> (r: Vec<char>)
    ensures
        r@ == version_stem(name@),
{
    let n: usize = name.len();
    let mut k: usize = 0;
    while k < n && !(char_is_numeric(name[k]) || name[k] == '.')
        invariant
            n == name@.len(),
            k <= n,
            forall|j: int| 0 <= j < k ==> !is_version_mark(name@[j]),
        decreases n - k,
    {
        k = k + 1;
    }
    proof {
        lemma_stem_len(name@, k as int);
    }
    let stem = sub_text(name, 0, k);
    trim(&stem)
}

/// Where `x` goes in an ascending vector without repeats, or that it is there already.
fn insert_position(v: &Vec<Vec<char>>, x: &Vec<char>) -> (r: (usize, bool))
    ensures
        r.0 <= v@.len(),
        r.1 ==> inserted(texts_of(v@), x@) == texts_of(v@),
        !r.1 ==> inserted(texts_of(v@), x@) == texts_of(v@).insert(r.0 as int, x@),
{
    let ghost all = texts_of(v@);
    let mut p: usize = v.len();
    proof {
        assert(all.subrange(0, p as int) =~= all);
        assert(inserted(all, x@) + all.subrange(p as int, all.len() as int) =~= inserted(all, x@));
    }
    while p > 0
        invariant
            all == texts_of(v@),
            p <= v@.len(),
            inserted(all, x@) == inserted(all.subrange(0, p as int), x@) + all.subrange(
                p as int,
                all.len() as int,
            ),
        decreases p,
    {
        let ghost head = all.subrange(0, p as int);
        let ghost tail = all.subrange(p as int, all.len() as int);
        proof {
            assert(head.last() == v@[p - 1]@);
            assert(head.drop_last() =~= all.subrange(0, p - 1));
        }
        if text_eq(&v[p - 1], x) {
            proof {
                assert(head + tail =~= all);
            }
            return (p, true);
        }
        if text_less(&v[p - 1], x) {
            proof {
                assert(head.push(x@) + tail =~= all.insert(p as int, x@));
            }
            return (p, false);
        }
        proof {
            let shorter = inserted(all.subrange(0, p - 1), x@);
            assert(shorter.push(head.last()) + tail =~= shorter + all.subrange(
                p - 1,
                all.len() as int,
            ));
        }
        p = p - 1;
    }
    proof {
        assert(seq![x@] + all.subrange(0, all.len() as int) =~= all.insert(0, x@));
    }
    (0, false)
}

/// Adds `x` to an ascending vector without repeats, unless it is there already.
pub fn insert_text(v: &mut Vec<Vec<char>>, x: Vec<char>)
    ensures
        texts_of(final(v)@) == inserted(texts_of(old(v)@), x@),
{
    let (p, present) = insert_position(v, &x);
    if !present {
        let ghost before = v@;
        let ghost xs = x@;
        v.insert(p, x);
        proof {
            assert(texts_of(v@) =~= texts_of(before).insert(p as int, xs));
        }
    }
}

/// The texts of `c` in ascending order, each once: what sorting and then dropping
/// repeats gives.
pub fn sort_distinct(c: &Vec<Vec<char>>) -> (r: Vec<Vec<char>>)
    ensures
        texts_of(r@) == sorted_distinct(texts_of(c@)),
        ascending(texts_of(r@)),
{
    proof {
        law_sorted_distinct(texts_of(c@));
    }
    let mut out: Vec<Vec<char>> = Vec::new();
    let mut i: usize = 0;
    proof {
        assert(texts_of(out@) =~= Seq::<Seq<char>>::empty());
    }
    while i < c.len()
        invariant
            i <= c@.len(),
            texts_of(out@) == sorted_distinct(texts_of(c@).subrange(0, i as int)),
        decreases c@.len() - i,
    {
        proof {
            let next = texts_of(c@).subrange(0, i + 1);
            assert(next.drop_last() =~= texts_of(c@).subrange(0, i as int));
            assert(next.last() == c@[i as int]@);
        }
        insert_text(&mut out, sub_text(&c[i], 0, c[i].len()));
        proof {
            assert(c@[i as int]@.subrange(0, c@[i as int]@.len() as int) =~= c@[i as int]@);
        }
        i = i + 1;
    }
    proof {
        assert(texts_of(c@).subrange(0, c@.len() as int) =~= texts_of(c@));
    }
    out
}

/// Lowercases a text.
fn lowered_text(s: &Vec<char>) -> (r: Vec<char>)
    ensures
        r@ == lowercase_of(s@),
{
    let owned = string_of(s);
    let lowered = to_lowercase(owned.as_str());
    chars_of(lowered.as_str())
}

/// The variations of a program's name to try against the database, in ascending
/// order and each once.
pub fn get_name_variations(name: &str) -> (r: Vec<String>)
    ensures
        strings_of(r@) == name_variations(name@),
        ascending(strings_of(r@)),
{
    proof {
        law_variations(name@);
    }
    let given = chars_of(name);
    let space = chars_of(" ");
    let hyphen = chars_of("-");
    let none: Vec<char> = Vec::new();
    let lowered = lowered_text(&given);
    let clean = clean_lowered(&lowered);
    let hyphenated = lowered_text(&replace_all(&given, &space, &hyphen));
    let joined = lowered_text(&replace_all(&given, &space, &none));
    let stem = lowered_text(&stem_of(&given));
    proof {
        assert(none@ =~= Seq::<char>::empty());
    }
    let candidates: Vec<Vec<char>> = vec![given, lowered, clean, hyphenated, joined, stem];
    proof {
        assert(texts_of(candidates@) =~= variation_candidates(name@));
    }
    let sorted = sort_distinct(&candidates);
    let mut out: Vec<String> = Vec::new();
    let mut i: usize = 0;
    while i < sorted.len()
        invariant
            i <= sorted@.len(),
            out@.len() == i,
            forall|j: int| 0 <= j < i ==> (#[trigger] out@[j])@ == sorted@[j]@,
        decreases sorted@.len() - i,
    {
        out.push(string_of(&sorted[i]));
        i = i + 1;
    }
    proof {
        assert(strings_of(out@) =~= texts_of(sorted@));
    }
    out
}

} // verus!
