//! Reading the listings that package tools print.

use crate::finding::opt_text;
use crate::host::Tool;
use crate::program::{programs_of, InstalledProgram, InstalledProgramView};
use crate::text::{
    char_is_space, chars_of, is_space, string_of, sub_text, texts_of, trim, trimmed,
};
use vstd::prelude::*;

verus! {

/// What ends a run of characters.
#[derive(Clone, Copy, Debug, PartialEq, Eq, Structural)]
pub enum Stop {
    /// The character given.
    At(char),
    /// A whitespace character.
    AtSpace,
}

impl Stop {
    /// Whether the character ends a run.
    pub open spec fn hits(self, c: char) -> bool {
        match self {
            Stop::At(sep) => c == sep,
            Stop::AtSpace => is_space(c),
        }
    }

    /// Whether the character ends a run.
    pub fn test(&self, c: char) -> (b: bool)
        ensures
            b == self.hits(c),
    {
        match self {
            Stop::At(sep) => c == *sep,
            Stop::AtSpace => char_is_space(c),
        }
    }
}

/// The number of characters of `s` before the first that ends the run.
pub open spec fn run_len(s: Seq<char>, stop: Stop) -> nat
    decreases s.len(),
{
    if s.len() > 0 && !stop.hits(s[0]) {
        1 + run_len(s.subrange(1, s.len() as int), stop)
    } else {
        0
    }
}

/// The pieces of `s` between occurrences of `sep`, as `str::split` gives them: one
/// more than there are separators.
pub open spec fn fields(s: Seq<char>, sep: char) -> Seq<Seq<char>>
    decreases s.len(),
{
    let k = run_len(s, Stop::At(sep)) as int;
    if 0 <= k < s.len() {
        seq![s.subrange(0, k)] + fields(s.subrange(k + 1, s.len() as int), sep)
    } else {
        seq![s]
    }
}

/// A line without the carriage return that ended it, if one did.
pub open spec fn without_cr(line: Seq<char>) -> Seq<char> {
    if line.len() > 0 && line.last() == '\r' {
        line.drop_last()
    } else {
        line
    }
}

/// The lines of a text, as `str::lines` gives them: each ends at a line feed, which
/// is dropped together with a carriage return before it; a last line needs no line
/// feed.
pub open spec fn lines_of(s: Seq<char>) -> Seq<Seq<char>>
    decreases s.len(),
{
    let k = run_len(s, Stop::At('\n')) as int;
    if s.len() == 0 {
        Seq::empty()
    } else if 0 <= k < s.len() {
        seq![without_cr(s.subrange(0, k))] + lines_of(s.subrange(k + 1, s.len() as int))
    } else {
        seq![s]
    }
}

/// The words of a text, as `str::split_whitespace` gives them: the longest runs of
/// characters that are not whitespace.
pub open spec fn words_of(s: Seq<char>) -> Seq<Seq<char>>
    decreases s.len(),
{
    if s.len() == 0 {
        Seq::empty()
    } else if is_space(s[0]) {
        words_of(s.subrange(1, s.len() as int))
    } else {
        let k = run_len(s, Stop::AtSpace) as int;
        if 0 < k <= s.len() {
            seq![s.subrange(0, k)] + words_of(s.subrange(k, s.len() as int))
        } else {
            seq![s]
        }
    }
}

/// A run ends at the first character that stops it, or with the text.
proof fn lemma_run_len(s: Seq<char>, stop: Stop, k: int)
    requires
        0 <= k <= s.len(),
        forall|j: int| 0 <= j < k ==> !stop.hits(s[j]),
        k == s.len() || stop.hits(s[k]),
    ensures
        run_len(s, stop) == k,
    decreases k,
{
    if k > 0 {
        lemma_run_len(s.subrange(1, s.len() as int), stop, k - 1);
    }
}

/// The index at which the run that starts at `from` ends.
pub fn run_end(s: &Vec<char>, from: usize, stop: Stop) -> (k: usize)
    requires
        from <= s@.len(),
    ensures
        from <= k <= s@.len(),
        k - from == run_len(s@.subrange(from as int, s@.len() as int), stop),
{
    let n: usize = s.len();
    let mut k: usize = from;
    while k < n && !stop.test(s[k])
        invariant
            n == s@.len(),
            from <= k <= n,
            forall|j: int| from <= j < k ==> !stop.hits(s@[j]),
        decreases n - k,
    {
        k = k + 1;
    }
    proof {
        lemma_run_len(s@.subrange(from as int, n as int), stop, k - from);
    }
    k
}

/// Splits a text at each occurrence of `sep`.
pub fn split_fields(s: &Vec<char>, sep: char) -> (r: Vec<Vec<char>>)
    ensures
        texts_of(r@) == fields(s@, sep),
{
    let n: usize = s.len();
    let mut out: Vec<Vec<char>> = Vec::new();
    let mut start: usize = 0;
    proof {
        assert(s@.subrange(0, n as int) =~= s@);
        assert(texts_of(out@) + fields(s@, sep) =~= fields(s@, sep));
    }
    loop
        invariant
            n == s@.len(),
            start <= n,
            texts_of(out@) + fields(s@.subrange(start as int, n as int), sep) == fields(s@, sep),
        decreases n - start,
    {
        let ghost rest = s@.subrange(start as int, n as int);
        let ghost before = texts_of(out@);
        let k = run_end(s, start, Stop::At(sep));
        out.push(sub_text(s, start, k));
        proof {
            assert(rest.subrange(0, k - start) =~= s@.subrange(start as int, k as int));
            assert(texts_of(out@) =~= before.push(s@.subrange(start as int, k as int)));
        }
        if k >= n {
            proof {
                assert(rest =~= s@.subrange(start as int, k as int));
                assert(before.push(rest) =~= before + seq![rest]);
            }
            return out;
        }
        proof {
            let tail = fields(s@.subrange(k + 1, n as int), sep);
            assert(rest.subrange(k - start + 1, rest.len() as int) =~= s@.subrange(
                k + 1,
                n as int,
            ));
            assert(before.push(rest.subrange(0, k - start)) + tail =~= before + (seq![
                rest.subrange(0, k - start),
            ] + tail));
        }
        start = k + 1;
    }
}

/// Splits a text into its lines.
pub fn split_lines(s: &Vec<char>) -> (r: Vec<Vec<char>>)
    ensures
        texts_of(r@) == lines_of(s@),
{
    let n: usize = s.len();
    let mut out: Vec<Vec<char>> = Vec::new();
    let mut start: usize = 0;
    proof {
        assert(s@.subrange(0, n as int) =~= s@);
        assert(texts_of(out@) + lines_of(s@) =~= lines_of(s@));
    }
    while start < n
        invariant
            n == s@.len(),
            start <= n,
            texts_of(out@) + lines_of(s@.subrange(start as int, n as int)) == lines_of(s@),
        decreases n - start,
    {
        let ghost rest = s@.subrange(start as int, n as int);
        let ghost before = texts_of(out@);
        let k = run_end(s, start, Stop::At('\n'));
        if k >= n {
            out.push(sub_text(s, start, k));
            proof {
                assert(rest =~= s@.subrange(start as int, k as int));
                assert(texts_of(out@) =~= before + seq![rest]);
                assert(s@.subrange(n as int, n as int) =~= Seq::<char>::empty());
                assert(texts_of(out@) + lines_of(s@.subrange(n as int, n as int)) =~= texts_of(
                    out@,
                ));
            }
            start = n;
        } else {
            let end: usize = if k > start && s[k - 1] == '\r' {
                k - 1
            } else {
                k
            };
            out.push(sub_text(s, start, end));
            proof {
                let line = rest.subrange(0, k - start);
                let tail = lines_of(s@.subrange(k + 1, n as int));
                assert(line =~= s@.subrange(start as int, k as int));
                assert(without_cr(line) =~= s@.subrange(start as int, end as int));
                assert(rest.subrange(k - start + 1, rest.len() as int) =~= s@.subrange(
                    k + 1,
                    n as int,
                ));
                assert(texts_of(out@) =~= before.push(without_cr(line)));
                assert(before.push(without_cr(line)) + tail =~= before + (seq![without_cr(line)]
                    + tail));
            }
            start = k + 1;
        }
    }
    proof {
        assert(s@.subrange(start as int, n as int) =~= Seq::<char>::empty());
        assert(texts_of(out@) + Seq::<Seq<char>>::empty() =~= texts_of(out@));
    }
    out
}

/// Splits a text into its words.
pub fn split_words(s: &Vec<char>) -> (r: Vec<Vec<char>>)
    ensures
        texts_of(r@) == words_of(s@),
{
    let n: usize = s.len();
    let mut out: Vec<Vec<char>> = Vec::new();
    let mut start: usize = 0;
    proof {
        assert(s@.subrange(0, n as int) =~= s@);
        assert(texts_of(out@) + words_of(s@) =~= words_of(s@));
    }
    while start < n
        invariant
            n == s@.len(),
            start <= n,
            texts_of(out@) + words_of(s@.subrange(start as int, n as int)) == words_of(s@),
        decreases n - start,
    {
        let ghost rest = s@.subrange(start as int, n as int);
        let ghost before = texts_of(out@);
        proof {
            assert(rest[0] == s@[start as int]);
        }
        if char_is_space(s[start]) {
            proof {
                assert(rest.subrange(1, rest.len() as int) =~= s@.subrange(start + 1, n as int));
            }
            start = start + 1;
        } else {
            let k = run_end(s, start, Stop::AtSpace);
            out.push(sub_text(s, start, k));
            proof {
                let word = rest.subrange(0, k - start);
                let tail = words_of(s@.subrange(k as int, n as int));
                assert(k > start);
                assert(word =~= s@.subrange(start as int, k as int));
                assert(rest.subrange(k - start, rest.len() as int) =~= s@.subrange(
                    k as int,
                    n as int,
                ));
                assert(texts_of(out@) =~= before.push(word));
                assert(before.push(word) + tail =~= before + (seq![word] + tail));
            }
            start = k;
        }
    }
    proof {
        assert(s@.subrange(start as int, n as int) =~= Seq::<char>::empty());
        assert(texts_of(out@) + Seq::<Seq<char>>::empty() =~= texts_of(out@));
    }
    out
}

/// The piece at index `i`, where there is one.
pub open spec fn piece(parts: Seq<Seq<char>>, i: int) -> Option<Seq<char>> {
    if 0 <= i < parts.len() {
        Some(parts[i])
    } else {
        None
    }
}

/// The program that one line of a tool's listing tells of, if it tells of one.
/// dpkg and rpm print name, version and vendor between tabs; pacman prints name and
/// version as words; snap prints words too, with the publisher fourth; flatpak
/// prints name, version and origin between tabs, and its version may be blank.
pub open spec fn record_of(tool: Tool, line: Seq<char>) -> Option<InstalledProgramView> {
    match tool {
        Tool::Dpkg | Tool::Rpm => {
            let p = fields(line, '\t');
            if p.len() >= 2 {
                Some(
                    InstalledProgramView {
                        name: p[0],
                        version: Some(p[1]),
                        publisher: piece(p, 2),
                        install_date: None,
                    },
                )
            } else {
                None
            }
        },
        Tool::Pacman => {
            let p = words_of(line);
            if p.len() >= 2 {
                Some(
                    InstalledProgramView {
                        name: p[0],
                        version: Some(p[1]),
                        publisher: None,
                        install_date: None,
                    },
                )
            } else {
                None
            }
        },
        Tool::Snap => {
            let p = words_of(line);
            if p.len() >= 2 {
                Some(
                    InstalledProgramView {
                        name: p[0],
                        version: Some(p[1]),
                        publisher: piece(p, 3),
                        install_date: None,
                    },
                )
            } else {
                None
            }
        },
        Tool::Flatpak => {
            let p = fields(line, '\t');
            if p.len() >= 1 {
                Some(
                    InstalledProgramView {
                        name: p[0],
                        version: match piece(p, 1) {
                            Some(v) => if trimmed(v).len() == 0 {
                                None
                            } else {
                                Some(trimmed(v))
                            },
                            None => None,
                        },
                        publisher: piece(p, 2),
                        install_date: None,
                    },
                )
            } else {
                None
            }
        },
    }
}

/// The programs that the lines given tell of, in order.
pub open spec fn records(tool: Tool, lines: Seq<Seq<char>>) -> Seq<InstalledProgramView>
    decreases lines.len(),
{
    if lines.len() == 0 {
        Seq::empty()
    } else {
        let before = records(tool, lines.drop_last());
        match record_of(tool, lines.last()) {
            Some(program) => before.push(program),
            None => before,
        }
    }
}

/// The lines of a listing that tell of programs: all of them, but for snap, whose
/// first line is a heading.
pub open spec fn listed_lines(tool: Tool, text: Seq<char>) -> Seq<Seq<char>> {
    let lines = lines_of(text);
    if tool == Tool::Snap && lines.len() > 0 {
        lines.subrange(1, lines.len() as int)
    } else {
        lines
    }
}

/// The programs that a tool's listing tells of, in order.
pub open spec fn listing(tool: Tool, text: Seq<char>) -> Seq<InstalledProgramView> {
    records(tool, listed_lines(tool, text))
}

/// What one tool printed.
#[derive(Clone, Debug, PartialEq, Eq)]
pub struct ToolOutput {
    pub tool: Tool,
    pub text: String,
}

/// The programs that the listings given tell of, listing after listing.
pub open spec fn all_listed(outputs: Seq<ToolOutput>) -> Seq<InstalledProgramView>
    decreases outputs.len(),
{
    if outputs.len() == 0 {
        Seq::empty()
    } else {
        all_listed(outputs.drop_last()) + listing(outputs.last().tool, outputs.last().text@)
    }
}

/// The piece at index `i` as a string, where there is one.
fn piece_at(parts: &Vec<Vec<char>>, i: usize) -> (r: Option<String>)
    ensures
        opt_text(r) == piece(texts_of(parts@), i as int),
{
    if i < parts.len() {
        Some(string_of(&parts[i]))
    } else {
        None
    }
}

/// Reads one line of a tool's listing.
pub fn parse_line(tool: Tool, line: &Vec<char>) -> (r: Option<InstalledProgram>)
    ensures
        match r {
            Some(program) => record_of(tool, line@) == Some(program@),
            None => record_of(tool, line@) is None,
        },
{
    match tool {
        Tool::Dpkg | Tool::Rpm => {
            let p = split_fields(line, '\t');
            if p.len() >= 2 {
                Some(
                    InstalledProgram {
                        name: string_of(&p[0]),
                        version: Some(string_of(&p[1])),
                        publisher: piece_at(&p, 2),
                        install_date: None,
                    },
                )
            } else {
                None
            }
        },
        Tool::Pacman => {
            let p = split_words(line);
            if p.len() >= 2 {
                Some(
                    InstalledProgram {
                        name: string_of(&p[0]),
                        version: Some(string_of(&p[1])),
                        publisher: None,
                        install_date: None,
                    },
                )
            } else {
                None
            }
        },
        Tool::Snap => {
            let p = split_words(line);
            if p.len() >= 2 {
                Some(
                    InstalledProgram {
                        name: string_of(&p[0]),
                        version: Some(string_of(&p[1])),
                        publisher: piece_at(&p, 3),
                        install_date: None,
                    },
                )
            } else {
                None
            }
        },
        Tool::Flatpak => {
            let p = split_fields(line, '\t');
            if p.len() >= 1 {
                let version = if p.len() > 1 {
                    let v = trim(&p[1]);
                    if v.len() == 0 {
                        None
                    } else {
                        Some(string_of(&v))
                    }
                } else {
                    None
                };
                Some(
                    InstalledProgram {
                        name: string_of(&p[0]),
                        version,
                        publisher: piece_at(&p, 2),
                        install_date: None,
                    },
                )
            } else {
                None
            }
        },
    }
}

/// Reads what a tool printed: the programs it tells of, in order.
pub fn parse_listing(tool: Tool, output: &str) -> (r: Vec<InstalledProgram>)
    ensures
        programs_of(r@) == listing(tool, output@),
{
    let text = chars_of(output);
    let lines = split_lines(&text);
    let first: usize = match tool {
        Tool::Snap => if lines.len() > 0 {
            1
        } else {
            0
        },
        _ => 0,
    };
    let ghost wanted = listed_lines(tool, output@);
    let mut out: Vec<InstalledProgram> = Vec::new();
    let mut i: usize = first;
    proof {
        assert(wanted =~= texts_of(lines@).subrange(first as int, lines@.len() as int));
        assert(wanted.subrange(0, 0) =~= Seq::<Seq<char>>::empty());
        assert(programs_of(out@) =~= Seq::<InstalledProgramView>::empty());
    }
    while i < lines.len()
        invariant
            first <= i <= lines@.len(),
            wanted == texts_of(lines@).subrange(first as int, lines@.len() as int),
            programs_of(out@) == records(tool, wanted.subrange(0, i - first)),
        decreases lines@.len() - i,
    {
        let ghost before = out@;
        proof {
            let next = wanted.subrange(0, i - first + 1);
            assert(next.drop_last() =~= wanted.subrange(0, i - first));
            assert(next.last() == lines@[i as int]@);
        }
        match parse_line(tool, &lines[i]) {
            Some(program) => {
                out.push(program);
                proof {
                    assert(programs_of(out@) =~= programs_of(before).push(program@));
                }
            },
            None => {},
        }
        i = i + 1;
    }
    proof {
        assert(wanted.subrange(0, wanted.len() as int) =~= wanted);
    }
    out
}

/// The packages that `dpkg-query` listed, one to a line as name, version and
/// maintainer between tabs.
pub fn get_dpkg_packages(output: &str) -> (r: Vec<InstalledProgram>)
    ensures
        programs_of(r@) == listing(Tool::Dpkg, output@),
{
    parse_listing(Tool::Dpkg, output)
}

/// The packages that `rpm` listed, one to a line as name, version and vendor
/// between tabs.
pub fn get_rpm_packages(output: &str) -> (r: Vec<InstalledProgram>)
    ensures
        programs_of(r@) == listing(Tool::Rpm, output@),
{
    parse_listing(Tool::Rpm, output)
}

/// The packages that `pacman -Q` listed, one to a line as name and version.
pub fn get_pacman_packages(output: &str) -> (r: Vec<InstalledProgram>)
    ensures
        programs_of(r@) == listing(Tool::Pacman, output@),
{
    parse_listing(Tool::Pacman, output)
}

/// The packages that `snap list` listed below its heading.
pub fn get_snap_packages(output: &str) -> (r: Vec<InstalledProgram>)
    ensures
        programs_of(r@) == listing(Tool::Snap, output@),
{
    parse_listing(Tool::Snap, output)
}

/// The applications that `flatpak list` listed, one to a line as name, version and
/// origin between tabs.
pub fn get_flatpak_packages(output: &str) -> (r: Vec<InstalledProgram>)
    ensures
        programs_of(r@) == listing(Tool::Flatpak, output@),
{
    parse_listing(Tool::Flatpak, output)
}

/// The installed programs of a host, from what its package tools printed: the
/// programs of each listing, listing after listing.
pub fn get_installed_programs(outputs: &Vec<ToolOutput>) -> (r: Vec<InstalledProgram>)
    ensures
        programs_of(r@) == all_listed(outputs@),
{
    let mut out: Vec<InstalledProgram> = Vec::new();
    let mut i: usize = 0;
    proof {
        assert(programs_of(out@) =~= Seq::<InstalledProgramView>::empty());
        assert(outputs@.subrange(0, 0) =~= Seq::<ToolOutput>::empty());
    }
    while i < outputs.len()
        invariant
            i <= outputs@.len(),
            programs_of(out@) == all_listed(outputs@.subrange(0, i as int)),
        decreases outputs@.len() - i,
    {
        let ghost before = out@;
        proof {
            let next = outputs@.subrange(0, i + 1);
            assert(next.drop_last() =~= outputs@.subrange(0, i as int));
            assert(next.last() == outputs@[i as int]);
        }
        let mut listed = parse_listing(outputs[i].tool, outputs[i].text.as_str());
        let ghost added = listed@;
        out.append(&mut listed);
        proof {
            assert(programs_of(before + added) =~= programs_of(before) + programs_of(added));
        }
        i = i + 1;
    }
    proof {
        assert(outputs@.subrange(0, outputs@.len() as int) =~= outputs@);
    }
    out
}

} // verus!
