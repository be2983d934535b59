//! The line emitter: renders the lines of a source with an optional number
//! prefix and a per-source counter.
//!
//! Three numbering modes exist, given by two flags. With `number_lines` every
//! line is numbered; with `number_nonblank_lines` only non-blank lines are;
//! with neither, lines pass through untouched. When both flags are somehow
//! set at once, `number_lines` wins, so every line is numbered: the resolver
//! rejects that combination, but the emitter is total. A numbered line is
//! five spaces, the counter in decimal, a tab, then the line text. The
//! counter starts at 1 for every source and advances only when a line
//! actually receives a number.

use crate::line::{is_blank, line_is_blank, line_views};
use crate::num::{dec_seq, u64_to_dec};
use vstd::prelude::*;
use vstd::string::StringExecFns;

verus! {

/// The number column placed before a numbered line: five spaces, the count
/// in decimal, and a tab.
pub open spec fn number_prefix(count: nat) -> Seq<char> {
    "     "@ + dec_seq(count) + "\t"@
}

/// A line as printed when it receives a number.
pub open spec fn numbered(count: nat, line: Seq<char>) -> Seq<char> {
    number_prefix(count) + line
}

/// Whether a line receives a number under the given flags: always when all
/// lines are numbered, and for non-blank lines when only those are.
pub open spec fn takes_number(line: Seq<char>, number_lines: bool, number_nonblank_lines: bool) -> bool {
    number_lines || (number_nonblank_lines && !is_blank(line))
}

/// The text printed for `line` when the counter stands at `count`.
pub open spec fn emitted_line(line: Seq<char>, count: nat, number_lines: bool, number_nonblank_lines: bool) -> Seq<char> {
    if takes_number(line, number_lines, number_nonblank_lines) {
        numbered(count, line)
    } else {
        line
    }
}

/// The counter after `line` has been printed: one more when the line was
/// numbered, unchanged otherwise.
pub open spec fn next_count(line: Seq<char>, count: nat, number_lines: bool, number_nonblank_lines: bool) -> nat {
    if takes_number(line, number_lines, number_nonblank_lines) {
        count + 1
    } else {
        count
    }
}

/// The counter as it stands just before line `i` of a source, starting at 1.
pub open spec fn count_at(lines: Seq<Seq<char>>, number_lines: bool, number_nonblank_lines: bool, i: int) -> nat
    decreases i,
{
    if i <= 0 {
        1
    } else {
        next_count(
            lines[i - 1],
            count_at(lines, number_lines, number_nonblank_lines, i - 1),
            number_lines,
            number_nonblank_lines,
        )
    }
}

/// The full output for one source: each line rendered under the counter it
/// meets.
pub open spec fn rendered_file(lines: Seq<Seq<char>>, number_lines: bool, number_nonblank_lines: bool) -> Seq<Seq<char>> {
    Seq::new(
        lines.len(),
        |i: int|
            emitted_line(
                lines[i],
                count_at(lines, number_lines, number_nonblank_lines, i),
                number_lines,
                number_nonblank_lines,
            ),
    )
}

/// The counter never runs ahead of the number of lines already seen.
pub proof fn lemma_count_at_bound(lines: Seq<Seq<char>>, number_lines: bool, number_nonblank_lines: bool, i: int)
    requires
        0 <= i <= lines.len(),
    ensures
        count_at(lines, number_lines, number_nonblank_lines, i) <= i + 1,
    decreases i,
{
    if i > 0 {
        lemma_count_at_bound(lines, number_lines, number_nonblank_lines, i - 1);
    }
}

/// The number of non-blank lines in a source.
pub open spec fn nonblank_count(lines: Seq<Seq<char>>) -> nat
    decreases lines.len(),
{
    if lines.len() == 0 {
        0
    } else {
        nonblank_count(lines.drop_last()) + (if is_blank(lines.last()) {
            0nat
        } else {
            1nat
        })
    }
}

/// With neither numbering flag set the emitter is a pure passthrough: the
/// output of a source is its lines exactly, one line in, one line out, no
/// prefix anywhere.
pub proof fn lemma_no_flags_passthrough(lines: Seq<Seq<char>>)
    ensures
        rendered_file(lines, false, false) == lines,
{
    assert(rendered_file(lines, false, false) =~= lines);
}

/// With all lines numbered, the counter before line `i` is exactly `i + 1`,
/// whatever the other flag says.
pub proof fn lemma_count_at_number_all(lines: Seq<Seq<char>>, number_nonblank_lines: bool, i: int)
    requires
        0 <= i <= lines.len(),
    ensures
        count_at(lines, true, number_nonblank_lines, i) == i + 1,
    decreases i,
{
    if i > 0 {
        lemma_count_at_number_all(lines, number_nonblank_lines, i - 1);
    }
}

/// With `number_lines` set, every line of a source — blank ones included —
/// is printed with a number prefix, and the numbers are strictly increasing
/// from 1 in step with the line's position. Each source is rendered by its
/// own [`rendered_file`], so the numbering starts again at 1 with every new
/// source.
pub proof fn lemma_number_all_lines(lines: Seq<Seq<char>>, number_nonblank_lines: bool)
    ensures
        rendered_file(lines, true, number_nonblank_lines).len() == lines.len(),
        forall|i: int|
            0 <= i < lines.len() ==> rendered_file(lines, true, number_nonblank_lines)[i]
                == numbered((i + 1) as nat, #[trigger] lines[i]),
{
    assert forall|i: int|
        0 <= i < lines.len() implies rendered_file(lines, true, number_nonblank_lines)[i]
        == numbered((i + 1) as nat, #[trigger] lines[i]) by {
        lemma_count_at_number_all(lines, number_nonblank_lines, i);
    }
}

/// With only non-blank lines numbered, the counter before line `i` is one
/// more than the number of non-blank lines above it.
pub proof fn lemma_count_at_nonblank(lines: Seq<Seq<char>>, i: int)
    requires
        0 <= i <= lines.len(),
    ensures
        count_at(lines, false, true, i) == 1 + nonblank_count(lines.take(i)),
    decreases i,
{
    if i > 0 {
        lemma_count_at_nonblank(lines, i - 1);
        assert(lines.take(i).drop_last() =~= lines.take(i - 1));
        assert(lines.take(i).last() == lines[i - 1]);
    }
}

/// With `number_nonblank_lines` set, a blank line passes through untouched
/// and consumes no counter value, while each non-blank line is numbered with
/// one plus the count of non-blank lines before it — so the printed numbers
/// run strictly increasing from 1 over the non-blank lines alone.
pub proof fn lemma_number_nonblank_lines(lines: Seq<Seq<char>>)
    ensures
        rendered_file(lines, false, true).len() == lines.len(),
        forall|i: int|
            0 <= i < lines.len() && is_blank(#[trigger] lines[i]) ==> rendered_file(
                lines,
                false,
                true,
            )[i] == lines[i],
        forall|i: int|
            0 <= i < lines.len() && !is_blank(#[trigger] lines[i]) ==> rendered_file(
                lines,
                false,
                true,
            )[i] == numbered(1 + nonblank_count(lines.take(i)), lines[i]),
{
    assert forall|i: int|
        0 <= i < lines.len() && !is_blank(#[trigger] lines[i]) implies rendered_file(
        lines,
        false,
        true,
    )[i] == numbered(1 + nonblank_count(lines.take(i)), lines[i]) by {
        lemma_count_at_nonblank(lines, i);
    }
}

/// Builds the numbered form of `line`: five spaces, `count` in decimal, a
/// tab, then the line itself.
pub fn numbered_line(count: u64, line: &str) -> (out: String)
    ensures
        out@ == numbered(count as nat, line@),
{
    let mut out = String::from_str("     ");
    let digits = u64_to_dec(count);
    out.append(digits.as_str());
    out.append("\t");
    out.append(line);
    assert(out@ =~= numbered(count as nat, line@));
    out
}

/// Renders one line under the current counter and returns the printed text
/// together with the counter for the next line.
pub fn process_line(line: &str, count: u64, number_lines: bool, number_nonblank_lines: bool) -> (r: (
    String,
    u64,
))
    requires
        count < u64::MAX,
    ensures
        r.0@ == emitted_line(line@, count as nat, number_lines, number_nonblank_lines),
        r.1 as nat == next_count(line@, count as nat, number_lines, number_nonblank_lines),
{
    let blank = line_is_blank(line);
    if number_lines || (number_nonblank_lines && !blank) {
        (numbered_line(count, line), count + 1)
    } else {
        (String::from_str(line), count)
    }
}

/// Renders every line of one source in order, with the counter starting
/// at 1.
pub fn render_file(lines: &Vec<String>, number_lines: bool, number_nonblank_lines: bool) -> (out: Vec<
    String,
>)
    requires
        lines@.len() < u64::MAX,
    ensures
        line_views(out@) == rendered_file(line_views(lines@), number_lines, number_nonblank_lines),
{
    let ghost lvs = line_views(lines@);
    let mut out: Vec<String> = Vec::new();
    let mut count: u64 = 1;
    let mut i: usize = 0;
    while i < lines.len()
        invariant
            lvs == line_views(lines@),
            lines@.len() < u64::MAX,
            0 <= i <= lines@.len(),
            out@.len() == i,
            count as nat == count_at(lvs, number_lines, number_nonblank_lines, i as int),
            forall|j: int|
                0 <= j < i ==> (#[trigger] out@[j])@ == emitted_line(
                    lvs[j],
                    count_at(lvs, number_lines, number_nonblank_lines, j),
                    number_lines,
                    number_nonblank_lines,
                ),
        decreases lines@.len() - i,
    {
        proof {
            lemma_count_at_bound(lvs, number_lines, number_nonblank_lines, i as int);
        }
        let (text, new_count) = process_line(
            lines[i].as_str(),
            count,
            number_lines,
            number_nonblank_lines,
        );
        out.push(text);
        count = new_count;
        i += 1;
    }
    assert(line_views(out@) =~= rendered_file(lvs, number_lines, number_nonblank_lines));
    out
}

/// Renders several sources in order. Each source is rendered on its own:
/// its counter restarts at 1 and its output depends on its lines alone, so
/// no source can disturb another's output.
pub fn render_sources(sources: &Vec<Vec<String>>, number_lines: bool, number_nonblank_lines: bool) -> (out:
    Vec<Vec<String>>)
    requires
        forall|k: int| 0 <= k < sources@.len() ==> (#[trigger] sources@[k])@.len() < u64::MAX,
    ensures
        out@.len() == sources@.len(),
        forall|k: int|
            0 <= k < sources@.len() ==> line_views((#[trigger] out@[k])@) == rendered_file(
                line_views(sources@[k]@),
                number_lines,
                number_nonblank_lines,
            ),
{
    let mut out: Vec<Vec<String>> = Vec::new();
    let mut k: usize = 0;
    while k < sources.len()
        invariant
            forall|j: int| 0 <= j < sources@.len() ==> (#[trigger] sources@[j])@.len() < u64::MAX,
            0 <= k <= sources@.len(),
            out@.len() == k,
            forall|j: int|
                0 <= j < k ==> line_views((#[trigger] out@[j])@) == rendered_file(
                    line_views(sources@[j]@),
                    number_lines,
                    number_nonblank_lines,
                ),
        decreases sources@.len() - k,
    {
        let rendered = render_file(&sources[k], number_lines, number_nonblank_lines);
        out.push(rendered);
        k += 1;
    }
    out
}

} // verus!
