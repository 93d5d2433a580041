//! Markdown report rendering.
//!
//! Builds the full report text for a finished task — definition, dataset
//! sample, summary, classified hypotheses and the synthesized program
//! artifact — and the sanitized file name it is stored under.  Writing the
//! file is left to the caller.

use vstd::prelude::*;
use crate::task::{hyp_view, hyps_view, HypView, Hypothesis, ImageItem, TaskDefinition};
use crate::text::{dec_digits, fixed2_digits, fixed2_to_string, fixed3_digits, fixed3_to_string, push_char, u64_to_string};

verus! {

/// ASCII lowercase of a letter; any other character unchanged.
pub open spec fn to_lower_ascii(c: char) -> char {
    if c == 'A' { 'a' } else if c == 'B' { 'b' } else if c == 'C' { 'c' }
    else if c == 'D' { 'd' } else if c == 'E' { 'e' } else if c == 'F' { 'f' }
    else if c == 'G' { 'g' } else if c == 'H' { 'h' } else if c == 'I' { 'i' }
    else if c == 'J' { 'j' } else if c == 'K' { 'k' } else if c == 'L' { 'l' }
    else if c == 'M' { 'm' } else if c == 'N' { 'n' } else if c == 'O' { 'o' }
    else if c == 'P' { 'p' } else if c == 'Q' { 'q' } else if c == 'R' { 'r' }
    else if c == 'S' { 's' } else if c == 'T' { 't' } else if c == 'U' { 'u' }
    else if c == 'V' { 'v' } else if c == 'W' { 'w' } else if c == 'X' { 'x' }
    else if c == 'Y' { 'y' } else if c == 'Z' { 'z' } else { c }
}

/// Whether `c` is an ASCII letter or digit.
pub open spec fn is_ascii_alnum(c: char) -> bool {
    ('0' <= c && c <= '9') || ('a' <= c && c <= 'z') || ('A' <= c && c <= 'Z')
}

/// The sanitized form of a name: letters and digits lowercased, spaces,
/// hyphens and underscores turned into underscores, everything else
/// dropped.
pub open spec fn sanitized(s: Seq<char>) -> Seq<char>
    decreases s.len(),
{
    if s.len() == 0 {
        Seq::empty()
    } else {
        let c = s.last();
        let rest = sanitized(s.drop_last());
        if is_ascii_alnum(c) {
            rest.push(to_lower_ascii(c))
        } else if c == ' ' || c == '-' || c == '_' {
            rest.push('_')
        } else {
            rest
        }
    }
}

/// Lowercases an ASCII letter, leaving any other character unchanged.
fn to_lower_ascii_exec(c: char) -> (r: char)
    ensures
        r == to_lower_ascii(c),
{
    match c {
        'A' => 'a', 'B' => 'b', 'C' => 'c', 'D' => 'd', 'E' => 'e', 'F' => 'f',
        'G' => 'g', 'H' => 'h', 'I' => 'i', 'J' => 'j', 'K' => 'k', 'L' => 'l',
        'M' => 'm', 'N' => 'n', 'O' => 'o', 'P' => 'p', 'Q' => 'q', 'R' => 'r',
        'S' => 's', 'T' => 't', 'U' => 'u', 'V' => 'v', 'W' => 'w', 'X' => 'x',
        'Y' => 'y', 'Z' => 'z', _ => c,
    }
}

/// Turns a task name into a file-name-safe slug; an empty result falls
/// back to "task".
pub fn sanitize_filename(input: &str) -> (r: String)
    ensures
        r@ == if sanitized(input@).len() == 0 {
            "task"@
        } else {
            sanitized(input@)
        },
{
    let len = input.unicode_len();
    let mut out = String::new();
    let mut i: usize = 0;
    while i < len
        invariant
            0 <= i <= len,
            len == input@.len(),
            out@ == sanitized(input@.subrange(0, i as int)),
        decreases len - i,
    {
        let c = input.get_char(i);
        let ghost pre = input@.subrange(0, i as int);
        let ghost post = input@.subrange(0, i as int + 1);
        proof {
            assert(post.drop_last() =~= pre);
            assert(post.last() == input@[i as int]);
        }
        let is_digit = '0' <= c && c <= '9';
        let is_lower = 'a' <= c && c <= 'z';
        let is_upper = 'A' <= c && c <= 'Z';
        if is_digit || is_lower || is_upper {
            push_char(&mut out, to_lower_ascii_exec(c));
        } else if c == ' ' || c == '-' || c == '_' {
            push_char(&mut out, '_');
        }
        i = i + 1;
    }
    proof {
        assert(input@.subrange(0, len as int) =~= input@);
    }
    if out.unicode_len() == 0 {
        String::from_str("task")
    } else {
        out
    }
}

/// The file name a task's report is stored under.
pub open spec fn report_file_name_spec(id: nat, name: Seq<char>) -> Seq<char> {
    "task_"@ + dec_digits(id) + "_"@ + (if sanitized(name).len() == 0 {
        "task"@
    } else {
        sanitized(name)
    }) + ".md"@
}

/// Builds the file name a task's report is stored under.
pub fn report_file_name(definition: &TaskDefinition) -> (r: String)
    ensures
        r@ == report_file_name_spec(definition.id as nat, definition.name@),
{
    let mut s = String::from_str("task_");
    let part = u64_to_string(definition.id as u64);
    s.append(part.as_str());
    s.append("_");
    let slug = sanitize_filename(definition.name.as_str());
    s.append(slug.as_str());
    s.append(".md");
    proof {
        assert(s@ =~= report_file_name_spec(definition.id as nat, definition.name@));
    }
    s
}

/// One dataset sample line: "- <id>: <name>\n".
pub open spec fn sample_line(item: ImageItem) -> Seq<char> {
    "- "@ + dec_digits(item.id as nat) + ": "@ + item.name@ + "\n"@
}

/// The dataset sample lines for a prefix of the dataset.
pub open spec fn sample_lines(items: Seq<ImageItem>) -> Seq<char>
    decreases items.len(),
{
    if items.len() == 0 {
        Seq::empty()
    } else {
        sample_lines(items.drop_last()) + sample_line(items.last())
    }
}

/// One hypothesis line: "- [<id>] <text> (score <s>)\n".
pub open spec fn hyp_line(h: HypView) -> Seq<char> {
    "- ["@ + dec_digits(h.id) + "] "@ + h.description + " (score "@ + fixed2_digits(h.score)
        + ")\n"@
}

/// The report lines for a prefix of a hypothesis list.
pub open spec fn hyp_lines(hyps: Seq<HypView>) -> Seq<char>
    decreases hyps.len(),
{
    if hyps.len() == 0 {
        Seq::empty()
    } else {
        hyp_lines(hyps.drop_last()) + hyp_line(hyps.last())
    }
}

/// The hypothesis section body: the first (at most) 20 entries, or a
/// placeholder when there are none.
pub open spec fn hyp_section(hyps: Seq<HypView>) -> Seq<char> {
    if hyps.len() == 0 {
        "- _None_\n"@
    } else {
        hyp_lines(hyps.take(if hyps.len() <= 20 { hyps.len() as int } else { 20 }))
    }
}

/// The dataset sample section body: the first (at most) 8 items followed
/// by a blank line, or a placeholder when the dataset is empty.
pub open spec fn sample_section(items: Seq<ImageItem>) -> Seq<char> {
    if items.len() == 0 {
        "- _empty_\n\n"@
    } else {
        sample_lines(items.take(if items.len() <= 8 { items.len() as int } else { 8 })) + "\n"@
    }
}

/// The whole markdown report for a finished task.
pub open spec fn report_markdown(
    d: TaskDefinition,
    verified: Seq<HypView>,
    discarded: Seq<HypView>,
    program: Seq<char>,
    best_score: nat,
) -> Seq<char> {
    "# Task Report: "@ + d.name@ + "\n\n"@ + "## Task Definition\n"@ + "- Task id: "@
        + dec_digits(d.id as nat) + "\n"@ + "- Created (unix): "@ + dec_digits(d.created_at as nat)
        + "\n"@ + "- Dataset size: "@ + dec_digits(d.dataset.len() as nat) + "\n"@
        + "- Heuristics: edge_threshold="@ + fixed2_digits(d.heuristics.edge_threshold as nat)
        + ", min_blob_area="@ + dec_digits(d.heuristics.min_blob_area as nat)
        + ", contrast_boost="@ + fixed2_digits(d.heuristics.contrast_boost as nat) + "\n"@
        + "- Max iterations: "@ + dec_digits(d.max_iters as nat) + "\n\n"@
        + "### Dataset sample\n"@ + sample_section(d.dataset@) + "## Summary\n"@
        + "- Best score: "@ + fixed3_digits(best_score) + "\n"@ + "- Verified hypotheses: "@
        + dec_digits(verified.len()) + "\n"@ + "- Discarded hypotheses: "@
        + dec_digits(discarded.len()) + "\n\n"@ + "## Verified Hypotheses\n"@
        + hyp_section(verified) + "\n"@ + "## Discarded Hypotheses\n"@ + hyp_section(discarded)
        + "\n"@ + "## Synthesized Program (mock)\n"@ + "```rust\n"@ + program + "\n```\n"@
}

/// Appends the first (at most) `cap` hypothesis lines of `hyps`.
fn append_hyp_section(out: &mut String, hyps: &Vec<Hypothesis>)
    ensures
        final(out)@ == old(out)@ + hyp_section(hyps_view(hyps@)),
{
    let n = hyps.len();
    if n == 0 {
        out.append("- _None_\n");
        proof {
            assert(hyps_view(hyps@) =~= Seq::<HypView>::empty());
        }
        return;
    }
    let cap: usize = if n <= 20 {
        n
    } else {
        20
    };
    let ghost hv = hyps_view(hyps@);
    let mut i: usize = 0;
    while i < cap
        invariant
            0 <= i <= cap <= hyps@.len(),
            hv == hyps_view(hyps@),
            hv.len() == hyps@.len(),
            cap == if hv.len() <= 20 { hv.len() as int } else { 20int },
            out@ == old(out)@ + hyp_lines(hv.take(i as int)),
        decreases cap - i,
    {
        let h = &hyps[i];
        out.append("- [");
        let part = u64_to_string(h.id as u64);
        out.append(part.as_str());
        out.append("] ");
        out.append(h.description.as_str());
        out.append(" (score ");
        let part = fixed2_to_string(h.score);
        out.append(part.as_str());
        out.append(")\n");
        proof {
            assert(hv.take(i as int + 1).drop_last() =~= hv.take(i as int));
            assert(hv.take(i as int + 1).last() == hv[i as int]);
            assert(hv[i as int] == hyp_view(hyps@[i as int]));
            assert(out@ =~= old(out)@ + hyp_lines(hv.take(i as int + 1)));
        }
        i = i + 1;
    }
}

/// Renders the full markdown report for a finished task: its definition,
/// a dataset sample, the summary scores, the classified hypotheses and the
/// synthesized program artifact.
#[verifier::rlimit(100)]
pub fn render_markdown_report(
    definition: &TaskDefinition,
    verified: &Vec<Hypothesis>,
    discarded: &Vec<Hypothesis>,
    program: &str,
    best_score: u32,
) -> (r: String)
    ensures
        r@ == report_markdown(
            *definition,
            hyps_view(verified@),
            hyps_view(discarded@),
            program@,
            best_score as nat,
        ),
{
    let mut out = String::from_str("# Task Report: ");
    out.append(definition.name.as_str());
    out.append("\n\n");
    out.append("## Task Definition\n");
    out.append("- Task id: ");
    let part = u64_to_string(definition.id as u64);
    out.append(part.as_str());
    out.append("\n");
    out.append("- Created (unix): ");
    let part = u64_to_string(definition.created_at);
    out.append(part.as_str());
    out.append("\n");
    out.append("- Dataset size: ");
    let part = u64_to_string(definition.dataset.len() as u64);
    out.append(part.as_str());
    out.append("\n");
    out.append("- Heuristics: edge_threshold=");
    let part = fixed2_to_string(definition.heuristics.edge_threshold);
    out.append(part.as_str());
    out.append(", min_blob_area=");
    let part = u64_to_string(definition.heuristics.min_blob_area as u64);
    out.append(part.as_str());
    out.append(", contrast_boost=");
    let part = fixed2_to_string(definition.heuristics.contrast_boost);
    out.append(part.as_str());
    out.append("\n");
    out.append("- Max iterations: ");
    let part = u64_to_string(definition.max_iters as u64);
    out.append(part.as_str());
    out.append("\n\n");
    out.append("### Dataset sample\n");
    let n = definition.dataset.len();
    if n == 0 {
        out.append("- _empty_\n\n");
    } else {
        let cap: usize = if n <= 8 {
            n
        } else {
            8
        };
        let ghost items = definition.dataset@;
        let mut i: usize = 0;
        let ghost out_before = out@;
        while i < cap
            invariant
                0 <= i <= cap <= items.len(),
                items == definition.dataset@,
                cap == if items.len() <= 8 { items.len() as int } else { 8int },
                out@ == out_before + sample_lines(items.take(i as int)),
            decreases cap - i,
        {
            let item = &definition.dataset[i];
            out.append("- ");
            let part = u64_to_string(item.id as u64);
            out.append(part.as_str());
            out.append(": ");
            out.append(item.name.as_str());
            out.append("\n");
            proof {
                assert(items.take(i as int + 1).drop_last() =~= items.take(i as int));
                assert(items.take(i as int + 1).last() == items[i as int]);
                assert(out@ =~= out_before + sample_lines(items.take(i as int + 1)));
            }
            i = i + 1;
        }
        out.append("\n");
    }
    out.append("## Summary\n");
    out.append("- Best score: ");
    let part = fixed3_to_string(best_score);
    out.append(part.as_str());
    out.append("\n");
    out.append("- Verified hypotheses: ");
    let part = u64_to_string(verified.len() as u64);
    out.append(part.as_str());
    out.append("\n");
    out.append("- Discarded hypotheses: ");
    let part = u64_to_string(discarded.len() as u64);
    out.append(part.as_str());
    out.append("\n\n");
    out.append("## Verified Hypotheses\n");
    append_hyp_section(&mut out, verified);
    out.append("\n");
    out.append("## Discarded Hypotheses\n");
    append_hyp_section(&mut out, discarded);
    out.append("\n");
    out.append("## Synthesized Program (mock)\n");
    out.append("```rust\n");
    out.append(program);
    out.append("\n```\n");
    proof {
        assert(out@ =~= report_markdown(
            *definition,
            hyps_view(verified@),
            hyps_view(discarded@),
            program@,
            best_score as nat,
        ));
    }
    out
}

} // verus!
