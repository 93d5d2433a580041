//! Textual framing of a snapshot's identity for the update channel.
//!
//! A snapshot's header — task id, iteration budget, dataset size and name —
//! is rendered as decimal fields separated by spaces, with the name length
//! prefixed so any name round-trips.  Parsing is specified as a total
//! function on character sequences and proved to invert rendering.

use vstd::prelude::*;
use crate::task::{TaskPhase, TaskSnapshot, TaskStatus};
use crate::text::{
    dec_digits, dec_value, digit_prefix_len, is_digit_char, lemma_digit_prefix,
    lemma_digit_prefix_of_rendering, lemma_dec_digits_value, parse_u64, u64_to_string,
};

verus! {

/// The header rendering: id, iteration budget, dataset size, name length
/// and name, separated by single spaces.
pub open spec fn header_encoding(id: nat, max_iters: nat, dataset_size: nat, name: Seq<char>)
    -> Seq<char> {
    dec_digits(id) + " "@ + dec_digits(max_iters) + " "@ + dec_digits(dataset_size) + " "@
        + dec_digits(name.len()) + " "@ + name
}

/// One decimal field read at `from`: its value and the index just past it.
/// `None` when no digit starts there or the value does not fit `usize`.
pub open spec fn read_field(s: Seq<char>, from: int) -> Option<(nat, int)> {
    let rest = s.subrange(from, s.len() as int);
    let k = digit_prefix_len(rest);
    let v = dec_value(rest.subrange(0, k));
    if k == 0 || v > usize::MAX {
        None
    } else {
        Some((v, from + k))
    }
}

/// Whether a single space stands at `at`.
pub open spec fn space_at(s: Seq<char>, at: int) -> bool {
    0 <= at < s.len() && s[at] == ' '
}

/// The parse of a header: the four fields when the text is a well-formed
/// header, `None` otherwise.
pub open spec fn parse_header(s: Seq<char>) -> Option<(nat, nat, nat, Seq<char>)> {
    match read_field(s, 0) {
        None => None,
        Some((id, p1)) => if !space_at(s, p1) {
            None
        } else {
            match read_field(s, p1 + 1) {
                None => None,
                Some((max_iters, p2)) => if !space_at(s, p2) {
                    None
                } else {
                    match read_field(s, p2 + 1) {
                        None => None,
                        Some((dataset_size, p3)) => if !space_at(s, p3) {
                            None
                        } else {
                            match read_field(s, p3 + 1) {
                                None => None,
                                Some((name_len, p4)) => if !space_at(s, p4) {
                                    None
                                } else if s.len() - (p4 + 1) != name_len {
                                    None
                                } else {
                                    Some(
                                        (
                                            id,
                                            max_iters,
                                            dataset_size,
                                            s.subrange(p4 + 1, s.len() as int),
                                        ),
                                    )
                                },
                            }
                        },
                    }
                },
            }
        },
    }
}

/// Renders a snapshot's header.
pub fn encode_snapshot(s: &TaskSnapshot) -> (r: String)
    ensures
        r@ == header_encoding(s.id as nat, s.max_iters as nat, s.dataset_size as nat, s.name@),
{
    let mut out = u64_to_string(s.id as u64);
    out.append(" ");
    let part = u64_to_string(s.max_iters as u64);
    out.append(part.as_str());
    out.append(" ");
    let part = u64_to_string(s.dataset_size as u64);
    out.append(part.as_str());
    out.append(" ");
    let part = u64_to_string(s.name.as_str().unicode_len() as u64);
    out.append(part.as_str());
    out.append(" ");
    out.append(s.name.as_str());
    proof {
        assert(out@ =~= header_encoding(
            s.id as nat,
            s.max_iters as nat,
            s.dataset_size as nat,
            s.name@,
        ));
    }
    out
}

/// Reads one decimal field bounded by `usize`, mirroring `read_field`.
fn read_field_exec(s: &str, from: usize) -> (r: Option<(usize, usize)>)
    requires
        from <= s@.len(),
    ensures
        match r {
            Some(p) => read_field(s@, from as int) == Some((p.0 as nat, p.1 as int))
                && from < p.1 <= s@.len(),
            None => read_field(s@, from as int) is None,
        },
{
    proof {
        lemma_digit_prefix(s@.subrange(from as int, s@.len() as int));
    }
    match parse_u64(s, from) {
        Some((v, next)) => {
            if v > usize::MAX as u64 {
                None
            } else {
                Some((v as usize, next))
            }
        },
        None => None,
    }
}

/// Parses a header back into a snapshot.  The fields that the header does
/// not carry come back zeroed, exactly as in a freshly defined task.
/// Returns `None` if and only if the text is not a well-formed header.
pub fn parse_snapshot(text: &str) -> (r: Option<TaskSnapshot>)
    ensures
        match r {
            Some(snap) => {
                &&& parse_header(text@) == Some(
                    (
                        snap.id as nat,
                        snap.max_iters as nat,
                        snap.dataset_size as nat,
                        snap.name@,
                    ),
                )
                &&& snap.status is Pending
                &&& snap.phase == TaskPhase::Defining
                &&& snap.progress == 0
                &&& snap.iteration == 0
                &&& snap.heuristics == (crate::task::Heuristics {
                    edge_threshold: 0,
                    min_blob_area: 0,
                    contrast_boost: 0,
                })
                &&& snap.verified.len() == 0
                &&& snap.discarded.len() == 0
                &&& snap.best_score == 0
                &&& snap.last_score == 0
                &&& snap.report_path is None
            },
            None => parse_header(text@) is None,
        },
{
    let len = text.unicode_len();
    let p0 = read_field_exec(text, 0);
    let (id, p1) = match p0 {
        Some(p) => p,
        None => {
            return None;
        },
    };
    if p1 >= len || text.get_char(p1) != ' ' {
        return None;
    }
    let (max_iters, p2) = match read_field_exec(text, p1 + 1) {
        Some(p) => p,
        None => {
            return None;
        },
    };
    if p2 >= len || text.get_char(p2) != ' ' {
        return None;
    }
    let (dataset_size, p3) = match read_field_exec(text, p2 + 1) {
        Some(p) => p,
        None => {
            return None;
        },
    };
    if p3 >= len || text.get_char(p3) != ' ' {
        return None;
    }
    let (name_len, p4) = match read_field_exec(text, p3 + 1) {
        Some(p) => p,
        None => {
            return None;
        },
    };
    if p4 >= len || text.get_char(p4) != ' ' {
        return None;
    }
    if len - (p4 + 1) != name_len {
        return None;
    }
    let name = text.substring_char(p4 + 1, len).to_owned();
    Some(
        TaskSnapshot {
            id,
            name,
            status: TaskStatus::Pending,
            phase: TaskPhase::Defining,
            progress: 0,
            iteration: 0,
            max_iters,
            dataset_size,
            heuristics: crate::task::Heuristics {
                edge_threshold: 0,
                min_blob_area: 0,
                contrast_boost: 0,
            },
            verified: Vec::new(),
            discarded: Vec::new(),
            best_score: 0,
            last_score: 0,
            report_path: None,
        },
    )
}

/// A decimal rendering bounded by `usize` reads back as exactly that
/// field, whatever follows the separating space.
proof fn lemma_read_rendered_field(s: Seq<char>, from: int, v: nat, tail: Seq<char>)
    requires
        v <= usize::MAX,
        0 <= from <= s.len(),
        s.subrange(from, s.len() as int) == dec_digits(v) + " "@ + tail,
    ensures
        read_field(s, from) == Some((v, from + dec_digits(v).len())),
        space_at(s, from + dec_digits(v).len()),
        s.subrange(from + dec_digits(v).len() + 1, s.len() as int) == tail,
{
    let rest = s.subrange(from, s.len() as int);
    let after = " "@ + tail;
    reveal_strlit(" ");
    assert(rest =~= dec_digits(v) + after);
    assert(after.len() > 0 && after[0] == ' ');
    assert(!is_digit_char(after[0]));
    lemma_digit_prefix_of_rendering(v, after);
    lemma_dec_digits_value(v);
    assert(rest.subrange(0, digit_prefix_len(rest)) =~= dec_digits(v));
    assert(s[from + dec_digits(v).len()] == rest[dec_digits(v).len() as int]);
    assert(rest == dec_digits(v) + after);
    assert((dec_digits(v) + after)[dec_digits(v).len() as int] == after[0 - 0]);
    assert(rest[dec_digits(v).len() as int] == after[0]);
    let ll = dec_digits(v).len() as int;
    assert(s.subrange(from + ll + 1, s.len() as int).len() == tail.len());
    assert forall|k: int| 0 <= k < tail.len() implies s.subrange(from + ll + 1, s.len() as int)[k]
        == tail[k] by {
        assert(s.subrange(from + ll + 1, s.len() as int)[k] == s[from + ll + 1 + k]);
        assert(rest[ll + 1 + k] == s[from + ll + 1 + k]);
        assert(rest[ll + 1 + k] == (dec_digits(v) + after)[ll + 1 + k]);
        assert((dec_digits(v) + after)[ll + 1 + k] == after[1 + k]);
        assert(after[1 + k] == tail[k]);
    }
    assert(s.subrange(from + ll + 1, s.len() as int) =~= tail);
}

/// Round trip: parsing a rendered header yields exactly the header's
/// fields.
#[verifier::rlimit(100)]
pub proof fn lemma_header_round_trip(id: nat, max_iters: nat, dataset_size: nat, name: Seq<char>)
    requires
        id <= usize::MAX,
        max_iters <= usize::MAX,
        dataset_size <= usize::MAX,
        name.len() <= usize::MAX,
    ensures
        parse_header(header_encoding(id, max_iters, dataset_size, name)) == Some(
            (id, max_iters, dataset_size, name),
        ),
{
    let s = header_encoding(id, max_iters, dataset_size, name);
    let d1 = dec_digits(id);
    let d2 = dec_digits(max_iters);
    let d3 = dec_digits(dataset_size);
    let d4 = dec_digits(name.len());
    let t1 = d2 + " "@ + d3 + " "@ + d4 + " "@ + name;
    let t2 = d3 + " "@ + d4 + " "@ + name;
    let t3 = d4 + " "@ + name;
    assert(s.subrange(0, s.len() as int) =~= d1 + " "@ + t1);
    lemma_read_rendered_field(s, 0, id, t1);
    let p1 = d1.len() as int;
    assert(s.subrange(p1 + 1, s.len() as int) =~= d2 + " "@ + t2);
    lemma_read_rendered_field(s, p1 + 1, max_iters, t2);
    let p2 = p1 + 1 + d2.len();
    assert(s.subrange(p2 + 1, s.len() as int) =~= d3 + " "@ + t3);
    lemma_read_rendered_field(s, p2 + 1, dataset_size, t3);
    let p3 = p2 + 1 + d3.len();
    assert(s.subrange(p3 + 1, s.len() as int) =~= d4 + " "@ + name);
    lemma_read_rendered_field(s, p3 + 1, name.len(), name);
    let p4 = p3 + 1 + d4.len();
    assert(s.subrange(p4 + 1, s.len() as int) =~= name);
    assert(s.len() - (p4 + 1) == name.len());
}

} // verus!
