//! Verified text helpers: decimal rendering and parsing of unsigned
//! integers, fixed-point score rendering, and the short display strings the
//! observer shows for statuses and phases.

use vstd::prelude::*;
use crate::task::{TaskPhase, TaskStatus};

verus! {

/// The decimal digit character for `d` (0..=9).
pub open spec fn digit_char(d: nat) -> char {
    if d == 0 { '0' }
    else if d == 1 { '1' }
    else if d == 2 { '2' }
    else if d == 3 { '3' }
    else if d == 4 { '4' }
    else if d == 5 { '5' }
    else if d == 6 { '6' }
    else if d == 7 { '7' }
    else if d == 8 { '8' }
    else { '9' }
}

/// Decimal rendering of `n`, most significant digit first, no leading
/// zeroes (except for `n == 0`, which renders as "0").
pub open spec fn dec_digits(n: nat) -> Seq<char>
    decreases n,
{
    if n < 10 {
        seq![digit_char(n)]
    } else {
        dec_digits(n / 10).push(digit_char(n % 10))
    }
}

/// Whether `c` is a decimal digit character.
pub open spec fn is_digit_char(c: char) -> bool {
    c == '0' || c == '1' || c == '2' || c == '3' || c == '4'
    || c == '5' || c == '6' || c == '7' || c == '8' || c == '9'
}

/// Numeric value of a digit character.
pub open spec fn digit_val(c: char) -> nat {
    if c == '0' { 0 }
    else if c == '1' { 1 }
    else if c == '2' { 2 }
    else if c == '3' { 3 }
    else if c == '4' { 4 }
    else if c == '5' { 5 }
    else if c == '6' { 6 }
    else if c == '7' { 7 }
    else { 8 + (if c == '9' { 1nat } else { 0nat }) }
}

/// Value of a digit string read from the left.
pub open spec fn dec_value(s: Seq<char>) -> nat
    decreases s.len(),
{
    if s.len() == 0 {
        0
    } else {
        dec_value(s.drop_last()) * 10 + digit_val(s.last())
    }
}

/// Reading back the digit character of `d` yields `d`.
proof fn lemma_digit_char_val(d: nat)
    requires
        d < 10,
    ensures
        digit_val(digit_char(d)) == d,
        is_digit_char(digit_char(d)),
{
}

/// Every character of a decimal rendering is a digit.
pub proof fn lemma_dec_digits_are_digits(n: nat)
    ensures
        forall|i: int| 0 <= i < dec_digits(n).len() ==> is_digit_char(#[trigger] dec_digits(n)[i]),
        dec_digits(n).len() >= 1,
    decreases n,
{
    if n < 10 {
        lemma_digit_char_val(n);
    } else {
        lemma_dec_digits_are_digits(n / 10);
        lemma_digit_char_val(n % 10);
    }
}

/// Reading a decimal rendering back yields the number it renders.
pub proof fn lemma_dec_digits_value(n: nat)
    ensures
        dec_value(dec_digits(n)) == n,
    decreases n,
{
    if n < 10 {
        lemma_digit_char_val(n);
        assert(dec_digits(n) =~= seq![digit_char(n)]);
        assert(dec_digits(n).drop_last() =~= Seq::<char>::empty());
        assert(dec_value(Seq::<char>::empty()) == 0);
        assert(dec_digits(n).last() == digit_char(n));
    } else {
        lemma_dec_digits_value(n / 10);
        lemma_digit_char_val(n % 10);
        assert(dec_digits(n).drop_last() =~= dec_digits(n / 10));
        assert(dec_digits(n).last() == digit_char(n % 10));
        assert(dec_value(dec_digits(n)) == dec_value(dec_digits(n / 10)) * 10 + digit_val(
            digit_char(n % 10),
        ));
        assert(dec_value(dec_digits(n)) == (n / 10) * 10 + n % 10);
    }
}

/// Relies on std's `String::push`: appends the given character to the end
/// of the string.
#[verifier::external_body]
pub(crate) fn push_char(s: &mut String, c: char)
    ensures
        final(s)@ == old(s)@.push(c),
{
    s.push(c);
}

/// Inserts a character at a character position.
pub fn insert_char_at(s: &str, pos: usize, c: char) -> (r: String)
    requires
        pos <= s@.len(),
    ensures
        r@ == s@.subrange(0, pos as int) + seq![c] + s@.subrange(pos as int, s@.len() as int),
{
    let len = s.unicode_len();
    let mut out = s.substring_char(0, pos).to_owned();
    push_char(&mut out, c);
    out.append(s.substring_char(pos, len));
    proof {
        assert(out@ =~= s@.subrange(0, pos as int) + seq![c] + s@.subrange(
            pos as int,
            s@.len() as int,
        ));
    }
    out
}

/// Removes the character at a character position.
pub fn remove_char_at(s: &str, pos: usize) -> (r: String)
    requires
        pos < s@.len(),
    ensures
        r@ == s@.subrange(0, pos as int) + s@.subrange(pos as int + 1, s@.len() as int),
{
    let len = s.unicode_len();
    let mut out = s.substring_char(0, pos).to_owned();
    out.append(s.substring_char(pos + 1, len));
    proof {
        assert(out@ =~= s@.subrange(0, pos as int) + s@.subrange(
            pos as int + 1,
            s@.len() as int,
        ));
    }
    out
}

/// Whether `c` has the Unicode White_Space property, as `str::trim`
/// understands whitespace.
pub open spec fn is_space_char(c: char) -> bool {
    ||| c == '\t' || c == '\n' || c == '\u{000B}' || c == '\u{000C}' || c == '\r'
    ||| c == ' ' || c == '\u{0085}' || c == '\u{00A0}' || c == '\u{1680}'
    ||| '\u{2000}' <= c && c <= '\u{200A}'
    ||| c == '\u{2028}' || c == '\u{2029}' || c == '\u{202F}' || c == '\u{205F}'
    ||| c == '\u{3000}'
}

/// `s` without its leading whitespace.
pub open spec fn trim_front(s: Seq<char>) -> Seq<char>
    decreases s.len(),
{
    if s.len() > 0 && is_space_char(s[0]) {
        trim_front(s.subrange(1, s.len() as int))
    } else {
        s
    }
}

/// `s` without its trailing whitespace.
pub open spec fn trim_back(s: Seq<char>) -> Seq<char>
    decreases s.len(),
{
    if s.len() > 0 && is_space_char(s.last()) {
        trim_back(s.drop_last())
    } else {
        s
    }
}

/// `s` without leading and trailing whitespace.
pub open spec fn trimmed(s: Seq<char>) -> Seq<char> {
    trim_back(trim_front(s))
}

/// Whether `c` has the Unicode White_Space property.
fn is_space(c: char) -> (r: bool)
    ensures
        r == is_space_char(c),
{
    c == '\t' || c == '\n' || c == '\u{000B}' || c == '\u{000C}' || c == '\r' || c == ' '
        || c == '\u{0085}' || c == '\u{00A0}' || c == '\u{1680}' || ('\u{2000}' <= c && c
        <= '\u{200A}') || c == '\u{2028}' || c == '\u{2029}' || c == '\u{202F}'
        || c == '\u{205F}' || c == '\u{3000}'
}

/// Strips leading and trailing whitespace.
pub fn trim_spaces(s: &str) -> (r: String)
    ensures
        r@ == trimmed(s@),
{
    let len = s.unicode_len();
    let mut i: usize = 0;
    proof {
        assert(s@.subrange(0, len as int) =~= s@);
    }
    while i < len && is_space(s.get_char(i))
        invariant
            0 <= i <= len,
            len == s@.len(),
            trim_front(s@) == trim_front(s@.subrange(i as int, len as int)),
        decreases len - i,
    {
        proof {
            let cur = s@.subrange(i as int, len as int);
            assert(cur.subrange(1, cur.len() as int) =~= s@.subrange(i as int + 1, len as int));
        }
        i = i + 1;
    }
    let mut j: usize = len;
    proof {
        let cur = s@.subrange(i as int, len as int);
        if i < len {
            assert(!is_space_char(cur[0]));
        }
        assert(trim_front(s@) == cur);
    }
    while j > i && is_space(s.get_char(j - 1))
        invariant
            i <= j <= len,
            len == s@.len(),
            trim_front(s@) == s@.subrange(i as int, len as int),
            i < len ==> !is_space_char(s@[i as int]),
            trim_back(trim_front(s@)) == trim_back(s@.subrange(i as int, j as int)),
        decreases j,
    {
        proof {
            let cur = s@.subrange(i as int, j as int);
            assert(cur.drop_last() =~= s@.subrange(i as int, j as int - 1));
        }
        j = j - 1;
    }
    proof {
        let cur = s@.subrange(i as int, j as int);
        if j > i {
            assert(!is_space_char(cur.last()));
        } else {
            assert(cur.len() == 0);
        }
        assert(trim_back(cur) == cur);
    }
    s.substring_char(i, j).to_owned()
}

/// Single-character string for the digit `d`.
fn digit_str(d: u64) -> (r: &'static str)
    requires
        d < 10,
    ensures
        r@ =~= seq![digit_char(d as nat)],
{
    proof {
        reveal_strlit("0");
        reveal_strlit("1");
        reveal_strlit("2");
        reveal_strlit("3");
        reveal_strlit("4");
        reveal_strlit("5");
        reveal_strlit("6");
        reveal_strlit("7");
        reveal_strlit("8");
        reveal_strlit("9");
    }
    match d {
        0 => "0",
        1 => "1",
        2 => "2",
        3 => "3",
        4 => "4",
        5 => "5",
        6 => "6",
        7 => "7",
        8 => "8",
        _ => "9",
    }
}

/// Renders `n` in decimal.
pub fn u64_to_string(n: u64) -> (s: String)
    ensures
        s@ == dec_digits(n as nat),
    decreases n,
{
    if n < 10 {
        String::from_str(digit_str(n))
    } else {
        let mut s = u64_to_string(n / 10);
        s.append(digit_str(n % 10));
        proof {
            assert(s@ =~= dec_digits(n as nat));
        }
        s
    }
}

/// Renders `n` in decimal, left-padded with '0' to at least two digits.
pub open spec fn dec_digits_pad2(n: nat) -> Seq<char> {
    if n < 10 {
        seq!['0'].push(digit_char(n))
    } else {
        dec_digits(n)
    }
}

/// Renders `n` in decimal with at least two digits.
pub fn u64_to_string_pad2(n: u64) -> (s: String)
    ensures
        s@ == dec_digits_pad2(n as nat),
{
    if n < 10 {
        let mut s = String::from_str(digit_str(0));
        s.append(digit_str(n));
        proof {
            assert(s@ =~= dec_digits_pad2(n as nat));
        }
        s
    } else {
        u64_to_string(n)
    }
}

/// Length of the longest digit prefix of `s`.
pub open spec fn digit_prefix_len(s: Seq<char>) -> int
    decreases s.len(),
{
    if s.len() == 0 || !is_digit_char(s[0]) {
        0
    } else {
        1 + digit_prefix_len(s.subrange(1, s.len() as int))
    }
}

/// The digit prefix is made of digits and stops at the first non-digit.
pub proof fn lemma_digit_prefix(s: Seq<char>)
    ensures
        0 <= digit_prefix_len(s) <= s.len(),
        forall|i: int| 0 <= i < digit_prefix_len(s) ==> is_digit_char(#[trigger] s[i]),
        digit_prefix_len(s) < s.len() ==> !is_digit_char(s[digit_prefix_len(s)]),
    decreases s.len(),
{
    if s.len() != 0 && is_digit_char(s[0]) {
        lemma_digit_prefix(s.subrange(1, s.len() as int));
        let tail = s.subrange(1, s.len() as int);
        assert forall|i: int| 0 <= i < digit_prefix_len(s) implies is_digit_char(#[trigger] s[i]) by {
            if i > 0 {
                assert(s[i] == tail[i - 1]);
            }
        }
        if digit_prefix_len(s) < s.len() {
            assert(s[digit_prefix_len(s)] == tail[digit_prefix_len(tail)]);
        }
    }
}

/// A string that starts with a digit rendering followed by a non-digit (or
/// nothing) has exactly that rendering as its digit prefix.
pub proof fn lemma_digit_prefix_of_rendering(n: nat, tail: Seq<char>)
    requires
        tail.len() == 0 || !is_digit_char(tail[0]),
    ensures
        digit_prefix_len(dec_digits(n) + tail) == dec_digits(n).len(),
        (dec_digits(n) + tail).subrange(0, dec_digits(n).len() as int) =~= dec_digits(n),
    decreases dec_digits(n).len(),
{
    let s = dec_digits(n) + tail;
    lemma_dec_digits_are_digits(n);
    lemma_digit_prefix_aux(dec_digits(n), tail);
}

/// Helper: the digit prefix of digits + (non-digit-headed) tail is the digits.
proof fn lemma_digit_prefix_aux(digits: Seq<char>, tail: Seq<char>)
    requires
        forall|i: int| 0 <= i < digits.len() ==> is_digit_char(#[trigger] digits[i]),
        tail.len() == 0 || !is_digit_char(tail[0]),
    ensures
        digit_prefix_len(digits + tail) == digits.len(),
        (digits + tail).subrange(0, digits.len() as int) =~= digits,
    decreases digits.len(),
{
    let s = digits + tail;
    if digits.len() == 0 {
        assert(s =~= tail);
    } else {
        assert(s[0] == digits[0]);
        lemma_digit_prefix_aux(digits.subrange(1, digits.len() as int), tail);
        assert(s.subrange(1, s.len() as int) =~= digits.subrange(1, digits.len() as int) + tail);
    }
}

/// Parses the decimal digit prefix of `s` starting at `from`.  On success
/// returns the value of the digit prefix and the index just past it.
/// Returns `None` when no digit starts at `from` or the value would not fit
/// in a `u64`.
pub fn parse_u64(s: &str, from: usize) -> (r: Option<(u64, usize)>)
    requires
        from <= s@.len(),
    ensures
        match r {
            Some(p) => {
                let rest = s@.subrange(from as int, s@.len() as int);
                &&& from < p.1 <= s@.len()
                &&& p.1 - from == digit_prefix_len(rest)
                &&& p.0 as nat == dec_value(rest.subrange(0, digit_prefix_len(rest)))
            },
            None => {
                let rest = s@.subrange(from as int, s@.len() as int);
                digit_prefix_len(rest) == 0
                || dec_value(rest.subrange(0, digit_prefix_len(rest))) > u64::MAX
            },
        },
{
    let ghost rest = s@.subrange(from as int, s@.len() as int);
    proof {
        lemma_digit_prefix(rest);
    }
    let len = s.unicode_len();
    let mut i: usize = from;
    let mut val: u64 = 0;
    let mut ok: bool = true;
    let mut stop: bool = false;
    while i < len && ok && !stop
        invariant
            from <= i <= len,
            len == s@.len(),
            rest == s@.subrange(from as int, s@.len() as int),
            i - from <= digit_prefix_len(rest),
            stop ==> digit_prefix_len(rest) == i - from,
            ok ==> val as nat == dec_value(rest.subrange(0, i - from)),
            !ok ==> dec_value(rest.subrange(0, i - from)) > u64::MAX,
        decreases 2 * (len - i) + (if stop { 0int } else { 1int }),
    {
        let c = s.get_char(i);
        proof {
            assert(c == rest[i - from]);
        }
        let d: u64 = match c {
            '0' => 0,
            '1' => 1,
            '2' => 2,
            '3' => 3,
            '4' => 4,
            '5' => 5,
            '6' => 6,
            '7' => 7,
            '8' => 8,
            '9' => 9,
            _ => 10,
        };
        if d == 10 {
            stop = true;
            proof {
                assert(!is_digit_char(rest[i - from]));
                assert(digit_prefix_len(rest) <= i - from) by {
                    lemma_digit_prefix(rest);
                    if i - from < digit_prefix_len(rest) {
                        assert(is_digit_char(rest[i - from]));
                    }
                }
            }
        } else {
            proof {
                assert(is_digit_char(c) && digit_val(c) == d);
                assert(i - from < digit_prefix_len(rest)) by {
                    lemma_digit_prefix(rest);
                    if digit_prefix_len(rest) <= i - from {
                        assert(!is_digit_char(rest[digit_prefix_len(rest)]));
                    }
                }
                let pre = rest.subrange(0, i + 1 - from);
                assert(pre.drop_last() =~= rest.subrange(0, i - from));
                assert(pre.last() == c);
            }
            if val > (u64::MAX - d) / 10 {
                ok = false;
            } else {
                val = val * 10 + d;
            }
            i = i + 1;
        }
    }
    proof {
        if ok && !stop {
            assert(i == len);
            assert(rest.subrange(0, i - from) =~= rest);
            assert(digit_prefix_len(rest) == i - from);
        }
    }
    if !ok {
        proof {
            lemma_dec_value_monotone(rest, i - from, digit_prefix_len(rest));
        }
        return None;
    }
    if i == from {
        return None;
    }
    proof {
        assert(rest.subrange(0, i - from) =~= rest.subrange(0, digit_prefix_len(rest)));
    }
    Some((val, i))
}

/// Extending a digit prefix can only grow its value.
proof fn lemma_dec_value_monotone(s: Seq<char>, k: int, m: int)
    requires
        0 <= k <= m <= s.len(),
        forall|i: int| 0 <= i < m ==> is_digit_char(#[trigger] s[i]),
    ensures
        dec_value(s.subrange(0, k)) <= dec_value(s.subrange(0, m)),
    decreases m - k,
{
    if k < m {
        let next = s.subrange(0, k + 1);
        assert(next.drop_last() =~= s.subrange(0, k));
        assert(dec_value(s.subrange(0, k)) <= dec_value(next));
        lemma_dec_value_monotone(s, k + 1, m);
    }
}

/// Rendering of a fixed-point value (`SCORE_ONE` units) with two decimal
/// places, rounded to the nearest hundredth: 8050 units become "0.81".
pub open spec fn fixed2_digits(units: nat) -> Seq<char> {
    let h = (units + 50) / 100;
    dec_digits(h / 100) + seq!['.'] + dec_digits_pad2(h % 100)
}

/// Renders a fixed-point value with two decimal places.
pub fn fixed2_to_string(units: u32) -> (s: String)
    ensures
        s@ == fixed2_digits(units as nat),
{
    let h = ((units as u64) + 50) / 100;
    let mut s = u64_to_string(h / 100);
    s.append(".");
    let frac = u64_to_string_pad2(h % 100);
    s.append(frac.as_str());
    proof {
        reveal_strlit(".");
        assert("."@ =~= seq!['.']);
        assert(s@ =~= fixed2_digits(units as nat));
    }
    s
}

/// Rendering of a fixed-point value with three decimal places, rounded to
/// the nearest thousandth: 8000 units become "0.800".
pub open spec fn fixed3_digits(units: nat) -> Seq<char> {
    let t = (units + 5) / 10;
    dec_digits(t / 1000) + seq!['.'] + dec_digits_pad3(t % 1000)
}

/// Renders `n` in decimal, left-padded with '0' to at least three digits.
pub open spec fn dec_digits_pad3(n: nat) -> Seq<char> {
    if n < 10 {
        seq!['0', '0'].push(digit_char(n))
    } else if n < 100 {
        seq!['0'] + dec_digits(n)
    } else {
        dec_digits(n)
    }
}

/// Renders `n` in decimal with at least three digits.
pub fn u64_to_string_pad3(n: u64) -> (s: String)
    ensures
        s@ == dec_digits_pad3(n as nat),
{
    if n < 10 {
        let mut s = String::from_str(digit_str(0));
        s.append(digit_str(0));
        s.append(digit_str(n));
        proof {
            assert(s@ =~= dec_digits_pad3(n as nat));
        }
        s
    } else if n < 100 {
        let mut s = String::from_str(digit_str(0));
        let rest = u64_to_string(n);
        s.append(rest.as_str());
        proof {
            assert(s@ =~= dec_digits_pad3(n as nat));
        }
        s
    } else {
        u64_to_string(n)
    }
}

/// Renders a fixed-point value with three decimal places.
pub fn fixed3_to_string(units: u32) -> (s: String)
    ensures
        s@ == fixed3_digits(units as nat),
{
    let t = ((units as u64) + 5) / 10;
    let mut s = u64_to_string(t / 1000);
    s.append(".");
    let frac = u64_to_string_pad3(t % 1000);
    s.append(frac.as_str());
    proof {
        reveal_strlit(".");
        assert("."@ =~= seq!['.']);
        assert(s@ =~= fixed3_digits(units as nat));
    }
    s
}

/// Short display string for a task status.
pub fn format_status(status: &TaskStatus) -> (r: String)
    ensures
        r@ == match status {
            TaskStatus::Pending => "Pending"@,
            TaskStatus::Running => "Running"@,
            TaskStatus::Cancelled => "Cancelled"@,
            TaskStatus::Done => "Done"@,
            TaskStatus::Failed(_) => "Failed"@,
        },
{
    match status {
        TaskStatus::Pending => String::from_str("Pending"),
        TaskStatus::Running => String::from_str("Running"),
        TaskStatus::Cancelled => String::from_str("Cancelled"),
        TaskStatus::Done => String::from_str("Done"),
        TaskStatus::Failed(_) => String::from_str("Failed"),
    }
}

/// Short display string for a task phase.
pub fn format_phase(phase: &TaskPhase) -> (r: String)
    ensures
        r@ == match phase {
            TaskPhase::Defining => "Defining"@,
            TaskPhase::GeneratingHypotheses => "Generating"@,
            TaskPhase::EvaluatingHypotheses => "Evaluating"@,
            TaskPhase::Reducing => "Reducing"@,
            TaskPhase::Synthesizing => "Synthesizing"@,
            TaskPhase::Testing => "Testing"@,
            TaskPhase::Reporting => "Reporting"@,
            TaskPhase::Finished => "Finished"@,
        },
{
    match phase {
        TaskPhase::Defining => String::from_str("Defining"),
        TaskPhase::GeneratingHypotheses => String::from_str("Generating"),
        TaskPhase::EvaluatingHypotheses => String::from_str("Evaluating"),
        TaskPhase::Reducing => String::from_str("Reducing"),
        TaskPhase::Synthesizing => String::from_str("Synthesizing"),
        TaskPhase::Testing => String::from_str("Testing"),
        TaskPhase::Reporting => String::from_str("Reporting"),
        TaskPhase::Finished => String::from_str("Finished"),
    }
}

/// Result of truncating `value` to at most `max` characters, appending an
/// ellipsis when something was cut and there is room for one.
pub open spec fn truncated(value: Seq<char>, max: nat) -> Seq<char> {
    if value.len() <= max {
        value
    } else if max <= 3 {
        value.subrange(0, max as int)
    } else {
        value.subrange(0, max - 3) + "..."@
    }
}

/// Truncates `value` to at most `max` characters, marking a cut with "...".
pub fn truncate(value: &str, max: usize) -> (r: String)
    ensures
        r@ == truncated(value@, max as nat),
{
    let len = value.unicode_len();
    if len <= max {
        value.to_owned()
    } else if max <= 3 {
        value.substring_char(0, max).to_owned()
    } else {
        let head = value.substring_char(0, max - 3);
        let mut s = head.to_owned();
        s.append("...");
        s
    }
}

} // verus!
