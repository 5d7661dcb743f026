//! Multi-line text: how a block of text breaks into lines, where each
//! line is drawn, and the text of the score display.
//!
//! Lines are separated by the two characters `[]`. The first line is drawn
//! at the origin and each further line one font size plus the line spacing
//! below the one before.

use vstd::prelude::*;
use vstd::string::*;

verus! {

/// Whether the line separator `[]` starts at position `i` of `s`.
pub open spec fn break_at(s: Seq<char>, i: int) -> bool {
    0 <= i && i + 1 < s.len() && s[i] == '[' && s[i + 1] == ']'
}

/// The first position at or after `from` where a separator starts, or the
/// length of `s` if there is none.
pub open spec fn find_break(s: Seq<char>, from: int) -> int
    decreases s.len() - from,
{
    if from < 0 || from + 1 >= s.len() {
        s.len() as int
    } else if s[from] == '[' && s[from + 1] == ']' {
        from
    } else {
        find_break(s, from + 1)
    }
}

/// The lines of `s`: what stands before the first separator, then the lines
/// of what follows it. Text without a separator is one line, even if empty.
pub open spec fn split_lines(s: Seq<char>) -> Seq<Seq<char>>
    decreases s.len(),
{
    let at = find_break(s, 0);
    if 0 <= at && at + 2 <= s.len() {
        seq![s.take(at)] + split_lines(s.skip(at + 2))
    } else {
        seq![s]
    }
}

/// `find_break` finds a separator, and the first one.
pub proof fn lemma_find_break(s: Seq<char>, from: int)
    requires
        0 <= from <= s.len(),
    ensures
        from <= find_break(s, from) <= s.len(),
        find_break(s, from) < s.len() ==> break_at(s, find_break(s, from)),
        forall|j: int| from <= j < find_break(s, from) ==> !break_at(s, j),
    decreases s.len() - from,
{
    if from + 1 >= s.len() {
    } else if s[from] == '[' && s[from + 1] == ']' {
    } else {
        lemma_find_break(s, from + 1);
    }
}

/// Breaks `text` into its lines.
pub fn split_lines_of(text: &str) -> (lines: Vec<String>)
    ensures
        lines.deep_view() == split_lines(text@),
{
    let n: usize = text.unicode_len();
    let mut lines: Vec<String> = Vec::new();
    let mut start: usize = 0;
    let mut i: usize = 0;
    assert(text@.skip(0) =~= text@);
    while i < n
        invariant
            start <= i <= n,
            n == text@.len(),
            split_lines(text@) == lines.deep_view() + split_lines(text@.skip(start as int)),
            find_break(text@.skip(start as int), 0) == find_break(
                text@.skip(start as int),
                i - start,
            ),
        decreases n - i,
    {
        let ghost rest = text@.skip(start as int);
        if i + 1 < n && text.get_char(i) == '[' && text.get_char(i + 1) == ']' {
            let line = String::from_str(text.substring_char(start, i));
            lines.push(line);
            proof {
                assert(rest.take(i - start) =~= text@.subrange(start as int, i as int));
                assert(rest.skip(i - start + 2) =~= text@.skip(i + 2));
            }
            i = i + 2;
            start = i;
        } else {
            i = i + 1;
        }
    }
    let line = String::from_str(text.substring_char(start, n));
    lines.push(line);
    lines
}

/// One line of text and the point its top-left corner is drawn at.
#[derive(Debug, PartialEq, Eq)]
pub struct PlacedLine {
    pub text: String,
    pub x: i32,
    pub y: i32,
}

/// Height of line number `k`, counted from zero, of a block drawn at height
/// `y` in a font of `size` pixels with `line_spacing` pixels between lines.
pub open spec fn line_y(y: int, size: int, line_spacing: int, k: int) -> int {
    y + k * (size + line_spacing)
}

/// Whether each of the first `n` lines of such a block has a height that a
/// pixel coordinate can hold.
pub open spec fn lines_fit(n: nat, y: int, size: int, line_spacing: int) -> bool {
    forall|k: int| 0 <= k < n ==> i32::MIN <= #[trigger] line_y(y, size, line_spacing, k) <= i32::MAX
}

/// Lays out `text` as a block whose first line is drawn at `(x, y)`, for a
/// font of `size` pixels and `line_spacing` pixels between lines.
///
/// The result holds the lines of `text` in order, all at `x`, line `k` at
/// height `line_y(y, size, line_spacing, k)`. It is `None` exactly when one
/// of those heights is not a pixel coordinate.
pub fn layout_multi(text: &str, size: u16, line_spacing: i32, x: i32, y: i32) -> (placed: Option<
    Vec<PlacedLine>,
>)
    ensures
        placed is Some <==> lines_fit(
            split_lines(text@).len(),
            y as int,
            size as int,
            line_spacing as int,
        ),
        placed matches Some(block) ==> {
            &&& block@.len() == split_lines(text@).len()
            &&& forall|k: int|
                0 <= k < block@.len() ==> {
                    &&& (#[trigger] block@[k]).text@ == split_lines(text@)[k]
                    &&& block@[k].x == x
                    &&& block@[k].y == line_y(y as int, size as int, line_spacing as int, k)
                }
        },
{
    let lines = split_lines_of(text);
    let step: i64 = size as i64 + line_spacing as i64;
    let mut block: Vec<PlacedLine> = Vec::new();
    let mut y_pos: i64 = y as i64;
    let mut k: usize = 0;
    while k < lines.len()
        invariant
            k <= lines.len(),
            lines.deep_view() == split_lines(text@),
            step == size + line_spacing,
            y_pos == line_y(y as int, size as int, line_spacing as int, k as int),
            lines_fit(k as nat, y as int, size as int, line_spacing as int),
            block@.len() == k,
            forall|j: int|
                0 <= j < k ==> {
                    &&& (#[trigger] block@[j]).text@ == split_lines(text@)[j]
                    &&& block@[j].x == x
                    &&& block@[j].y == line_y(y as int, size as int, line_spacing as int, j)
                },
        decreases lines.len() - k,
    {
        if y_pos < i32::MIN as i64 || y_pos > i32::MAX as i64 {
            return None;
        }
        let line = lines[k].clone();
        block.push(PlacedLine { text: line, x, y: y_pos as i32 });
        assert(line_y(y as int, size as int, line_spacing as int, k + 1) == y_pos + step)
            by (nonlinear_arith)
            requires
                y_pos == line_y(y as int, size as int, line_spacing as int, k as int),
                step == size + line_spacing,
        ;
        y_pos = y_pos + step;
        k = k + 1;
    }
    Some(block)
}

/// The decimal digit for `d`, which is below ten.
pub open spec fn digit(d: nat) -> char {
    seq!['0', '1', '2', '3', '4', '5', '6', '7', '8', '9'][d as int]
}

/// `n` written in decimal, without leading zeros.
pub open spec fn decimal(n: nat) -> Seq<char>
    decreases n,
{
    if n < 10 {
        seq![digit(n)]
    } else {
        decimal(n / 10).push(digit(n % 10))
    }
}

/// The text of the score display: the score on the first line and the high
/// score on the second.
pub open spec fn score_text_of(score: nat, high_score: nat) -> Seq<char> {
    "SCORE: "@ + decimal(score) + "[]"@ + "HIGH SCORE: "@ + decimal(high_score)
}

fn digit_str(d: u32) -> (s: &'static str)
    requires
        d < 10,
    ensures
        s@ == seq![digit(d as nat)],
{
    proof {
        reveal_strlit("0");
        reveal_strlit("1");
        reveal_strlit("2");
        reveal_strlit("3");
        reveal_strlit("4");
        reveal_strlit("5");
        reveal_strlit("6");
        reveal_strlit("7");
        reveal_strlit("8");
        reveal_strlit("9");
    }
    let s = match d {
        0 => "0",
        1 => "1",
        2 => "2",
        3 => "3",
        4 => "4",
        5 => "5",
        6 => "6",
        7 => "7",
        8 => "8",
        _ => "9",
    };
    s
}

/// Appends `n` in decimal to `out`.
pub fn push_decimal(out: &mut String, n: u32)
    ensures
        final(out)@ == old(out)@ + decimal(n as nat),
    decreases n,
{
    if n >= 10 {
        push_decimal(out, n / 10);
    }
    out.append(digit_str(n % 10));
}

/// Writes the score display for `score` and `high_score`.
pub fn score_text(score: u32, high_score: u32) -> (text: String)
    ensures
        text@ == score_text_of(score as nat, high_score as nat),
{
    let mut text = String::from_str("SCORE: ");
    push_decimal(&mut text, score);
    text.append("[]");
    text.append("HIGH SCORE: ");
    push_decimal(&mut text, high_score);
    text
}

/// The two characters that separate lines.
pub open spec fn separator() -> Seq<char> {
    seq!['[', ']']
}

/// The text whose lines are `lines`: the lines in order, with a separator
/// between each two.
pub open spec fn join_lines(lines: Seq<Seq<char>>) -> Seq<char>
    decreases lines.len(),
{
    if lines.len() == 0 {
        Seq::empty()
    } else if lines.len() == 1 {
        lines[0]
    } else {
        lines[0] + separator() + join_lines(lines.skip(1))
    }
}

/// Whether `line` holds no separator.
pub open spec fn unbroken(line: Seq<char>) -> bool {
    forall|j: int| !break_at(line, j)
}

/// Splitting loses nothing and leaves no separator behind: there is at
/// least one line, no line holds a separator, and the lines joined by
/// separators are the text again.
pub proof fn lemma_split_then_join(s: Seq<char>)
    ensures
        split_lines(s).len() >= 1,
        forall|k: int| 0 <= k < split_lines(s).len() ==> unbroken(#[trigger] split_lines(s)[k]),
        join_lines(split_lines(s)) == s,
    decreases s.len(),
{
    let at = find_break(s, 0);
    lemma_find_break(s, 0);
    if at + 2 <= s.len() {
        let head = s.take(at);
        let rest = s.skip(at + 2);
        lemma_split_then_join(rest);
        let lines = split_lines(s);
        assert(lines.skip(1) =~= split_lines(rest));
        assert forall|j: int| !break_at(head, j) by {
            if break_at(head, j) {
                assert(break_at(s, j));
            }
        }
    }
}

/// Splitting undoes joining: text made of lines that hold no separator
/// splits into exactly those lines.
pub proof fn lemma_join_then_split(lines: Seq<Seq<char>>)
    requires
        lines.len() >= 1,
        forall|k: int| 0 <= k < lines.len() ==> unbroken(#[trigger] lines[k]),
    ensures
        split_lines(join_lines(lines)) == lines,
    decreases lines.len(),
{
    let s = join_lines(lines);
    lemma_find_break(s, 0);
    if lines.len() > 1 {
        let first = lines[0];
        let others = lines.skip(1);
        let n = first.len() as int;
        lemma_join_then_split(others);
        assert(break_at(s, n));
        assert forall|j: int| 0 <= j < n implies !break_at(s, j) by {
            if j + 1 < n {
                assert(!break_at(first, j));
            }
        }
        assert(s.take(n) =~= first);
        assert(s.skip(n + 2) =~= join_lines(others));
    }
}

/// Every character of a number written in decimal is a digit, so none is
/// part of a separator.
pub proof fn lemma_decimal_is_unbroken(n: nat)
    ensures
        decimal(n).len() >= 1,
        forall|i: int|
            0 <= i < decimal(n).len() ==> #[trigger] decimal(n)[i] != '[' && decimal(n)[i] != ']',
    decreases n,
{
    if n >= 10 {
        lemma_decimal_is_unbroken(n / 10);
    }
}

/// The score display has two lines: the score, then the high score.
pub proof fn lemma_score_text_has_two_lines(score: nat, high_score: nat)
    ensures
        split_lines(score_text_of(score, high_score)) == seq![
            "SCORE: "@ + decimal(score),
            "HIGH SCORE: "@ + decimal(high_score),
        ],
{
    reveal_strlit("SCORE: ");
    reveal_strlit("HIGH SCORE: ");
    reveal_strlit("[]");
    lemma_decimal_is_unbroken(score);
    lemma_decimal_is_unbroken(high_score);
    let first = "SCORE: "@ + decimal(score);
    let second = "HIGH SCORE: "@ + decimal(high_score);
    let lines = seq![first, second];
    assert forall|j: int| !break_at(first, j) by {
        if 0 <= j < first.len() && j >= 7 {
            assert(first[j] == decimal(score)[j - 7]);
        }
    }
    assert forall|j: int| !break_at(second, j) by {
        if 0 <= j < second.len() && j >= 12 {
            assert(second[j] == decimal(high_score)[j - 12]);
        }
    }
    assert(join_lines(lines.skip(1)) == second);
    assert(score_text_of(score, high_score) =~= join_lines(lines));
    lemma_join_then_split(lines);
}

} // verus!
