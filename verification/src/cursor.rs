//! The mapping between text columns, which count characters, and visual
//! columns, which count screen cells: a tab is one character and takes
//! `tab_width` cells.

use vstd::prelude::*;

verus! {

/// The number of cells that a character takes.
pub open spec fn char_width(c: char, tab_width: nat) -> nat {
    if c == '\t' {
        tab_width
    } else {
        1
    }
}

/// The number of cells that a sequence of characters takes.
pub open spec fn width_of(s: Seq<char>, tab_width: nat) -> nat
    decreases s.len(),
{
    if s.len() == 0 {
        0
    } else {
        width_of(s.drop_last(), tab_width) + char_width(s.last(), tab_width)
    }
}

/// The visual column of text column `text_col`: the cells taken by the first
/// `text_col` characters of the line. A column past the end of the line
/// counts as the one just past it, which lies one cell behind the line.
pub open spec fn visual_col(line: Seq<char>, text_col: nat, tab_width: nat) -> nat {
    if text_col <= line.len() {
        width_of(line.take(text_col as int), tab_width)
    } else {
        width_of(line, tab_width) + 1
    }
}

/// The first count of characters from `k` on whose cells reach
/// `visual_col`, the length of the line if none does.
pub open spec fn text_col_from(line: Seq<char>, visual_col: nat, tab_width: nat, k: nat) -> nat
    decreases line.len() - k,
{
    if k >= line.len() || width_of(line.take(k as int), tab_width) >= visual_col {
        k
    } else {
        text_col_from(line, visual_col, tab_width, k + 1)
    }
}

/// The text column of visual column `visual_col`: the least number of
/// leading characters whose cells reach it, the length of the line if they
/// never do.
pub open spec fn text_col(line: Seq<char>, visual_col: nat, tab_width: nat) -> nat {
    text_col_from(line, visual_col, tab_width, 0)
}

/// `n` held to what a machine word can hold.
pub open spec fn clamp(n: int) -> usize {
    if n < 0 {
        0
    } else if n > usize::MAX {
        usize::MAX
    } else {
        n as usize
    }
}

/// One more character adds its cells.
pub proof fn lemma_width_step(line: Seq<char>, k: int, tab_width: nat)
    requires
        0 <= k < line.len(),
    ensures
        width_of(line.take(k + 1), tab_width) == width_of(line.take(k), tab_width) + char_width(
            line[k],
            tab_width,
        ),
{
    assert(line.take(k + 1).drop_last() =~= line.take(k));
}

/// With tabs at least one cell wide, more characters take more cells.
pub proof fn lemma_width_increases(line: Seq<char>, j: int, k: int, tab_width: nat)
    requires
        0 <= j < k <= line.len(),
        tab_width >= 1,
    ensures
        width_of(line.take(j), tab_width) < width_of(line.take(k), tab_width),
    decreases k - j,
{
    lemma_width_step(line, k - 1, tab_width);
    if j < k - 1 {
        lemma_width_increases(line, j, k - 1, tab_width);
    }
}

/// Counting from any number of characters up to `c`, the first count whose
/// cells reach those of the first `c` characters is `c`.
proof fn lemma_text_col_from(line: Seq<char>, c: nat, tab_width: nat, k: nat)
    requires
        k <= c <= line.len(),
        tab_width >= 1,
    ensures
        text_col_from(line, width_of(line.take(c as int), tab_width), tab_width, k) == c,
    decreases c - k,
{
    if k < c {
        lemma_width_increases(line, k as int, c as int, tab_width);
        lemma_text_col_from(line, c, tab_width, k + 1);
    }
}

/// Round trip: from a text column of the line, the column past its end
/// aside, to its visual column and back gives the text column again, for any
/// tab width of at least one cell.
pub proof fn lemma_round_trip(line: Seq<char>, c: nat, tab_width: nat)
    requires
        c <= line.len(),
        tab_width >= 1,
    ensures
        text_col(line, visual_col(line, c, tab_width), tab_width) == c,
{
    lemma_text_col_from(line, c, tab_width, 0);
}

/// Round trip through the columns as the machine holds them: it gives the
/// text column again wherever the visual column is one that a machine word
/// holds.
pub proof fn lemma_round_trip_in_words(line: Seq<char>, c: usize, tab_width: usize)
    requires
        c <= line.len(),
        tab_width >= 1,
        visual_col(line, c as nat, tab_width as nat) <= usize::MAX,
    ensures
        text_col(
            line,
            clamp(visual_col(line, c as nat, tab_width as nat) as int) as nat,
            tab_width as nat,
        ) == c,
{
    lemma_round_trip(line, c as nat, tab_width as nat);
}

/// With tabs at least one cell wide, the visual column of a text column
/// from 1 on is no less than the text column, as far as the line reaches,
/// and so is 1 at least.
pub proof fn lemma_visual_col_positive(line: Seq<char>, c: nat, tab_width: nat)
    requires
        c >= 1,
        tab_width >= 1,
    ensures
        visual_col(line, c, tab_width) >= 1,
{
    if c <= line.len() {
        assert(line.take(0) =~= Seq::<char>::empty());
        lemma_width_increases(line, 0, c as int, tab_width);
    }
}

/// The sum of two numbers, held at the largest machine word.
pub fn sat_add(a: usize, b: usize) -> (r: usize)
    ensures
        r == clamp(a + b),
{
    if b > usize::MAX - a {
        usize::MAX
    } else {
        a + b
    }
}

/// The visual column of text column `text_col` of `line`, held at the
/// largest machine word.
pub fn text_to_visual(line: &Vec<char>, text_col: usize, tab_width: usize) -> (v: usize)
    ensures
        v == clamp(visual_col(line@, text_col as nat, tab_width as nat) as int),
        text_col <= line@.len() && tab_width >= 1 && visual_col(
            line@,
            text_col as nat,
            tab_width as nat,
        ) <= usize::MAX ==> crate::cursor::text_col(line@, v as nat, tab_width as nat)
            == text_col,
{
    proof {
        if text_col <= line@.len() && tab_width >= 1 && visual_col(
            line@,
            text_col as nat,
            tab_width as nat,
        ) <= usize::MAX {
            lemma_round_trip_in_words(line@, text_col, tab_width);
        }
    }
    let stop = if text_col <= line.len() {
        text_col
    } else {
        line.len()
    };
    let mut count: usize = 0;
    let mut n: usize = 0;
    assert(line@.take(0) =~= Seq::<char>::empty());
    while n < stop
        invariant
            n <= stop <= line.len(),
            count == clamp(width_of(line@.take(n as int), tab_width as nat) as int),
        decreases stop - n,
    {
        proof {
            lemma_width_step(line@, n as int, tab_width as nat);
        }
        if line[n] == '\t' {
            count = sat_add(count, tab_width);
        } else {
            count = sat_add(count, 1);
        }
        n += 1;
    }
    if text_col > line.len() {
        assert(line@.take(line@.len() as int) =~= line@);
        count = sat_add(count, 1);
    }
    count
}

/// The text column of visual column `visual_col` of `line`.
pub fn visual_to_text(line: &Vec<char>, visual_col: usize, tab_width: usize) -> (c: usize)
    ensures
        c == text_col(line@, visual_col as nat, tab_width as nat),
        c <= line@.len(),
{
    let mut k: usize = 0;
    let mut n: usize = 0;
    assert(line@.take(0) =~= Seq::<char>::empty());
    while k < line.len() && n < visual_col
        invariant
            k <= line.len(),
            n <= visual_col,
            n < visual_col ==> n == width_of(line@.take(k as int), tab_width as nat),
            n == visual_col ==> width_of(line@.take(k as int), tab_width as nat) >= visual_col,
            text_col(line@, visual_col as nat, tab_width as nat) == text_col_from(
                line@,
                visual_col as nat,
                tab_width as nat,
                k as nat,
            ),
        decreases line.len() - k,
    {
        proof {
            lemma_width_step(line@, k as int, tab_width as nat);
        }
        let w = if line[k] == '\t' {
            tab_width
        } else {
            1
        };
        if w >= visual_col - n {
            n = visual_col;
        } else {
            n = n + w;
        }
        k += 1;
    }
    k
}

} // verus!
