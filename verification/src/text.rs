//! Character sequences: conversion between strings and character vectors,
//! splitting into lines, joining lines, literal search, whitespace trimming
//! and decimal numbers.

use vstd::prelude::*;

verus! {

/// Whether `c` is white space: a space, a tab, a line or page break, or
/// one of the other blank characters that Unicode knows.
pub open spec fn is_whitespace(c: char) -> bool {
    ||| '\u{9}' <= c <= '\u{d}'
    ||| c == ' '
    ||| c == '\u{85}'
    ||| c == '\u{a0}'
    ||| c == '\u{1680}'
    ||| '\u{2000}' <= c <= '\u{200a}'
    ||| c == '\u{2028}'
    ||| c == '\u{2029}'
    ||| c == '\u{202f}'
    ||| c == '\u{205f}'
    ||| c == '\u{3000}'
}

/// Appends one character to a string.
///
/// Taken on trust: `String::push` keeps the characters already there and
/// puts `c` after them.
#[verifier::external_body]
pub(crate) fn push_char(s: &mut String, c: char)
    ensures
        final(s)@ == old(s)@.push(c),
{
    s.push(c);
}

/// Tells whether a character is white space.
pub fn char_is_whitespace(c: char) -> (b: bool)
    ensures
        b == is_whitespace(c),
{
    (c >= '\u{9}' && c <= '\u{d}') || c == ' ' || c == '\u{85}' || c == '\u{a0}' || c
        == '\u{1680}' || (c >= '\u{2000}' && c <= '\u{200a}') || c == '\u{2028}' || c
        == '\u{2029}' || c == '\u{202f}' || c == '\u{205f}' || c == '\u{3000}'
}

/// The characters of a string, in order.
pub fn chars_of(s: &str) -> (v: Vec<char>)
    ensures
        v@ == s@,
{
    let mut v: Vec<char> = Vec::new();
    for c in it: s.chars()
        invariant
            it.seq() == s@,
            v@ == s@.take(it.index() as int),
    {
        v.push(c);
    }
    v
}

/// The string made of the characters of `v`, in order.
pub fn string_of(v: &Vec<char>) -> (s: String)
    ensures
        s@ == v@,
{
    let mut s = String::new();
    let mut i: usize = 0;
    while i < v.len()
        invariant
            i <= v.len(),
            s@ == v@.take(i as int),
        decreases v.len() - i,
    {
        push_char(&mut s, v[i]);
        i += 1;
    }
    s
}

/// The contents of a vector of lines, line by line.
pub open spec fn views(v: Seq<Vec<char>>) -> Seq<Seq<char>> {
    Seq::new(v.len(), |i: int| v[i]@)
}

/// A copy of `v[from..to]`.
pub fn copy_range(v: &Vec<char>, from: usize, to: usize) -> (r: Vec<char>)
    requires
        from <= to <= v.len(),
    ensures
        r@ == v@.subrange(from as int, to as int),
{
    let mut r: Vec<char> = Vec::new();
    let mut i: usize = from;
    while i < to
        invariant
            from <= i <= to <= v.len(),
            r@ == v@.subrange(from as int, i as int),
        decreases to - i,
    {
        r.push(v[i]);
        i += 1;
    }
    r
}

/// A copy of a line.
pub fn copy_line(v: &Vec<char>) -> (r: Vec<char>)
    ensures
        r@ == v@,
{
    copy_range(v, 0, v.len())
}

/// Appends the characters of `tail` to `v`.
pub fn append_chars(v: &mut Vec<char>, tail: &Vec<char>)
    ensures
        final(v)@ == old(v)@ + tail@,
{
    let mut i: usize = 0;
    while i < tail.len()
        invariant
            i <= tail.len(),
            v@ == old(v)@ + tail@.take(i as int),
        decreases tail.len() - i,
    {
        v.push(tail[i]);
        i += 1;
    }
}

/// A copy of a vector of lines.
pub fn copy_lines(v: &Vec<Vec<char>>) -> (r: Vec<Vec<char>>)
    ensures
        views(r@) == views(v@),
{
    let mut r: Vec<Vec<char>> = Vec::new();
    let mut i: usize = 0;
    while i < v.len()
        invariant
            i <= v.len(),
            r@.len() == i,
            forall|j: int| 0 <= j < i ==> r@[j]@ == v@[j]@,
        decreases v.len() - i,
    {
        let line = copy_line(&v[i]);
        r.push(line);
        i += 1;
    }
    assert(views(r@) =~= views(v@));
    r
}

/// The index of the first `c` in `s`, or the length of `s` if it has none.
pub open spec fn first_of(s: Seq<char>, c: char) -> nat
    decreases s.len(),
{
    if s.len() == 0 || s[0] == c {
        0
    } else {
        1 + first_of(s.skip(1), c)
    }
}

/// `s` without its last character, if that is a carriage return.
pub open spec fn strip_cr(s: Seq<char>) -> Seq<char> {
    if s.len() > 0 && s.last() == '\r' {
        s.drop_last()
    } else {
        s
    }
}

/// The lines of a text. A line ends at a line feed, or at a carriage return
/// directly followed by one; the ending is not part of the line. The last
/// line needs no ending, and an empty text has no lines.
pub open spec fn split_lines(s: Seq<char>) -> Seq<Seq<char>>
    decreases s.len(),
{
    if s.len() == 0 {
        Seq::empty()
    } else {
        let n = first_of(s, '\n');
        if n >= s.len() {
            seq![s]
        } else {
            seq![strip_cr(s.take(n as int))] + split_lines(s.skip(n as int + 1))
        }
    }
}

/// The pieces of a text between its occurrences of `c`: one more than it
/// has of them, empty pieces included.
pub open spec fn split_on(s: Seq<char>, c: char) -> Seq<Seq<char>>
    decreases s.len(),
{
    let n = first_of(s, c);
    if n >= s.len() {
        seq![s]
    } else {
        seq![s.take(n as int)] + split_on(s.skip(n as int + 1), c)
    }
}

/// The pieces of a text between its line feeds.
pub open spec fn split_newlines(s: Seq<char>) -> Seq<Seq<char>> {
    split_on(s, '\n')
}

/// The text made of the given lines, each followed by a line feed.
pub open spec fn join_lines(lines: Seq<Seq<char>>) -> Seq<char>
    decreases lines.len(),
{
    if lines.len() == 0 {
        Seq::empty()
    } else {
        join_lines(lines.drop_last()) + lines.last().push('\n')
    }
}

/// `first_of` is the place of the first `c`, wherever that is.
pub proof fn lemma_first_of(s: Seq<char>, c: char, k: int)
    requires
        0 <= k <= s.len(),
        forall|j: int| 0 <= j < k ==> s[j] != c,
        k == s.len() || s[k] == c,
    ensures
        first_of(s, c) == k,
    decreases s.len(),
{
    if s.len() == 0 || s[0] == c {
    } else {
        lemma_first_of(s.skip(1), c, k - 1);
    }
}

/// Whether `c` is nowhere in `s`.
pub open spec fn has_no(s: Seq<char>, c: char) -> bool {
    forall|j: int| 0 <= j < s.len() ==> s[j] != c
}

/// Whether none of the lines holds a line feed.
pub open spec fn no_line_feeds(lines: Seq<Seq<char>>) -> bool {
    forall|i: int| 0 <= i < lines.len() ==> has_no(#[trigger] lines[i], '\n')
}

/// `first_of` stays within the text, and no `c` comes before it.
pub proof fn lemma_first_of_bounds(s: Seq<char>, c: char)
    ensures
        first_of(s, c) <= s.len(),
        has_no(s.take(first_of(s, c) as int), c),
    decreases s.len(),
{
    if s.len() == 0 || s[0] == c {
    } else {
        lemma_first_of_bounds(s.skip(1), c);
        let n = first_of(s, c) as int;
        assert forall|j: int| 0 <= j < n implies s.take(n)[j] != c by {
            if j > 0 {
                assert(s.skip(1).take(n - 1)[j - 1] == s[j]);
            }
        }
    }
}

/// No piece between the occurrences of `c` holds `c`.
pub proof fn lemma_split_on_has_no(s: Seq<char>, c: char)
    ensures
        forall|i: int| 0 <= i < split_on(s, c).len() ==> has_no(#[trigger] split_on(s, c)[i], c),
    decreases s.len(),
{
    let n = first_of(s, c);
    lemma_first_of_bounds(s, c);
    if n >= s.len() {
        assert(s.take(n as int) =~= s);
    } else {
        lemma_split_on_has_no(s.skip(n as int + 1), c);
        let rest = split_on(s.skip(n as int + 1), c);
        assert forall|i: int| 0 <= i < split_on(s, c).len() implies has_no(
            #[trigger] split_on(s, c)[i],
            c,
        ) by {
            if i > 0 {
                assert(split_on(s, c)[i] == rest[i - 1]);
            }
        }
    }
}

/// No line of a text holds a line feed.
pub proof fn lemma_split_lines_no_line_feeds(s: Seq<char>)
    ensures
        no_line_feeds(split_lines(s)),
    decreases s.len(),
{
    if s.len() > 0 {
        let n = first_of(s, '\n');
        lemma_first_of_bounds(s, '\n');
        if n >= s.len() {
            assert(s.take(n as int) =~= s);
        } else {
            lemma_split_lines_no_line_feeds(s.skip(n as int + 1));
            let head = s.take(n as int);
            let rest = split_lines(s.skip(n as int + 1));
            assert(has_no(strip_cr(head), '\n'));
            assert forall|i: int| 0 <= i < split_lines(s).len() implies has_no(
                #[trigger] split_lines(s)[i],
                '\n',
            ) by {
                if i > 0 {
                    assert(split_lines(s)[i] == rest[i - 1]);
                }
            }
        }
    }
}

/// The text of some lines starts with the first of them and its line feed.
pub proof fn lemma_join_lines_front(first: Seq<char>, rest: Seq<Seq<char>>)
    ensures
        join_lines(seq![first] + rest) == first.push('\n') + join_lines(rest),
    decreases rest.len(),
{
    let all = seq![first] + rest;
    if rest.len() == 0 {
        assert(all.len() == 1);
        assert(all.last() == first);
        assert(all.drop_last().len() == 0);
        assert(join_lines(all.drop_last()) =~= Seq::<char>::empty());
        assert(join_lines(rest) =~= Seq::<char>::empty());
        assert(join_lines(all) =~= first.push('\n') + join_lines(rest));
    } else {
        lemma_join_lines_front(first, rest.drop_last());
        assert(all.drop_last() =~= seq![first] + rest.drop_last());
        assert(all.last() == rest.last());
        assert(join_lines(all) =~= first.push('\n') + join_lines(rest));
    }
}

/// Lines that are joined to a text and split again are the same lines, if
/// none of them holds a line feed or ends with a carriage return.
pub proof fn lemma_split_lines_of_joined(lines: Seq<Seq<char>>)
    requires
        no_line_feeds(lines),
        forall|i: int| 0 <= i < lines.len() ==> strip_cr(#[trigger] lines[i]) == lines[i],
    ensures
        split_lines(join_lines(lines)) == lines,
    decreases lines.len(),
{
    if lines.len() == 0 {
        assert(split_lines(join_lines(lines)) =~= lines);
    } else {
        let first = lines[0];
        let rest = lines.skip(1);
        assert(lines =~= seq![first] + rest);
        lemma_join_lines_front(first, rest);
        let text = first.push('\n') + join_lines(rest);
        assert(has_no(first, '\n'));
        lemma_first_of(text, '\n', first.len() as int);
        assert(text.take(first.len() as int) =~= first);
        assert(text.skip(first.len() as int + 1) =~= join_lines(rest));
        assert forall|i: int| 0 <= i < rest.len() implies has_no(#[trigger] rest[i], '\n')
            && strip_cr(rest[i]) == rest[i] by {
            assert(rest[i] == lines[i + 1]);
        }
        lemma_split_lines_of_joined(rest);
        assert(split_lines(text) =~= lines);
    }
}

/// Splits a text into its lines.
pub fn lines_of(s: &Vec<char>) -> (out: Vec<Vec<char>>)
    ensures
        views(out@) == split_lines(s@),
        no_line_feeds(views(out@)),
{
    proof {
        lemma_split_lines_no_line_feeds(s@);
    }
    let mut out: Vec<Vec<char>> = Vec::new();
    let mut cur: Vec<char> = Vec::new();
    let mut i: usize = 0;
    let ghost mut start: int = 0;
    assert(s@.skip(0) =~= s@);
    assert(views(out@) =~= Seq::<Seq<char>>::empty());
    while i < s.len()
        invariant
            0 <= start <= i <= s.len(),
            cur@ == s@.subrange(start, i as int),
            forall|j: int| start <= j < i ==> s@[j] != '\n',
            split_lines(s@) == views(out@) + split_lines(s@.skip(start)),
        decreases s.len() - i,
    {
        let c = s[i];
        if c == '\n' {
            proof {
                let rest = s@.skip(start);
                lemma_first_of(rest, '\n', i - start);
                assert(rest.take(i - start) =~= cur@);
                assert(rest.skip(i - start + 1) =~= s@.skip(i + 1));
            }
            let n = cur.len();
            if n > 0 && cur[n - 1] == '\r' {
                cur.pop();
            }
            let ghost before = views(out@);
            out.push(cur);
            cur = Vec::new();
            proof {
                assert(views(out@) =~= before + seq![strip_cr(s@.subrange(start, i as int))]);
                start = i + 1;
            }
        } else {
            cur.push(c);
        }
        i += 1;
    }
    proof {
        let rest = s@.skip(start);
        assert(rest =~= cur@);
        if rest.len() > 0 {
            lemma_first_of(rest, '\n', rest.len() as int);
        }
    }
    if cur.len() > 0 {
        let ghost before = views(out@);
        out.push(cur);
        assert(views(out@) =~= before + seq![s@.skip(start)]);
    } else {
        assert(views(out@) + Seq::<Seq<char>>::empty() =~= views(out@));
    }
    out
}

/// Splits a text at each `sep`, keeping empty pieces.
pub fn pieces_of(s: &Vec<char>, sep: char) -> (out: Vec<Vec<char>>)
    ensures
        views(out@) == split_on(s@, sep),
        out@.len() >= 1,
        forall|i: int| 0 <= i < out@.len() ==> has_no(#[trigger] views(out@)[i], sep),
{
    proof {
        lemma_split_on_has_no(s@, sep);
    }
    let mut out: Vec<Vec<char>> = Vec::new();
    let mut cur: Vec<char> = Vec::new();
    let mut i: usize = 0;
    let ghost mut start: int = 0;
    assert(s@.skip(0) =~= s@);
    assert(views(out@) =~= Seq::<Seq<char>>::empty());
    while i < s.len()
        invariant
            0 <= start <= i <= s.len(),
            cur@ == s@.subrange(start, i as int),
            forall|j: int| start <= j < i ==> s@[j] != sep,
            split_on(s@, sep) == views(out@) + split_on(s@.skip(start), sep),
        decreases s.len() - i,
    {
        let c = s[i];
        if c == sep {
            proof {
                let rest = s@.skip(start);
                lemma_first_of(rest, sep, i - start);
                assert(rest.take(i - start) =~= cur@);
                assert(rest.skip(i - start + 1) =~= s@.skip(i + 1));
            }
            let ghost before = views(out@);
            out.push(cur);
            cur = Vec::new();
            proof {
                assert(views(out@) =~= before + seq![s@.subrange(start, i as int)]);
                start = i + 1;
            }
        } else {
            cur.push(c);
        }
        i += 1;
    }
    proof {
        let rest = s@.skip(start);
        assert(rest =~= cur@);
        lemma_first_of(rest, sep, rest.len() as int);
    }
    let ghost before = views(out@);
    out.push(cur);
    assert(views(out@) =~= before + seq![s@.skip(start)]);
    out
}

/// Appends to `out` each of `lines[from..to]` followed by a line feed.
pub fn push_joined(out: &mut Vec<char>, lines: &Vec<Vec<char>>, from: usize, to: usize)
    requires
        from <= to <= lines.len(),
    ensures
        final(out)@ == old(out)@ + join_lines(views(lines@).subrange(from as int, to as int)),
{
    let mut i: usize = from;
    assert(views(lines@).subrange(from as int, from as int) =~= Seq::<Seq<char>>::empty());
    while i < to
        invariant
            from <= i <= to <= lines.len(),
            out@ == old(out)@ + join_lines(views(lines@).subrange(from as int, i as int)),
        decreases to - i,
    {
        let ghost before = out@;
        append_chars(out, &lines[i]);
        out.push('\n');
        proof {
            let next = views(lines@).subrange(from as int, i + 1);
            assert(next.drop_last() =~= views(lines@).subrange(from as int, i as int));
            assert(next.last() == lines@[i as int]@);
            assert(out@ =~= old(out)@ + join_lines(next));
        }
        i += 1;
    }
}

} // verus!

verus! {

/// Whether `needle` stands in `hay` at index `i`.
pub open spec fn matches_at(hay: Seq<char>, needle: Seq<char>, i: int) -> bool {
    0 <= i && i + needle.len() <= hay.len() && hay.subrange(i, i + needle.len()) == needle
}

/// Tells whether `needle` stands in `hay` at index `i`.
pub fn is_match_at(hay: &Vec<char>, needle: &Vec<char>, i: usize) -> (b: bool)
    ensures
        b == matches_at(hay@, needle@, i as int),
{
    if i > hay.len() || needle.len() > hay.len() - i {
        return false;
    }
    let mut k: usize = 0;
    while k < needle.len()
        invariant
            k <= needle.len(),
            i + needle.len() <= hay.len(),
            forall|j: int| 0 <= j < k ==> hay@[i + j] == needle@[j],
        decreases needle.len() - k,
    {
        if hay[i + k] != needle[k] {
            assert(hay@.subrange(i as int, i + needle.len())[k as int] != needle@[k as int]);
            return false;
        }
        k += 1;
    }
    assert(hay@.subrange(i as int, i + needle.len()) =~= needle@);
    true
}

/// The first place at or after `from` where `needle` stands in `hay`.
pub fn find(hay: &Vec<char>, needle: &Vec<char>, from: usize) -> (r: Option<usize>)
    ensures
        match r {
            Some(i) => from <= i && matches_at(hay@, needle@, i as int) && forall|j: int|
                from <= j < i ==> !matches_at(hay@, needle@, j),
            None => forall|j: int| from <= j ==> !matches_at(hay@, needle@, j),
        },
{
    let mut i: usize = from;
    while i <= hay.len()
        invariant
            from <= i,
            forall|j: int| from <= j < i ==> !matches_at(hay@, needle@, j),
        decreases hay.len() + 1 - i,
    {
        if is_match_at(hay, needle, i) {
            return Some(i);
        }
        if i == hay.len() {
            return None;
        }
        i += 1;
    }
    None
}

/// The last place where `needle` stands in the first `end` characters of
/// `hay`.
pub fn rfind(hay: &Vec<char>, needle: &Vec<char>, end: usize) -> (r: Option<usize>)
    ensures
        match r {
            Some(i) => i + needle@.len() <= end && matches_at(hay@, needle@, i as int)
                && forall|j: int|
                i < j && j + needle@.len() <= end ==> !matches_at(hay@, needle@, j),
            None => forall|j: int| j + needle@.len() <= end ==> !matches_at(hay@, needle@, j),
        },
{
    let limit = if end < hay.len() {
        end
    } else {
        hay.len()
    };
    if needle.len() > limit {
        return None;
    }
    let mut i: usize = limit - needle.len();
    loop
        invariant
            i + needle.len() <= limit,
            limit <= end,
            limit <= hay.len(),
            limit == end || limit == hay.len(),
            forall|j: int| i < j && j + needle@.len() <= end ==> !matches_at(hay@, needle@, j),
        decreases i,
    {
        if is_match_at(hay, needle, i) {
            return Some(i);
        }
        if i == 0 {
            return None;
        }
        i -= 1;
    }
}

/// Whether a character separates words: a space or a tab.
pub open spec fn is_word_break(c: char) -> bool {
    c == ' ' || c == '\t'
}

/// The first index from `from` on that holds a space or a tab, or the
/// length of `s` if none does.
pub open spec fn next_break(s: Seq<char>, from: int) -> int
    decreases s.len() - from,
{
    if from < 0 || from >= s.len() {
        s.len() as int
    } else if is_word_break(s[from]) {
        from
    } else {
        next_break(s, from + 1)
    }
}

/// The last index before `end` that holds a space or a tab, or -1 if none
/// does.
pub open spec fn prev_break(s: Seq<char>, end: int) -> int
    decreases end,
{
    if end <= 0 {
        -1
    } else if end <= s.len() && is_word_break(s[end - 1]) {
        end - 1
    } else {
        prev_break(s, end - 1)
    }
}

/// Behind the end of `s` there is nothing to find.
pub proof fn lemma_prev_break_clipped(s: Seq<char>, end: int)
    requires
        end >= s.len(),
    ensures
        prev_break(s, end) == prev_break(s, s.len() as int),
    decreases end,
{
    if end > s.len() {
        lemma_prev_break_clipped(s, end - 1);
    }
}

/// The first index at or after `from` that holds a space or a tab, or the
/// length of `hay` if none does.
pub fn find_break(hay: &Vec<char>, from: usize) -> (i: usize)
    ensures
        i == next_break(hay@, from as int),
        i <= hay@.len(),
{
    let mut i: usize = from;
    while i < hay.len()
        invariant
            from <= i,
            next_break(hay@, from as int) == next_break(hay@, i as int),
        decreases hay.len() - i,
    {
        if hay[i] == ' ' || hay[i] == '\t' {
            return i;
        }
        i += 1;
    }
    hay.len()
}

/// The last index before `end` that holds a space or a tab, if any does.
pub fn rfind_break(hay: &Vec<char>, end: usize) -> (r: Option<usize>)
    ensures
        match r {
            Some(i) => i == prev_break(hay@, end as int),
            None => prev_break(hay@, end as int) == -1,
        },
{
    let mut i: usize = if end < hay.len() {
        end
    } else {
        proof {
            lemma_prev_break_clipped(hay@, end as int);
        }
        hay.len()
    };
    while i > 0
        invariant
            i <= hay.len(),
            prev_break(hay@, end as int) == prev_break(hay@, i as int),
        decreases i,
    {
        if hay[i - 1] == ' ' || hay[i - 1] == '\t' {
            return Some(i - 1);
        }
        i -= 1;
    }
    None
}

} // verus!

verus! {

/// The number of decimal digits of `n`; 0 has none.
pub open spec fn digits_count(n: nat) -> nat
    decreases n,
{
    if n == 0 {
        0
    } else {
        1 + digits_count(n / 10)
    }
}

/// The character that writes a decimal digit.
pub open spec fn digit_char(d: nat) -> char {
    if d == 0 {
        '0'
    } else if d == 1 {
        '1'
    } else if d == 2 {
        '2'
    } else if d == 3 {
        '3'
    } else if d == 4 {
        '4'
    } else if d == 5 {
        '5'
    } else if d == 6 {
        '6'
    } else if d == 7 {
        '7'
    } else if d == 8 {
        '8'
    } else {
        '9'
    }
}

/// `n` written in decimal digits, without leading zeros; 0 is written `0`.
pub open spec fn decimal(n: nat) -> Seq<char>
    decreases n,
{
    if n < 10 {
        seq![digit_char(n)]
    } else {
        decimal(n / 10).push(digit_char(n % 10))
    }
}

/// A number has no more digits than it counts.
pub proof fn lemma_digits_count_bound(n: nat)
    ensures
        digits_count(n) <= n,
    decreases n,
{
    if n > 0 {
        lemma_digits_count_bound(n / 10);
    }
}

/// The number of decimal digits of `number`; 0 has none.
pub fn number_of_digits(number: usize) -> (digits: usize)
    ensures
        digits == digits_count(number as nat),
        digits <= number,
{
    let mut tmp = number;
    let mut digits: usize = 0;
    proof {
        lemma_digits_count_bound(number as nat);
    }
    while tmp > 0
        invariant
            digits + digits_count(tmp as nat) == digits_count(number as nat),
            digits_count(number as nat) <= number,
        decreases tmp,
    {
        tmp /= 10;
        digits += 1;
    }
    digits
}

} // verus!

verus! {

/// `n` spaces.
pub open spec fn spaces(n: nat) -> Seq<char> {
    Seq::new(n, |i: int| ' ')
}

/// Appends the characters of `s` to `out`.
pub fn push_str(out: &mut Vec<char>, s: &str)
    ensures
        final(out)@ == old(out)@ + s@,
{
    let chars = chars_of(s);
    append_chars(out, &chars);
}

/// Appends `n` spaces to `out`.
pub fn push_spaces(out: &mut Vec<char>, n: usize)
    ensures
        final(out)@ == old(out)@ + spaces(n as nat),
{
    let mut i: usize = 0;
    assert(out@ =~= old(out)@ + spaces(0));
    while i < n
        invariant
            i <= n,
            out@ == old(out)@ + spaces(i as nat),
        decreases n - i,
    {
        out.push(' ');
        i += 1;
        assert(out@ =~= old(out)@ + spaces(i as nat));
    }
}

/// The character that writes a decimal digit.
pub fn digit_char_of(d: usize) -> (c: char)
    requires
        d < 10,
    ensures
        c == digit_char(d as nat),
{
    if d == 0 {
        '0'
    } else if d == 1 {
        '1'
    } else if d == 2 {
        '2'
    } else if d == 3 {
        '3'
    } else if d == 4 {
        '4'
    } else if d == 5 {
        '5'
    } else if d == 6 {
        '6'
    } else if d == 7 {
        '7'
    } else if d == 8 {
        '8'
    } else {
        '9'
    }
}

/// Appends `n`, written in decimal digits, to `out`.
pub fn push_decimal(out: &mut Vec<char>, n: usize)
    ensures
        final(out)@ == old(out)@ + decimal(n as nat),
    decreases n,
{
    if n < 10 {
        out.push(digit_char_of(n));
        assert(out@ =~= old(out)@ + decimal(n as nat));
    } else {
        push_decimal(out, n / 10);
        out.push(digit_char_of(n % 10));
        assert(out@ =~= old(out)@ + decimal(n as nat));
    }
}

} // verus!
