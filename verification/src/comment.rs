//! Turns a comment as it stands in the source into the text that documents
//! a declaration.
//!
//! The markers of the comment and the decoration at the start of its lines
//! are taken off, lines that only direct a tool are left out, and what is
//! left is joined into one text.

use vstd::prelude::*;
use crate::text::char_is_blank;
use crate::text::is_blank;
use crate::text::push_char;
use crate::text::to_chars;

verus! {

/// The lines of `s`: the stretches between its line breaks.
pub open spec fn lines(s: Seq<char>) -> Seq<Seq<char>>
    decreases s.len(),
{
    if s.len() == 0 {
        seq![Seq::<char>::empty()]
    } else {
        let before = lines(s.drop_last());
        if s.last() == '\n' {
            before.push(Seq::<char>::empty())
        } else {
            before.drop_last().push(before.last().push(s.last()))
        }
    }
}

/// The first position at or after `i` where `s` holds no blank, or the
/// length of `s`.
pub open spec fn skip_blanks(s: Seq<char>, i: int) -> int
    decreases s.len() - i,
{
    if 0 <= i < s.len() && is_blank(s[i]) {
        skip_blanks(s, i + 1)
    } else {
        i
    }
}

/// Whether `s` holds `word` at position `at`.
pub open spec fn has_word(s: Seq<char>, at: int, word: Seq<char>) -> bool {
    0 <= at && at + word.len() <= s.len() && s.subrange(at, at + word.len()) == word
}

/// `s` from position `i` on; nothing where `i` is past its end.
pub open spec fn tail(s: Seq<char>, i: int) -> Seq<char> {
    if 0 <= i <= s.len() {
        s.skip(i)
    } else {
        Seq::empty()
    }
}

/// `s` without the end of a block comment, if it ends with one.
pub open spec fn drop_terminator(s: Seq<char>) -> Seq<char> {
    if has_word(s, s.len() - 2, "*/"@) {
        s.take(s.len() - 2)
    } else {
        s
    }
}

/// `s` without one leading space, if it has one.
pub open spec fn drop_space(s: Seq<char>) -> Seq<char> {
    if s.len() > 0 && s[0] == ' ' {
        s.skip(1)
    } else {
        s
    }
}

/// Whether a comment whose first line is `first` is a block comment.
pub open spec fn is_block(first: Seq<char>) -> bool {
    has_word(first, skip_blanks(first, 0), "/*"@)
}

/// What one line of a line comment says: the line without leading blanks,
/// without its marker, and without one space after the marker.
pub open spec fn strip_line_comment(line: Seq<char>) -> Seq<char> {
    let a = skip_blanks(line, 0);
    if has_word(line, a, "///"@) || has_word(line, a, "//!"@) {
        drop_space(tail(line, a + 3))
    } else if has_word(line, a, "//"@) {
        drop_space(tail(line, a + 2))
    } else {
        drop_space(tail(line, a))
    }
}

/// What the first line of a block comment says: the line without leading
/// blanks, without the end of the comment, without its marker, and without
/// one space after the marker.
pub open spec fn strip_block_start(line: Seq<char>) -> Seq<char> {
    let t = drop_terminator(tail(line, skip_blanks(line, 0)));
    if has_word(t, 0, "/**"@) || has_word(t, 0, "/*!"@) {
        drop_space(tail(t, 3))
    } else if has_word(t, 0, "/*"@) {
        drop_space(tail(t, 2))
    } else {
        drop_space(t)
    }
}

/// What a later line of a block comment says: the line without leading
/// blanks, without the end of the comment, and without the star that
/// decorates it.
pub open spec fn strip_block_line(line: Seq<char>) -> Seq<char> {
    let t = drop_terminator(tail(line, skip_blanks(line, 0)));
    if has_word(t, 0, "*"@) {
        tail(t, 1)
    } else {
        t
    }
}

/// What the line at position `index` of a comment says.
pub open spec fn strip_line(line: Seq<char>, block: bool, index: int) -> Seq<char> {
    if !block {
        strip_line_comment(line)
    } else if index == 0 {
        strip_block_start(line)
    } else {
        strip_block_line(line)
    }
}

/// The first position at or after `i` where `s` holds a closing
/// parenthesis, or the length of `s`.
pub open spec fn first_close(s: Seq<char>, i: int) -> int
    decreases s.len() - i,
{
    if 0 <= i < s.len() && s[i] != ')' {
        first_close(s, i + 1)
    } else {
        i
    }
}

/// Whether what follows a directive's keyword, from position `i` on, still
/// belongs to the directive: nothing but blanks, or a list in parentheses
/// that runs to the end of the line or is closed and followed by nothing but
/// blanks.
pub open spec fn directive_tail(s: Seq<char>, i: int) -> bool {
    let d = skip_blanks(s, i);
    d >= s.len() || (s[d] == '(' && {
        let q = first_close(s, d + 1);
        q >= s.len() || skip_blanks(s, q + 1) >= s.len()
    })
}

/// Whether what a line says is only a directive to a tool: after an optional
/// further comment marker, the keyword `NOLINT` or `NOLINTNEXTLINE`, and
/// then at most a list in parentheses.
pub open spec fn is_directive(line: Seq<char>) -> bool {
    let a = skip_blanks(line, 0);
    let b = if has_word(line, a, "//"@) {
        skip_blanks(line, a + 2)
    } else {
        a
    };
    if has_word(line, b, "NOLINTNEXTLINE"@) {
        directive_tail(line, b + "NOLINTNEXTLINE"@.len())
    } else if has_word(line, b, "NOLINT"@) {
        directive_tail(line, b + "NOLINT"@.len())
    } else {
        false
    }
}

/// What the first `k` lines of a comment say, without the directives.
pub open spec fn kept_lines(raw: Seq<Seq<char>>, block: bool, k: int) -> Seq<Seq<char>>
    decreases k,
{
    if k <= 0 || k > raw.len() {
        Seq::empty()
    } else {
        let before = kept_lines(raw, block, k - 1);
        let line = strip_line(raw[k - 1], block, k - 1);
        if is_directive(line) {
            before
        } else {
            before.push(line)
        }
    }
}

/// The first position at or after `i` where `ls` holds a line that is not
/// empty, or the length of `ls`.
pub open spec fn skip_empty(ls: Seq<Seq<char>>, i: int) -> int
    decreases ls.len() - i,
{
    if 0 <= i < ls.len() && ls[i].len() == 0 {
        skip_empty(ls, i + 1)
    } else {
        i
    }
}

/// The position after the last line before `j` that is not empty, or zero.
pub open spec fn skip_empty_back(ls: Seq<Seq<char>>, j: int) -> int
    decreases j,
{
    if 0 < j <= ls.len() && ls[j - 1].len() == 0 {
        skip_empty_back(ls, j - 1)
    } else {
        j
    }
}

/// The lines `ls[from..to]`, joined by line breaks.
pub open spec fn join(ls: Seq<Seq<char>>, from: int, to: int) -> Seq<char>
    decreases to - from,
{
    if to <= from || from < 0 || to > ls.len() {
        Seq::empty()
    } else if to == from + 1 {
        ls[from]
    } else {
        join(ls, from, to - 1) + seq!['\n'] + ls[to - 1]
    }
}

/// The text that the comment `raw` documents a declaration with: what its
/// lines say, without the directives and without empty lines at either end,
/// joined by line breaks. A comment of which nothing is left documents
/// nothing.
pub open spec fn doc_text(raw: Seq<char>) -> Option<Seq<char>> {
    let ls = lines(raw);
    let kept = kept_lines(ls, is_block(ls[0]), ls.len() as int);
    let from = skip_empty(kept, 0);
    let to = skip_empty_back(kept, kept.len() as int);
    if from >= to {
        None
    } else {
        Some(join(kept, from, to))
    }
}

/// The text that a declaration with the comment `raw`, if it has one, is
/// documented with.
pub open spec fn doc_text_of(raw: Option<String>) -> Option<Seq<char>> {
    match raw {
        Some(r) => doc_text(r@),
        None => None,
    }
}

/// The lines of text as ghost values.
pub open spec fn line_views(ls: Seq<Vec<char>>) -> Seq<Seq<char>> {
    ls.map_values(|l: Vec<char>| l@)
}

fn split_lines(chars: &Vec<char>) -> (ls: Vec<Vec<char>>)
    ensures
        line_views(ls@) == lines(chars@),
{
    let mut ls: Vec<Vec<char>> = Vec::new();
    let mut current: Vec<char> = Vec::new();
    let mut i: usize = 0;
    assert(chars@.take(0) =~= Seq::<char>::empty());
    assert(line_views(ls@).push(current@) =~= lines(chars@.take(0)));
    while i < chars.len()
        invariant
            0 <= i <= chars.len(),
            line_views(ls@).push(current@) == lines(chars@.take(i as int)),
        decreases chars.len() - i,
    {
        let c = chars[i];
        let ghost before = line_views(ls@).push(current@);
        proof {
            let p = chars@.take(i + 1);
            assert(p.drop_last() =~= chars@.take(i as int));
            assert(p.last() == c);
            assert(before.last() == current@);
            assert(before.drop_last() =~= line_views(ls@));
        }
        if c == '\n' {
            ls.push(current);
            current = Vec::new();
            assert(line_views(ls@).push(current@) =~= before.push(Seq::<char>::empty()));
        } else {
            current.push(c);
            assert(line_views(ls@).push(current@) =~= before.drop_last().push(
                before.last().push(c),
            ));
        }
        i += 1;
    }
    assert(chars@.take(i as int) =~= chars@);
    ls.push(current);
    assert(line_views(ls@) =~= lines(chars@));
    ls
}

fn skip_blanks_from(s: &Vec<char>, i: usize) -> (r: usize)
    requires
        i <= s.len(),
    ensures
        r == skip_blanks(s@, i as int),
        i <= r <= s.len(),
{
    let mut r: usize = i;
    while r < s.len() && char_is_blank(s[r])
        invariant
            i <= r <= s.len(),
            skip_blanks(s@, r as int) == skip_blanks(s@, i as int),
        decreases s.len() - r,
    {
        r += 1;
    }
    r
}

fn word_at(s: &Vec<char>, at: usize, word: &str) -> (r: bool)
    ensures
        r == has_word(s@, at as int, word@),
{
    let w = to_chars(word);
    if at > s.len() || w.len() > s.len() - at {
        return false;
    }
    let mut k: usize = 0;
    while k < w.len()
        invariant
            0 <= k <= w.len(),
            at + w.len() <= s.len(),
            w@ == word@,
            forall|j: int| 0 <= j < k ==> s@[at + j] == w@[j],
        decreases w.len() - k,
    {
        if s[at + k] != w[k] {
            assert(s@.subrange(at as int, at + w.len())[k as int] != w@[k as int]);
            assert(s@.subrange(at as int, at + w.len()) != w@);
            return false;
        }
        k += 1;
    }
    assert(s@.subrange(at as int, at + w.len()) =~= w@);
    true
}

/// The characters `s[from..to]`.
fn slice(s: &Vec<char>, from: usize, to: usize) -> (r: Vec<char>)
    requires
        from <= to <= s.len(),
    ensures
        r@ == s@.subrange(from as int, to as int),
{
    let mut r: Vec<char> = Vec::new();
    let mut i: usize = from;
    while i < to
        invariant
            from <= i <= to <= s.len(),
            r@ == s@.subrange(from as int, i as int),
        decreases to - i,
    {
        r.push(s[i]);
        i += 1;
        assert(s@.subrange(from as int, i as int) =~= s@.subrange(from as int, i - 1).push(
            s@[i - 1],
        ));
    }
    r
}

/// The part `line[from..to]` without one leading space.
fn slice_after_space(line: &Vec<char>, from: usize, to: usize) -> (r: Vec<char>)
    requires
        from <= to <= line.len(),
    ensures
        r@ == drop_space(line@.subrange(from as int, to as int)),
{
    if from < to && line[from] == ' ' {
        assert(line@.subrange(from as int, to as int).skip(1) =~= line@.subrange(
            from + 1,
            to as int,
        ));
        slice(line, from + 1, to)
    } else {
        slice(line, from, to)
    }
}

fn strip_one(line: &Vec<char>, block: bool, index: usize) -> (r: Vec<char>)
    ensures
        r@ == strip_line(line@, block, index as int),
{
    let n = line.len();
    let a = skip_blanks_from(line, 0);
    assert(line@.subrange(0, n as int) =~= line@);
    proof {
        reveal_strlit("///");
        reveal_strlit("//!");
        reveal_strlit("//");
        reveal_strlit("/**");
        reveal_strlit("/*!");
        reveal_strlit("/*");
        reveal_strlit("*/");
        reveal_strlit("*");
    }
    if !block {
        let from = if word_at(line, a, "///") || word_at(line, a, "//!") {
            a + 3
        } else if word_at(line, a, "//") {
            a + 2
        } else {
            a
        };
        assert(tail(line@, from as int) =~= line@.subrange(from as int, n as int));
        slice_after_space(line, from, n)
    } else {
        let ghost t0 = tail(line@, a as int);
        assert(t0 =~= line@.subrange(a as int, n as int));
        // Where the line ends once the end of the comment is taken off.
        let to = if n - a >= 2 && word_at(line, n - 2, "*/") {
            n - 2
        } else {
            n
        };
        let ghost t = drop_terminator(t0);
        proof {
            if n - a >= 2 {
                assert(t0.subrange(t0.len() - 2, t0.len() as int) =~= line@.subrange(
                    n - 2,
                    n as int,
                ));
                assert("*/"@.len() == 2) by {
                    reveal_strlit("*/");
                }
            } else {
                assert("*/"@.len() == 2) by {
                    reveal_strlit("*/");
                }
            }
            assert(t =~= line@.subrange(a as int, to as int));
        }
        let t_vec = slice(line, a, to);
        let m = t_vec.len();
        assert(t_vec@.subrange(0, m as int) =~= t_vec@);
        if index == 0 {
            let from = if word_at(&t_vec, 0, "/**") || word_at(&t_vec, 0, "/*!") {
                3
            } else if word_at(&t_vec, 0, "/*") {
                2
            } else {
                0
            };
            assert(tail(t_vec@, from as int) =~= t_vec@.subrange(from as int, m as int));
            slice_after_space(&t_vec, from, m)
        } else {
            if word_at(&t_vec, 0, "*") {
                assert("*"@.len() == 1) by {
                    reveal_strlit("*");
                }
                assert(tail(t_vec@, 1) =~= t_vec@.subrange(1, m as int));
                slice(&t_vec, 1, m)
            } else {
                t_vec
            }
        }
    }
}

fn first_close_from(s: &Vec<char>, i: usize) -> (r: usize)
    requires
        i <= s.len(),
    ensures
        r == first_close(s@, i as int),
        i <= r <= s.len(),
{
    let mut r: usize = i;
    while r < s.len() && s[r] != ')'
        invariant
            i <= r <= s.len(),
            first_close(s@, r as int) == first_close(s@, i as int),
        decreases s.len() - r,
    {
        r += 1;
    }
    r
}

fn directive_tail_at(s: &Vec<char>, i: usize) -> (r: bool)
    requires
        i <= s.len(),
    ensures
        r == directive_tail(s@, i as int),
{
    let d = skip_blanks_from(s, i);
    if d >= s.len() {
        return true;
    }
    if s[d] != '(' {
        return false;
    }
    let q = first_close_from(s, d + 1);
    if q >= s.len() {
        return true;
    }
    skip_blanks_from(s, q + 1) >= s.len()
}

/// Whether what a line says is only a directive to a tool.
fn is_directive_line(line: &Vec<char>) -> (r: bool)
    ensures
        r == is_directive(line@),
{
    let a = skip_blanks_from(line, 0);
    let b = if word_at(line, a, "//") {
        proof {
            reveal_strlit("//");
        }
        skip_blanks_from(line, a + 2)
    } else {
        a
    };
    if word_at(line, b, "NOLINTNEXTLINE") {
        proof {
            reveal_strlit("NOLINTNEXTLINE");
        }
        directive_tail_at(line, b + 14)
    } else if word_at(line, b, "NOLINT") {
        proof {
            reveal_strlit("NOLINT");
        }
        directive_tail_at(line, b + 6)
    } else {
        false
    }
}

fn skip_empty_from(ls: &Vec<Vec<char>>, i: usize) -> (r: usize)
    requires
        i <= ls.len(),
    ensures
        r == skip_empty(line_views(ls@), i as int),
        i <= r <= ls.len(),
{
    let mut r: usize = i;
    while r < ls.len() && ls[r].len() == 0
        invariant
            i <= r <= ls.len(),
            skip_empty(line_views(ls@), r as int) == skip_empty(line_views(ls@), i as int),
        decreases ls.len() - r,
    {
        r += 1;
    }
    r
}

fn skip_empty_back_from(ls: &Vec<Vec<char>>, j: usize) -> (r: usize)
    requires
        j <= ls.len(),
    ensures
        r == skip_empty_back(line_views(ls@), j as int),
        r <= j,
{
    let mut r: usize = j;
    while r > 0 && ls[r - 1].len() == 0
        invariant
            0 <= r <= j <= ls.len(),
            skip_empty_back(line_views(ls@), r as int) == skip_empty_back(
                line_views(ls@),
                j as int,
            ),
        decreases r,
    {
        r -= 1;
    }
    r
}

/// The text that the comment `raw` documents a declaration with, if
/// anything is left of it.
pub fn normalize(raw: &str) -> (r: Option<String>)
    ensures
        match r {
            Some(t) => doc_text(raw@) == Some(t@),
            None => doc_text(raw@) is None,
        },
{
    let chars = to_chars(raw);
    let ls = split_lines(&chars);
    proof {
        lemma_lines_nonempty(chars@);
    }
    let first = &ls[0];
    let block = word_at(first, skip_blanks_from(first, 0), "/*");
    let mut kept: Vec<Vec<char>> = Vec::new();
    let mut k: usize = 0;
    while k < ls.len()
        invariant
            0 <= k <= ls.len(),
            line_views(kept@) == kept_lines(line_views(ls@), block, k as int),
        decreases ls.len() - k,
    {
        let line = strip_one(&ls[k], block, k);
        let ghost before = line_views(kept@);
        if !is_directive_line(&line) {
            kept.push(line);
            assert(line_views(kept@) =~= before.push(line@));
        }
        k += 1;
    }
    let from = skip_empty_from(&kept, 0);
    let to = skip_empty_back_from(&kept, kept.len());
    if from >= to {
        return None;
    }
    let mut text = String::new();
    let mut j: usize = from;
    while j < to
        invariant
            from <= j <= to <= kept.len(),
            text@ == join(line_views(kept@), from as int, j as int),
        decreases to - j,
    {
        if j > from {
            push_char(&mut text, '\n');
        }
        let line = &kept[j];
        let ghost start = text@;
        let mut i: usize = 0;
        while i < line.len()
            invariant
                0 <= i <= line.len(),
                text@ == start + line@.take(i as int),
            decreases line.len() - i,
        {
            push_char(&mut text, line[i]);
            assert(line@.take(i + 1) =~= line@.take(i as int).push(line@[i as int]));
            i += 1;
        }
        assert(line@.take(line.len() as int) =~= line@);
        assert(line_views(kept@)[j as int] == line@);
        j += 1;
    }
    Some(text)
}

/// A text has at least one line.
pub proof fn lemma_lines_nonempty(s: Seq<char>)
    ensures
        lines(s).len() > 0,
    decreases s.len(),
{
    if s.len() > 0 {
        lemma_lines_nonempty(s.drop_last());
    }
}

/// The text that a declaration with the comment `raw`, if it has one, is
/// documented with.
pub fn normalize_opt(raw: &Option<String>) -> (r: Option<String>)
    ensures
        crate::text::opt_view(r) == doc_text_of(*raw),
{
    match raw {
        Some(t) => normalize(t.as_str()),
        None => None,
    }
}

} // verus!
