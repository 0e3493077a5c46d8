//! Plain text as the task list sees it: lines between newlines.
use vstd::prelude::*;
use vstd::string::*;

verus! {

/// A piece of text that holds no newline.
pub open spec fn is_line(text: Seq<char>) -> bool {
    forall|i: int| 0 <= i < text.len() ==> text[i] != '\n'
}

/// Every element is a line.
pub open spec fn are_lines(lines: Seq<Seq<char>>) -> bool {
    forall|i: int| 0 <= i < lines.len() ==> is_line(#[trigger] lines[i])
}

/// The pieces of `text` between its newlines, in order.
///
/// There is always at least one piece: the empty text has one empty line, and
/// a text that ends in a newline has an empty last line.
pub open spec fn split_lines(text: Seq<char>) -> Seq<Seq<char>>
    decreases text.len(),
{
    if text.len() == 0 {
        seq![Seq::empty()]
    } else {
        let before = split_lines(text.drop_last());
        if text.last() == '\n' {
            before.push(Seq::empty())
        } else {
            before.drop_last().push(before.last().push(text.last()))
        }
    }
}

/// The lines with one newline between each two neighbours.
pub open spec fn join_lines(lines: Seq<Seq<char>>) -> Seq<char>
    decreases lines.len(),
{
    if lines.len() == 0 {
        Seq::empty()
    } else if lines.len() == 1 {
        lines[0]
    } else {
        join_lines(lines.drop_last()) + seq!['\n'] + lines.last()
    }
}

/// Splitting yields at least one piece, and no piece holds a newline.
pub proof fn lemma_split_lines_are_lines(text: Seq<char>)
    ensures
        split_lines(text).len() >= 1,
        are_lines(split_lines(text)),
    decreases text.len(),
{
    if text.len() > 0 {
        lemma_split_lines_are_lines(text.drop_last());
    }
}

/// Joining the pieces of a text gives the text back.
pub proof fn lemma_join_of_split(text: Seq<char>)
    ensures
        join_lines(split_lines(text)) == text,
    decreases text.len(),
{
    if text.len() > 0 {
        let shorter = text.drop_last();
        let before = split_lines(shorter);
        lemma_split_lines_are_lines(shorter);
        lemma_join_of_split(shorter);
        if text.last() == '\n' {
            assert(before.push(Seq::empty()).drop_last() == before);
        } else {
            let grown = before.last().push(text.last());
            assert(before.drop_last().push(grown).drop_last() == before.drop_last());
            if before.len() > 1 {
                let head = join_lines(before.drop_last()) + seq!['\n'];
                assert(head + grown == (head + before.last()).push(text.last()));
            }
        }
    }
}

/// Text without a newline, put behind a text, lengthens its last line.
pub proof fn lemma_split_with_line_behind(text: Seq<char>, tail: Seq<char>)
    requires
        is_line(tail),
    ensures
        split_lines(text + tail) == split_lines(text).drop_last().push(
            split_lines(text).last() + tail,
        ),
    decreases tail.len(),
{
    lemma_split_lines_are_lines(text);
    if tail.len() > 0 {
        let shorter = tail.drop_last();
        lemma_split_with_line_behind(text, shorter);
        assert((text + tail).drop_last() == text + shorter);
        assert(split_lines(text + shorter).last().push(tail.last()) == split_lines(text).last()
            + tail);
    }
}

/// A newline behind a text opens a new, empty line.
pub proof fn lemma_split_with_newline_behind(text: Seq<char>)
    ensures
        split_lines(text + seq!['\n']) == split_lines(text).push(Seq::empty()),
{
    assert((text + seq!['\n']).drop_last() == text);
}

/// The first line of a text is what stands before its first newline, and the
/// other lines are those of what follows that newline.
pub proof fn lemma_split_behind_first_line(first: Seq<char>, rest: Seq<char>)
    requires
        is_line(first),
    ensures
        split_lines(first + seq!['\n'] + rest) == seq![first] + split_lines(rest),
    decreases rest.len(),
{
    let head = first + seq!['\n'];
    if rest.len() == 0 {
        lemma_split_with_newline_behind(first);
        lemma_split_with_line_behind(Seq::empty(), first);
    } else {
        let shorter = rest.drop_last();
        lemma_split_behind_first_line(first, shorter);
        lemma_split_lines_are_lines(shorter);
        assert((head + rest).drop_last() == head + shorter);
    }
}

/// Splitting what was joined gives the lines back, where there is at least one
/// line and none of them holds a newline.
pub proof fn lemma_split_of_join(lines: Seq<Seq<char>>)
    requires
        lines.len() >= 1,
        are_lines(lines),
    ensures
        split_lines(join_lines(lines)) == lines,
    decreases lines.len(),
{
    if lines.len() == 1 {
        lemma_split_with_line_behind(Seq::empty(), lines[0]);
    } else {
        let front = lines.drop_last();
        let head = join_lines(front);
        lemma_split_of_join(front);
        lemma_split_with_newline_behind(head);
        lemma_split_with_line_behind(head + seq!['\n'], lines.last());
    }
}

/// The lines of `text`, each as a string of its own.
pub fn split(text: &str) -> (lines: Vec<String>)
    ensures
        lines.deep_view() == split_lines(text@),
{
    let length = text.unicode_len();
    let mut lines: Vec<String> = Vec::new();
    let mut start: usize = 0;
    let mut at: usize = 0;
    assert(text@.take(0) == Seq::<char>::empty());
    for c in chars: text.chars()
        invariant
            chars.seq() == text@,
            length == text@.len(),
            at == chars.index(),
            start <= at <= length,
            split_lines(text@.take(at as int)) == lines.deep_view().push(
                text@.subrange(start as int, at as int),
            ),
    {
        let ghost current = text@.subrange(start as int, at as int);
        assert(text@.take(at + 1).drop_last() == text@.take(at as int));
        if c == '\n' {
            lines.push(String::from_str(text.substring_char(start, at)));
            start = at + 1;
            assert(text@.subrange(start as int, at + 1) == Seq::<char>::empty());
        } else {
            assert(text@.subrange(start as int, at + 1) == current.push(c));
        }
        at = at + 1;
    }
    assert(text@.take(length as int) == text@);
    lines.push(String::from_str(text.substring_char(start, length)));
    lines
}

/// The lines in one text, with a newline between each two neighbours.
pub fn join(lines: &Vec<String>) -> (text: String)
    ensures
        text@ == join_lines(lines.deep_view()),
{
    let mut text = String::new();
    let mut at: usize = 0;
    while at < lines.len()
        invariant
            at <= lines.len(),
            text@ == join_lines(lines.deep_view().take(at as int)),
        decreases lines.len() - at,
    {
        assert(lines.deep_view().take(at + 1).drop_last() == lines.deep_view().take(at as int));
        if at > 0 {
            text.append("\n");
            proof {
                reveal_strlit("\n");
            }
        }
        text.append(lines[at].as_str());
        at = at + 1;
    }
    assert(lines.deep_view().take(lines.len() as int) == lines.deep_view());
    text
}

/// Whether the two texts hold the same characters.
pub fn same(left: &str, right: &str) -> (equal: bool)
    ensures
        equal == (left@ == right@),
{
    String::from_str(left) == String::from_str(right)
}

/// Whether the text holds a space.
pub fn has_space(text: &str) -> (found: bool)
    ensures
        found == text@.contains(' '),
{
    for c in chars: text.chars()
        invariant
            chars.seq() == text@,
            forall|i: int| 0 <= i < chars.index() ==> text@[i] != ' ',
    {
        if c == ' ' {
            return true;
        }
    }
    false
}

} // verus!
