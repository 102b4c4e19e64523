//! Sequences of characters: joining parts, laying out lines, counting line feeds.

use vstd::prelude::*;

verus! {

/// The parts one after the other, with `separator` between neighbours.
pub open spec fn joined(parts: Seq<Seq<char>>, separator: Seq<char>) -> Seq<char>
    decreases parts.len(),
{
    if parts.len() == 0 {
        Seq::empty()
    } else if parts.len() == 1 {
        parts[0]
    } else {
        joined(parts.drop_last(), separator) + separator + parts.last()
    }
}

/// Joins `parts` with `separator` between neighbours.
pub fn join(parts: &Vec<String>, separator: &str) -> (text: String)
    ensures
        text@ == joined(parts.deep_view(), separator@),
{
    let mut text = String::new();
    let mut i: usize = 0;
    while i < parts.len()
        invariant
            i <= parts.len(),
            text@ == joined(parts.deep_view().take(i as int), separator@),
        decreases parts.len() - i,
    {
        proof {
            let before = parts.deep_view().take(i as int);
            let after = parts.deep_view().take(i + 1);
            assert(after.drop_last() == before);
            assert(after.last() == parts@[i as int]@);
            if i == 0 {
                assert(text@ + parts@[i as int]@ == after[0]);
            }
        }
        if i > 0 {
            text.append(separator);
        }
        text.append(parts[i].as_str());
        i += 1;
    }
    proof {
        assert(parts.deep_view().take(parts.len() as int) == parts.deep_view());
    }
    text
}

/// The lines one after the other, each followed by a line feed.
pub open spec fn laid_out(lines: Seq<Seq<char>>) -> Seq<char>
    decreases lines.len(),
{
    if lines.len() == 0 {
        Seq::empty()
    } else {
        laid_out(lines.drop_last()) + lines.last() + "\n"@
    }
}

/// Laying out one more line appends it, with its line feed.
pub proof fn lemma_laid_out_push(lines: Seq<Seq<char>>, line: Seq<char>)
    ensures
        laid_out(lines.push(line)) == laid_out(lines) + line + "\n"@,
{
    assert(lines.push(line).drop_last() == lines);
}

/// Laying out two lists of lines in a row lays out the one after the other.
pub proof fn lemma_laid_out_concat(first: Seq<Seq<char>>, second: Seq<Seq<char>>)
    ensures
        laid_out(first + second) == laid_out(first) + laid_out(second),
    decreases second.len(),
{
    if second.len() == 0 {
        assert(first + second == first);
    } else {
        lemma_laid_out_concat(first, second.drop_last());
        assert((first + second).drop_last() == first + second.drop_last());
    }
}

/// Only an empty list of lines is laid out as an empty text.
pub proof fn lemma_laid_out_empty(lines: Seq<Seq<char>>)
    ensures
        laid_out(lines).len() == 0 <==> lines.len() == 0,
{
    reveal_strlit("\n");
}

/// Number of line feeds in a text.
pub open spec fn line_feeds(text: Seq<char>) -> nat
    decreases text.len(),
{
    if text.len() == 0 {
        0
    } else {
        let last: nat = if text.last() == '\n' {
            1
        } else {
            0
        };
        line_feeds(text.drop_last()) + last
    }
}

/// A text that holds no line feed.
pub open spec fn on_one_line(text: Seq<char>) -> bool {
    forall|i: int| 0 <= i < text.len() ==> text[i] != '\n'
}

/// The line feeds of two texts in a row are those of the one and those of
/// the other.
pub proof fn lemma_line_feeds_concat(first: Seq<char>, second: Seq<char>)
    ensures
        line_feeds(first + second) == line_feeds(first) + line_feeds(second),
    decreases second.len(),
{
    if second.len() == 0 {
        assert(first + second == first);
    } else {
        lemma_line_feeds_concat(first, second.drop_last());
        assert((first + second).drop_last() == first + second.drop_last());
    }
}

/// A text on one line has no line feed to count.
pub proof fn lemma_one_line_has_no_line_feed(text: Seq<char>)
    requires
        on_one_line(text),
    ensures
        line_feeds(text) == 0,
    decreases text.len(),
{
    if text.len() > 0 {
        lemma_one_line_has_no_line_feed(text.drop_last());
    }
}

/// Parts that are each on one line, joined by a separator that is, are on
/// one line.
pub proof fn lemma_joined_on_one_line(parts: Seq<Seq<char>>, separator: Seq<char>)
    requires
        forall|i: int| 0 <= i < parts.len() ==> on_one_line(#[trigger] parts[i]),
        on_one_line(separator),
    ensures
        on_one_line(joined(parts, separator)),
    decreases parts.len(),
{
    if parts.len() > 1 {
        lemma_joined_on_one_line(parts.drop_last(), separator);
    }
}

/// Lines that hold no line feed of their own are laid out with one line
/// feed each.
pub proof fn lemma_laid_out_line_feeds(lines: Seq<Seq<char>>)
    requires
        forall|i: int| 0 <= i < lines.len() ==> on_one_line(#[trigger] lines[i]),
    ensures
        line_feeds(laid_out(lines)) == lines.len(),
    decreases lines.len(),
{
    if lines.len() > 0 {
        let earlier = laid_out(lines.drop_last());
        lemma_laid_out_line_feeds(lines.drop_last());
        lemma_one_line_has_no_line_feed(lines.last());
        lemma_line_feeds_concat(earlier, lines.last());
        lemma_line_feeds_concat(earlier + lines.last(), "\n"@);
        assert(line_feeds("\n"@) == 1) by {
            reveal_strlit("\n");
            assert(line_feeds("\n"@.drop_last()) == 0);
        }
    }
}

} // verus!
