//! The fitting of a message into the lines of a popup.

use vstd::prelude::*;
use vstd::utf8::encode_utf8;
use crate::text::{
    char_is_whitespace, find_char, first_index_of, is_whitespace, lines_view, split_on, to_chars,
};

verus! {

/// The words of a text that are complete, and the word that its end is in
/// the middle of. Words are the runs of characters between white space.
pub open spec fn scan_words(s: Seq<char>) -> (Seq<Seq<char>>, Seq<char>)
    decreases s.len(),
{
    if s.len() == 0 {
        (Seq::empty(), Seq::empty())
    } else {
        let before = scan_words(s.drop_last());
        let c = s.last();
        if is_whitespace(c) {
            if before.1.len() > 0 {
                (before.0.push(before.1), Seq::empty())
            } else {
                before
            }
        } else {
            (before.0, before.1.push(c))
        }
    }
}

/// The words of a text.
pub open spec fn words(s: Seq<char>) -> Seq<Seq<char>> {
    let scan = scan_words(s);
    if scan.1.len() > 0 {
        scan.0.push(scan.1)
    } else {
        scan.0
    }
}

/// How many bytes a text takes.
pub open spec fn byte_len(s: Seq<char>) -> nat {
    encode_utf8(s).len()
}

/// One step of the filling of lines: the word goes behind the line in
/// progress, after a space, where the line then takes no more than
/// `max_width` bytes. Otherwise the line in progress is complete, if it
/// holds anything, and the word starts the next line.
pub open spec fn fill_step(current: Seq<char>, word: Seq<char>, max_width: usize) -> (
    Option<Seq<char>>,
    Seq<char>,
) {
    let candidate = if current.len() == 0 {
        word
    } else {
        current + " "@ + word
    };
    if byte_len(candidate) <= max_width {
        (None, candidate)
    } else if current.len() > 0 {
        (Some(current), word)
    } else {
        (None, word)
    }
}

/// The lines that a list of words fills, and the line in progress.
pub open spec fn fill_lines(words: Seq<Seq<char>>, max_width: usize) -> (
    Seq<Seq<char>>,
    Seq<char>,
)
    decreases words.len(),
{
    if words.len() == 0 {
        (Seq::empty(), Seq::empty())
    } else {
        let before = fill_lines(words.drop_last(), max_width);
        let step = fill_step(before.1, words.last(), max_width);
        match step.0 {
            Some(line) => (before.0.push(line), step.1),
            None => (before.0, step.1),
        }
    }
}

/// The lines of one paragraph. An empty paragraph is one empty line. Any
/// other paragraph is filled word by word; a word that is longer than a
/// line stands on a line of its own.
pub open spec fn wrapped_paragraph(paragraph: Seq<char>, max_width: usize) -> Seq<Seq<char>> {
    if paragraph.len() == 0 {
        seq![Seq::empty()]
    } else {
        let filled = fill_lines(words(paragraph), max_width);
        if filled.1.len() > 0 {
            filled.0.push(filled.1)
        } else {
            filled.0
        }
    }
}

/// The lines of a list of paragraphs.
pub open spec fn wrapped_paragraphs(paragraphs: Seq<Seq<char>>, max_width: usize) -> Seq<Seq<char>>
    decreases paragraphs.len(),
{
    if paragraphs.len() == 0 {
        Seq::empty()
    } else {
        wrapped_paragraphs(paragraphs.drop_last(), max_width) + wrapped_paragraph(
            paragraphs.last(),
            max_width,
        )
    }
}

/// The lines of a message: its paragraphs are the pieces between line
/// feeds.
pub open spec fn wrapped_error_text(text: Seq<char>, max_width: usize) -> Seq<Seq<char>> {
    wrapped_paragraphs(split_on(text, '\n'), max_width)
}

/// Puts a word behind the line in progress, or starts the next line with
/// it.
fn place_word(lines: &mut Vec<String>, current: &mut String, word: String, max_width: usize)
    ensures
        ({
            let step = fill_step(old(current)@, word@, max_width);
            &&& final(current)@ == step.1
            &&& lines_view(final(lines)@) == match step.0 {
                Some(line) => lines_view(old(lines)@).push(line),
                None => lines_view(old(lines)@),
            }
        }),
{
    let ghost before = lines_view(lines@);
    let mut candidate = String::new();
    if !current.as_str().is_empty() {
        candidate.append(current.as_str());
        candidate.append(" ");
    }
    candidate.append(word.as_str());
    proof {
        if old(current)@.len() == 0 {
            assert(candidate@ =~= word@);
        } else {
            assert(candidate@ =~= old(current)@ + " "@ + word@);
        }
    }
    if candidate.as_str().as_bytes().len() <= max_width {
        *current = candidate;
    } else {
        if !current.as_str().is_empty() {
            let line = current.clone();
            lines.push(line);
            assert(lines_view(lines@) =~= before.push(old(current)@));
        }
        *current = word;
    }
}

/// Appends the lines of the paragraph that stands in `v[lo..hi]`.
fn wrap_paragraph(v: &Vec<char>, lo: usize, hi: usize, max_width: usize, lines: &mut Vec<String>)
    requires
        lo <= hi <= v.len(),
    ensures
        lines_view(final(lines)@) == lines_view(old(lines)@) + wrapped_paragraph(
            v@.subrange(lo as int, hi as int),
            max_width,
        ),
{
    let ghost paragraph = v@.subrange(lo as int, hi as int);
    let ghost before = lines_view(lines@);
    if lo == hi {
        lines.push(String::new());
        assert(lines_view(lines@) =~= before + seq![Seq::<char>::empty()]);
        return ;
    }
    let mut current = String::new();
    let mut word = String::new();
    let ghost mut done: Seq<Seq<char>> = Seq::empty();
    let mut i: usize = lo;
    assert(paragraph.take(0) =~= Seq::<char>::empty());
    assert(lines_view(lines@) =~= before + Seq::<Seq<char>>::empty());
    while i < hi
        invariant
            lo <= i <= hi <= v.len(),
            paragraph == v@.subrange(lo as int, hi as int),
            scan_words(paragraph.take(i - lo)) == (done, word@),
            lines_view(lines@) == before + fill_lines(done, max_width).0,
            current@ == fill_lines(done, max_width).1,
        decreases hi - i,
    {
        let c = v[i];
        proof {
            assert(paragraph.take(i - lo + 1).drop_last() =~= paragraph.take(i - lo));
            assert(paragraph.take(i - lo + 1).last() == c);
        }
        if char_is_whitespace(c) {
            if !word.as_str().is_empty() {
                let ghost filled = fill_lines(done, max_width);
                proof {
                    assert(done.push(word@).drop_last() =~= done);
                }
                place_word(lines, &mut current, word, max_width);
                proof {
                    let step = fill_step(filled.1, word@, max_width);
                    if step.0 is Some {
                        assert((before + filled.0).push(step.0->0) =~= before + filled.0.push(
                            step.0->0,
                        ));
                    }
                    done = done.push(word@);
                }
                word = String::new();
            }
        } else {
            word.push(c);
        }
        i = i + 1;
    }
    assert(paragraph.take(hi - lo) =~= paragraph);
    if !word.as_str().is_empty() {
        let ghost filled = fill_lines(done, max_width);
        proof {
            assert(done.push(word@).drop_last() =~= done);
        }
        place_word(lines, &mut current, word, max_width);
        proof {
            let step = fill_step(filled.1, word@, max_width);
            if step.0 is Some {
                assert((before + filled.0).push(step.0->0) =~= before + filled.0.push(step.0->0));
            }
            done = done.push(word@);
        }
    }
    assert(done == words(paragraph));
    let ghost filled = fill_lines(done, max_width);
    assert(lines_view(lines@) == before + filled.0);
    assert(current@ == filled.1);
    if !current.as_str().is_empty() {
        let ghost so_far = lines_view(lines@);
        lines.push(current);
        assert(lines_view(lines@) =~= so_far.push(filled.1));
        assert(lines_view(lines@) =~= before + filled.0.push(filled.1));
    }
}

/// Wraps a message for a popup that is `max_width` bytes wide.
pub fn wrap_error_text(text: &str, max_width: usize) -> (r: Vec<String>)
    ensures
        lines_view(r@) == wrapped_error_text(text@, max_width),
{
    let v = to_chars(text);
    let mut lines: Vec<String> = Vec::new();
    let mut start: usize = 0;
    let ghost mut done: Seq<Seq<char>> = Seq::empty();
    assert(v@.skip(0) =~= v@);
    assert(done + split_on(v@, '\n') =~= split_on(v@, '\n'));
    assert(lines_view(lines@) =~= Seq::empty());
    loop
        invariant_except_break
            v@ == text@,
            start <= v.len(),
            split_on(v@, '\n') == done + split_on(v@.skip(start as int), '\n'),
            lines_view(lines@) == wrapped_paragraphs(done, max_width),
        ensures
            lines_view(lines@) == wrapped_error_text(text@, max_width),
        decreases v.len() - start,
    {
        let ghost rest = v@.skip(start as int);
        let end = find_char(&v, start, v.len(), '\n');
        assert(v@.subrange(start as int, v@.len() as int) =~= rest);
        let ghost paragraph = v@.subrange(start as int, end as int);
        proof {
            assert(paragraph =~= rest.take(end - start));
            let i = first_index_of(rest, '\n');
            if end < v.len() {
                assert(rest.skip(end - start + 1) =~= v@.skip(end + 1));
                assert(done + (seq![rest.take(i)] + split_on(rest.skip(i + 1), '\n')) =~= done.push(
                    paragraph,
                ) + split_on(v@.skip(end + 1), '\n'));
            } else {
                assert(paragraph =~= rest);
                assert(done + seq![rest] =~= done.push(paragraph));
            }
            assert(done.push(paragraph).drop_last() =~= done);
        }
        wrap_paragraph(&v, start, end, max_width, &mut lines);
        proof {
            done = done.push(paragraph);
        }
        if end == v.len() {
            break ;
        }
        start = end + 1;
    }
    lines
}

} // verus!
