//! The arithmetic of the interface: areas and the fitting of text into
//! them. Drawing is not done here.

pub mod components;
pub mod layouts;
pub mod popups;

pub use popups::wrap_error_text;
pub use layouts::{
    create_fixed_popup_layout, create_method_dropdown_layout, validate_terminal_size,
    LayoutConfig,
};

use vstd::prelude::*;
use vstd::utf8::{decode_utf8, encode_utf8, is_char_boundary};
use vstd::string::StringSliceAdditionalSpecFns;
use crate::text::{concat_str, from_chars, lines_view, to_chars};

verus! {

/// An area of the screen, in cells.
#[derive(Debug, Clone, Copy, PartialEq, Eq, Structural)]
pub struct Rect {
    pub x: u16,
    pub y: u16,
    pub width: u16,
    pub height: u16,
}

impl Rect {
    /// The area at column `x` and row `y` with the given size.
    pub fn new(x: u16, y: u16, width: u16, height: u16) -> (r: Rect)
        ensures
            r == (Rect { x, y, width, height }),
    {
        Rect { x, y, width, height }
    }
}

/// `a - b`, or zero where `b` is the larger.
pub open spec fn minus_or_zero(a: u16, b: u16) -> u16 {
    if a >= b {
        (a - b) as u16
    } else {
        0
    }
}

/// The smaller of two numbers.
pub open spec fn smaller(a: u16, b: u16) -> u16 {
    if a <= b {
        a
    } else {
        b
    }
}

/// A popup of the given size, made to fit into `area` with one cell to
/// spare on each side, and placed in the middle of an area of that size
/// at the origin.
pub open spec fn fixed_popup(area: Rect, width: u16, height: u16) -> Rect {
    let popup_width = smaller(width, minus_or_zero(area.width, 2));
    let popup_height = smaller(height, minus_or_zero(area.height, 2));
    Rect {
        x: (minus_or_zero(area.width, popup_width) / 2) as u16,
        y: (minus_or_zero(area.height, popup_height) / 2) as u16,
        width: popup_width,
        height: popup_height,
    }
}

/// A text cut down to `max_width` bytes. A text that fits stays as it is.
/// A longer one keeps its first `max_width - 3` bytes and ends in three
/// dots; where not even the dots fit, the dots are all that is left.
pub open spec fn truncated(text: Seq<char>, max_width: usize) -> Seq<char> {
    let bytes = encode_utf8(text);
    if bytes.len() <= max_width {
        text
    } else if max_width <= 3 {
        "..."@
    } else {
        decode_utf8(bytes.subrange(0, max_width - 3)) + "..."@
    }
}

/// A text cut into pieces of `width` characters; the last piece may be
/// shorter. The empty text has no pieces.
pub open spec fn chunks(text: Seq<char>, width: usize) -> Seq<Seq<char>>
    recommends
        width > 0,
    decreases text.len(),
{
    if text.len() == 0 || width == 0 {
        Seq::empty()
    } else if text.len() <= width {
        seq![text]
    } else {
        seq![text.take(width as int)] + chunks(text.skip(width as int), width)
    }
}

/// A text wrapped at `width` characters. With a width of zero the text is
/// not wrapped at all.
pub open spec fn wrapped(text: Seq<char>, width: usize) -> Seq<Seq<char>> {
    if width == 0 {
        seq![text]
    } else {
        chunks(text, width)
    }
}

/// A popup of a fixed size in the middle of the screen.
pub fn centered_rect_fixed(width: u16, height: u16, area: Rect) -> (r: Rect)
    ensures
        r == fixed_popup(area, width, height),
{
    create_fixed_popup_layout(area, width, height)
}

/// Cuts a text down to `max_width` bytes. The cut must not fall into the
/// middle of a character.
pub fn truncate_text(text: &str, max_width: usize) -> (r: String)
    requires
        text.spec_bytes().len() > max_width && max_width > 3 ==> is_char_boundary(
            text.spec_bytes(),
            max_width - 3,
        ),
    ensures
        r@ == truncated(text@, max_width),
{
    let size = text.as_bytes().len();
    if size <= max_width {
        String::from_str(text)
    } else if max_width <= 3 {
        String::from_str("...")
    } else {
        let (head, _) = text.split_at(max_width - 3);
        proof {
            vstd::utf8::encode_utf8_decode_utf8(head@);
        }
        concat_str(head, "...")
    }
}

/// Wraps a text at `width` characters.
pub fn wrap_text(text: &str, width: usize) -> (r: Vec<String>)
    ensures
        lines_view(r@) == wrapped(text@, width),
{
    let mut lines: Vec<String> = Vec::new();
    if width == 0 {
        lines.push(String::from_str(text));
        assert(lines_view(lines@) =~= seq![text@]);
        return lines;
    }
    let v = to_chars(text);
    let mut start: usize = 0;
    assert(v@.skip(0) =~= v@);
    assert(lines_view(lines@) =~= Seq::empty());
    while start < v.len()
        invariant
            width > 0,
            v@ == text@,
            start <= v.len(),
            chunks(v@, width) == lines_view(lines@) + chunks(v@.skip(start as int), width),
        decreases v.len() - start,
    {
        let ghost rest = v@.skip(start as int);
        let ghost before = lines_view(lines@);
        let end: usize = if v.len() - start <= width {
            v.len()
        } else {
            start + width
        };
        let line = from_chars(&v, start, end);
        lines.push(line);
        proof {
            assert(lines_view(lines@) =~= before.push(line@));
            if end == v.len() {
                assert(line@ =~= rest);
                assert(v@.skip(end as int) =~= Seq::<char>::empty());
                assert(before + seq![rest] =~= before.push(rest) + Seq::<Seq<char>>::empty());
            } else {
                assert(line@ =~= rest.take(width as int));
                assert(rest.skip(width as int) =~= v@.skip(end as int));
                assert(before + (seq![rest.take(width as int)] + chunks(
                    rest.skip(width as int),
                    width,
                )) =~= before.push(line@) + chunks(v@.skip(end as int), width));
            }
        }
        start = end;
    }
    assert(lines_view(lines@) + Seq::<Seq<char>>::empty() =~= lines_view(lines@));
    lines
}

} // verus!
