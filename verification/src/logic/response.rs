//! The response model: what the transport returned, parsed and formatted
//! for display.

use vstd::prelude::*;
use crate::error::ResponseError;
use crate::json::{json_parsed, json_pretty, parse_json, print_json};
use crate::logic::request::header_line;
use crate::text::{
    after_first, before_first, concat_str, contains_chars, contains_text, decimal, find_char,
    first_index_of, format_decimal, from_chars, is_blank, is_blank_text, is_whitespace, join,
    lemma_contains_in_parts, lemma_first_index_of, lemma_leading_whitespace, lemma_split_on_joined,
    lemma_trailing_whitespace, lemma_trim_of_clean, lines_view, lowercase, pairs_view,
    parse_unsigned, parse_usize, same_text, split_on, to_chars, trim, trim_range, trim_start,
    trimmed,
};

verus! {

/// A response as a tab holds it.
pub struct Response {
    pub status_code: u16,
    pub headers: Vec<(String, String)>,
    pub body: String,
}

/// The model of a response.
pub struct ResponseView {
    pub status_code: u16,
    pub headers: Seq<(Seq<char>, Seq<char>)>,
    pub body: Seq<char>,
}

impl View for Response {
    type V = ResponseView;

    open spec fn view(&self) -> ResponseView {
        ResponseView {
            status_code: self.status_code,
            headers: pairs_view(self.headers@),
            body: self.body@,
        }
    }
}

/// What one line of a header blob holds.
pub enum HeaderLine {
    /// Nothing but white space.
    Blank,
    /// Text without a colon.
    Malformed,
    /// A colon with nothing but white space before it. The field is the
    /// line, trimmed.
    EmptyKey(Seq<char>),
    /// A key and a value, both trimmed.
    Pair(Seq<char>, Seq<char>),
}

/// Reads one line: it is trimmed and split at its first colon, and both
/// sides are trimmed again.
pub open spec fn parse_header_line(line: Seq<char>) -> HeaderLine {
    let t = trim(line);
    if t.len() == 0 {
        HeaderLine::Blank
    } else if !t.contains(':') {
        HeaderLine::Malformed
    } else {
        let key = trim(before_first(t, ':'));
        let value = trim(after_first(t, ':'));
        if key.len() == 0 {
            HeaderLine::EmptyKey(t)
        } else {
            HeaderLine::Pair(key, value)
        }
    }
}

/// Reads the lines in order. Blank lines and lines without a colon are
/// passed over. The first line with an empty key ends the reading with its
/// number, counted from one, and its text.
pub open spec fn parse_header_lines(lines: Seq<Seq<char>>) -> Result<
    Seq<(Seq<char>, Seq<char>)>,
    (nat, Seq<char>),
>
    decreases lines.len(),
{
    if lines.len() == 0 {
        Ok(Seq::empty())
    } else {
        match parse_header_lines(lines.drop_last()) {
            Err(e) => Err(e),
            Ok(pairs) => match parse_header_line(lines.last()) {
                HeaderLine::Blank => Ok(pairs),
                HeaderLine::Malformed => Ok(pairs),
                HeaderLine::EmptyKey(t) => Err((lines.len(), t)),
                HeaderLine::Pair(key, value) => Ok(pairs.push((key, value))),
            },
        }
    }
}

/// Reads a header blob: its lines are the pieces between line feeds.
pub open spec fn parse_headers(blob: Seq<char>) -> Result<
    Seq<(Seq<char>, Seq<char>)>,
    (nat, Seq<char>),
> {
    parse_header_lines(split_on(blob, '\n'))
}

/// Reads the lines in order and keeps what can be read: every line that
/// holds a key and a value. Blank lines, lines without a colon and lines
/// with an empty key are passed over.
pub open spec fn read_header_lines_leniently(lines: Seq<Seq<char>>) -> Seq<(Seq<char>, Seq<char>)>
    decreases lines.len(),
{
    if lines.len() == 0 {
        Seq::empty()
    } else {
        let before = read_header_lines_leniently(lines.drop_last());
        match parse_header_line(lines.last()) {
            HeaderLine::Pair(key, value) => before.push((key, value)),
            _ => before,
        }
    }
}

/// Reads a header blob and keeps what can be read.
pub open spec fn parse_headers_leniently(blob: Seq<char>) -> Seq<(Seq<char>, Seq<char>)> {
    read_header_lines_leniently(split_on(blob, '\n'))
}

/// The warning about a line that is passed over though it is not blank,
/// given the number of the line, counted from one.
pub open spec fn line_warning(number: nat, line: Seq<char>) -> Option<Seq<char>> {
    match parse_header_line(line) {
        HeaderLine::Malformed => Some(
            "Warning: Skipping malformed header on line "@ + decimal(number) + ": '"@ + trim(line)
                + "'"@,
        ),
        HeaderLine::EmptyKey(t) => Some("Warning: "@ + empty_key_message(number, t)),
        _ => None,
    }
}

/// The warnings about the lines of a list, in the order of the lines.
pub open spec fn warnings_of_lines(lines: Seq<Seq<char>>) -> Seq<Seq<char>>
    decreases lines.len(),
{
    if lines.len() == 0 {
        Seq::empty()
    } else {
        let before = warnings_of_lines(lines.drop_last());
        match line_warning(lines.len(), lines.last()) {
            Some(warning) => before.push(warning),
            None => before,
        }
    }
}

/// The warnings about the lines of a header blob that are passed over
/// though they are not blank.
pub open spec fn header_warnings_of(blob: Seq<char>) -> Seq<Seq<char>> {
    warnings_of_lines(split_on(blob, '\n'))
}

/// The message for a line with an empty key.
pub open spec fn empty_key_message(line_number: nat, line: Seq<char>) -> Seq<char> {
    "Empty header key on line "@ + decimal(line_number) + ": '"@ + line + "'"@
}

/// The body as it is displayed. A blank body becomes empty. A body that is
/// a JSON document is written out again with two-space indentation. Any
/// other body stays as it is. The error is that of a document that could
/// not be written out.
pub open spec fn formatted_body(raw: Seq<char>) -> Result<Seq<char>, serde_json::Error> {
    if is_blank(raw) {
        Ok(Seq::empty())
    } else {
        match json_parsed(trim(raw)) {
            None => Ok(raw),
            Some(doc) => json_pretty(doc),
        }
    }
}

/// True for a header, key and value in lower case, that declares a JSON
/// body.
pub open spec fn declares_json(key: Seq<char>, value: Seq<char>) -> bool {
    key == "content-type"@ && contains_text(value, "application/json"@)
}

/// True for a header, key and value in lower case, that declares an XML
/// body.
pub open spec fn declares_xml(key: Seq<char>, value: Seq<char>) -> bool {
    key == "content-type"@ && (contains_text(value, "application/xml"@) || contains_text(
        value,
        "text/xml"@,
    ))
}

/// The position of the first header whose key, in lower case, is `name`;
/// the length of the list where there is none.
pub open spec fn first_header_named(headers: Seq<(Seq<char>, Seq<char>)>, name: Seq<char>) -> int
    decreases headers.len(),
{
    if headers.len() == 0 {
        0
    } else if lowercase(headers[0].0) == name {
        0
    } else {
        1 + first_header_named(headers.drop_first(), name)
    }
}

/// The response that is kept where nothing may fail: with the headers
/// that can be read, and with the body as it came where it cannot be
/// formatted.
pub open spec fn lenient_response(status_code: u16, headers: Seq<char>, body: Seq<char>) -> ResponseView {
    ResponseView {
        status_code,
        headers: parse_headers_leniently(headers),
        body: match formatted_body(body) {
            Ok(text) => text,
            Err(_) => body,
        },
    }
}

/// Looks for the first header whose key, in lower case, is `name`. The
/// result is the length of the list where there is none.
pub fn find_header_named(headers: &Vec<(String, String)>, name: &str) -> (r: usize)
    ensures
        r == first_header_named(pairs_view(headers@), name@),
        r <= headers.len(),
{
    let ghost all = pairs_view(headers@);
    let mut i: usize = 0;
    assert(all.skip(0) =~= all);
    while i < headers.len()
        invariant
            i <= headers.len(),
            all == pairs_view(headers@),
            first_header_named(all, name@) == i + first_header_named(all.skip(i as int), name@),
        decreases headers.len() - i,
    {
        let ghost rest = all.skip(i as int);
        assert(rest[0] == all[i as int]);
        assert(rest.drop_first() =~= all.skip(i + 1));
        let key = headers[i].0.as_str().to_lowercase();
        if same_text(key.as_str(), name) {
            return i;
        }
        i = i + 1;
    }
    i
}

/// What the reading of one line gave.
enum ParsedLine {
    Blank,
    Malformed(String),
    EmptyKey(String),
    Pair(String, String),
}

/// Reads the line that stands in `v[lo..hi]`.
fn parse_line(v: &Vec<char>, lo: usize, hi: usize) -> (r: ParsedLine)
    requires
        lo <= hi <= v.len(),
    ensures
        match parse_header_line(v@.subrange(lo as int, hi as int)) {
            HeaderLine::Blank => r is Blank,
            HeaderLine::Malformed => r matches ParsedLine::Malformed(s) && s@ == trim(
                v@.subrange(lo as int, hi as int),
            ) && s@.len() > 0,
            HeaderLine::EmptyKey(t) => r matches ParsedLine::EmptyKey(s) && s@ == t && t.len() > 0,
            HeaderLine::Pair(key, value) => r matches ParsedLine::Pair(k, val) && k@ == key
                && val@ == value,
        },
{
    let (a, b) = trim_range(v, lo, hi);
    let ghost t = v@.subrange(a as int, b as int);
    if a == b {
        return ParsedLine::Blank;
    }
    let c = find_char(v, a, b, ':');
    if c == b {
        return ParsedLine::Malformed(from_chars(v, a, b));
    }
    assert(v@.subrange(a as int, c as int) =~= before_first(t, ':'));
    assert(v@.subrange(c + 1, b as int) =~= after_first(t, ':'));
    let (ka, kb) = trim_range(v, a, c);
    let (va, vb) = trim_range(v, c + 1, b);
    if ka == kb {
        ParsedLine::EmptyKey(from_chars(v, a, b))
    } else {
        ParsedLine::Pair(from_chars(v, ka, kb), from_chars(v, va, vb))
    }
}

/// The pieces of a text are those of its first piece's remainder, with the
/// first piece in front.
proof fn lemma_split_on_step(done: Seq<Seq<char>>, rest: Seq<char>, sep: char)
    ensures
        0 <= first_index_of(rest, sep) < rest.len() ==> done + split_on(rest, sep) == done.push(
            rest.take(first_index_of(rest, sep)),
        ) + split_on(rest.skip(first_index_of(rest, sep) + 1), sep),
        !(0 <= first_index_of(rest, sep) < rest.len()) ==> done + split_on(rest, sep)
            == done.push(rest),
{
    let i = first_index_of(rest, sep);
    if 0 <= i < rest.len() {
        assert(done + (seq![rest.take(i)] + split_on(rest.skip(i + 1), sep)) =~= done.push(
            rest.take(i),
        ) + split_on(rest.skip(i + 1), sep));
    } else {
        assert(done + seq![rest] =~= done.push(rest));
    }
}

impl Response {
    /// Builds a response from what the transport returned. A header line
    /// with an empty key is an error, and so is a JSON body that cannot be
    /// written out again.
    pub fn new(status_code: u16, headers: String, body: String) -> (r: Result<
        Response,
        ResponseError,
    >)
        ensures
            match parse_headers(headers@) {
                Err((n, line)) => r matches Err(ResponseError::HeaderParsing(msg)) && msg@
                    == empty_key_message(n, line),
                Ok(pairs) => match formatted_body(body@) {
                    Err(e) => r matches Err(ResponseError::JsonFormatting(x)) && x == e,
                    Ok(text) => r matches Ok(resp) && resp@ == (ResponseView {
                        status_code,
                        headers: pairs,
                        body: text,
                    }),
                },
            },
    {
        let parsed_headers = match Self::split_headers(headers.as_str()) {
            Ok(h) => h,
            Err(e) => {
                return Err(e);
            },
        };
        let formatted = match Self::pretty_print_json(body.as_str()) {
            Ok(b) => b,
            Err(e) => {
                return Err(e);
            },
        };
        Ok(Response { status_code, headers: parsed_headers, body: formatted })
    }

    /// Builds a response without ever failing. The header lines that
    /// cannot be read are passed over, and a body that cannot be formatted
    /// is kept as it came.
    pub fn new_unchecked(status_code: u16, headers: String, body: String) -> (r: Response)
        ensures
            r@ == lenient_response(status_code, headers@, body@),
    {
        let parsed_headers = Self::split_headers_leniently(headers.as_str());
        let formatted = match Self::pretty_print_json(body.as_str()) {
            Ok(b) => b,
            Err(_) => body,
        };
        Response { status_code, headers: parsed_headers, body: formatted }
    }

    /// Chooses the displayed body once the outcome of the JSON round is
    /// known: `None` for a body that is no JSON document, else what writing
    /// the document out gave.
    pub fn body_after_json(raw: &str, printed: Option<Result<String, serde_json::Error>>) -> (r:
        Result<String, ResponseError>)
        ensures
            match printed {
                None => r matches Ok(text) && text@ == raw@,
                Some(Ok(pretty)) => r == Ok::<String, ResponseError>(pretty),
                Some(Err(e)) => r == Err::<String, ResponseError>(ResponseError::JsonFormatting(e)),
            },
    {
        match printed {
            None => Ok(String::from_str(raw)),
            Some(Ok(pretty)) => Ok(pretty),
            Some(Err(e)) => Err(ResponseError::JsonFormatting(e)),
        }
    }

    /// Formats a body for display.
    pub fn pretty_print_json(raw_json: &str) -> (r: Result<String, ResponseError>)
        ensures
            match formatted_body(raw_json@) {
                Ok(text) => r matches Ok(s) && s@ == text,
                Err(e) => r matches Err(ResponseError::JsonFormatting(x)) && x == e,
            },
    {
        if is_blank_text(raw_json) {
            return Ok(String::new());
        }
        let inner = trimmed(raw_json);
        match parse_json(inner.as_str()) {
            Ok(doc) => Self::body_after_json(raw_json, Some(print_json(&doc))),
            Err(_) => Self::body_after_json(raw_json, None),
        }
    }

    /// Reads a header blob into pairs.
    pub fn split_headers(header_str: &str) -> (r: Result<Vec<(String, String)>, ResponseError>)
        ensures
            match parse_headers(header_str@) {
                Ok(pairs) => r matches Ok(h) && pairs_view(h@) == pairs,
                Err((n, line)) => r matches Err(ResponseError::HeaderParsing(msg)) && msg@
                    == empty_key_message(n, line),
            },
    {
        let v = to_chars(header_str);
        let mut headers: Vec<(String, String)> = Vec::new();
        let mut start: usize = 0;
        let mut count: usize = 0;
        let ghost mut done: Seq<Seq<char>> = Seq::empty();
        assert(v@.skip(0) =~= v@);
        assert(done + split_on(v@, '\n') =~= split_on(v@, '\n'));
        assert(pairs_view(headers@) =~= Seq::empty());
        loop
            invariant_except_break
                v@ == header_str@,
                start <= v.len(),
                count == done.len(),
                count <= start,
                split_on(v@, '\n') == done + split_on(v@.skip(start as int), '\n'),
                parse_header_lines(done) == Ok::<Seq<(Seq<char>, Seq<char>)>, (nat, Seq<char>)>(
                    pairs_view(headers@),
                ),
            ensures
                parse_headers(header_str@) == Ok::<Seq<(Seq<char>, Seq<char>)>, (nat, Seq<char>)>(
                    pairs_view(headers@),
                ),
            decreases v.len() - start,
        {
            let ghost rest = v@.skip(start as int);
            let end = find_char(&v, start, v.len(), '\n');
            assert(v@.subrange(start as int, v@.len() as int) =~= rest);
            let ghost line = v@.subrange(start as int, end as int);
            assert(line =~= rest.take(end - start));
            proof {
                lemma_split_on_step(done, rest, '\n');
                if end < v.len() {
                    assert(rest.skip(end - start + 1) =~= v@.skip(end + 1));
                } else {
                    assert(line =~= rest);
                }
                assert(done.push(line).drop_last() =~= done);
            }
            let ghost old_pairs = pairs_view(headers@);
            match parse_line(&v, start, end) {
                ParsedLine::Blank => {},
                ParsedLine::Malformed(_) => {},
                ParsedLine::EmptyKey(text) => {
                    assert(start < end);
                    let number = format_decimal((count + 1) as u64);
                    let mut msg = concat_str("Empty header key on line ", number.as_str());
                    msg.append(": '");
                    msg.append(text.as_str());
                    msg.append("'");
                    proof {
                        let all = split_on(v@, '\n');
                        let tail = if end < v.len() {
                            split_on(v@.skip(end + 1), '\n')
                        } else {
                            Seq::empty()
                        };
                        assert(all =~= done.push(line) + tail);
                        lemma_parse_error_stays(done.push(line), tail);
                    }
                    return Err(ResponseError::HeaderParsing(msg));
                },
                ParsedLine::Pair(key, value) => {
                    headers.push((key, value));
                    assert(pairs_view(headers@) =~= old_pairs.push((key@, value@)));
                },
            }
            proof {
                done = done.push(line);
            }
            if end == v.len() {
                break ;
            }
            count = count + 1;
            start = end + 1;
        }
        Ok(headers)
    }

    /// Reads a header blob and keeps what can be read, together with the
    /// warnings about the lines that were passed over.
    pub fn scan_headers(header_str: &str) -> (r: (Vec<(String, String)>, Vec<String>))
        ensures
            pairs_view(r.0@) == parse_headers_leniently(header_str@),
            lines_view(r.1@) == header_warnings_of(header_str@),
    {
        let v = to_chars(header_str);
        let mut headers: Vec<(String, String)> = Vec::new();
        let mut warnings: Vec<String> = Vec::new();
        let mut start: usize = 0;
        let mut count: usize = 0;
        let ghost mut done: Seq<Seq<char>> = Seq::empty();
        assert(v@.skip(0) =~= v@);
        assert(done + split_on(v@, '\n') =~= split_on(v@, '\n'));
        assert(pairs_view(headers@) =~= Seq::empty());
        assert(lines_view(warnings@) =~= Seq::empty());
        loop
            invariant_except_break
                v@ == header_str@,
                start <= v.len(),
                count == done.len(),
                count <= start,
                split_on(v@, '\n') == done + split_on(v@.skip(start as int), '\n'),
                pairs_view(headers@) == read_header_lines_leniently(done),
                lines_view(warnings@) == warnings_of_lines(done),
            ensures
                pairs_view(headers@) == parse_headers_leniently(header_str@),
                lines_view(warnings@) == header_warnings_of(header_str@),
            decreases v.len() - start,
        {
            let ghost rest = v@.skip(start as int);
            let end = find_char(&v, start, v.len(), '\n');
            assert(v@.subrange(start as int, v@.len() as int) =~= rest);
            let ghost line = v@.subrange(start as int, end as int);
            assert(line =~= rest.take(end - start));
            proof {
                lemma_split_on_step(done, rest, '\n');
                if end < v.len() {
                    assert(rest.skip(end - start + 1) =~= v@.skip(end + 1));
                } else {
                    assert(line =~= rest);
                }
                assert(done.push(line).drop_last() =~= done);
            }
            let ghost old_pairs = pairs_view(headers@);
            let ghost old_warnings = lines_view(warnings@);
            match parse_line(&v, start, end) {
                ParsedLine::Blank => {},
                ParsedLine::Malformed(text) => {
                    assert(start < end);
                    let number = format_decimal((count + 1) as u64);
                    let mut msg = concat_str(
                        "Warning: Skipping malformed header on line ",
                        number.as_str(),
                    );
                    msg.append(": '");
                    msg.append(text.as_str());
                    msg.append("'");
                    warnings.push(msg);
                    assert(lines_view(warnings@) =~= old_warnings.push(msg@));
                },
                ParsedLine::EmptyKey(text) => {
                    assert(start < end);
                    let number = format_decimal((count + 1) as u64);
                    let mut problem = concat_str("Empty header key on line ", number.as_str());
                    problem.append(": '");
                    problem.append(text.as_str());
                    problem.append("'");
                    let msg = concat_str("Warning: ", problem.as_str());
                    warnings.push(msg);
                    assert(lines_view(warnings@) =~= old_warnings.push(msg@));
                },
                ParsedLine::Pair(key, value) => {
                    headers.push((key, value));
                    assert(pairs_view(headers@) =~= old_pairs.push((key@, value@)));
                },
            }
            proof {
                done = done.push(line);
            }
            if end == v.len() {
                break ;
            }
            count = count + 1;
            start = end + 1;
        }
        (headers, warnings)
    }

    /// Reads a header blob and keeps what can be read: the lines that hold
    /// a key and a value.
    pub fn split_headers_leniently(header_str: &str) -> (r: Vec<(String, String)>)
        ensures
            pairs_view(r@) == parse_headers_leniently(header_str@),
    {
        let (headers, _) = Self::scan_headers(header_str);
        headers
    }

    /// The warnings about the lines of a header blob that are passed over
    /// though they are not blank: lines without a colon, and lines with an
    /// empty key.
    pub fn header_warnings(header_str: &str) -> (r: Vec<String>)
        ensures
            lines_view(r@) == header_warnings_of(header_str@),
    {
        let (_, warnings) = Self::scan_headers(header_str);
        warnings
    }

    /// Decides whether a header declares a JSON body.
    pub fn is_json(&self) -> (r: bool)
        ensures
            r == exists|i: int|
                0 <= i < self@.headers.len() && declares_json(
                    lowercase(#[trigger] self@.headers[i].0),
                    lowercase(self@.headers[i].1),
                ),
    {
        let ghost all = pairs_view(self.headers@);
        let mut i: usize = 0;
        while i < self.headers.len()
            invariant
                i <= self.headers.len(),
                all == pairs_view(self.headers@),
                forall|j: int|
                    0 <= j < i ==> !declares_json(
                        lowercase(#[trigger] all[j].0),
                        lowercase(all[j].1),
                    ),
            decreases self.headers.len() - i,
        {
            let key = self.headers[i].0.as_str().to_lowercase();
            let value = self.headers[i].1.as_str().to_lowercase();
            assert(all[i as int] == (self.headers@[i as int].0@, self.headers@[i as int].1@));
            if Self::header_declares_json(key.as_str(), value.as_str()) {
                assert(declares_json(
                    lowercase(self@.headers[i as int].0),
                    lowercase(self@.headers[i as int].1),
                ));
                return true;
            }
            i = i + 1;
        }
        false
    }

    /// Decides whether a header declares an XML body.
    pub fn is_xml(&self) -> (r: bool)
        ensures
            r == exists|i: int|
                0 <= i < self@.headers.len() && declares_xml(
                    lowercase(#[trigger] self@.headers[i].0),
                    lowercase(self@.headers[i].1),
                ),
    {
        let ghost all = pairs_view(self.headers@);
        let mut i: usize = 0;
        while i < self.headers.len()
            invariant
                i <= self.headers.len(),
                all == pairs_view(self.headers@),
                forall|j: int|
                    0 <= j < i ==> !declares_xml(
                        lowercase(#[trigger] all[j].0),
                        lowercase(all[j].1),
                    ),
            decreases self.headers.len() - i,
        {
            let key = self.headers[i].0.as_str().to_lowercase();
            let value = self.headers[i].1.as_str().to_lowercase();
            assert(all[i as int] == (self.headers@[i as int].0@, self.headers@[i as int].1@));
            if Self::header_declares_xml(key.as_str(), value.as_str()) {
                assert(declares_xml(
                    lowercase(self@.headers[i as int].0),
                    lowercase(self@.headers[i as int].1),
                ));
                return true;
            }
            i = i + 1;
        }
        false
    }

    /// Decides whether a header, key and value in lower case, declares a
    /// JSON body.
    pub fn header_declares_json(key: &str, value: &str) -> (r: bool)
        ensures
            r == declares_json(key@, value@),
    {
        if !same_text(key, "content-type") {
            return false;
        }
        let hay = to_chars(value);
        let needle = to_chars("application/json");
        contains_chars(&hay, &needle)
    }

    /// Decides whether a header, key and value in lower case, declares an
    /// XML body.
    pub fn header_declares_xml(key: &str, value: &str) -> (r: bool)
        ensures
            r == declares_xml(key@, value@),
    {
        if !same_text(key, "content-type") {
            return false;
        }
        let hay = to_chars(value);
        let first = to_chars("application/xml");
        let second = to_chars("text/xml");
        contains_chars(&hay, &first) || contains_chars(&hay, &second)
    }

    /// The value of the first `Content-Type` header, whatever the case of
    /// its key.
    pub fn content_type(&self) -> (r: Option<&str>)
        ensures
            ({
                let i = first_header_named(self@.headers, "content-type"@);
                if i < self@.headers.len() {
                    r matches Some(v) && v@ == self@.headers[i].1
                } else {
                    r is None
                }
            }),
    {
        let i = find_header_named(&self.headers, "content-type");
        if i < self.headers.len() {
            Some(self.headers[i].1.as_str())
        } else {
            None
        }
    }

    /// The number in the first `Content-Length` header, whatever the case
    /// of its key. There is none where that header is missing or holds
    /// anything but an optional `+` and decimal digits within `usize`.
    pub fn content_length(&self) -> (r: Option<usize>)
        ensures
            ({
                let i = first_header_named(self@.headers, "content-length"@);
                if i < self@.headers.len() {
                    match parse_unsigned(self@.headers[i].1) {
                        Some(n) => if n <= usize::MAX {
                            r == Some(n as usize)
                        } else {
                            r is None
                        },
                        None => r is None,
                    }
                } else {
                    r is None
                }
            }),
    {
        let i = find_header_named(&self.headers, "content-length");
        if i < self.headers.len() {
            parse_usize(self.headers[i].1.as_str())
        } else {
            None
        }
    }
}

/// A text that neither begins nor ends with white space and holds no line
/// feed.
pub open spec fn is_clean(s: Seq<char>) -> bool {
    (s.len() == 0 || (!is_whitespace(s[0]) && !is_whitespace(s.last()))) && !s.contains('\n')
}

/// A header name that can be read back: clean, not empty, and without a
/// colon.
pub open spec fn is_clean_name(name: Seq<char>) -> bool {
    name.len() > 0 && is_clean(name) && !name.contains(':')
}

/// The lines that are written for a list of headers.
pub open spec fn written_lines(headers: Seq<(Seq<char>, Seq<char>)>) -> Seq<Seq<char>> {
    Seq::new(headers.len(), |i: int| header_line(headers[i].0, Some(headers[i].1)))
}

/// The line that is written for a header with a clean name and a clean
/// value reads back as that name and that value, whatever colons the value
/// holds.
pub proof fn lemma_clean_header_line(name: Seq<char>, value: Seq<char>)
    requires
        is_clean_name(name),
        is_clean(value),
    ensures
        parse_header_line(header_line(name, Some(value))) == HeaderLine::Pair(name, value),
        !header_line(name, Some(value)).contains('\n'),
{
    reveal_strlit(": ");
    let sep = ": "@;
    assert(sep.len() == 2 && sep[0] == ':' && sep[1] == ' ');
    let line = name + sep + value;
    assert(!sep.contains('\n'));
    lemma_contains_in_parts(name, sep, '\n');
    lemma_contains_in_parts(name + sep, value, '\n');
    assert(line[0] == name[0]);
    let t = trim(line);
    if value.len() > 0 {
        assert(line.last() == value.last());
        lemma_trim_of_clean(line);
        assert(t =~= name.push(':') + (seq![' '] + value));
    } else {
        lemma_leading_whitespace(line, 0);
        assert(trim_start(line) =~= line);
        assert(line.last() == ' ');
        assert(line[line.len() - 2] == ':');
        lemma_trailing_whitespace(line, 1);
        assert(t =~= name.push(':'));
    }
    assert(t[name.len() as int] == ':');
    assert forall|j: int| 0 <= j < name.len() implies #[trigger] t[j] != ':' by {
        assert(t[j] == name[j]);
    }
    lemma_first_index_of(t, ':', name.len() as int);
    assert(before_first(t, ':') =~= name);
    lemma_trim_of_clean(name);
    let after = after_first(t, ':');
    if value.len() > 0 {
        assert(after =~= seq![' '] + value);
        assert(after[1] == value[0]);
        lemma_leading_whitespace(after, 1);
        assert(trim_start(after) =~= value);
        lemma_trim_of_clean(value);
        lemma_trailing_whitespace(value, 0);
        assert(trim(after) =~= value);
    } else {
        assert(after =~= Seq::<char>::empty());
        lemma_trim_of_clean(after);
        assert(trim(after) =~= value);
    }
}

/// The lines that are written for clean headers read back as those
/// headers, in their order.
proof fn lemma_clean_lines_read_back(headers: Seq<(Seq<char>, Seq<char>)>)
    requires
        forall|i: int|
            0 <= i < headers.len() ==> is_clean_name((#[trigger] headers[i]).0) && is_clean(
                headers[i].1,
            ),
    ensures
        parse_header_lines(written_lines(headers)) == Ok::<
            Seq<(Seq<char>, Seq<char>)>,
            (nat, Seq<char>),
        >(headers),
    decreases headers.len(),
{
    if headers.len() == 0 {
        assert(headers =~= Seq::empty());
    } else {
        let head = headers.drop_last();
        assert forall|i: int| 0 <= i < head.len() implies is_clean_name((#[trigger] head[i]).0)
            && is_clean(head[i].1) by {
            assert(head[i] == headers[i]);
        }
        lemma_clean_lines_read_back(head);
        assert(written_lines(headers).drop_last() =~= written_lines(head));
        let last = headers.last();
        assert(last == headers[headers.len() - 1]);
        lemma_clean_header_line(last.0, last.1);
        assert(written_lines(headers).last() == header_line(last.0, Some(last.1)));
        assert(head.push(last) =~= headers);
    }
}

/// What is written for the headers of an answer is what is read from it:
/// the header blob of clean headers, joined by line feeds, reads back as
/// those headers, in their order and with their duplicates.
pub proof fn lemma_written_headers_read_back(headers: Seq<(Seq<char>, Seq<char>)>)
    requires
        forall|i: int|
            0 <= i < headers.len() ==> is_clean_name((#[trigger] headers[i]).0) && is_clean(
                headers[i].1,
            ),
    ensures
        parse_headers(join(written_lines(headers), "\n"@)) == Ok::<
            Seq<(Seq<char>, Seq<char>)>,
            (nat, Seq<char>),
        >(headers),
{
    reveal_strlit("\n");
    assert("\n"@ =~= seq!['\n']);
    let lines = written_lines(headers);
    if headers.len() == 0 {
        let blob = join(lines, "\n"@);
        assert(blob =~= Seq::<char>::empty());
        assert(split_on(blob, '\n') =~= seq![Seq::<char>::empty()]);
        let only = split_on(blob, '\n');
        assert(only.drop_last() =~= Seq::<Seq<char>>::empty());
        lemma_trim_of_clean(Seq::<char>::empty());
        assert(only.last() =~= Seq::<char>::empty());
        assert(parse_header_line(only.last()) is Blank);
        assert(parse_header_lines(only.drop_last()) == Ok::<
            Seq<(Seq<char>, Seq<char>)>,
            (nat, Seq<char>),
        >(Seq::empty()));
        assert(parse_header_lines(only) == Ok::<Seq<(Seq<char>, Seq<char>)>, (nat, Seq<char>)>(
            Seq::empty(),
        ));
        assert(headers =~= Seq::empty());
    } else {
        assert forall|i: int| 0 <= i < lines.len() implies !(#[trigger] lines[i]).contains(
            '\n',
        ) by {
            lemma_clean_header_line(headers[i].0, headers[i].1);
        }
        lemma_split_on_joined(lines, '\n');
        assert(split_on(join(lines, "\n"@), '\n') == lines);
        lemma_clean_lines_read_back(headers);
    }
}

/// A body that is blank or no JSON document is formatted once and for all:
/// formatting the result again gives the same text.
pub proof fn lemma_other_text_is_formatted_once(raw: Seq<char>)
    requires
        is_blank(raw) || json_parsed(trim(raw)) is None,
    ensures
        formatted_body(raw) is Ok,
        formatted_body(formatted_body(raw)->Ok_0) == formatted_body(raw),
        !is_blank(raw) ==> formatted_body(raw) == Ok::<Seq<char>, serde_json::Error>(raw),
        is_blank(raw) ==> formatted_body(raw) == Ok::<Seq<char>, serde_json::Error>(
            Seq::<char>::empty(),
        ),
{
}

/// A text that reads as a JSON document whose written form is that very
/// text is formatted to itself.
pub proof fn lemma_stable_document_is_formatted_once(text: Seq<char>)
    requires
        !is_blank(text),
        json_parsed(trim(text)) matches Some(doc) && json_pretty(doc) == Ok::<
            Seq<char>,
            serde_json::Error,
        >(text),
    ensures
        formatted_body(text) == Ok::<Seq<char>, serde_json::Error>(text),
{
}

/// Where the strict reading of lines succeeds, the lenient reading gives
/// the same headers, and no line has an empty key.
pub proof fn lemma_lenient_reading_agrees(lines: Seq<Seq<char>>)
    requires
        parse_header_lines(lines) is Ok,
    ensures
        read_header_lines_leniently(lines) == parse_header_lines(lines)->Ok_0,
    decreases lines.len(),
{
    if lines.len() > 0 {
        lemma_lenient_reading_agrees(lines.drop_last());
    }
}

/// A response that the strict construction builds is the response that
/// the lenient construction builds.
pub proof fn lemma_strict_response_is_lenient(status_code: u16, headers: Seq<char>, body: Seq<char>)
    requires
        parse_headers(headers) is Ok,
        formatted_body(body) is Ok,
    ensures
        lenient_response(status_code, headers, body) == (ResponseView {
            status_code,
            headers: parse_headers(headers)->Ok_0,
            body: formatted_body(body)->Ok_0,
        }),
{
    lemma_lenient_reading_agrees(split_on(headers, '\n'));
}

/// Once a line has an empty key, the lines behind it change nothing.
proof fn lemma_parse_error_stays(head: Seq<Seq<char>>, tail: Seq<Seq<char>>)
    requires
        parse_header_lines(head) is Err,
    ensures
        parse_header_lines(head + tail) == parse_header_lines(head),
    decreases tail.len(),
{
    if tail.len() == 0 {
        assert(head + tail =~= head);
    } else {
        assert((head + tail).drop_last() =~= head + tail.drop_last());
        lemma_parse_error_stays(head, tail.drop_last());
    }
}

} // verus!
