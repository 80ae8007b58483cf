//! Reading a request from the bytes that a client sent: a status line, the
//! headers up to an empty line, and a body as long as the headers say.

use crate::server::wire::{method_of, HttpMethod};
use crate::text::{
    from_utf8,
    from_utf8_lossy,
    lossy,
    number,
    parse_number,
    same,
    split_at_first,
    split_once,
    trim,
    trimmed,
};
use vstd::prelude::*;
use vstd::slice::{slice_subrange, slice_to_vec};
use vstd::utf8::{decode_utf8, encode_utf8, valid_utf8};

verus! {

/// The path of a request and the query behind it.
#[derive(Debug)]
pub struct Path {
    pub path: String,
    pub query: String,
}

/// The two parts of what a request asks for: what stands before the first
/// question mark, and what stands between the first and the second.
pub open spec fn path_parts(target: Seq<char>) -> (Seq<char>, Seq<char>) {
    match split_at_first(target, '?') {
        None => (target, Seq::empty()),
        Some((path, rest)) => match split_at_first(rest, '?') {
            None => (path, rest),
            Some((query, _)) => (path, query),
        },
    }
}

impl Path {
    /// The path and the query, as views.
    pub open spec fn parts(self) -> (Seq<char>, Seq<char>) {
        (self.path@, self.query@)
    }

    /// Splits what a request asks for into path and query.
    pub fn build(path: String) -> (built: Path)
        ensures
            built.parts() == path_parts(path@),
    {
        match split_once(path.as_str(), '?') {
            None => {
                let query = String::new();
                Path { path, query }
            },
            Some((before, rest)) => {
                let query = match split_once(rest, '?') {
                    None => rest,
                    Some((query, _)) => query,
                };
                Path { path: before.to_owned(), query: query.to_owned() }
            },
        }
    }
}

/// The headers of a request, in the order in which they came. Of several
/// headers of one name the last one counts.
#[derive(Debug)]
pub struct Headers {
    entries: Vec<(String, String)>,
}

/// The views of headers, in order: names and values.
pub open spec fn header_views(entries: Seq<(String, String)>) -> Seq<(Seq<char>, Seq<char>)> {
    entries.map_values(|entry: (String, String)| (entry.0@, entry.1@))
}

/// The value of the last header of the given name.
pub open spec fn lookup(headers: Seq<(Seq<char>, Seq<char>)>, name: Seq<char>) -> Option<
    Seq<char>,
>
    decreases headers.len(),
{
    if headers.len() == 0 {
        None
    } else if headers.last().0 == name {
        Some(headers.last().1)
    } else {
        lookup(headers.drop_last(), name)
    }
}

impl View for Headers {
    type V = Seq<(Seq<char>, Seq<char>)>;

    closed spec fn view(&self) -> Seq<(Seq<char>, Seq<char>)> {
        header_views(self.entries@)
    }
}

impl Headers {
    /// No headers.
    pub fn new() -> (headers: Self)
        ensures
            headers@ == Seq::<(Seq<char>, Seq<char>)>::empty(),
    {
        let headers = Headers { entries: Vec::new() };
        assert(headers@ =~= Seq::<(Seq<char>, Seq<char>)>::empty());
        headers
    }

    /// Adds a header behind those that are there.
    pub fn insert(&mut self, name: String, value: String)
        ensures
            final(self)@ == old(self)@.push((name@, value@)),
    {
        self.entries.push((name, value));
        assert(self@ =~= old(self)@.push((name@, value@)));
    }

    /// The number of headers.
    pub fn len(&self) -> (len: usize)
        ensures
            len == self@.len(),
    {
        self.entries.len()
    }

    /// The value of the header of the given name: that of the last one,
    /// where there are several.
    pub fn get(&self, name: &str) -> (value: Option<&String>)
        ensures
            match value {
                Some(value) => lookup(self@, name@) == Some(value@),
                None => lookup(self@, name@) is None,
            },
    {
        let mut place: usize = self.entries.len();
        assert(self@.take(place as int) =~= self@);
        while place > 0
            invariant
                place <= self.entries.len(),
                self@.len() == self.entries@.len(),
                lookup(self@, name@) == lookup(self@.take(place as int), name@),
            decreases place,
        {
            let ghost upto = self@.take(place as int);
            proof {
                assert(upto.drop_last() == self@.take(place - 1));
                assert(upto.last() == self@[place - 1]);
            }
            place -= 1;
            if same(self.entries[place].0.as_str(), name) {
                return Some(&self.entries[place].1);
            }
        }
        proof {
            assert(self@.take(0).len() == 0);
        }
        None
    }
}

/// Why bytes are not a request.
#[derive(Debug)]
pub enum ParseError {
    /// A line is not UTF-8.
    InvalidUtf8,
    /// The first line is empty or white space.
    EmptyStatusLine,
    /// A header line, given here without the white space around it, has no
    /// colon.
    InvalidHeaderLine(String),
    /// The header `Content-Length` does not hold a number.
    InvalidContentLength,
}

/// What a `ParseError` is made of.
pub enum Fault {
    InvalidUtf8,
    EmptyStatusLine,
    InvalidHeaderLine(Seq<char>),
    InvalidContentLength,
}

impl View for ParseError {
    type V = Fault;

    open spec fn view(&self) -> Fault {
        match *self {
            ParseError::InvalidUtf8 => Fault::InvalidUtf8,
            ParseError::EmptyStatusLine => Fault::EmptyStatusLine,
            ParseError::InvalidHeaderLine(line) => Fault::InvalidHeaderLine(line@),
            ParseError::InvalidContentLength => Fault::InvalidContentLength,
        }
    }
}

impl ParseError {
    /// The error in words.
    pub open spec fn text(self) -> Seq<char> {
        match self {
            ParseError::InvalidUtf8 => "stream did not contain valid UTF-8"@,
            ParseError::EmptyStatusLine => "Received empty status line"@,
            ParseError::InvalidHeaderLine(line) => "Invalid header line: '"@ + line@ + "'"@,
            ParseError::InvalidContentLength => "Invalid Content-Length value"@,
        }
    }

    /// The error in words.
    pub fn message(&self) -> (message: String)
        ensures
            message@ == self.text(),
    {
        match self {
            ParseError::InvalidUtf8 => "stream did not contain valid UTF-8".to_owned(),
            ParseError::EmptyStatusLine => "Received empty status line".to_owned(),
            ParseError::InvalidHeaderLine(line) => {
                let mut message = "Invalid header line: '".to_owned();
                message.append(line.as_str());
                message.append("'");
                message
            },
            ParseError::InvalidContentLength => "Invalid Content-Length value".to_owned(),
        }
    }
}

/// A request as it was read.
#[derive(Debug)]
pub struct Request {
    pub method: HttpMethod,
    pub path: Path,
    pub headers: Headers,
    pub body: String,
}

/// What a `Request` is made of.
pub struct RequestView {
    pub method: HttpMethod,
    pub path: Seq<char>,
    pub query: Seq<char>,
    pub headers: Seq<(Seq<char>, Seq<char>)>,
    pub body: Seq<char>,
}

impl View for Request {
    type V = RequestView;

    open spec fn view(&self) -> RequestView {
        RequestView {
            method: self.method,
            path: self.path.path@,
            query: self.path.query@,
            headers: self.headers@,
            body: self.body@,
        }
    }
}

/// The place behind the line that begins at `from`: behind the first line
/// feed at or after `from`, or the end of the bytes where there is none.
pub open spec fn line_end(bytes: Seq<u8>, from: int) -> int
    decreases bytes.len() - from,
{
    if from >= bytes.len() {
        bytes.len() as int
    } else if bytes[from] == 10 {
        from + 1
    } else {
        line_end(bytes, from + 1)
    }
}

/// A line ends behind its start, unless nothing is left, and within the
/// bytes.
pub proof fn lemma_line_end(bytes: Seq<u8>, from: int)
    requires
        0 <= from <= bytes.len(),
    ensures
        from <= line_end(bytes, from) <= bytes.len(),
        from < bytes.len() ==> from < line_end(bytes, from),
    decreases bytes.len() - from,
{
    if from < bytes.len() && bytes[from] != 10 {
        lemma_line_end(bytes, from + 1);
    }
}

/// The method and the target that a status line names: its first word,
/// and what stands between its first and its second space.
pub open spec fn status_of(line: Seq<char>) -> (HttpMethod, Seq<char>) {
    match split_at_first(line, ' ') {
        None => (method_of(line), Seq::empty()),
        Some((method, rest)) => match split_at_first(rest, ' ') {
            None => (method_of(method), rest),
            Some((target, _)) => (method_of(method), target),
        },
    }
}

/// The headers that stand from `from` on, and the place behind the empty
/// line that ends them. Every header line holds a name, a colon and a value;
/// white space around the name and around the value does not count.
pub open spec fn headers_of(bytes: Seq<u8>, from: int) -> Result<
    (Seq<(Seq<char>, Seq<char>)>, int),
    Fault,
>
    decreases bytes.len() - from,
{
    let end = line_end(bytes, from);
    let raw = bytes.subrange(from, end);
    if !valid_utf8(raw) {
        Err(Fault::InvalidUtf8)
    } else {
        let line = decode_utf8(raw);
        if line == "\r\n"@ {
            Ok((Seq::empty(), end))
        } else {
            match split_at_first(line, ':') {
                None => Err(Fault::InvalidHeaderLine(trimmed(line))),
                Some((name, value)) => if from < end <= bytes.len() {
                    match headers_of(bytes, end) {
                        Err(fault) => Err(fault),
                        Ok((rest, behind)) => Ok(
                            (seq![(trimmed(name), trimmed(value))] + rest, behind),
                        ),
                    }
                } else {
                    Err(Fault::InvalidHeaderLine(trimmed(line)))
                },
            }
        }
    }
}

/// The body that stands from `from` on: as many bytes as `length` says, or
/// as many as are left, read as text.
pub open spec fn body_of(bytes: Seq<u8>, from: int, length: Seq<char>) -> Result<Seq<char>, Fault> {
    match number(length) {
        None => Err(Fault::InvalidContentLength),
        Some(length) => if length > 0 {
            let end = if from + length <= bytes.len() {
                from + length
            } else {
                bytes.len() as int
            };
            Ok(lossy(bytes.subrange(from, end)))
        } else {
            Ok(Seq::empty())
        },
    }
}

/// The length of the body that the headers give: the value of
/// `Content-Length`, or zero.
pub open spec fn content_length(headers: Seq<(Seq<char>, Seq<char>)>) -> Seq<char> {
    match lookup(headers, "Content-Length"@) {
        Some(length) => length,
        None => "0"@,
    }
}

/// The request that bytes hold.
pub open spec fn request_of(bytes: Seq<u8>) -> Result<RequestView, Fault> {
    let end = line_end(bytes, 0);
    let raw = bytes.subrange(0, end);
    if !valid_utf8(raw) {
        Err(Fault::InvalidUtf8)
    } else if trimmed(decode_utf8(raw)).len() == 0 {
        Err(Fault::EmptyStatusLine)
    } else {
        let (method, target) = status_of(decode_utf8(raw));
        match headers_of(bytes, end) {
            Err(fault) => Err(fault),
            Ok((headers, behind)) => match body_of(bytes, behind, content_length(headers)) {
                Err(fault) => Err(fault),
                Ok(body) => Ok(
                    RequestView {
                        method,
                        path: path_parts(target).0,
                        query: path_parts(target).1,
                        headers,
                        body,
                    },
                ),
            },
        }
    }
}

/// The view of a request or the fault in its place.
pub open spec fn parsed(result: Result<Request, ParseError>) -> Result<RequestView, Fault> {
    match result {
        Ok(request) => Ok(request@),
        Err(error) => Err(error@),
    }
}

/// A header value without the white space around it.
pub fn clean_header_value(val: &str) -> (clean: String)
    ensures
        clean@ == trimmed(val@),
{
    trim(val).to_owned()
}

/// Reads the line that begins at `from`: its text, and the place behind
/// it.
fn read_line(buf: &[u8], from: usize) -> (line: Option<(String, usize)>)
    requires
        from <= buf@.len(),
    ensures
        match line {
            Some((text, end)) => {
                &&& end == line_end(buf@, from as int)
                &&& from <= end <= buf@.len()
                &&& valid_utf8(buf@.subrange(from as int, end as int))
                &&& text@ == decode_utf8(buf@.subrange(from as int, end as int))
            },
            None => !valid_utf8(buf@.subrange(from as int, line_end(buf@, from as int))),
        },
{
    let mut end: usize = from;
    proof {
        lemma_line_end(buf@, from as int);
    }
    while end < buf.len() && buf[end] != 10
        invariant
            from <= end <= buf@.len(),
            line_end(buf@, from as int) == line_end(buf@, end as int),
        decreases buf@.len() - end,
    {
        end += 1;
    }
    if end < buf.len() {
        end += 1;
    }
    let raw = slice_to_vec(slice_subrange(buf, from, end));
    match from_utf8(raw) {
        Some(text) => {
            proof {
                vstd::utf8::encode_utf8_decode_utf8(text@);
            }
            Some((text, end))
        },
        None => None,
    }
}

impl Request {
    /// Reads a request.
    pub fn parse(buf: &[u8]) -> (result: Result<Request, ParseError>)
        ensures
            parsed(result) == request_of(buf@),
    {
        let Some((status_line, end)) = read_line(buf, 0) else {
            return Err(ParseError::InvalidUtf8);
        };
        let (method, path) = Request::parse_status_line(status_line.as_str())?;
        let (headers, behind) = Request::parse_headers(buf, end)?;
        let body = match headers.get("Content-Length") {
            Some(length) => Request::parse_body(buf, behind, length.as_str())?,
            None => Request::parse_body(buf, behind, "0")?,
        };
        Ok(Request { method, path, headers, body })
    }

    /// Reads the method and the path from the first line of a request.
    pub fn parse_status_line(status_line: &str) -> (result: Result<(HttpMethod, Path), ParseError>)
        ensures
            match result {
                Ok((method, path)) => {
                    &&& trimmed(status_line@).len() > 0
                    &&& method == status_of(status_line@).0
                    &&& path.parts() == path_parts(status_of(status_line@).1)
                },
                Err(error) => error@ == Fault::EmptyStatusLine && trimmed(status_line@).len() == 0,
            },
    {
        if trim(status_line).unicode_len() == 0 {
            return Err(ParseError::EmptyStatusLine);
        }
        match split_once(status_line, ' ') {
            None => Ok((HttpMethod::parse(status_line), Path::build(String::new()))),
            Some((method, rest)) => {
                let target = match split_once(rest, ' ') {
                    None => rest,
                    Some((target, _)) => target,
                };
                Ok((HttpMethod::parse(method), Path::build(target.to_owned())))
            },
        }
    }

    /// Reads the headers that stand at `from` and behind, up to the empty
    /// line that ends them.
    pub fn parse_headers(buf: &[u8], from: usize) -> (result: Result<(Headers, usize), ParseError>)
        requires
            from <= buf@.len(),
        ensures
            match result {
                Ok((headers, behind)) => behind <= buf@.len() && headers_of(buf@, from as int)
                    == Ok::<(Seq<(Seq<char>, Seq<char>)>, int), Fault>((headers@, behind as int)),
                Err(error) => headers_of(buf@, from as int) == Err::<
                    (Seq<(Seq<char>, Seq<char>)>, int),
                    Fault,
                >(error@),
            },
    {
        let mut headers = Headers::new();
        let mut place: usize = from;
        loop
            invariant
                from <= place <= buf@.len(),
                match headers_of(buf@, place as int) {
                    Ok((rest, behind)) => headers_of(buf@, from as int) == Ok::<
                        (Seq<(Seq<char>, Seq<char>)>, int),
                        Fault,
                    >((headers@ + rest, behind)),
                    Err(fault) => headers_of(buf@, from as int) == Err::<
                        (Seq<(Seq<char>, Seq<char>)>, int),
                        Fault,
                    >(fault),
                },
            decreases buf@.len() - place,
        {
            proof {
                lemma_line_end(buf@, place as int);
            }
            let Some((line, end)) = read_line(buf, place) else {
                return Err(ParseError::InvalidUtf8);
            };
            if same(line.as_str(), "\r\n") {
                assert(headers@ + Seq::<(Seq<char>, Seq<char>)>::empty() =~= headers@);
                return Ok((headers, end));
            }
            match split_once(line.as_str(), ':') {
                None => {
                    return Err(ParseError::InvalidHeaderLine(clean_header_value(line.as_str())));
                },
                Some((name, value)) => {
                    proof {
                        if end == place {
                            assert(buf@.subrange(place as int, end as int) =~= Seq::<u8>::empty());
                            assert(line@.len() == 0);
                        }
                        lemma_line_end(buf@, end as int);
                    }
                    let ghost before = headers@;
                    let ghost entry = (trimmed(name@), trimmed(value@));
                    headers.insert(clean_header_value(name), clean_header_value(value));
                    proof {
                        match headers_of(buf@, end as int) {
                            Ok((rest, behind)) => {
                                assert(before + (seq![entry] + rest) =~= before.push(entry) + rest);
                            },
                            Err(_) => {},
                        }
                    }
                    place = end;
                },
            }
        }
    }

    /// Reads the body that stands at `from` and behind, of the length that
    /// `content_len` gives in decimal.
    pub fn parse_body(buf: &[u8], from: usize, content_len: &str) -> (result: Result<
        String,
        ParseError,
    >)
        requires
            from <= buf@.len(),
        ensures
            match result {
                Ok(body) => body_of(buf@, from as int, content_len@) == Ok::<Seq<char>, Fault>(
                    body@,
                ),
                Err(error) => body_of(buf@, from as int, content_len@) == Err::<Seq<char>, Fault>(
                    error@,
                ),
            },
    {
        let Some(length) = parse_number(content_len) else {
            return Err(ParseError::InvalidContentLength);
        };
        if length > 0 {
            let left = buf.len() - from;
            let end = if length <= left as u64 {
                from + length as usize
            } else {
                buf.len()
            };
            Ok(from_utf8_lossy(slice_subrange(buf, from, end)))
        } else {
            Ok(String::new())
        }
    }
}

} // verus!
