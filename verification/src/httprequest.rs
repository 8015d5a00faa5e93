//! Requests: the model of a request and its reading from text.
//!
//! A request is read line by line, the lines being the pieces of the text
//! between carriage return plus line feed. Reading never fails: a line that
//! cannot be read leaves the request as it was. Of the lines that are
//! neither request line nor header nor empty, only the last one is kept, as
//! the body; a body of several lines is not put together again.
use crate::headers::Headers;
use crate::text::{
    contains, find, find_from, lemma_find_from, split, str_contains, str_eq, str_split, str_words,
    to_chars, views, words,
};
use vstd::prelude::*;
use vstd::std_specs::convert::FromSpecImpl;
use vstd::string::*;

verus! {

/// The method of a request.
#[derive(Debug, PartialEq, Eq, Clone, Copy, Structural)]
pub enum Method {
    Get,
    Post,
    Uninitialized,
}

/// The protocol version of a request.
#[derive(Debug, PartialEq, Eq, Clone, Copy, Structural)]
pub enum Version {
    V1_1,
    V2_0,
    Uninitialized,
}

/// What a request asks for: a path, without query or fragment.
#[derive(Debug, PartialEq, Eq, Clone)]
pub enum Resource {
    Path(String),
}

/// The method that a word names: `GET` and `POST` name theirs, any other
/// word names none.
pub open spec fn method_of(word: Seq<char>) -> Method {
    if word == "GET"@ {
        Method::Get
    } else if word == "POST"@ {
        Method::Post
    } else {
        Method::Uninitialized
    }
}

/// The version that a word names: `HTTP/1.1` and `HTTP/2.0` name theirs, any
/// other word names none.
pub open spec fn version_of(word: Seq<char>) -> Version {
    if word == "HTTP/1.1"@ {
        Version::V1_1
    } else if word == "HTTP/2.0"@ {
        Version::V2_0
    } else {
        Version::Uninitialized
    }
}

impl From<&str> for Method {
    /// The method that the word `s` names.
    fn from(s: &str) -> (m: Method)
        ensures
            m == method_of(s@),
    {
        if str_eq(s, "GET") {
            Method::Get
        } else if str_eq(s, "POST") {
            Method::Post
        } else {
            Method::Uninitialized
        }
    }
}

impl FromSpecImpl<&str> for Method {
    open spec fn obeys_from_spec() -> bool {
        true
    }

    open spec fn from_spec(s: &str) -> Method {
        method_of(s@)
    }
}

impl From<&str> for Version {
    /// The version that the word `s` names.
    fn from(s: &str) -> (v: Version)
        ensures
            v == version_of(s@),
    {
        if str_eq(s, "HTTP/1.1") {
            Version::V1_1
        } else if str_eq(s, "HTTP/2.0") {
            Version::V2_0
        } else {
            Version::Uninitialized
        }
    }
}

impl FromSpecImpl<&str> for Version {
    open spec fn obeys_from_spec() -> bool {
        true
    }

    open spec fn from_spec(s: &str) -> Version {
        version_of(s@)
    }
}

impl Resource {
    /// The characters of the path.
    pub open spec fn path(&self) -> Seq<char> {
        match self {
            Resource::Path(p) => p@,
        }
    }
}

/// A request.
#[derive(Debug)]
pub struct HttpRequest {
    pub method: Method,
    pub version: Version,
    pub resource: Resource,
    pub headers: Headers,
    pub msg_body: String,
}

/// A request as a mathematical value.
pub struct RequestView {
    pub method: Method,
    pub version: Version,
    pub path: Seq<char>,
    pub headers: Map<Seq<char>, Seq<char>>,
    pub body: Seq<char>,
}

impl View for HttpRequest {
    type V = RequestView;

    open spec fn view(&self) -> RequestView {
        RequestView {
            method: self.method,
            version: self.version,
            path: self.resource.path(),
            headers: self.headers@,
            body: self.msg_body@,
        }
    }
}

/// What a request line says: method, path and version are its first three
/// words. A line of fewer words says nothing.
pub open spec fn request_line(line: Seq<char>) -> Option<(Method, Seq<char>, Version)> {
    let w = words(line);
    if w.len() >= 3 {
        Some((method_of(w[0]), w[1], version_of(w[2])))
    } else {
        None
    }
}

/// Name and value of a header line: what stands before and after the first
/// colon followed by a space. A line without one is a name without a value.
pub open spec fn header_line(line: Seq<char>) -> (Seq<char>, Seq<char>) {
    match find_from(line, ": "@, 0) {
        Some(i) => (line.take(i), line.skip(i + ": "@.len())),
        None => (line, Seq::empty()),
    }
}

/// The request before any line is read.
pub open spec fn blank_request() -> RequestView {
    RequestView {
        method: Method::Uninitialized,
        version: Version::V1_1,
        path: Seq::empty(),
        headers: Map::empty(),
        body: Seq::empty(),
    }
}

/// The request `r` after one more line is read.
pub open spec fn read_line(r: RequestView, line: Seq<char>) -> RequestView {
    if contains(line, "HTTP"@) {
        match request_line(line) {
            Some((method, path, version)) => RequestView { method, path, version, ..r },
            None => r,
        }
    } else if contains(line, ": "@) {
        RequestView { headers: r.headers.insert(header_line(line).0, header_line(line).1), ..r }
    } else if line.len() == 0 {
        r
    } else {
        RequestView { body: line, ..r }
    }
}

/// The request that a text holds.
pub open spec fn parse(text: Seq<char>) -> RequestView {
    split(text, "\r\n"@).fold_left(blank_request(), |r: RequestView, line: Seq<char>| read_line(r, line))
}

/// A line that holds `HTTP` and yet fewer than three words: a request line
/// that cannot be read.
pub open spec fn broken_request_line(line: Seq<char>) -> bool {
    contains(line, "HTTP"@) && request_line(line) is None
}

/// The text holds a request line that cannot be read.
pub open spec fn malformed(text: Seq<char>) -> bool {
    exists|i: int|
        0 <= i < split(text, "\r\n"@).len() && broken_request_line(
            #[trigger] split(text, "\r\n"@)[i],
        )
}

/// Reads a request line. Returns `None` for a line of fewer than three
/// words.
pub fn parse_request_line(s: &str) -> (r: Option<(Method, Resource, Version)>)
    ensures
        match r {
            Some((method, resource, version)) => request_line(s@) == Some(
                (method, resource.path(), version),
            ),
            None => request_line(s@) is None,
        },
{
    let w = str_words(s);
    if w.len() < 3 {
        return None;
    }
    let method = Method::from(w[0].as_str());
    let version = Version::from(w[2].as_str());
    let resource = Resource::Path(w[1].clone());
    proof {
        assert(views(w@)[0] == w@[0]@);
        assert(views(w@)[1] == w@[1]@);
        assert(views(w@)[2] == w@[2]@);
    }
    Some((method, resource, version))
}

/// Reads a header line into name and value.
pub fn parse_header_line(s: &str) -> (r: (String, String))
    ensures
        (r.0@, r.1@) == header_line(s@),
{
    let line = to_chars(s);
    let mark = to_chars(": ");
    proof {
        lemma_find_from(s@, ": "@, 0);
    }
    match find(&line, &mark, 0) {
        Some(i) => {
            let width: usize = mark.len();
            let end: usize = line.len();
            assert(i + width <= end);
            let name = s.substring_char(0, i).to_owned();
            let value = s.substring_char(i + width, end).to_owned();
            (name, value)
        },
        None => (s.to_owned(), String::new()),
    }
}

/// Tests whether the text holds a request line that cannot be read.
pub fn is_malformed(text: &str) -> (r: bool)
    ensures
        r == malformed(text@),
{
    let lines = str_split(text, "\r\n");
    let ghost all = split(text@, "\r\n"@);
    let n: usize = lines.len();
    let mut i: usize = 0;
    while i < n
        invariant
            i <= n,
            n == lines.len(),
            views(lines@) == all,
            all == split(text@, "\r\n"@),
            forall|j: int| 0 <= j < i ==> !broken_request_line(#[trigger] all[j]),
        decreases n - i,
    {
        let line: &str = lines[i].as_str();
        proof {
            assert(all[i as int] == line@);
        }
        if str_contains(line, "HTTP") && parse_request_line(line).is_none() {
            return true;
        }
        i += 1;
    }
    false
}

impl From<String> for HttpRequest {
    /// Reads a request from text.
    fn from(req: String) -> (r: HttpRequest)
        ensures
            r@ == parse(req@),
    {
        let lines = str_split(req.as_str(), "\r\n");
        let ghost all = split(req@, "\r\n"@);
        let ghost step = |r: RequestView, line: Seq<char>| read_line(r, line);
        let mut r = HttpRequest {
            method: Method::Uninitialized,
            version: Version::V1_1,
            resource: Resource::Path(String::new()),
            headers: Headers::new(),
            msg_body: String::new(),
        };
        proof {
            assert(all.take(0) =~= Seq::<Seq<char>>::empty());
        }
        let n: usize = lines.len();
        let mut i: usize = 0;
        while i < n
            invariant
                i <= n,
                n == lines.len(),
                views(lines@) == all,
                step == |r: RequestView, line: Seq<char>| read_line(r, line),
                r@ == all.take(i as int).fold_left(blank_request(), step),
            decreases n - i,
        {
            let line: &str = lines[i].as_str();
            let ghost before = r@;
            proof {
                assert(all[i as int] == line@);
                assert(all.take(i + 1).drop_last() =~= all.take(i as int));
                assert(all.take(i + 1).last() == line@);
                assert(all.take(i + 1).fold_left(blank_request(), step) == read_line(
                    before,
                    line@,
                ));
            }
            if str_contains(line, "HTTP") {
                match parse_request_line(line) {
                    Some((method, resource, version)) => {
                        r.method = method;
                        r.version = version;
                        r.resource = resource;
                    },
                    None => {},
                }
            } else if str_contains(line, ": ") {
                let (key, value) = parse_header_line(line);
                r.headers.insert(key, value);
            } else if line.is_empty() {
            } else {
                r.msg_body = line.to_owned();
            }
            assert(r@ == read_line(before, line@));
            i += 1;
        }
        proof {
            assert(all.take(n as int) =~= all);
        }
        r
    }
}

/// The conversion is stated over views, in the `ensures` of `from`: strings
/// and header fields with equal views need not be equal themselves.
impl FromSpecImpl<String> for HttpRequest {
    open spec fn obeys_from_spec() -> bool {
        false
    }

    open spec fn from_spec(req: String) -> HttpRequest {
        choose|r: HttpRequest| r@ == parse(req@)
    }
}

} // verus!
