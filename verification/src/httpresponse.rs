//! Responses: the model of a response and its writing out.
//!
//! A response is written as the status line, one line for each header
//! field, the length of the body in bytes under `Content-Length`, an empty
//! line, and the body. The length is always computed from the body and
//! comes after the other fields.
use crate::decimal::{decimal, decimal_string};
use crate::headers::{Field, Headers};
use crate::text::{ends_with, str_eq};
use vstd::prelude::*;
use vstd::std_specs::convert::FromSpecImpl;
use vstd::string::*;
use vstd::utf8::encode_utf8;

verus! {

/// A response.
#[derive(Debug, PartialEq, Clone)]
pub struct HttpResponse<'a> {
    pub version: &'a str,
    pub status_code: &'a str,
    pub status_text: &'a str,
    pub headers: Option<Headers>,
    pub body: Option<String>,
}

/// A response as a mathematical value. The header fields stand in the order
/// in which they are written out.
pub struct ResponseView {
    pub version: Seq<char>,
    pub status_code: Seq<char>,
    pub status_text: Seq<char>,
    pub headers: Option<Seq<Field>>,
    pub body: Option<Seq<char>>,
}

impl<'a> View for HttpResponse<'a> {
    type V = ResponseView;

    open spec fn view(&self) -> ResponseView {
        ResponseView {
            version: self.version@,
            status_code: self.status_code@,
            status_text: self.status_text@,
            headers: match self.headers {
                Some(h) => Some(h.entries()),
                None => None,
            },
            body: match self.body {
                Some(b) => Some(b@),
                None => None,
            },
        }
    }
}

/// The text that goes with a status code.
pub open spec fn status_text_of(code: Seq<char>) -> Seq<char> {
    if code == "200"@ {
        "OK"@
    } else if code == "400"@ {
        "Bad Request"@
    } else if code == "404"@ {
        "Not Found"@
    } else if code == "500"@ {
        "Internal Server Error"@
    } else {
        "Unknown"@
    }
}

/// The header fields of a response for which none were given.
pub open spec fn default_fields() -> Seq<Field> {
    seq![("Content-Type"@, "text/html"@)]
}

/// The response that `new` makes of a status code, header fields and a body.
pub open spec fn new_response(
    code: Seq<char>,
    headers: Option<Seq<Field>>,
    body: Option<Seq<char>>,
) -> ResponseView {
    ResponseView {
        version: "HTTP/1.1"@,
        status_code: code,
        status_text: status_text_of(code),
        headers: match headers {
            Some(h) => Some(h),
            None => Some(default_fields()),
        },
        body,
    }
}

/// The line of one header field.
pub open spec fn field_line(f: Field) -> Seq<char> {
    f.0 + ": "@ + f.1 + "\r\n"@
}

/// The lines of header fields, one after the other.
pub open spec fn field_lines(e: Seq<Field>) -> Seq<char>
    decreases e.len(),
{
    if e.len() == 0 {
        Seq::empty()
    } else {
        field_lines(e.drop_last()) + field_line(e.last())
    }
}

/// The header lines of a response; none where it has no header fields.
pub open spec fn header_text(r: ResponseView) -> Seq<char> {
    match r.headers {
        Some(e) => field_lines(e),
        None => Seq::empty(),
    }
}

/// The body of a response; empty where it has none.
pub open spec fn body_text(r: ResponseView) -> Seq<char> {
    match r.body {
        Some(b) => b,
        None => Seq::empty(),
    }
}

/// The status line of a response, with its line end.
pub open spec fn status_line(r: ResponseView) -> Seq<char> {
    r.version + " "@ + r.status_code + " "@ + r.status_text + "\r\n"@
}

/// What follows the header lines: the length of the body in bytes, an empty
/// line, and the body.
pub open spec fn framed_body(r: ResponseView) -> Seq<char> {
    "Content-Length: "@ + decimal(encode_utf8(body_text(r)).len()) + "\r\n\r\n"@ + body_text(r)
}

/// A response as it is written out.
pub open spec fn wire(r: ResponseView) -> Seq<char> {
    status_line(r) + header_text(r) + framed_body(r)
}

/// Whatever a response holds, what is written ends with the length of its
/// body in bytes under `Content-Length`, an empty line, and the body. So it
/// is for the response that `new` makes of any status code, header fields
/// and body.
pub proof fn lemma_length_is_framed(r: ResponseView)
    ensures
        ends_with(wire(r), framed_body(r)),
        framed_body(r) == "Content-Length: "@ + decimal(encode_utf8(body_text(r)).len())
            + "\r\n\r\n"@ + body_text(r),
{
    let w = wire(r);
    let f = framed_body(r);
    assert(w.subrange(w.len() - f.len(), w.len() as int) =~= f);
}

/// The response that `new` makes of a body has that body, and so its length
/// in bytes, at the end of what is written.
pub proof fn lemma_new_is_framed(
    code: Seq<char>,
    headers: Option<Seq<Field>>,
    body: Option<Seq<char>>,
)
    ensures
        body_text(new_response(code, headers, body)) == match body {
            Some(b) => b,
            None => Seq::empty(),
        },
        ends_with(
            wire(new_response(code, headers, body)),
            framed_body(new_response(code, headers, body)),
        ),
{
    lemma_length_is_framed(new_response(code, headers, body));
}

/// Two responses that are the same value are written the same. Two that
/// differ in their header fields only are written the same but for their
/// header lines, which stand between the same status line and the same
/// length and body.
pub proof fn lemma_written_alike(a: ResponseView, b: ResponseView)
    requires
        a.version == b.version,
        a.status_code == b.status_code,
        a.status_text == b.status_text,
        a.body == b.body,
    ensures
        wire(a) == status_line(a) + header_text(a) + framed_body(a),
        wire(b) == status_line(a) + header_text(b) + framed_body(a),
        a.headers == b.headers ==> wire(a) == wire(b),
{
}

/// The text that goes with a status code.
pub fn status_text_for(code: &str) -> (r: &'static str)
    ensures
        r@ == status_text_of(code@),
{
    if str_eq(code, "200") {
        "OK"
    } else if str_eq(code, "400") {
        "Bad Request"
    } else if str_eq(code, "404") {
        "Not Found"
    } else if str_eq(code, "500") {
        "Internal Server Error"
    } else {
        "Unknown"
    }
}

impl<'a> Default for HttpResponse<'a> {
    fn default() -> (r: HttpResponse<'a>)
        ensures
            r@ == (ResponseView {
                version: "HTTP/1.1"@,
                status_code: "200"@,
                status_text: "OK"@,
                headers: None,
                body: None,
            }),
    {
        HttpResponse {
            version: "HTTP/1.1",
            status_code: "200",
            status_text: "OK",
            headers: None,
            body: None,
        }
    }
}

impl<'a> HttpResponse<'a> {
    /// A response with the given status code, header fields and body. Without
    /// header fields it gets the content type of a page.
    pub fn new(status_code: &'a str, headers: Option<Headers>, body: Option<String>) -> (r: Self)
        ensures
            r@ == new_response(
                status_code@,
                match headers {
                    Some(h) => Some(h.entries()),
                    None => None,
                },
                match body {
                    Some(b) => Some(b@),
                    None => None,
                },
            ),
    {
        let headers = match headers {
            Some(h) => h,
            None => {
                let mut h = Headers::new();
                h.insert("Content-Type".to_owned(), "text/html".to_owned());
                proof {
                    assert(h.entries() =~= default_fields());
                }
                h
            },
        };
        HttpResponse {
            version: "HTTP/1.1",
            status_code,
            status_text: status_text_for(status_code),
            headers: Some(headers),
            body,
        }
    }

    /// The version.
    pub fn get_version(&self) -> (r: &str)
        ensures
            r@ == self@.version,
    {
        self.version
    }

    /// The status code.
    pub fn get_status_code(&self) -> (r: &str)
        ensures
            r@ == self@.status_code,
    {
        self.status_code
    }

    /// The status text.
    pub fn get_status_text(&self) -> (r: &str)
        ensures
            r@ == self@.status_text,
    {
        self.status_text
    }

    /// The header lines.
    pub fn get_headers(&self) -> (r: String)
        ensures
            r@ == header_text(self@),
    {
        let mut out = String::new();
        match &self.headers {
            Some(h) => {
                let ghost e = h.entries();
                let n: usize = h.len();
                let mut i: usize = 0;
                proof {
                    assert(e.take(0) =~= Seq::<Field>::empty());
                }
                while i < n
                    invariant
                        i <= n,
                        n == e.len(),
                        e == h.entries(),
                        out@ == field_lines(e.take(i as int)),
                    decreases n - i,
                {
                    match h.field(i) {
                        Some((k, v)) => {
                            proof {
                                assert(e.take(i + 1).drop_last() =~= e.take(i as int));
                                assert(e.take(i + 1).last() == (k@, v@));
                                assert(field_lines(e.take(i + 1)) =~= out@ + k@ + ": "@ + v@
                                    + "\r\n"@);
                            }
                            out.append(k.as_str());
                            out.append(": ");
                            out.append(v.as_str());
                            out.append("\r\n");
                        },
                        None => {},
                    }
                    i += 1;
                }
                proof {
                    assert(e.take(n as int) =~= e);
                }
            },
            None => {},
        }
        out
    }

    /// The body; empty where there is none.
    pub fn get_body(&self) -> (r: &str)
        ensures
            r@ == body_text(self@),
    {
        match &self.body {
            Some(body) => body.as_str(),
            None => {
                proof {
                    reveal_strlit("");
                    assert(""@ =~= Seq::<char>::empty());
                }
                ""
            },
        }
    }

    /// The response as it is written out.
    pub fn to_wire(&self) -> (r: String)
        ensures
            r@ == wire(self@),
    {
        let body = self.get_body();
        let length: usize = body.as_bytes().len();
        let mut out = self.get_version().to_owned();
        out.append(" ");
        out.append(self.get_status_code());
        out.append(" ");
        out.append(self.get_status_text());
        out.append("\r\n");
        out.append(self.get_headers().as_str());
        out.append("Content-Length: ");
        out.append(decimal_string(length as u64).as_str());
        out.append("\r\n\r\n");
        out.append(body);
        proof {
            assert(out@ =~= wire(self@));
        }
        out
    }

    /// Writes the response out at the end of `stream`.
    pub fn send_response(&self, stream: &mut Vec<u8>) -> (r: Result<(), ()>)
        ensures
            r is Ok,
            final(stream)@ == old(stream)@ + encode_utf8(wire(self@)),
    {
        let text = self.to_wire();
        let mut bytes = text.as_str().as_bytes_vec();
        stream.append(&mut bytes);
        Ok(())
    }
}

impl<'a> From<HttpResponse<'a>> for String {
    /// The response as it is written out.
    fn from(resp: HttpResponse<'a>) -> (r: String)
        ensures
            r@ == wire(resp@),
    {
        resp.to_wire()
    }
}

/// The conversion is stated over views, in the `ensures` of `from`: a string
/// is known by its characters only.
impl<'a> FromSpecImpl<HttpResponse<'a>> for String {
    open spec fn obeys_from_spec() -> bool {
        false
    }

    open spec fn from_spec(resp: HttpResponse<'a>) -> String {
        choose|s: String| s@ == wire(resp@)
    }
}

} // verus!
