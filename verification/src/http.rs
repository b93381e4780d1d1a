//! Transport-level messages: a request and a response, each a list of
//! headers and a body.

use vstd::prelude::*;
use vstd::string::StringExecFns;

verus! {

/// One header line. Names are compared as written.
#[derive(Debug)]
pub struct Header {
    pub name: String,
    pub value: String,
}

/// The model of a list of headers: pairs of name and value, in the order in
/// which they were set.
pub type HeadersView = Seq<(Seq<char>, Seq<char>)>;

/// The pairs that a list of headers stands for.
pub open spec fn headers_view(headers: Seq<Header>) -> HeadersView {
    Seq::new(headers.len(), |i: int| (headers[i].name@, headers[i].value@))
}

/// The value that a list of headers gives `name`: that of the last header
/// with this name, since a later header replaces an earlier one.
pub open spec fn header_value(headers: HeadersView, name: Seq<char>) -> Option<Seq<char>>
    decreases headers.len(),
{
    if headers.len() == 0 {
        None
    } else if headers.last().0 == name {
        Some(headers.last().1)
    } else {
        header_value(headers.drop_last(), name)
    }
}

/// Setting a header makes its value the one found under its name and leaves
/// every other name as it was.
pub proof fn lemma_header_value_push(
    headers: HeadersView,
    name: Seq<char>,
    value: Seq<char>,
    other: Seq<char>,
)
    ensures
        header_value(headers.push((name, value)), name) == Some(value),
        other != name ==> header_value(headers.push((name, value)), other) == header_value(
            headers,
            other,
        ),
{
    let pushed = headers.push((name, value));
    assert(pushed.last() == (name, value));
    assert(pushed.drop_last() =~= headers);
}

fn clone_headers(headers: &Vec<Header>) -> (r: Vec<Header>)
    ensures
        headers_view(r@) == headers_view(headers@),
{
    let mut copy: Vec<Header> = Vec::new();
    let mut i: usize = 0;
    while i < headers.len()
        invariant
            i <= headers.len(),
            copy.len() == i,
            forall|j: int|
                0 <= j < i ==> copy[j].name@ == headers[j].name@ && copy[j].value@
                    == headers[j].value@,
        decreases headers.len() - i,
    {
        copy.push(Header { name: headers[i].name.clone(), value: headers[i].value.clone() });
        i += 1;
    }
    assert(headers_view(copy@) =~= headers_view(headers@));
    copy
}

fn clone_bytes(bytes: &Vec<u8>) -> (r: Vec<u8>)
    ensures
        r@ == bytes@,
{
    let mut copy: Vec<u8> = Vec::new();
    let mut i: usize = 0;
    while i < bytes.len()
        invariant
            i <= bytes.len(),
            copy@ == bytes@.take(i as int),
        decreases bytes.len() - i,
    {
        copy.push(bytes[i]);
        assert(bytes@.take(i + 1) =~= bytes@.take(i as int).push(bytes[i as int]));
        i += 1;
    }
    assert(bytes@.take(bytes.len() as int) =~= bytes@);
    copy
}

fn find_header<'a>(headers: &'a Vec<Header>, name: &str) -> (r: Option<&'a String>)
    ensures
        match r {
            Some(value) => header_value(headers_view(headers@), name@) == Some(value@),
            None => header_value(headers_view(headers@), name@) is None,
        },
{
    let wanted = String::from_str(name);
    let mut i: usize = headers.len();
    assert(headers_view(headers@).take(i as int) =~= headers_view(headers@));
    while i > 0
        invariant
            i <= headers.len(),
            wanted@ == name@,
            header_value(headers_view(headers@), name@) == header_value(
                headers_view(headers@).take(i as int),
                name@,
            ),
        decreases i,
    {
        let ghost prefix = headers_view(headers@).take(i as int);
        assert(prefix.last() == (headers[i - 1].name@, headers[i - 1].value@));
        assert(prefix.drop_last() =~= headers_view(headers@).take(i - 1));
        i -= 1;
        if headers[i].name == wanted {
            return Some(&headers[i].value);
        }
    }
    assert(headers_view(headers@).take(0).len() == 0);
    None
}

/// The model of a `Request`.
pub struct RequestView {
    pub headers: HeadersView,
    pub body: Seq<u8>,
}

/// A transport request: what a codec made of an operation's input.
#[derive(Debug)]
pub struct Request {
    headers: Vec<Header>,
    body: Vec<u8>,
}

impl View for Request {
    type V = RequestView;

    closed spec fn view(&self) -> RequestView {
        RequestView { headers: headers_view(self.headers@), body: self.body@ }
    }
}

impl Request {
    /// A request with no headers and the given body.
    pub fn new(body: Vec<u8>) -> (r: Self)
        ensures
            r@ == (RequestView { headers: Seq::empty(), body: body@ }),
    {
        let r = Request { headers: Vec::new(), body };
        assert(headers_view(r.headers@) =~= Seq::empty());
        r
    }

    /// The value of the header `name`, if it is set.
    pub fn header(&self, name: &str) -> (r: Option<&String>)
        ensures
            match r {
                Some(value) => header_value(self@.headers, name@) == Some(value@),
                None => header_value(self@.headers, name@) is None,
            },
    {
        find_header(&self.headers, name)
    }

    /// Sets the header `name` to `value`, replacing what it was set to before.
    pub fn set_header(&mut self, name: &str, value: &str)
        ensures
            final(self)@.headers == old(self)@.headers.push((name@, value@)),
            final(self)@.body == old(self)@.body,
    {
        self.headers.push(Header { name: String::from_str(name), value: String::from_str(value) });
        assert(headers_view(self.headers@) =~= headers_view(old(self).headers@).push(
            (name@, value@),
        ));
    }

    /// The body.
    pub fn body(&self) -> (r: &Vec<u8>)
        ensures
            r@ == self@.body,
    {
        &self.body
    }

    /// Replaces the body.
    pub fn set_body(&mut self, body: Vec<u8>)
        ensures
            final(self)@.body == body@,
            final(self)@.headers == old(self)@.headers,
    {
        self.body = body;
    }

    /// A copy with the same headers and body.
    pub fn duplicate(&self) -> (r: Self)
        ensures
            r@ == self@,
    {
        Request { headers: clone_headers(&self.headers), body: clone_bytes(&self.body) }
    }
}

/// The model of a `Response`.
pub struct ResponseView {
    pub status: u16,
    pub headers: HeadersView,
    pub body: Seq<u8>,
}

/// A transport response: what came back for a request.
#[derive(Debug)]
pub struct Response {
    status: u16,
    headers: Vec<Header>,
    body: Vec<u8>,
}

impl View for Response {
    type V = ResponseView;

    closed spec fn view(&self) -> ResponseView {
        ResponseView { status: self.status, headers: headers_view(self.headers@), body: self.body@ }
    }
}

impl Response {
    /// A response with the given status and body, and no headers.
    pub fn new(status: u16, body: Vec<u8>) -> (r: Self)
        ensures
            r@ == (ResponseView { status, headers: Seq::empty(), body: body@ }),
    {
        let r = Response { status, headers: Vec::new(), body };
        assert(headers_view(r.headers@) =~= Seq::empty());
        r
    }

    /// The status code.
    pub fn status(&self) -> (r: u16)
        ensures
            r == self@.status,
    {
        self.status
    }

    /// The value of the header `name`, if it is set.
    pub fn header(&self, name: &str) -> (r: Option<&String>)
        ensures
            match r {
                Some(value) => header_value(self@.headers, name@) == Some(value@),
                None => header_value(self@.headers, name@) is None,
            },
    {
        find_header(&self.headers, name)
    }

    /// Sets the header `name` to `value`, replacing what it was set to before.
    pub fn set_header(&mut self, name: &str, value: &str)
        ensures
            final(self)@.headers == old(self)@.headers.push((name@, value@)),
            final(self)@.body == old(self)@.body,
            final(self)@.status == old(self)@.status,
    {
        self.headers.push(Header { name: String::from_str(name), value: String::from_str(value) });
        assert(headers_view(self.headers@) =~= headers_view(old(self).headers@).push(
            (name@, value@),
        ));
    }

    /// The body.
    pub fn body(&self) -> (r: &Vec<u8>)
        ensures
            r@ == self@.body,
    {
        &self.body
    }
}

} // verus!
