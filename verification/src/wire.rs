//! The wire-level model: methods, headers, requests and responses.
//!
//! A request is a method, an absolute URL, a header set and a byte body;
//! a response is a status code, a header set and a byte body. These are
//! the only on-the-wire shapes the pipeline produces or consumes; a
//! transport backend converts them to whatever its network stack expects.

use crate::error::HeaderError;
use crate::error::HeaderErrorView;
use vstd::prelude::*;
use vstd::string::StrSliceExecFns;

verus! {

/// An HTTP request method.
#[derive(Clone, Copy, PartialEq, Eq, Structural, Debug)]
pub enum Method {
    Get,
    Head,
    Post,
    Put,
    Delete,
    Connect,
    Options,
    Trace,
    Patch,
}

impl Default for Method {
    /// The default method is GET.
    fn default() -> (r: Self)
        ensures
            r == Method::Get,
    {
        Method::Get
    }
}

/// One header: an optional name and a value.
///
/// The name is absent on the extra entries of a multi-valued header;
/// the request-building step rejects a nameless entry.
#[derive(Clone, PartialEq, Eq, Debug)]
pub struct HeaderEntry {
    pub name: Option<String>,
    pub value: String,
}

/// The mathematical value of a [`HeaderEntry`].
pub struct HeaderEntryView {
    pub name: Option<Seq<char>>,
    pub value: Seq<char>,
}

impl View for HeaderEntry {
    type V = HeaderEntryView;

    open spec fn view(&self) -> HeaderEntryView {
        HeaderEntryView {
            name: match self.name {
                Some(n) => Some(n@),
                None => None,
            },
            value: self.value@,
        }
    }
}

/// True of the characters a header name may hold: the HTTP token
/// characters (letters, digits and `! # $ % & ' * + - . ^ _ \` | ~`).
pub open spec fn spec_header_name_char(c: char) -> bool {
    let u = c as u32;
    ('a' as u32 <= u && u <= 'z' as u32) || ('A' as u32 <= u && u <= 'Z' as u32) || ('0' as u32
        <= u && u <= '9' as u32) || u == '!' as u32 || u == '#' as u32 || u == '$' as u32 || u
        == '%' as u32 || u == '&' as u32 || u == '\'' as u32 || u == '*' as u32 || u == '+' as u32
        || u == '-' as u32 || u == '.' as u32 || u == '^' as u32 || u == '_' as u32 || u
        == '`' as u32 || u == '|' as u32 || u == '~' as u32
}

/// True of the characters a header value may hold: horizontal tab,
/// space and the visible ASCII characters.
pub open spec fn spec_header_value_char(c: char) -> bool {
    let u = c as u32;
    u == '\t' as u32 || (' ' as u32 <= u && u <= '~' as u32)
}

/// A valid header name: non-empty and made of token characters.
pub open spec fn spec_valid_header_name(s: Seq<char>) -> bool {
    s.len() > 0 && forall|i: int| 0 <= i < s.len() ==> spec_header_name_char(#[trigger] s[i])
}

/// A valid header value: made of value characters.
pub open spec fn spec_valid_header_value(s: Seq<char>) -> bool {
    forall|i: int| 0 <= i < s.len() ==> spec_header_value_char(#[trigger] s[i])
}

/// Decides [`spec_header_name_char`].
pub fn header_name_char(c: char) -> (r: bool)
    ensures
        r == spec_header_name_char(c),
{
    let u = c as u32;
    ('a' as u32 <= u && u <= 'z' as u32) || ('A' as u32 <= u && u <= 'Z' as u32) || ('0' as u32
        <= u && u <= '9' as u32) || u == '!' as u32 || u == '#' as u32 || u == '$' as u32 || u
        == '%' as u32 || u == '&' as u32 || u == '\'' as u32 || u == '*' as u32 || u == '+' as u32
        || u == '-' as u32 || u == '.' as u32 || u == '^' as u32 || u == '_' as u32 || u
        == '`' as u32 || u == '|' as u32 || u == '~' as u32
}

/// Decides [`spec_header_value_char`].
pub fn header_value_char(c: char) -> (r: bool)
    ensures
        r == spec_header_value_char(c),
{
    let u = c as u32;
    u == '\t' as u32 || (' ' as u32 <= u && u <= '~' as u32)
}

/// Decides [`spec_valid_header_name`].
pub fn valid_header_name(s: &str) -> (r: bool)
    ensures
        r == spec_valid_header_name(s@),
{
    let n = s.unicode_len();
    if n == 0 {
        return false;
    }
    let mut i: usize = 0;
    while i < n
        invariant
            i <= n,
            n == s@.len(),
            forall|j: int| 0 <= j < i ==> spec_header_name_char(#[trigger] s@[j]),
        decreases n - i,
    {
        if !header_name_char(s.get_char(i)) {
            return false;
        }
        i = i + 1;
    }
    true
}

/// Decides [`spec_valid_header_value`].
pub fn valid_header_value(s: &str) -> (r: bool)
    ensures
        r == spec_valid_header_value(s@),
{
    let n = s.unicode_len();
    let mut i: usize = 0;
    while i < n
        invariant
            i <= n,
            n == s@.len(),
            forall|j: int| 0 <= j < i ==> spec_header_value_char(#[trigger] s@[j]),
        decreases n - i,
    {
        if !header_value_char(s.get_char(i)) {
            return false;
        }
        i = i + 1;
    }
    true
}

/// An ordered set of headers.
#[derive(Clone, PartialEq, Eq, Debug, Default)]
pub struct HeaderMap(pub Vec<HeaderEntry>);

impl View for HeaderMap {
    type V = Seq<HeaderEntryView>;

    open spec fn view(&self) -> Seq<HeaderEntryView> {
        self.0@.map_values(|e: HeaderEntry| e@)
    }
}

impl HeaderMap {
    /// Every entry is named, and the names and values are valid.
    pub open spec fn wf(&self) -> bool {
        forall|i: int|
            0 <= i < self@.len() ==> ((#[trigger] self@[i]).name matches Some(n)
                && spec_valid_header_name(n) && spec_valid_header_value(self@[i].value))
    }

    /// An empty header set.
    pub fn new() -> (r: Self)
        ensures
            r@ == Seq::<HeaderEntryView>::empty(),
            r.wf(),
    {
        HeaderMap(Vec::new())
    }

    /// How many entries the set holds.
    pub fn len(&self) -> (r: usize)
        ensures
            r == self@.len(),
    {
        self.0.len()
    }

    /// Adds a header known to be valid.
    pub fn insert(&mut self, name: String, value: String)
        requires
            spec_valid_header_name(name@),
            spec_valid_header_value(value@),
        ensures
            final(self)@ == old(self)@.push(
                HeaderEntryView { name: Some(name@), value: value@ },
            ),
            old(self).wf() ==> final(self).wf(),
    {
        let ghost before = self@;
        let ghost nv = name@;
        let ghost vv = value@;
        self.0.push(HeaderEntry { name: Some(name), value });
        proof {
            assert(self@ =~= before.push(HeaderEntryView { name: Some(nv), value: vv }));
        }
    }

    /// Adds a header after checking it: a name or value that a header
    /// may not hold is refused, carrying the offending text.
    pub fn try_insert(&mut self, name: String, value: String) -> (r: Result<(), HeaderError>)
        ensures
            !spec_valid_header_name(name@) ==> (r matches Err(e) && e@ == HeaderErrorView::Parse(
                name@,
            ) && final(self)@ == old(self)@),
            spec_valid_header_name(name@) && !spec_valid_header_value(value@) ==> (r matches Err(e)
                && e@ == HeaderErrorView::Parse(value@) && final(self)@ == old(self)@),
            spec_valid_header_name(name@) && spec_valid_header_value(value@) ==> r is Ok
                && final(self)@ == old(self)@.push(
                HeaderEntryView { name: Some(name@), value: value@ },
            ),
    {
        if !valid_header_name(name.as_str()) {
            return Err(HeaderError::Parse(name));
        }
        if !valid_header_value(value.as_str()) {
            return Err(HeaderError::Parse(value));
        }
        self.insert(name, value);
        Ok(())
    }
}

/// A request under construction: everything but the body.
#[derive(Clone, PartialEq, Eq, Debug)]
pub struct RequestBuilder {
    pub method: Method,
    pub uri: String,
    pub headers: HeaderMap,
}

/// The mathematical value of a [`RequestBuilder`].
pub struct RequestBuilderView {
    pub method: Method,
    pub uri: Seq<char>,
    pub headers: Seq<HeaderEntryView>,
}

impl View for RequestBuilder {
    type V = RequestBuilderView;

    open spec fn view(&self) -> RequestBuilderView {
        RequestBuilderView { method: self.method, uri: self.uri@, headers: self.headers@ }
    }
}

impl RequestBuilder {
    /// Adds a header known to be valid.
    pub fn header(self, name: String, value: String) -> (r: Self)
        requires
            spec_valid_header_name(name@),
            spec_valid_header_value(value@),
        ensures
            r@.method == self@.method,
            r@.uri == self@.uri,
            r@.headers == self@.headers.push(
                HeaderEntryView { name: Some(name@), value: value@ },
            ),
    {
        let mut headers = self.headers;
        headers.insert(name, value);
        RequestBuilder { method: self.method, uri: self.uri, headers }
    }

    /// Attaches the body, finishing the request.
    pub fn body(self, body: Vec<u8>) -> (r: Request)
        ensures
            r@ == (RequestView {
                method: self@.method,
                uri: self@.uri,
                headers: self@.headers,
                body: body@,
            }),
    {
        Request { method: self.method, uri: self.uri, headers: self.headers, body }
    }
}

/// A complete request: method, absolute URL, headers and byte body.
#[derive(Clone, PartialEq, Eq, Debug)]
pub struct Request {
    pub method: Method,
    pub uri: String,
    pub headers: HeaderMap,
    pub body: Vec<u8>,
}

/// The mathematical value of a [`Request`].
pub struct RequestView {
    pub method: Method,
    pub uri: Seq<char>,
    pub headers: Seq<HeaderEntryView>,
    pub body: Seq<u8>,
}

impl View for Request {
    type V = RequestView;

    open spec fn view(&self) -> RequestView {
        RequestView {
            method: self.method,
            uri: self.uri@,
            headers: self.headers@,
            body: self.body@,
        }
    }
}

/// A response: status code, headers and byte body.
#[derive(Clone, PartialEq, Eq, Debug)]
pub struct Response {
    pub status: u16,
    pub headers: HeaderMap,
    pub body: Vec<u8>,
}

/// The mathematical value of a [`Response`].
pub struct ResponseView {
    pub status: u16,
    pub headers: Seq<HeaderEntryView>,
    pub body: Seq<u8>,
}

impl View for Response {
    type V = ResponseView;

    open spec fn view(&self) -> ResponseView {
        ResponseView { status: self.status, headers: self.headers@, body: self.body@ }
    }
}

/// A successful status code: one in the 2xx class.
pub open spec fn spec_status_is_success(status: u16) -> bool {
    200 <= status && status < 300
}

impl Response {
    /// Whether the status code is in the 2xx class.
    pub fn status_is_success(&self) -> (r: bool)
        ensures
            r == spec_status_is_success(self@.status),
    {
        200 <= self.status && self.status < 300
    }
}

} // verus!
