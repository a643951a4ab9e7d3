//! A request to the platform, from its parts to what is handed to the HTTP client.

use vstd::prelude::*;
use crate::builder::create_attachment::CreateAttachment;
use crate::constants::{API_ORIGIN, USER_AGENT};
use crate::http::url::{parse_url, url_parsed};
use crate::json::decimal::{decimal, decimal_text};

verus! {

/// Why the crate `http`, which `reqwest` hands on, refused a text as the value of
/// a header.
#[verifier::external_type_specification]
#[verifier::external_body]
pub struct ExInvalidHeaderValue(reqwest::header::InvalidHeaderValue);

/// Why a request could not be built.
#[derive(Debug)]
pub enum HttpError {
    /// The path of the route, with the proxy in place, is no address.
    Url(url::ParseError),
    /// The token cannot be the value of a header.
    InvalidHeader(reqwest::header::InvalidHeaderValue),
}

/// The method of a request.
#[derive(Clone, Copy, Debug, PartialEq, Eq, Structural, Hash)]
pub enum LightMethod {
    Delete,
    Get,
    Patch,
    Post,
    Put,
}

/// Where a request goes: the method and the full address of the route.
#[derive(Clone, Debug, PartialEq, Eq)]
pub struct RouteInfo {
    pub method: LightMethod,
    pub path: String,
}

/// One header: its name, in lower case, and its value.
#[derive(Clone, Debug, PartialEq, Eq)]
pub struct Header {
    pub name: String,
    pub value: String,
}

/// The parts of a request that carries files.
#[derive(Clone, Debug, PartialEq, Eq)]
pub struct Multipart {
    pub files: Vec<CreateAttachment>,
    /// The JSON text that goes with the files.
    pub payload_json: Option<String>,
}

/// A request to the platform, in its parts.
#[derive(Clone, Debug, PartialEq, Eq)]
pub struct Request {
    pub body: Option<Vec<u8>>,
    pub multipart: Option<Multipart>,
    pub headers: Option<Vec<Header>>,
    pub route: RouteInfo,
}

/// A request as it is handed to the HTTP client.
#[derive(Debug, PartialEq, Eq)]
pub struct BuiltRequest {
    pub method: LightMethod,
    /// The address, in its normal form.
    pub url: String,
    /// The headers that every request carries, in the order in which they are set.
    pub headers: Vec<Header>,
    /// The headers of the request itself, which are set after those and win over
    /// them.
    pub request_headers: Vec<Header>,
    pub body: Option<Vec<u8>>,
    pub multipart: Option<Multipart>,
}

/// Whether a character may stand in the value of a header: the tabulator, and
/// every character from the space on but the one with the number 127.
pub open spec fn header_value_char(c: char) -> bool {
    c == '\t' || (c >= ' ' && c != '\x7f')
}

/// Whether a text may be the value of a header.
pub open spec fn header_value_ok(text: Seq<char>) -> bool {
    forall|i: int| 0 <= i < text.len() ==> header_value_char(#[trigger] text[i])
}

/// Calls `HeaderValue::from_str` of the crate `http`, which `reqwest` hands on as
/// `reqwest::header`. It succeeds exactly where every byte of the text is the
/// tabulator or at least 32 and not 127; the bytes of a character beyond ASCII
/// are all above 127, so it is the same to say this of the characters.
#[verifier::external_body]
fn check_header_value(text: &str) -> (r: Result<(), reqwest::header::InvalidHeaderValue>)
    ensures
        r is Ok <==> header_value_ok(text@),
{
    match reqwest::header::HeaderValue::from_str(text) {
        Ok(_) => Ok(()),
        Err(e) => Err(e),
    }
}

/// The text in which every occurrence of `from` is replaced by `to`, found from
/// left to right without overlap.
pub uninterp spec fn replaced(text: Seq<char>, from: Seq<char>, to: Seq<char>) -> Seq<char>;

/// Calls `str::replace` of the standard library, which replaces all matches of a
/// pattern with another text.
#[verifier::external_body]
fn replace_all(text: &str, from: &str, to: &str) -> (r: String)
    ensures
        r@ == replaced(text@, from@, to@),
{
    text.replace(from, to)
}

fn header(name: &str, value: &str) -> (r: Header)
    ensures
        r.name@ == name@,
        r.value@ == value@,
{
    Header { name: name.to_owned(), value: value.to_owned() }
}

impl Request {
    /// The request for the route, with nothing else set.
    pub fn new(route_info: RouteInfo) -> (r: Self)
        ensures
            r == (Request { body: None, multipart: None, headers: None, route: route_info }),
    {
        Request { body: None, multipart: None, headers: None, route: route_info }
    }

    /// Sets the body.
    pub fn body(&mut self, body: Option<Vec<u8>>)
        ensures
            *final(self) == (Request { body, ..*old(self) }),
    {
        self.body = body;
    }

    /// Sets the files and what goes with them.
    pub fn multipart(&mut self, multipart: Option<Multipart>)
        ensures
            *final(self) == (Request { multipart, ..*old(self) }),
    {
        self.multipart = multipart;
    }

    /// Sets the headers of the request itself.
    pub fn headers(&mut self, headers: Option<Vec<Header>>)
        ensures
            *final(self) == (Request { headers, ..*old(self) }),
    {
        self.headers = headers;
    }

    /// Sets the route.
    pub fn route(&mut self, route_info: RouteInfo)
        ensures
            *final(self) == (Request { route: route_info, ..*old(self) }),
    {
        self.route = route_info;
    }

    /// The address the request goes to: the path of the route, with the proxy in
    /// place of the platform's own origin where a proxy is given.
    pub open spec fn target(&self, proxy: Option<&str>) -> Seq<char> {
        match proxy {
            Some(proxy) => replaced(self.route.path@, API_ORIGIN@, proxy@),
            None => self.route.path@,
        }
    }

    /// Whether `headers` are the headers that every request carries, for this
    /// request and the token: who asks, the token, the kind of the body where there
    /// is one, and the length of the body where no files are sent.
    pub open spec fn carries(&self, token: &str, headers: Seq<Header>) -> bool {
        let typed: int = if self.body is Some {
            1
        } else {
            0
        };
        let sized: int = if self.multipart is None {
            1
        } else {
            0
        };
        &&& headers.len() == 2 + typed + sized
        &&& headers[0].name@ == "user-agent"@
        &&& headers[0].value@ == USER_AGENT@
        &&& headers[1].name@ == "authorization"@
        &&& headers[1].value@ == token@
        &&& self.body is Some ==> headers[2].name@ == "content-type"@ && headers[2].value@
            == "application/json"@
        &&& self.multipart is None ==> {
            &&& headers[2 + typed].name@ == "content-length"@
            &&& headers[2 + typed].value@ == match self.body {
                Some(body) => decimal(body.len() as u64),
                None => "0"@,
            }
        }
    }

    /// The request as it is handed to the HTTP client, once its address `url` and
    /// its token are known to be good: the headers that every request carries, and
    /// the parts of the request as they are.
    pub fn assemble(self, url: String, token: &str) -> (built: BuiltRequest)
        ensures
            built.url == url,
            built.method == self.route.method,
            self.carries(token, built.headers@),
            built.request_headers@ == match self.headers {
                Some(headers) => headers@,
                None => Seq::empty(),
            },
            built.body == self.body,
            built.multipart == self.multipart,
    {
        let mut headers: Vec<Header> = Vec::new();
        headers.push(header("user-agent", USER_AGENT));
        headers.push(header("authorization", token));
        if self.body.is_some() {
            headers.push(header("content-type", "application/json"));
        }
        if self.multipart.is_none() {
            let length = match &self.body {
                Some(body) => decimal_text(body.len() as u64),
                None => "0".to_owned(),
            };
            headers.push(Header { name: "content-length".to_owned(), value: length });
        }
        let request_headers = match self.headers {
            Some(headers) => headers,
            None => Vec::new(),
        };
        BuiltRequest {
            method: self.route.method,
            url,
            headers,
            request_headers,
            body: self.body,
            multipart: self.multipart,
        }
    }

    /// Turns the request into what is handed to the HTTP client.
    ///
    /// It fails where the address is none, and then where the token cannot be the
    /// value of a header. The content type is set only with a body, since the
    /// platform refuses a content type without one; the content length is not set
    /// with files, since sending them sets it.
    pub fn build(self, token: &str, proxy: Option<&str>) -> (r: Result<BuiltRequest, HttpError>)
        ensures
            match r {
                Ok(built) => {
                    &&& url_parsed(self.target(proxy)) matches Some(parsed)
                    &&& header_value_ok(token@)
                    &&& built.url@ == parsed.0
                    &&& built.method == self.route.method
                    &&& self.carries(token, built.headers@)
                    &&& built.request_headers@ == match self.headers {
                        Some(headers) => headers@,
                        None => Seq::empty(),
                    }
                    &&& built.body == self.body
                    &&& built.multipart == self.multipart
                },
                Err(HttpError::Url(_)) => url_parsed(self.target(proxy)) is None,
                Err(HttpError::InvalidHeader(_)) => url_parsed(self.target(proxy)) is Some
                    && !header_value_ok(token@),
            },
    {
        let path = match proxy {
            Some(proxy) => replace_all(self.route.path.as_str(), API_ORIGIN, proxy),
            None => self.route.path.clone(),
        };
        let url = match parse_url(path.as_str()) {
            Ok(parsed) => parsed.text,
            Err(e) => {
                return Err(HttpError::Url(e));
            },
        };
        match check_header_value(token) {
            Ok(_) => {},
            Err(e) => {
                return Err(HttpError::InvalidHeader(e));
            },
        }
        Ok(self.assemble(url, token))
    }

    /// The bytes of the body, if there is one.
    pub fn body_ref(&self) -> (r: Option<&[u8]>)
        ensures
            match r {
                Some(bytes) => self.body matches Some(body) && bytes@ == body@,
                None => self.body is None,
            },
    {
        match &self.body {
            Some(body) => Some(body.as_slice()),
            None => None,
        }
    }

    /// The headers of the request itself.
    pub fn headers_ref(&self) -> (r: &Option<Vec<Header>>)
        ensures
            *r == self.headers,
    {
        &self.headers
    }

    /// The route.
    pub fn route_ref(&self) -> (r: &RouteInfo)
        ensures
            *r == self.route,
    {
        &self.route
    }

    /// The bytes of the body, if there is one, to be changed in place. Their
    /// number stays; nothing else of the request changes.
    pub fn body_mut(&mut self) -> (r: Option<&mut [u8]>)
        ensures
            match r {
                Some(bytes) => {
                    &&& old(self).body matches Some(body)
                    &&& bytes@ == body@
                    &&& final(self).body matches Some(after)
                    &&& after@ == final(bytes)@
                },
                None => old(self).body is None && final(self).body is None,
            },
            final(self).multipart == old(self).multipart,
            final(self).headers == old(self).headers,
            final(self).route == old(self).route,
    {
        match &mut self.body {
            Some(body) => Some(body.as_mut_slice()),
            None => None,
        }
    }

    /// The headers of the request itself, to be changed in place.
    pub fn headers_mut(&mut self) -> (r: &mut Option<Vec<Header>>)
        ensures
            *r == old(self).headers,
            *final(self) == (Request { headers: *final(r), ..*old(self) }),
    {
        &mut self.headers
    }

    /// The route, to be changed in place.
    pub fn route_mut(&mut self) -> (r: &mut RouteInfo)
        ensures
            *r == old(self).route,
            *final(self) == (Request { route: *final(r), ..*old(self) }),
    {
        &mut self.route
    }
}

} // verus!
