//! A built HTTP request as the exchanges' handlers see and change it: plain
//! text for the method, the address in its parts, the headers in order, and
//! the body as text.
//!
//! Header names are in lower case, as they go over the wire.

use reqwest::header::HeaderValue;
use vstd::prelude::*;
use vstd::utf8::encode_utf8;

verus! {

/// One header of a request.
#[derive(Debug, PartialEq, Eq)]
pub struct Header {
    pub name: String,
    pub value: String,
}

/// A request that was built and is about to be sent.
#[derive(Debug, PartialEq, Eq)]
pub struct RequestParts {
    /// The method in capitals, such as `GET`.
    pub method: String,
    /// Scheme, host and port of the address.
    pub origin: String,
    /// The path of the address, from its first `/`.
    pub path: String,
    /// The query of the address, without the `?`, if there is one.
    pub query: Option<String>,
    /// The headers in the order in which they were added.
    pub headers: Vec<Header>,
    /// The body, if there is one.
    pub body: Option<String>,
}

/// The mathematical content of a [`RequestParts`].
pub ghost struct RequestView {
    pub method: Seq<char>,
    pub origin: Seq<char>,
    pub path: Seq<char>,
    pub query: Option<Seq<char>>,
    pub headers: Seq<(Seq<char>, Seq<char>)>,
    pub body: Option<Seq<char>>,
}

/// The body of a request as it was encoded for the exchange.
#[derive(Debug, PartialEq, Eq)]
pub enum EncodedBody {
    /// The request has no body.
    Absent,
    /// The body could not be encoded.
    Failed,
    /// The encoded body.
    Text(String),
}

/// The mathematical content of an [`EncodedBody`].
pub ghost enum EncodedBodyView {
    Absent,
    Failed,
    Text(Seq<char>),
}

/// The way in which an exchange wants the body of a request encoded.
#[derive(Debug, Clone, Copy, PartialEq, Eq, Structural)]
pub enum BodyEncoding {
    /// As JSON, the fields in the order in which the body declares them.
    Json,
    /// As JSON by way of a JSON document, which orders the fields of an
    /// object by name.
    JsonDocument,
    /// As `application/x-www-form-urlencoded`.
    UrlEncoded,
}

impl View for Header {
    type V = (Seq<char>, Seq<char>);

    open spec fn view(&self) -> (Seq<char>, Seq<char>) {
        (self.name@, self.value@)
    }
}

impl View for EncodedBody {
    type V = EncodedBodyView;

    open spec fn view(&self) -> EncodedBodyView {
        match self {
            EncodedBody::Absent => EncodedBodyView::Absent,
            EncodedBody::Failed => EncodedBodyView::Failed,
            EncodedBody::Text(text) => EncodedBodyView::Text(text@),
        }
    }
}

impl View for RequestParts {
    type V = RequestView;

    open spec fn view(&self) -> RequestView {
        RequestView {
            method: self.method@,
            origin: self.origin@,
            path: self.path@,
            query: crate::text::optional_text(self.query),
            headers: self.headers@.map_values(|h: Header| h@),
            body: crate::text::optional_text(self.body),
        }
    }
}

/// Whether a byte may stand in the value of a header: anything from the
/// space on, but for the delete character, and the tab.
pub open spec fn header_byte(byte: u8) -> bool {
    byte >= 32 && byte != 127 || byte == 9
}

/// Whether a text may be the value of a header.
pub open spec fn header_text(text: Seq<char>) -> bool {
    forall|i: int| 0 <= i < encode_utf8(text).len() ==> header_byte(#[trigger] encode_utf8(text)[i])
}

/// The headers with one more at the end.
pub open spec fn headers_appended(
    headers: Seq<(Seq<char>, Seq<char>)>,
    name: Seq<char>,
    value: Seq<char>,
) -> Seq<(Seq<char>, Seq<char>)> {
    headers.push((name, value))
}

/// The headers with `name` set to `value`: those of that name are taken
/// out, the others stay in their order, and the new one comes last.
pub open spec fn headers_inserted(
    headers: Seq<(Seq<char>, Seq<char>)>,
    name: Seq<char>,
    value: Seq<char>,
) -> Seq<(Seq<char>, Seq<char>)> {
    headers.filter(named_otherwise(name)).push((name, value))
}

/// The test that a header is not called `name`.
pub open spec fn named_otherwise(name: Seq<char>) -> spec_fn((Seq<char>, Seq<char>)) -> bool {
    |h: (Seq<char>, Seq<char>)| h.0 != name
}

/// The path of a request with its query behind it.
pub open spec fn target_text(request: RequestView) -> Seq<char> {
    match request.query {
        Some(query) => request.path + seq!['?'] + query,
        None => request.path,
    }
}

/// The whole address of a request.
pub open spec fn url_text(request: RequestView) -> Seq<char> {
    request.origin + target_text(request)
}

/// The body of a request, or nothing where it has none.
pub open spec fn body_text(request: RequestView) -> Seq<char> {
    match request.body {
        Some(body) => body,
        None => Seq::empty(),
    }
}

/// A query with one more pair behind it. Name and value are written as
/// they are.
pub open spec fn query_with_pair(query: Option<Seq<char>>, name: Seq<char>, value: Seq<char>) -> Seq<
    char,
> {
    match query {
        Some(query) => if query.len() == 0 {
            name + seq!['='] + value
        } else {
            query + seq!['&'] + name + seq!['='] + value
        },
        None => name + seq!['='] + value,
    }
}

/// A request that was built, or the reason why it was not, in mathematical
/// terms.
pub open spec fn built_view(built: Result<RequestParts, &'static str>) -> Result<RequestView, Seq<char>> {
    match built {
        Ok(request) => Ok(request@),
        Err(reason) => Err(reason@),
    }
}

/// A request that the builder built, if it built one, in mathematical terms.
pub open spec fn bare_view(bare: Option<RequestParts>) -> Option<RequestView> {
    match bare {
        Some(request) => Some(request@),
        None => None,
    }
}

/// Whether a status code reports a success: 200 to 299.
pub open spec fn status_is_success(status: u16) -> bool {
    200 <= status < 300
}

/// Whether a status code reports a success.
pub fn is_success(status: u16) -> (success: bool)
    ensures
        success == status_is_success(status),
{
    200 <= status && status < 300
}

/// `HeaderValue::from_str` accepts a text exactly when each of its bytes is
/// at least 32 and not 127, or is a tab.
#[verifier::external_body]
fn header_value_accepts(value: &str) -> (accepted: bool)
    ensures
        accepted == header_text(value@),
{
    HeaderValue::from_str(value).is_ok()
}

/// Whether `value` may be the value of a header.
pub fn is_header_value(value: &str) -> (valid: bool)
    ensures
        valid == header_text(value@),
{
    header_value_accepts(value)
}

/// `a` followed by `b`.
pub fn joined(a: &str, b: &str) -> (text: String)
    ensures
        text@ == a@ + b@,
{
    let mut text = a.to_owned();
    text.append(b);
    text
}

impl RequestParts {
    /// Whether the method is `GET` or `DELETE`: the two whose parameters
    /// travel in the query.
    pub fn is_get_or_delete(&self) -> (yes: bool)
        ensures
            yes == (self@.method == "GET"@ || self@.method == "DELETE"@),
    {
        self.method == "GET".to_owned() || self.method == "DELETE".to_owned()
    }

    /// The path with the query behind it.
    pub fn target(&self) -> (target: String)
        ensures
            target@ == target_text(self@),
    {
        let mut target = self.path.clone();
        match &self.query {
            Some(query) => {
                target.append("?");
                target.append(query.as_str());
                proof {
                    reveal_strlit("?");
                    assert("?"@ =~= seq!['?']);
                }
            },
            None => {},
        }
        target
    }

    /// The whole address.
    pub fn url(&self) -> (url: String)
        ensures
            url@ == url_text(self@),
    {
        let target = self.target();
        joined(self.origin.as_str(), target.as_str())
    }

    /// The body, or the empty text where there is none.
    pub fn body_or_empty(&self) -> (body: String)
        ensures
            body@ == body_text(self@),
    {
        match &self.body {
            Some(body) => body.clone(),
            None => String::new(),
        }
    }

    /// The query with the pair `name=value` behind it.
    pub fn query_with(&self, name: &str, value: &str) -> (query: String)
        ensures
            query@ == query_with_pair(self@.query, name@, value@),
    {
        let mut query = match &self.query {
            Some(query) => {
                if query.as_str().unicode_len() == 0 {
                    String::new()
                } else {
                    joined(query.as_str(), "&")
                }
            },
            None => String::new(),
        };
        proof {
            reveal_strlit("&");
            reveal_strlit("=");
            assert("&"@ =~= seq!['&']);
            assert("="@ =~= seq!['=']);
        }
        query.append(name);
        query.append("=");
        query.append(value);
        proof {
            let have = query@;
            let want = query_with_pair(self@.query, name@, value@);
            assert(have =~= want);
        }
        query
    }

    /// Adds a header behind the others.
    pub fn append_header(&mut self, name: &str, value: String)
        ensures
            final(self)@ == (RequestView {
                headers: headers_appended(old(self)@.headers, name@, value@),
                ..old(self)@
            }),
    {
        self.headers.push(Header { name: name.to_owned(), value });
        proof {
            assert(self@.headers =~= headers_appended(old(self)@.headers, name@, value@));
        }
    }

    /// Sets a header, in the place of any of the same name.
    pub fn insert_header(&mut self, name: &str, value: String)
        ensures
            final(self)@ == (RequestView {
                headers: headers_inserted(old(self)@.headers, name@, value@),
                ..old(self)@
            }),
    {
        let name = name.to_owned();
        let mut kept: Vec<Header> = Vec::new();
        let ghost all = self@.headers;
        let ghost keep = named_otherwise(name@);
        let mut i: usize = 0;
        while i < self.headers.len()
            invariant
                i <= self.headers.len(),
                all == self@.headers,
                self@ == old(self)@,
                keep == named_otherwise(name@),
                kept@.map_values(|h: Header| h@) == all.subrange(0, i as int).filter(keep),
            decreases self.headers.len() - i,
        {
            let header = &self.headers[i];
            let differs = !(header.name == name);
            proof {
                let next = all.subrange(0, i + 1);
                assert(next.drop_last() =~= all.subrange(0, i as int));
                assert(next.last() == header@);
                assert(keep(header@) == differs);
                assert(next.filter(keep) == if keep(next.last()) {
                    next.drop_last().filter(keep).push(next.last())
                } else {
                    next.drop_last().filter(keep)
                }) by {
                    reveal_with_fuel(Seq::filter, 2);
                }
            }
            if differs {
                kept.push(Header { name: header.name.clone(), value: header.value.clone() });
                proof {
                    assert(kept@.map_values(|h: Header| h@) =~= all.subrange(0, i as int).filter(keep).push(
                        header@,
                    ));
                }
            }
            i += 1;
        }
        proof {
            assert(all.subrange(0, i as int) =~= all);
        }
        kept.push(Header { name, value });
        self.headers = kept;
        proof {
            assert(self@.headers =~= headers_inserted(old(self)@.headers, name@, value@));
        }
    }
}

} // verus!
