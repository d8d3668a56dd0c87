//! The shape of a request that is ready to be sent.

use vstd::prelude::*;

verus! {

/// The HTTP verb of a request.
#[derive(Debug, Clone, Copy, PartialEq, Eq, Structural)]
pub enum HttpMethod {
    Get,
    Post,
    Delete,
}

/// One transport header.
#[derive(Debug, Clone)]
pub struct Header {
    pub name: String,
    pub value: String,
}

/// What a header says, as plain text.
pub struct HeaderView {
    pub name: Seq<char>,
    pub value: Seq<char>,
}

impl View for Header {
    type V = HeaderView;

    open spec fn view(&self) -> HeaderView {
        HeaderView { name: self.name@, value: self.value@ }
    }
}

/// A fully formed, signed request. It is built for one send: the signature
/// in it is bound to the timestamp it was made with.
#[derive(Debug, Clone)]
pub struct SignedRequest {
    pub method: HttpMethod,
    pub url: String,
    pub headers: Vec<Header>,
    pub body: Option<String>,
}

/// The headers of `headers`, each as plain text, in order.
pub open spec fn header_views(headers: Seq<Header>) -> Seq<HeaderView> {
    headers.map_values(|h: Header| h@)
}

/// The header with the given name and value.
pub open spec fn header(name: Seq<char>, value: Seq<char>) -> HeaderView {
    HeaderView { name, value }
}

/// Builds one header.
pub fn make_header(name: &str, value: &str) -> (h: Header)
    ensures
        h@ == header(name@, value@),
{
    Header { name: name.to_owned(), value: value.to_owned() }
}

} // verus!
