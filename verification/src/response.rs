//! Answers to HTTP requests: a status, headers, and either no body or one
//! of the pages.

use vstd::prelude::*;
use http::HeaderMap;
use crate::headers::{
    header_count, header_values, headers_insert, headers_new, is_header_name, is_header_value,
    no_headers, text_bytes, MAX_HEADER_NAMES,
};
use crate::templates::{Page, PageView};

verus! {

pub const OK: u16 = 200;

pub const NO_CONTENT: u16 = 204;

pub const SEE_OTHER: u16 = 303;

pub const BAD_REQUEST: u16 = 400;

pub const UNAUTHORIZED: u16 = 401;

pub const NOT_FOUND: u16 = 404;

pub const INTERNAL_SERVER_ERROR: u16 = 500;

/// What a response carries besides status and headers.
#[derive(Debug, PartialEq, Eq)]
pub enum Body {
    Empty,
    Html(Page),
}

/// Mathematical value of a [`Body`].
pub ghost enum BodyView {
    Empty,
    Html(PageView),
}

impl View for Body {
    type V = BodyView;

    open spec fn view(&self) -> BodyView {
        match self {
            Body::Empty => BodyView::Empty,
            Body::Html(page) => BodyView::Html(page@),
        }
    }
}

/// An answer to an HTTP request.
#[derive(Debug)]
pub struct Response {
    pub status: u16,
    pub headers: HeaderMap,
    pub body: Body,
}

/// Mathematical value of a [`Response`]: the headers are a map from
/// lower-case names to the bytes of their values.
pub ghost struct ResponseView {
    pub status: int,
    pub headers: Map<Seq<char>, Seq<u8>>,
    pub body: BodyView,
}

impl View for Response {
    type V = ResponseView;

    open spec fn view(&self) -> ResponseView {
        ResponseView { status: self.status as int, headers: header_values(self.headers), body: self.body@ }
    }
}

impl ResponseView {
    /// A response without headers and body.
    pub open spec fn empty(status: int) -> ResponseView {
        ResponseView { status, headers: no_headers(), body: BodyView::Empty }
    }

    /// A response that shows a page.
    pub open spec fn html(status: int, page: PageView) -> ResponseView {
        ResponseView { status, headers: no_headers(), body: BodyView::Html(page) }
    }

    /// The redirect that sends a browser to `uri`.
    pub open spec fn redirect(uri: Seq<char>) -> ResponseView {
        ResponseView::empty(SEE_OTHER as int).with_header("location"@, uri)
    }

    /// The same response with the header `name` set to `value`.
    pub open spec fn with_header(self, name: Seq<char>, value: Seq<char>) -> ResponseView {
        ResponseView { headers: self.headers.insert(name, text_bytes(value)), ..self }
    }
}

impl Response {
    /// A response without headers and body.
    pub fn empty(status: u16) -> (resp: Response)
        ensures
            resp@ == ResponseView::empty(status as int),
            header_count(resp.headers) == 0,
    {
        Response { status, headers: headers_new(), body: Body::Empty }
    }

    /// A response that shows a page.
    pub fn html(status: u16, page: Page) -> (resp: Response)
        ensures
            resp@ == ResponseView::html(status as int, page@),
            header_count(resp.headers) == 0,
    {
        Response { status, headers: headers_new(), body: Body::Html(page) }
    }

    /// The same response with the header `name` set to `value`.
    pub fn with_header(self, name: &str, value: &str) -> (resp: Response)
        requires
            is_header_name(name@),
            is_header_value(text_bytes(value@)),
            header_count(self.headers) < MAX_HEADER_NAMES,
        ensures
            resp@ == self@.with_header(name@, value@),
            header_count(resp.headers) <= header_count(self.headers) + 1,
    {
        let mut headers = self.headers;
        headers_insert(&mut headers, name, value);
        Response { status: self.status, headers, body: self.body }
    }

    /// The redirect that sends a browser to `uri`: "see other", with the
    /// target in the `location` header.
    pub fn redirect(uri: &str) -> (resp: Response)
        requires
            is_header_value(text_bytes(uri@)),
        ensures
            resp@ == ResponseView::redirect(uri@),
            header_count(resp.headers) <= 1,
    {
        proof {
            reveal_strlit("location");
        }
        Response::empty(SEE_OTHER).with_header("location", uri)
    }
}

} // verus!
