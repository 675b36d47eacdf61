//! The answers that the broker gives, as plain values: a status, headers,
//! and a body that the host writes out as JSON.

use vstd::prelude::*;
use vstd::string::StringExecFns;
use crate::endpoints::token::token_endpoint::TokenResponse;
use crate::endpoints::token::token_endpoint::TokenResponseView;
use crate::endpoints::token_error::TokenErrorResponse;
use crate::endpoints::token_error::TokenErrorResponseView;
use crate::text::pairs_view;

verus! {

/// What a response carries besides its status and headers.
#[derive(Debug, Clone, PartialEq, Eq)]
pub enum ResponseBody {
    /// Nothing.
    Empty,
    /// The tokens that a grant gave.
    Token(TokenResponse),
    /// The error that refused a grant.
    TokenError(TokenErrorResponse),
}

/// `ResponseBody` over sequences.
pub enum ResponseBodyView {
    Empty,
    Token(TokenResponseView),
    TokenError(TokenErrorResponseView),
}

impl View for ResponseBody {
    type V = ResponseBodyView;

    open spec fn view(&self) -> ResponseBodyView {
        match self {
            ResponseBody::Empty => ResponseBodyView::Empty,
            ResponseBody::Token(t) => ResponseBodyView::Token(t@),
            ResponseBody::TokenError(e) => ResponseBodyView::TokenError(e@),
        }
    }
}

/// A response of the broker.
#[derive(Debug, Clone, PartialEq, Eq)]
pub struct HttpResponse {
    pub status: u16,
    pub headers: Vec<(String, String)>,
    pub body: ResponseBody,
}

/// `HttpResponse` over sequences.
pub struct HttpResponseView {
    pub status: u16,
    pub headers: Seq<(Seq<char>, Seq<char>)>,
    pub body: ResponseBodyView,
}

impl View for HttpResponse {
    type V = HttpResponseView;

    open spec fn view(&self) -> HttpResponseView {
        HttpResponseView { status: self.status, headers: pairs_view(self.headers@), body: self.body@ }
    }
}

impl HttpResponseView {
    /// A response that sends the browser to `location`.
    pub open spec fn redirect(status: u16, location: Seq<char>) -> HttpResponseView {
        HttpResponseView {
            status,
            headers: seq![("location"@, location)],
            body: ResponseBodyView::Empty,
        }
    }

    /// A response of a status alone.
    pub open spec fn bare(status: u16) -> HttpResponseView {
        HttpResponseView { status, headers: Seq::empty(), body: ResponseBodyView::Empty }
    }

    /// 302 Found, to `location`.
    pub open spec fn found(location: Seq<char>) -> HttpResponseView {
        Self::redirect(302, location)
    }

    /// 303 See Other, to `location`.
    pub open spec fn see_other(location: Seq<char>) -> HttpResponseView {
        Self::redirect(303, location)
    }

    /// 401 Unauthorized.
    pub open spec fn unauthorized() -> HttpResponseView {
        Self::bare(401)
    }

    /// 500 Internal Server Error.
    pub open spec fn internal_error() -> HttpResponseView {
        Self::bare(500)
    }

    /// Whether the response sends the browser somewhere.
    pub open spec fn is_redirect(self) -> bool {
        exists|i: int| 0 <= i < self.headers.len() && (#[trigger] self.headers[i]).0 == "location"@
    }
}

impl HttpResponse {
    /// A response that sends the browser to `location`.
    fn redirect(status: u16, location: String) -> (response: HttpResponse)
        ensures
            response@ == HttpResponseView::redirect(status, location@),
    {
        let mut headers: Vec<(String, String)> = Vec::new();
        headers.push((String::from_str("location"), location));
        assert(pairs_view(headers@) =~= seq![("location"@, location@)]);
        HttpResponse { status, headers, body: ResponseBody::Empty }
    }

    /// A response of a status alone.
    fn bare(status: u16) -> (response: HttpResponse)
        ensures
            response@ == HttpResponseView::bare(status),
    {
        let headers: Vec<(String, String)> = Vec::new();
        assert(pairs_view(headers@) =~= Seq::<(Seq<char>, Seq<char>)>::empty());
        HttpResponse { status, headers, body: ResponseBody::Empty }
    }

    /// 302 Found, to `location`.
    pub fn found(location: String) -> (response: HttpResponse)
        ensures
            response@ == HttpResponseView::found(location@),
    {
        HttpResponse::redirect(302, location)
    }

    /// 303 See Other, to `location`.
    pub fn see_other(location: String) -> (response: HttpResponse)
        ensures
            response@ == HttpResponseView::see_other(location@),
    {
        HttpResponse::redirect(303, location)
    }

    /// 401 Unauthorized.
    pub fn unauthorized() -> (response: HttpResponse)
        ensures
            response@ == HttpResponseView::unauthorized(),
    {
        HttpResponse::bare(401)
    }

    /// 500 Internal Server Error.
    pub fn internal_error() -> (response: HttpResponse)
        ensures
            response@ == HttpResponseView::internal_error(),
    {
        HttpResponse::bare(500)
    }
}

} // verus!
