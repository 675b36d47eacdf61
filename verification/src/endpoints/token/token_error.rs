//! Errors of the token endpoint, delivered to the client as a JSON body.

use vstd::prelude::*;
use crate::handler_error::HandlerError;
use crate::handler_error::HandlerErrorView;
use crate::consts::spec_token_header;
use crate::consts::token_header;
use crate::http::HttpResponse;
use crate::http::HttpResponseView;
use crate::http::ResponseBody;
use crate::http::ResponseBodyView;
use crate::text::opt_view;
use crate::text::str_eq;
use vstd::string::StringExecFns;

verus! {

/// The error codes of a token response.
#[derive(Debug, Clone, PartialEq, Eq)]
pub enum TokenErrorCode {
    InvalidClient,
    InvalidGrant,
    InvalidRequest,
    InvalidScope,
    UnauthorizedClient,
    UnsupportedGrantType,
    ServerError,
    /// A code that none of the supported specifications defines.
    Extension(String),
}

/// A token error code with its extension text as a sequence.
pub enum TokenErrorCodeView {
    InvalidClient,
    InvalidGrant,
    InvalidRequest,
    InvalidScope,
    UnauthorizedClient,
    UnsupportedGrantType,
    ServerError,
    Extension(Seq<char>),
}

impl TokenErrorCodeView {
    /// The code as it is written in a response.
    pub open spec fn code(self) -> Seq<char> {
        match self {
            TokenErrorCodeView::InvalidClient => "invalid_client"@,
            TokenErrorCodeView::InvalidGrant => "invalid_grant"@,
            TokenErrorCodeView::InvalidRequest => "invalid_request"@,
            TokenErrorCodeView::InvalidScope => "invalid_scope"@,
            TokenErrorCodeView::UnauthorizedClient => "unauthorized_client"@,
            TokenErrorCodeView::UnsupportedGrantType => "unsupported_grant_type"@,
            TokenErrorCodeView::ServerError => "server_error"@,
            TokenErrorCodeView::Extension(ext) => ext,
        }
    }

    /// The code that a text stands for: the code that is written so, or an
    /// extension.
    pub open spec fn from_code(text: Seq<char>) -> TokenErrorCodeView {
        if text == "invalid_client"@ {
            TokenErrorCodeView::InvalidClient
        } else if text == "invalid_grant"@ {
            TokenErrorCodeView::InvalidGrant
        } else if text == "invalid_request"@ {
            TokenErrorCodeView::InvalidRequest
        } else if text == "invalid_scope"@ {
            TokenErrorCodeView::InvalidScope
        } else if text == "unauthorized_client"@ {
            TokenErrorCodeView::UnauthorizedClient
        } else if text == "unsupported_grant_type"@ {
            TokenErrorCodeView::UnsupportedGrantType
        } else if text == "server_error"@ {
            TokenErrorCodeView::ServerError
        } else {
            TokenErrorCodeView::Extension(text)
        }
    }

    /// A code that is read from a text is written as that text again.
    pub proof fn lemma_code_is_kept(text: Seq<char>)
        ensures
            Self::from_code(text).code() == text,
    {
    }
}

impl View for TokenErrorCode {
    type V = TokenErrorCodeView;

    open spec fn view(&self) -> TokenErrorCodeView {
        match self {
            TokenErrorCode::InvalidClient => TokenErrorCodeView::InvalidClient,
            TokenErrorCode::InvalidGrant => TokenErrorCodeView::InvalidGrant,
            TokenErrorCode::InvalidRequest => TokenErrorCodeView::InvalidRequest,
            TokenErrorCode::InvalidScope => TokenErrorCodeView::InvalidScope,
            TokenErrorCode::UnauthorizedClient => TokenErrorCodeView::UnauthorizedClient,
            TokenErrorCode::UnsupportedGrantType => TokenErrorCodeView::UnsupportedGrantType,
            TokenErrorCode::ServerError => TokenErrorCodeView::ServerError,
            TokenErrorCode::Extension(ext) => TokenErrorCodeView::Extension(ext@),
        }
    }
}

impl TokenErrorCode {
    /// The code as it is written in a response.
    pub fn as_str(&self) -> (code: &str)
        ensures
            code@ == self@.code(),
    {
        match self {
            TokenErrorCode::InvalidClient => "invalid_client",
            TokenErrorCode::InvalidGrant => "invalid_grant",
            TokenErrorCode::InvalidRequest => "invalid_request",
            TokenErrorCode::InvalidScope => "invalid_scope",
            TokenErrorCode::UnauthorizedClient => "unauthorized_client",
            TokenErrorCode::UnsupportedGrantType => "unsupported_grant_type",
            TokenErrorCode::ServerError => "server_error",
            TokenErrorCode::Extension(ext) => ext.as_str(),
        }
    }

    /// Reads a code as it is written in a response.
    pub fn from_code(text: &str) -> (code: TokenErrorCode)
        ensures
            code@ == TokenErrorCodeView::from_code(text@),
            code@.code() == text@,
    {
        if str_eq(text, "invalid_client") {
            TokenErrorCode::InvalidClient
        } else if str_eq(text, "invalid_grant") {
            TokenErrorCode::InvalidGrant
        } else if str_eq(text, "invalid_request") {
            TokenErrorCode::InvalidRequest
        } else if str_eq(text, "invalid_scope") {
            TokenErrorCode::InvalidScope
        } else if str_eq(text, "unauthorized_client") {
            TokenErrorCode::UnauthorizedClient
        } else if str_eq(text, "unsupported_grant_type") {
            TokenErrorCode::UnsupportedGrantType
        } else if str_eq(text, "server_error") {
            TokenErrorCode::ServerError
        } else {
            TokenErrorCode::Extension(String::from_str(text))
        }
    }

    /// Whether the code says that a grant or credential is no longer valid.
    pub fn is_invalid_grant(&self) -> (yes: bool)
        ensures
            yes == (self@ == TokenErrorCodeView::InvalidGrant),
    {
        match self {
            TokenErrorCode::InvalidGrant => true,
            _ => false,
        }
    }
}

/// What a token error tells the client: the code, and optionally a
/// description and a page about the error.
#[derive(Debug, Clone, PartialEq, Eq)]
pub struct TokenErrorResponse {
    error: TokenErrorCode,
    error_description: Option<String>,
    error_uri: Option<String>,
}

/// `TokenErrorResponse` over sequences.
pub struct TokenErrorResponseView {
    pub error: TokenErrorCodeView,
    pub error_description: Option<Seq<char>>,
    pub error_uri: Option<Seq<char>>,
}

impl View for TokenErrorResponse {
    type V = TokenErrorResponseView;

    closed spec fn view(&self) -> TokenErrorResponseView {
        TokenErrorResponseView {
            error: self.error@,
            error_description: opt_view(self.error_description),
            error_uri: opt_view(self.error_uri),
        }
    }
}

impl TokenErrorResponseView {
    /// The line that describes the error in a log: the code, then the
    /// description and the page where there are any.
    pub open spec fn message(self) -> Seq<char> {
        self.error.code() + (match self.error_description {
            Some(description) => ": "@ + description,
            None => Seq::empty(),
        }) + (match self.error_uri {
            Some(uri) => " / See "@ + uri,
            None => Seq::empty(),
        })
    }

    /// The error that stands for every failure that carries no code of its own.
    pub open spec fn server_error() -> TokenErrorResponseView {
        TokenErrorResponseView {
            error: TokenErrorCodeView::ServerError,
            error_description: None,
            error_uri: None,
        }
    }
}

impl TokenErrorResponse {
    /// An error response with the parts given.
    pub fn new(
        error: TokenErrorCode,
        error_description: Option<String>,
        error_uri: Option<String>,
    ) -> (response: TokenErrorResponse)
        ensures
            response@ == (TokenErrorResponseView {
                error: error@,
                error_description: opt_view(error_description),
                error_uri: opt_view(error_uri),
            }),
    {
        TokenErrorResponse { error, error_description, error_uri }
    }

    /// The error code.
    pub fn error(&self) -> (code: &TokenErrorCode)
        ensures
            code@ == self@.error,
    {
        &self.error
    }

    /// The description of the error, where there is one.
    pub fn error_description(&self) -> (description: Option<&String>)
        ensures
            description is Some == self@.error_description is Some,
            description is Some ==> description->Some_0@ == self@.error_description->Some_0,
    {
        self.error_description.as_ref()
    }

    /// The page about the error, where there is one.
    pub fn error_uri(&self) -> (uri: Option<&String>)
        ensures
            uri is Some == self@.error_uri is Some,
            uri is Some ==> uri->Some_0@ == self@.error_uri->Some_0,
    {
        self.error_uri.as_ref()
    }

    /// The line that describes the error in a log.
    pub fn message(&self) -> (line: String)
        ensures
            line@ == self@.message(),
    {
        let mut line = String::from_str(self.error.as_str());
        match &self.error_description {
            Some(description) => {
                line.append(": ");
                line.append(description.as_str());
            },
            None => {},
        }
        match &self.error_uri {
            Some(uri) => {
                line.append(" / See ");
                line.append(uri.as_str());
            },
            None => {},
        }
        line
    }

    /// The error that stands for every failure that carries no code of its own.
    pub fn server_error() -> (response: TokenErrorResponse)
        ensures
            response@ == TokenErrorResponseView::server_error(),
    {
        TokenErrorResponse { error: TokenErrorCode::ServerError, error_description: None, error_uri: None }
    }
}

/// The failure of a token request with a code and an optional description.
pub open spec fn spec_error(
    error: TokenErrorCodeView,
    description: Option<Seq<char>>,
) -> HandlerErrorView {
    HandlerErrorView::Token(
        TokenErrorResponseView { error, error_description: description, error_uri: None },
    )
}

/// Fails a token request with a code and an optional description.
pub fn error<T>(
    code: TokenErrorCode,
    description: Option<String>,
) -> (failed: Result<T, HandlerError>)
    ensures
        failed is Err,
        failed->Err_0@ == spec_error(code@, opt_view(description)),
{
    Err(HandlerError::Token(TokenErrorResponse::new(code, description, None)))
}

/// The response that delivers a token error: 400 Bad Request with the error
/// as its body, never to be cached.
pub open spec fn spec_error_response(response: TokenErrorResponseView) -> HttpResponseView {
    HttpResponseView {
        status: 400,
        headers: spec_token_header(),
        body: ResponseBodyView::TokenError(response),
    }
}

/// Delivers a token error to the client.
pub fn error_response(response: TokenErrorResponse) -> (answer: HttpResponse)
    ensures
        answer@ == spec_error_response(response@),
{
    HttpResponse { status: 400, headers: token_header(), body: ResponseBody::TokenError(response) }
}

} // verus!
