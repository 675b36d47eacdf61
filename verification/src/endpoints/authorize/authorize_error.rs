//! Errors of the authorization endpoint, delivered to the client as query
//! parameters of a redirect.

use vstd::prelude::*;
use vstd::string::StringExecFns;
use crate::handler_error::HandlerError;
use crate::handler_error::HandlerErrorView;
use crate::http::HttpResponse;
use crate::http::HttpResponseView;
use crate::text::opt_view;
use crate::text::pairs_view;
use crate::text::str_eq;
use crate::uri::encode_form;
use crate::uri::form_urlencoded;
use crate::uri::spec_with_query;
use crate::uri::with_query;
use crate::uri::RedirectUri;

verus! {

/// The error codes of an authorization response.
#[derive(Debug, Clone, PartialEq, Eq)]
pub enum AuthorizeErrorCode {
    AccessDenied,
    AccountSelectionRequired,
    ConsentRequired,
    InteractionRequired,
    InvalidRequest,
    InvalidRequestObject,
    InvalidRequestUri,
    InvalidScope,
    LoginRequired,
    RegistrationNotSupported,
    RequestNotSupported,
    RequestUriNotSupported,
    ServerError,
    TemporarilyUnavailable,
    UnauthorizedClient,
    UnsupportedResponseType,
    /// A code that none of the supported specifications defines.
    Extension(String),
}

/// An authorization error code with its extension text as a sequence.
pub enum AuthorizeErrorCodeView {
    AccessDenied,
    AccountSelectionRequired,
    ConsentRequired,
    InteractionRequired,
    InvalidRequest,
    InvalidRequestObject,
    InvalidRequestUri,
    InvalidScope,
    LoginRequired,
    RegistrationNotSupported,
    RequestNotSupported,
    RequestUriNotSupported,
    ServerError,
    TemporarilyUnavailable,
    UnauthorizedClient,
    UnsupportedResponseType,
    Extension(Seq<char>),
}

impl AuthorizeErrorCodeView {
    /// The code as it is written in a response.
    pub open spec fn code(self) -> Seq<char> {
        match self {
            AuthorizeErrorCodeView::AccessDenied => "access_denied"@,
            AuthorizeErrorCodeView::AccountSelectionRequired => "account_selection_required"@,
            AuthorizeErrorCodeView::ConsentRequired => "consent_required"@,
            AuthorizeErrorCodeView::InteractionRequired => "interaction_required"@,
            AuthorizeErrorCodeView::InvalidRequest => "invalid_request"@,
            AuthorizeErrorCodeView::InvalidRequestObject => "invalid_request_object"@,
            AuthorizeErrorCodeView::InvalidRequestUri => "invalid_request_uri"@,
            AuthorizeErrorCodeView::InvalidScope => "invalid_scope"@,
            AuthorizeErrorCodeView::LoginRequired => "login_required"@,
            AuthorizeErrorCodeView::RegistrationNotSupported => "registration_not_supported"@,
            AuthorizeErrorCodeView::RequestNotSupported => "request_not_supported"@,
            AuthorizeErrorCodeView::RequestUriNotSupported => "request_uri_not_supported"@,
            AuthorizeErrorCodeView::ServerError => "server_error"@,
            AuthorizeErrorCodeView::TemporarilyUnavailable => "temporarily_unavailable"@,
            AuthorizeErrorCodeView::UnauthorizedClient => "unauthorized_client"@,
            AuthorizeErrorCodeView::UnsupportedResponseType => "unsupported_response_type"@,
            AuthorizeErrorCodeView::Extension(ext) => ext,
        }
    }

    /// The code that a text stands for: the code that is written so, or an
    /// extension.
    pub open spec fn from_code(text: Seq<char>) -> AuthorizeErrorCodeView {
        if text == "access_denied"@ {
            AuthorizeErrorCodeView::AccessDenied
        } else if text == "account_selection_required"@ {
            AuthorizeErrorCodeView::AccountSelectionRequired
        } else if text == "consent_required"@ {
            AuthorizeErrorCodeView::ConsentRequired
        } else if text == "interaction_required"@ {
            AuthorizeErrorCodeView::InteractionRequired
        } else if text == "invalid_request"@ {
            AuthorizeErrorCodeView::InvalidRequest
        } else if text == "invalid_request_object"@ {
            AuthorizeErrorCodeView::InvalidRequestObject
        } else if text == "invalid_request_uri"@ {
            AuthorizeErrorCodeView::InvalidRequestUri
        } else if text == "invalid_scope"@ {
            AuthorizeErrorCodeView::InvalidScope
        } else if text == "login_required"@ {
            AuthorizeErrorCodeView::LoginRequired
        } else if text == "registration_not_supported"@ {
            AuthorizeErrorCodeView::RegistrationNotSupported
        } else if text == "request_not_supported"@ {
            AuthorizeErrorCodeView::RequestNotSupported
        } else if text == "request_uri_not_supported"@ {
            AuthorizeErrorCodeView::RequestUriNotSupported
        } else if text == "server_error"@ {
            AuthorizeErrorCodeView::ServerError
        } else if text == "temporarily_unavailable"@ {
            AuthorizeErrorCodeView::TemporarilyUnavailable
        } else if text == "unauthorized_client"@ {
            AuthorizeErrorCodeView::UnauthorizedClient
        } else if text == "unsupported_response_type"@ {
            AuthorizeErrorCodeView::UnsupportedResponseType
        } else {
            AuthorizeErrorCodeView::Extension(text)
        }
    }

    /// A code that is read from a text is written as that text again.
    pub proof fn lemma_code_is_kept(text: Seq<char>)
        ensures
            Self::from_code(text).code() == text,
    {
    }
}

impl View for AuthorizeErrorCode {
    type V = AuthorizeErrorCodeView;

    open spec fn view(&self) -> AuthorizeErrorCodeView {
        match self {
            AuthorizeErrorCode::AccessDenied => AuthorizeErrorCodeView::AccessDenied,
            AuthorizeErrorCode::AccountSelectionRequired => AuthorizeErrorCodeView::AccountSelectionRequired,
            AuthorizeErrorCode::ConsentRequired => AuthorizeErrorCodeView::ConsentRequired,
            AuthorizeErrorCode::InteractionRequired => AuthorizeErrorCodeView::InteractionRequired,
            AuthorizeErrorCode::InvalidRequest => AuthorizeErrorCodeView::InvalidRequest,
            AuthorizeErrorCode::InvalidRequestObject => AuthorizeErrorCodeView::InvalidRequestObject,
            AuthorizeErrorCode::InvalidRequestUri => AuthorizeErrorCodeView::InvalidRequestUri,
            AuthorizeErrorCode::InvalidScope => AuthorizeErrorCodeView::InvalidScope,
            AuthorizeErrorCode::LoginRequired => AuthorizeErrorCodeView::LoginRequired,
            AuthorizeErrorCode::RegistrationNotSupported => AuthorizeErrorCodeView::RegistrationNotSupported,
            AuthorizeErrorCode::RequestNotSupported => AuthorizeErrorCodeView::RequestNotSupported,
            AuthorizeErrorCode::RequestUriNotSupported => AuthorizeErrorCodeView::RequestUriNotSupported,
            AuthorizeErrorCode::ServerError => AuthorizeErrorCodeView::ServerError,
            AuthorizeErrorCode::TemporarilyUnavailable => AuthorizeErrorCodeView::TemporarilyUnavailable,
            AuthorizeErrorCode::UnauthorizedClient => AuthorizeErrorCodeView::UnauthorizedClient,
            AuthorizeErrorCode::UnsupportedResponseType => AuthorizeErrorCodeView::UnsupportedResponseType,
            AuthorizeErrorCode::Extension(ext) => AuthorizeErrorCodeView::Extension(ext@),
        }
    }
}

impl AuthorizeErrorCode {
    /// The code as it is written in a response.
    pub fn as_str(&self) -> (code: &str)
        ensures
            code@ == self@.code(),
    {
        match self {
            AuthorizeErrorCode::AccessDenied => "access_denied",
            AuthorizeErrorCode::AccountSelectionRequired => "account_selection_required",
            AuthorizeErrorCode::ConsentRequired => "consent_required",
            AuthorizeErrorCode::InteractionRequired => "interaction_required",
            AuthorizeErrorCode::InvalidRequest => "invalid_request",
            AuthorizeErrorCode::InvalidRequestObject => "invalid_request_object",
            AuthorizeErrorCode::InvalidRequestUri => "invalid_request_uri",
            AuthorizeErrorCode::InvalidScope => "invalid_scope",
            AuthorizeErrorCode::LoginRequired => "login_required",
            AuthorizeErrorCode::RegistrationNotSupported => "registration_not_supported",
            AuthorizeErrorCode::RequestNotSupported => "request_not_supported",
            AuthorizeErrorCode::RequestUriNotSupported => "request_uri_not_supported",
            AuthorizeErrorCode::ServerError => "server_error",
            AuthorizeErrorCode::TemporarilyUnavailable => "temporarily_unavailable",
            AuthorizeErrorCode::UnauthorizedClient => "unauthorized_client",
            AuthorizeErrorCode::UnsupportedResponseType => "unsupported_response_type",
            AuthorizeErrorCode::Extension(ext) => ext.as_str(),
        }
    }

    /// Reads a code as it is written in a response.
    pub fn from_code(text: &str) -> (code: AuthorizeErrorCode)
        ensures
            code@ == AuthorizeErrorCodeView::from_code(text@),
            code@.code() == text@,
    {
        if str_eq(text, "access_denied") {
            AuthorizeErrorCode::AccessDenied
        } else if str_eq(text, "account_selection_required") {
            AuthorizeErrorCode::AccountSelectionRequired
        } else if str_eq(text, "consent_required") {
            AuthorizeErrorCode::ConsentRequired
        } else if str_eq(text, "interaction_required") {
            AuthorizeErrorCode::InteractionRequired
        } else if str_eq(text, "invalid_request") {
            AuthorizeErrorCode::InvalidRequest
        } else if str_eq(text, "invalid_request_object") {
            AuthorizeErrorCode::InvalidRequestObject
        } else if str_eq(text, "invalid_request_uri") {
            AuthorizeErrorCode::InvalidRequestUri
        } else if str_eq(text, "invalid_scope") {
            AuthorizeErrorCode::InvalidScope
        } else if str_eq(text, "login_required") {
            AuthorizeErrorCode::LoginRequired
        } else if str_eq(text, "registration_not_supported") {
            AuthorizeErrorCode::RegistrationNotSupported
        } else if str_eq(text, "request_not_supported") {
            AuthorizeErrorCode::RequestNotSupported
        } else if str_eq(text, "request_uri_not_supported") {
            AuthorizeErrorCode::RequestUriNotSupported
        } else if str_eq(text, "server_error") {
            AuthorizeErrorCode::ServerError
        } else if str_eq(text, "temporarily_unavailable") {
            AuthorizeErrorCode::TemporarilyUnavailable
        } else if str_eq(text, "unauthorized_client") {
            AuthorizeErrorCode::UnauthorizedClient
        } else if str_eq(text, "unsupported_response_type") {
            AuthorizeErrorCode::UnsupportedResponseType
        } else {
            AuthorizeErrorCode::Extension(String::from_str(text))
        }
    }
}

/// What an authorization error tells the client: the code, and optionally a
/// description and a page about the error.
#[derive(Debug, Clone, PartialEq, Eq)]
pub struct ErrorParams {
    pub error: AuthorizeErrorCode,
    pub error_description: Option<String>,
    pub error_uri: Option<String>,
}

/// `ErrorParams` over sequences.
pub struct ErrorParamsView {
    pub error: AuthorizeErrorCodeView,
    pub error_description: Option<Seq<char>>,
    pub error_uri: Option<Seq<char>>,
}

impl View for ErrorParams {
    type V = ErrorParamsView;

    open spec fn view(&self) -> ErrorParamsView {
        ErrorParamsView {
            error: self.error@,
            error_description: opt_view(self.error_description),
            error_uri: opt_view(self.error_uri),
        }
    }
}

impl ErrorParamsView {
    /// The line that describes the error in a log: the code, then the
    /// description where there is one.
    pub open spec fn message(self) -> Seq<char> {
        match self.error_description {
            Some(desc) => "error: "@ + self.error.code() + ", error_description: "@ + desc,
            None => "error: "@ + self.error.code(),
        }
    }

    /// The error that stands for every failure that carries no code of its own.
    pub open spec fn server_error() -> ErrorParamsView {
        ErrorParamsView {
            error: AuthorizeErrorCodeView::ServerError,
            error_description: None,
            error_uri: None,
        }
    }
}

impl ErrorParams {
    /// The line that describes the error in a log.
    pub fn message(&self) -> (line: String)
        ensures
            line@ == self@.message(),
    {
        let mut line = String::from_str("error: ");
        line.append(self.error.as_str());
        match &self.error_description {
            Some(desc) => {
                line.append(", error_description: ");
                line.append(desc.as_str());
            },
            None => {},
        }
        line
    }

    /// The error that stands for every failure that carries no code of its own.
    pub fn server_error() -> (params: ErrorParams)
        ensures
            params@ == ErrorParamsView::server_error(),
    {
        ErrorParams {
            error: AuthorizeErrorCode::ServerError,
            error_description: None,
            error_uri: None,
        }
    }
}

/// An authorization error together with the `state` that the client sent.
#[derive(Debug, Clone, PartialEq, Eq)]
pub struct ErrorResponse {
    pub params: ErrorParams,
    pub state: String,
}

/// `ErrorResponse` over sequences.
pub struct ErrorResponseView {
    pub params: ErrorParamsView,
    pub state: Seq<char>,
}

impl View for ErrorResponse {
    type V = ErrorResponseView;

    open spec fn view(&self) -> ErrorResponseView {
        ErrorResponseView { params: self.params@, state: self.state@ }
    }
}

/// The failure of an authorization request with a code and a description.
pub open spec fn spec_error(
    error: AuthorizeErrorCodeView,
    description: Seq<char>,
) -> HandlerErrorView {
    HandlerErrorView::Authorize(
        ErrorParamsView { error, error_description: Some(description), error_uri: None },
    )
}

/// Fails an authorization request with a code and a description.
pub fn error<T>(code: AuthorizeErrorCode, description: String) -> (failed: Result<T, HandlerError>)
    ensures
        failed is Err,
        failed->Err_0@ == spec_error(code@, description@),
{
    Err(
        HandlerError::Authorize(
            ErrorParams { error: code, error_description: Some(description), error_uri: None },
        ),
    )
}

/// The query parameters that deliver an error: the code, the description and
/// the page where there are any, and the client's `state`, in this order.
pub open spec fn error_pairs(response: ErrorResponseView) -> Seq<(Seq<char>, Seq<char>)> {
    seq![("error"@, response.params.error.code())] + (match response.params.error_description {
        Some(description) => seq![("error_description"@, description)],
        None => Seq::empty(),
    }) + (match response.params.error_uri {
        Some(uri) => seq![("error_uri"@, uri)],
        None => Seq::empty(),
    }) + seq![("state"@, response.state)]
}

/// Where an error sends the browser: the client's redirect URI with the
/// error's parameters as its query. `None` where the URI cannot be written.
pub open spec fn error_location(client_redirect: Seq<char>, response: ErrorResponseView) -> Option<
    Seq<char>,
> {
    match form_urlencoded(error_pairs(response)) {
        Some(query) => spec_with_query(client_redirect, query),
        None => None,
    }
}

/// The response that delivers an error to the client: a redirect to its
/// redirect URI. Where that URI cannot be written, there is no way to reach
/// the client and the response is a bare server error.
pub open spec fn spec_error_response(
    client_redirect: Seq<char>,
    response: ErrorResponseView,
) -> HttpResponseView {
    match error_location(client_redirect, response) {
        Some(location) => HttpResponseView::found(location),
        None => HttpResponseView::internal_error(),
    }
}

/// Lists the query parameters that deliver an error.
fn build_error_pairs(response: &ErrorResponse) -> (pairs: Vec<(String, String)>)
    ensures
        pairs_view(pairs@) == error_pairs(response@),
{
    let mut pairs: Vec<(String, String)> = Vec::new();
    pairs.push((String::from_str("error"), String::from_str(response.params.error.as_str())));
    match &response.params.error_description {
        Some(description) => {
            pairs.push((String::from_str("error_description"), description.clone()));
        },
        None => {},
    }
    match &response.params.error_uri {
        Some(uri) => {
            pairs.push((String::from_str("error_uri"), uri.clone()));
        },
        None => {},
    }
    pairs.push((String::from_str("state"), response.state.clone()));
    assert(pairs_view(pairs@) =~= error_pairs(response@));
    pairs
}

/// Delivers an error to the client by a redirect to its redirect URI, with
/// the error and the client's `state` as query parameters.
pub fn error_response(
    client_redirect: RedirectUri,
    response: ErrorResponse,
) -> (answer: HttpResponse)
    ensures
        answer@ == spec_error_response(client_redirect@, response@),
{
    let pairs = build_error_pairs(&response);
    match encode_form(&pairs) {
        Some(query) => match with_query(client_redirect.as_str(), query.as_str()) {
            Some(location) => HttpResponse::found(location),
            None => HttpResponse::internal_error(),
        },
        None => HttpResponse::internal_error(),
    }
}

} // verus!
