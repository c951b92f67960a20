//! The error taxonomy of the client core.
//!
//! Every failure is returned to the caller as a value of [`MpesaError`]; nothing
//! is swallowed and nothing is retried.

use vstd::prelude::*;
use crate::wire::{body_view, spec_text, WireFieldView, WireObject};

verus! {

/// The structured error payload that the remote API reports with a
/// non-success status.
#[derive(Debug, Clone, PartialEq, Eq)]
pub struct ApiError {
    /// Identifier that the API assigned to the failed request.
    pub request_id: String,
    /// Machine-readable error code.
    pub error_code: String,
    /// Human-readable description.
    pub error_message: String,
}

/// The contents of an [`ApiError`].
pub struct ApiErrorView {
    pub request_id: Seq<char>,
    pub error_code: Seq<char>,
    pub error_message: Seq<char>,
}

impl View for ApiError {
    type V = ApiErrorView;

    open spec fn view(&self) -> ApiErrorView {
        ApiErrorView {
            request_id: self.request_id@,
            error_code: self.error_code@,
            error_message: self.error_message@,
        }
    }
}

/// The error payload that `fields` hold: present only if the request
/// identifier, the error code and the error message are all there as strings,
/// under the wire keys `requestId`, `errorCode` and `errorMessage`.
pub open spec fn spec_api_error(fields: Seq<WireFieldView>) -> Option<ApiErrorView> {
    match (
        spec_text(fields, "requestId"@),
        spec_text(fields, "errorCode"@),
        spec_text(fields, "errorMessage"@),
    ) {
        (Some(request_id), Some(error_code), Some(error_message)) => Some(
            ApiErrorView { request_id, error_code, error_message },
        ),
        _ => None,
    }
}

/// The error payload of an optional body: none where there is no body.
pub open spec fn spec_error_payload(body: Option<Seq<WireFieldView>>) -> Option<ApiErrorView> {
    match body {
        Some(fields) => spec_api_error(fields),
        None => None,
    }
}

impl ApiError {
    /// Reads the error payload from a wire object.
    pub fn from_wire(object: &WireObject) -> (decoded: Option<ApiError>)
        ensures
            api_error_option_view(decoded) == spec_api_error(object@),
    {
        let request_id = object.text("requestId");
        let error_code = object.text("errorCode");
        let error_message = object.text("errorMessage");
        match (request_id, error_code, error_message) {
            (Some(request_id), Some(error_code), Some(error_message)) => Some(
                ApiError { request_id, error_code, error_message },
            ),
            _ => None,
        }
    }

    /// Reads the error payload from the body of a reply, if it has one.
    pub fn from_body(body: &Option<WireObject>) -> (decoded: Option<ApiError>)
        ensures
            api_error_option_view(decoded) == spec_error_payload(body_view(*body)),
    {
        match body {
            Some(object) => ApiError::from_wire(object),
            None => None,
        }
    }
}

/// The contents of an optional [`ApiError`].
pub open spec fn api_error_option_view(error: Option<ApiError>) -> Option<ApiErrorView> {
    match error {
        Some(e) => Some(e@),
        None => None,
    }
}

/// Why a request value could not be built.
#[derive(Debug, Clone, Copy, PartialEq, Eq)]
pub enum BuilderError {
    /// The named required field was never set.
    UninitializedField(&'static str),
    /// The named field was given a value that failed validation.
    ValidationError(&'static str),
}

/// Why no bearer token could be had.
#[derive(Debug, Clone, PartialEq, Eq)]
pub enum AuthFailure {
    /// The token endpoint could not be reached; the transport's reason is kept.
    Unreachable(String),
    /// The token endpoint answered with a non-success status. `error` holds the
    /// structured payload where the body carried one.
    Rejected { status: u16, error: Option<ApiError> },
    /// A request was to be sent through a client whose token cache is empty.
    MissingToken,
}

/// The contents of an [`AuthFailure`].
pub enum AuthFailureView {
    Unreachable(Seq<char>),
    Rejected { status: u16, error: Option<ApiErrorView> },
    MissingToken,
}

impl View for AuthFailure {
    type V = AuthFailureView;

    open spec fn view(&self) -> AuthFailureView {
        match self {
            AuthFailure::Unreachable(reason) => AuthFailureView::Unreachable(reason@),
            AuthFailure::Rejected { status, error } => AuthFailureView::Rejected {
                status: *status,
                error: api_error_option_view(*error),
            },
            AuthFailure::MissingToken => AuthFailureView::MissingToken,
        }
    }
}

/// Everything that can go wrong between building a request and reading its
/// reply.
#[derive(Debug, Clone, PartialEq, Eq)]
pub enum MpesaError {
    /// The bearer token could not be obtained.
    AuthenticationError(AuthFailure),
    /// The QR endpoint answered with a non-success status and a structured
    /// error payload.
    MpesaDynamicQrError(ApiError),
    /// A request value could not be built.
    BuilderError(BuilderError),
    /// The exchange failed below HTTP: connection refused, timeout, TLS
    /// failure. The transport's reason is kept.
    TransportError(String),
    /// A reply arrived, but its body matched neither the success schema nor
    /// the error schema that its status called for.
    DecodingError,
}

/// The contents of an [`MpesaError`].
pub enum MpesaErrorView {
    AuthenticationError(AuthFailureView),
    MpesaDynamicQrError(ApiErrorView),
    BuilderError(BuilderError),
    TransportError(Seq<char>),
    DecodingError,
}

impl View for MpesaError {
    type V = MpesaErrorView;

    open spec fn view(&self) -> MpesaErrorView {
        match self {
            MpesaError::AuthenticationError(failure) => MpesaErrorView::AuthenticationError(
                failure@,
            ),
            MpesaError::MpesaDynamicQrError(error) => MpesaErrorView::MpesaDynamicQrError(error@),
            MpesaError::BuilderError(error) => MpesaErrorView::BuilderError(*error),
            MpesaError::TransportError(reason) => MpesaErrorView::TransportError(reason@),
            MpesaError::DecodingError => MpesaErrorView::DecodingError,
        }
    }
}

/// The result of an operation of this crate.
pub type MpesaResult<T> = Result<T, MpesaError>;

} // verus!
