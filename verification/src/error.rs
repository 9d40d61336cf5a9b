//! The errors of the request layer and their HTTP status codes.

use crate::text::concat2;
use vstd::prelude::*;

verus! {

/// What went wrong while a request was served.
#[derive(Clone, Debug, PartialEq, Eq)]
pub enum RusterApiError {
    /// A generated endpoint could not do its work against the datasource.
    EndpointGenerationError(String),
    ConfigError(String),
    DatabaseError(String),
    /// The requested entity, endpoint or record does not exist.
    EntityNotFound(String),
    SerializationError(String),
    /// The request lacks something the endpoint needs.
    ValidationError(String),
    /// The request body is missing or cannot be read.
    BadRequest(String),
    AuthError(String),
    IoError(String),
    NotFound(String),
    ServerError(String),
}

/// The kind of a request-layer error, without its message.
#[derive(Clone, Copy, Debug, PartialEq, Eq, Structural)]
pub enum ApiErrorKind {
    EndpointGenerationError,
    ConfigError,
    DatabaseError,
    EntityNotFound,
    SerializationError,
    ValidationError,
    BadRequest,
    AuthError,
    IoError,
    NotFound,
    ServerError,
}

/// The mathematical content of a request-layer error: its kind and its
/// message.
pub type Refusal = (ApiErrorKind, Seq<char>);

impl View for RusterApiError {
    type V = Refusal;

    open spec fn view(&self) -> Refusal {
        match self {
            RusterApiError::EndpointGenerationError(m) => (
                ApiErrorKind::EndpointGenerationError,
                m@,
            ),
            RusterApiError::ConfigError(m) => (ApiErrorKind::ConfigError, m@),
            RusterApiError::DatabaseError(m) => (ApiErrorKind::DatabaseError, m@),
            RusterApiError::EntityNotFound(m) => (ApiErrorKind::EntityNotFound, m@),
            RusterApiError::SerializationError(m) => (ApiErrorKind::SerializationError, m@),
            RusterApiError::ValidationError(m) => (ApiErrorKind::ValidationError, m@),
            RusterApiError::BadRequest(m) => (ApiErrorKind::BadRequest, m@),
            RusterApiError::AuthError(m) => (ApiErrorKind::AuthError, m@),
            RusterApiError::IoError(m) => (ApiErrorKind::IoError, m@),
            RusterApiError::NotFound(m) => (ApiErrorKind::NotFound, m@),
            RusterApiError::ServerError(m) => (ApiErrorKind::ServerError, m@),
        }
    }
}

/// The HTTP status that an error of this kind is answered with.
pub open spec fn status_of_kind(kind: ApiErrorKind) -> u16 {
    match kind {
        ApiErrorKind::EntityNotFound => 404,
        ApiErrorKind::ValidationError => 400,
        ApiErrorKind::BadRequest => 400,
        _ => 500,
    }
}

/// The words that introduce the message of an error of this kind.
pub open spec fn kind_label(kind: ApiErrorKind) -> Seq<char> {
    match kind {
        ApiErrorKind::EndpointGenerationError => "Endpoint generation error: "@,
        ApiErrorKind::ConfigError => "Configuration error: "@,
        ApiErrorKind::DatabaseError => "Database error: "@,
        ApiErrorKind::EntityNotFound => "Entity not found: "@,
        ApiErrorKind::SerializationError => "Serialization error: "@,
        ApiErrorKind::ValidationError => "Validation error: "@,
        ApiErrorKind::BadRequest => "Bad request: "@,
        ApiErrorKind::AuthError => "Authentication error: "@,
        ApiErrorKind::IoError => "I/O error: "@,
        ApiErrorKind::NotFound => "Not found: "@,
        ApiErrorKind::ServerError => "Server error: "@,
    }
}

/// The text of an error: the label of its kind, then its message.
pub open spec fn api_error_text(error: Refusal) -> Seq<char> {
    kind_label(error.0) + error.1
}

impl ApiErrorKind {
    /// The HTTP status that an error of this kind is answered with.
    pub fn status_code(&self) -> (r: u16)
        ensures
            r == status_of_kind(*self),
    {
        match self {
            ApiErrorKind::EntityNotFound => 404,
            ApiErrorKind::ValidationError => 400,
            ApiErrorKind::BadRequest => 400,
            _ => 500,
        }
    }

    /// The words that introduce the message of an error of this kind.
    pub fn label(&self) -> (r: &'static str)
        ensures
            r@ == kind_label(*self),
    {
        match self {
            ApiErrorKind::EndpointGenerationError => "Endpoint generation error: ",
            ApiErrorKind::ConfigError => "Configuration error: ",
            ApiErrorKind::DatabaseError => "Database error: ",
            ApiErrorKind::EntityNotFound => "Entity not found: ",
            ApiErrorKind::SerializationError => "Serialization error: ",
            ApiErrorKind::ValidationError => "Validation error: ",
            ApiErrorKind::BadRequest => "Bad request: ",
            ApiErrorKind::AuthError => "Authentication error: ",
            ApiErrorKind::IoError => "I/O error: ",
            ApiErrorKind::NotFound => "Not found: ",
            ApiErrorKind::ServerError => "Server error: ",
        }
    }
}

impl RusterApiError {
    /// The kind of the error.
    pub fn kind(&self) -> (r: ApiErrorKind)
        ensures
            r == self@.0,
    {
        match self {
            RusterApiError::EndpointGenerationError(_) => ApiErrorKind::EndpointGenerationError,
            RusterApiError::ConfigError(_) => ApiErrorKind::ConfigError,
            RusterApiError::DatabaseError(_) => ApiErrorKind::DatabaseError,
            RusterApiError::EntityNotFound(_) => ApiErrorKind::EntityNotFound,
            RusterApiError::SerializationError(_) => ApiErrorKind::SerializationError,
            RusterApiError::ValidationError(_) => ApiErrorKind::ValidationError,
            RusterApiError::BadRequest(_) => ApiErrorKind::BadRequest,
            RusterApiError::AuthError(_) => ApiErrorKind::AuthError,
            RusterApiError::IoError(_) => ApiErrorKind::IoError,
            RusterApiError::NotFound(_) => ApiErrorKind::NotFound,
            RusterApiError::ServerError(_) => ApiErrorKind::ServerError,
        }
    }

    /// The message that the error carries.
    pub fn message(&self) -> (r: &String)
        ensures
            r@ == self@.1,
    {
        match self {
            RusterApiError::EndpointGenerationError(m) => m,
            RusterApiError::ConfigError(m) => m,
            RusterApiError::DatabaseError(m) => m,
            RusterApiError::EntityNotFound(m) => m,
            RusterApiError::SerializationError(m) => m,
            RusterApiError::ValidationError(m) => m,
            RusterApiError::BadRequest(m) => m,
            RusterApiError::AuthError(m) => m,
            RusterApiError::IoError(m) => m,
            RusterApiError::NotFound(m) => m,
            RusterApiError::ServerError(m) => m,
        }
    }

    /// The HTTP status that the error is answered with.
    pub fn status_code(&self) -> (r: u16)
        ensures
            r == status_of_kind(self@.0),
    {
        self.kind().status_code()
    }

    /// The text of the error, as it goes into an error body.
    pub fn to_text(&self) -> (r: String)
        ensures
            r@ == api_error_text(self@),
    {
        concat2(self.kind().label(), self.message().as_str())
    }
}

} // verus!
