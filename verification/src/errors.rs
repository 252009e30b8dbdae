//! What can go wrong, and how each failure is shown to a client.
use vstd::prelude::*;
use crate::text::concat2;
use crate::text::owned;

verus! {

/// A failure of an operation. The payload is the message of the failure.
#[derive(Debug, Clone)]
pub enum AppError {
    /// The store failed.
    Database(String),
    /// The caller could not be authenticated.
    Auth(String),
    /// The request is not acceptable.
    Validation(String),
    /// What was asked for does not exist, or is not the caller's to see.
    NotFound(String),
    /// An outside service failed.
    ExternalApi(String),
    /// The server failed.
    Internal(String),
    /// The caller is not logged in.
    Unauthorized,
    /// The caller may not do this.
    Forbidden,
}

/// A failure as a value of specifications: the kind and the characters of
/// the message.
pub enum ErrorView {
    Database(Seq<char>),
    Auth(Seq<char>),
    Validation(Seq<char>),
    NotFound(Seq<char>),
    ExternalApi(Seq<char>),
    Internal(Seq<char>),
    Unauthorized,
    Forbidden,
}

impl View for AppError {
    type V = ErrorView;

    open spec fn view(&self) -> ErrorView {
        match self {
            AppError::Database(msg) => ErrorView::Database(msg@),
            AppError::Auth(msg) => ErrorView::Auth(msg@),
            AppError::Validation(msg) => ErrorView::Validation(msg@),
            AppError::NotFound(msg) => ErrorView::NotFound(msg@),
            AppError::ExternalApi(msg) => ErrorView::ExternalApi(msg@),
            AppError::Internal(msg) => ErrorView::Internal(msg@),
            AppError::Unauthorized => ErrorView::Unauthorized,
            AppError::Forbidden => ErrorView::Forbidden,
        }
    }
}

impl AppError {
    /// The HTTP status that answers this failure.
    pub open spec fn spec_status_code(&self) -> u16 {
        match self {
            AppError::Database(_) => 500,
            AppError::Auth(_) => 401,
            AppError::Validation(_) => 400,
            AppError::NotFound(_) => 404,
            AppError::ExternalApi(_) => 502,
            AppError::Internal(_) => 500,
            AppError::Unauthorized => 401,
            AppError::Forbidden => 403,
        }
    }

    /// The text that a client is shown. The messages of store and server
    /// failures are kept from the client.
    pub open spec fn spec_client_message(&self) -> Seq<char> {
        match self {
            AppError::Database(_) => "Database error occurred"@,
            AppError::Auth(msg) => msg@,
            AppError::Validation(msg) => msg@,
            AppError::NotFound(msg) => msg@,
            AppError::ExternalApi(msg) => msg@,
            AppError::Internal(_) => "Internal server error"@,
            AppError::Unauthorized => "Unauthorized"@,
            AppError::Forbidden => "Forbidden"@,
        }
    }

    /// The full text of the failure, as it is logged.
    pub open spec fn spec_message(&self) -> Seq<char> {
        match self {
            AppError::Database(msg) => "Database error: "@ + msg@,
            AppError::Auth(msg) => "Authentication error: "@ + msg@,
            AppError::Validation(msg) => "Validation error: "@ + msg@,
            AppError::NotFound(msg) => "Not found: "@ + msg@,
            AppError::ExternalApi(msg) => "External API error: "@ + msg@,
            AppError::Internal(msg) => "Internal server error: "@ + msg@,
            AppError::Unauthorized => "Unauthorized"@,
            AppError::Forbidden => "Forbidden"@,
        }
    }

    /// A failure of the store, with its text.
    pub fn database(reason: &str) -> (e: AppError)
        ensures
            e@ == ErrorView::Database(reason@),
    {
        AppError::Database(owned(reason))
    }

    /// A failure of the server at some step: `<step>: <reason>`.
    pub fn internal(step: &str, reason: &str) -> (e: AppError)
        ensures
            e@ == ErrorView::Internal(step@ + ": "@ + reason@),
    {
        AppError::Internal(crate::text::concat3(step, ": ", reason))
    }

    /// What was asked for is not there: `<what> not found`.
    pub fn not_found(what: &str) -> (e: AppError)
        ensures
            e@ == ErrorView::NotFound(what@ + " not found"@),
    {
        AppError::NotFound(concat2(what, " not found"))
    }

    /// The HTTP status that answers this failure.
    pub fn status_code(&self) -> (code: u16)
        ensures
            code == self.spec_status_code(),
    {
        match self {
            AppError::Database(_) => 500,
            AppError::Auth(_) => 401,
            AppError::Validation(_) => 400,
            AppError::NotFound(_) => 404,
            AppError::ExternalApi(_) => 502,
            AppError::Internal(_) => 500,
            AppError::Unauthorized => 401,
            AppError::Forbidden => 403,
        }
    }

    /// The text that a client is shown.
    pub fn client_message(&self) -> (text: String)
        ensures
            text@ == self.spec_client_message(),
    {
        match self {
            AppError::Database(_) => owned("Database error occurred"),
            AppError::Auth(msg) => msg.clone(),
            AppError::Validation(msg) => msg.clone(),
            AppError::NotFound(msg) => msg.clone(),
            AppError::ExternalApi(msg) => msg.clone(),
            AppError::Internal(_) => owned("Internal server error"),
            AppError::Unauthorized => owned("Unauthorized"),
            AppError::Forbidden => owned("Forbidden"),
        }
    }

    /// The full text of the failure.
    pub fn message(&self) -> (text: String)
        ensures
            text@ == self.spec_message(),
    {
        match self {
            AppError::Database(msg) => concat2("Database error: ", msg.as_str()),
            AppError::Auth(msg) => concat2("Authentication error: ", msg.as_str()),
            AppError::Validation(msg) => concat2("Validation error: ", msg.as_str()),
            AppError::NotFound(msg) => concat2("Not found: ", msg.as_str()),
            AppError::ExternalApi(msg) => concat2("External API error: ", msg.as_str()),
            AppError::Internal(msg) => concat2("Internal server error: ", msg.as_str()),
            AppError::Unauthorized => owned("Unauthorized"),
            AppError::Forbidden => owned("Forbidden"),
        }
    }
}

} // verus!
