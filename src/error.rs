//! The closed set of failures a question can end in.
use vstd::prelude::*;

verus! {

/// Why a question got no answer.
#[derive(Debug)]
pub enum AppError {
    /// The provider was reached, but its reply could not be read as an answer.
    ModelError { model_name: String, failure_str: String },
    /// The credentials, the transport or the provider's HTTP status failed.
    ApiError { model_name: String, failure_str: String },
    /// Anything not otherwise classified.
    UnexpectedError(String),
}

/// An `AppError` with its texts as sequences of characters.
pub enum ErrorView {
    Model { model_name: Seq<char>, failure_str: Seq<char> },
    Api { model_name: Seq<char>, failure_str: Seq<char> },
    Unexpected(Seq<char>),
}

impl View for AppError {
    type V = ErrorView;

    open spec fn view(&self) -> ErrorView {
        match self {
            AppError::ModelError { model_name, failure_str } => ErrorView::Model {
                model_name: model_name@,
                failure_str: failure_str@,
            },
            AppError::ApiError { model_name, failure_str } => ErrorView::Api {
                model_name: model_name@,
                failure_str: failure_str@,
            },
            AppError::UnexpectedError(msg) => ErrorView::Unexpected(msg@),
        }
    }
}

/// The outcome of a question with its texts as sequences of characters.
pub open spec fn outcome(r: Result<String, AppError>) -> Result<Seq<char>, ErrorView> {
    match r {
        Ok(answer) => Ok(answer@),
        Err(e) => Err(e@),
    }
}

/// The human-readable description of an error.
pub open spec fn error_message(e: ErrorView) -> Seq<char> {
    match e {
        ErrorView::Unexpected(msg) => "Unexpected or unknown error: "@ + msg,
        ErrorView::Model { model_name, failure_str } => "Error requesting answer from "@
            + model_name + ". Error: "@ + failure_str,
        ErrorView::Api { model_name, failure_str } => "Error loading API "@ + model_name
            + ". Error: "@ + failure_str,
    }
}

impl AppError {
    /// The human-readable description of this error.
    pub fn to_string(&self) -> (r: String)
        ensures
            r@ == error_message(self@),
    {
        match self {
            AppError::UnexpectedError(msg) => {
                let mut s = String::from_str("Unexpected or unknown error: ");
                s.append(msg.as_str());
                s
            },
            AppError::ModelError { model_name, failure_str } => {
                let mut s = String::from_str("Error requesting answer from ");
                s.append(model_name.as_str());
                s.append(". Error: ");
                s.append(failure_str.as_str());
                s
            },
            AppError::ApiError { model_name, failure_str } => {
                let mut s = String::from_str("Error loading API ");
                s.append(model_name.as_str());
                s.append(". Error: ");
                s.append(failure_str.as_str());
                s
            },
        }
    }
}

} // verus!
