//! The errors of the application, by the part that they come from.

use vstd::prelude::*;
use vstd::string::StringExecFns;

verus! {

/// An error of the application. Each variant carries a message.
#[derive(Debug, Clone, PartialEq, Eq)]
pub enum AppError {
    ConfigError(String),
    FileError(String),
    NetworkError(String),
    ProcessingError(String),
    UIError(String),
}

/// The mathematical value of an [`AppError`].
pub enum AppFailure {
    ConfigError(Seq<char>),
    FileError(Seq<char>),
    NetworkError(Seq<char>),
    ProcessingError(Seq<char>),
    UIError(Seq<char>),
}

impl View for AppError {
    type V = AppFailure;

    open spec fn view(&self) -> AppFailure {
        match self {
            AppError::ConfigError(message) => AppFailure::ConfigError(message@),
            AppError::FileError(message) => AppFailure::FileError(message@),
            AppError::NetworkError(message) => AppFailure::NetworkError(message@),
            AppError::ProcessingError(message) => AppFailure::ProcessingError(message@),
            AppError::UIError(message) => AppFailure::UIError(message@),
        }
    }
}

impl AppFailure {
    /// The failure as one line of text: the part it comes from, then its
    /// message.
    pub open spec fn text(self) -> Seq<char> {
        match self {
            AppFailure::ConfigError(message) => "Configuration error: "@ + message,
            AppFailure::FileError(message) => "File error: "@ + message,
            AppFailure::NetworkError(message) => "Network error: "@ + message,
            AppFailure::ProcessingError(message) => "Processing error: "@ + message,
            AppFailure::UIError(message) => "UI error: "@ + message,
        }
    }
}

/// The result of something that can fail with an [`AppError`].
pub type AppResult<T> = Result<T, AppError>;

impl AppError {
    /// The error as one line of text: the part it comes from, then its
    /// message.
    pub fn to_string(&self) -> (text: String)
        ensures
            text@ == self@.text(),
    {
        match self {
            AppError::ConfigError(message) => String::from_str("Configuration error: ").concat(
                message.as_str(),
            ),
            AppError::FileError(message) => String::from_str("File error: ").concat(
                message.as_str(),
            ),
            AppError::NetworkError(message) => String::from_str("Network error: ").concat(
                message.as_str(),
            ),
            AppError::ProcessingError(message) => String::from_str("Processing error: ").concat(
                message.as_str(),
            ),
            AppError::UIError(message) => String::from_str("UI error: ").concat(message.as_str()),
        }
    }
}

} // verus!
