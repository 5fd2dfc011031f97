//! What the user is told about a failed request.

use crate::text::{chars_of, contains, str_contains};
use vstd::prelude::*;

verus! {

/// The kinds of failure that are told apart when a request fails.
#[derive(Clone, Copy, Debug, PartialEq, Eq, Structural)]
pub enum ErrorCategory {
    /// The connection was refused or timed out.
    Network,
    /// The service refused the credentials.
    Authentication,
    /// The service does not know the address.
    NotFound,
    /// The service itself failed.
    Server,
    /// Anything else.
    Other,
}

/// The category of an error text. The first of the marks below that the text
/// holds decides.
pub open spec fn category_of(error: Seq<char>) -> ErrorCategory {
    if contains(error, "Connection refused"@) || contains(error, "timeout"@) {
        ErrorCategory::Network
    } else if contains(error, "401"@) || contains(error, "403"@) {
        ErrorCategory::Authentication
    } else if contains(error, "404"@) {
        ErrorCategory::NotFound
    } else if contains(error, "500"@) || contains(error, "502"@) || contains(error, "503"@) {
        ErrorCategory::Server
    } else {
        ErrorCategory::Other
    }
}

/// The sentence shown for a category.
pub open spec fn category_message(category: ErrorCategory) -> Seq<char> {
    match category {
        ErrorCategory::Network => "Network connection failed"@,
        ErrorCategory::Authentication => "Authentication failed"@,
        ErrorCategory::NotFound => "Service not found"@,
        ErrorCategory::Server => "Server error"@,
        ErrorCategory::Other => "Request failed"@,
    }
}

impl ErrorCategory {
    /// The category of an error text.
    pub fn of(error: &str) -> (category: ErrorCategory)
        ensures
            category == category_of(error@),
    {
        let text = chars_of(error);
        let t = text.as_slice();
        if str_contains(t, "Connection refused") || str_contains(t, "timeout") {
            ErrorCategory::Network
        } else if str_contains(t, "401") || str_contains(t, "403") {
            ErrorCategory::Authentication
        } else if str_contains(t, "404") {
            ErrorCategory::NotFound
        } else if str_contains(t, "500") || str_contains(t, "502") || str_contains(t, "503") {
            ErrorCategory::Server
        } else {
            ErrorCategory::Other
        }
    }

    /// The sentence shown for this category.
    pub fn message(self) -> (message: String)
        ensures
            message@ == category_message(self),
    {
        match self {
            ErrorCategory::Network => "Network connection failed".to_string(),
            ErrorCategory::Authentication => "Authentication failed".to_string(),
            ErrorCategory::NotFound => "Service not found".to_string(),
            ErrorCategory::Server => "Server error".to_string(),
            ErrorCategory::Other => "Request failed".to_string(),
        }
    }
}

/// Replaces an error text by the sentence of its category, so that no detail
/// of the failure reaches the user.
pub fn sanitize_error(error: &str) -> (message: String)
    ensures
        message@ == category_message(category_of(error@)),
{
    ErrorCategory::of(error).message()
}

} // verus!
