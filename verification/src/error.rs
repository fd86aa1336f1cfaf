use vstd::prelude::*;

use crate::text::{clone_string, concat2, concat3, join, join_strings, push_str, texts};

verus! {

/// Errors that Workon reports to its user.
#[derive(Debug, Clone, PartialEq, Eq)]
pub enum WorkonError {
    /// A command line or input problem, with the message to show.
    MissingArgument { message: String },
    /// A repository operation failed, with the reason.
    RepositoryContext { message: String },
    /// The interactive view could not start, with the reason.
    TuiUnavailable { message: String },
    /// No Work matches the query.
    WorkNotFound { query: String },
    /// Several Works match the query; their titles.
    AmbiguousWork { query: String, matches: Vec<String> },
    /// Creating a Work needs an intent; the ids that can be chosen.
    IntentRequired { available: Vec<String> },
    /// No intent has the id; the ids that can be chosen.
    UnknownIntent { intent_id: String, available: Vec<String> },
}

/// The text shown for an error.
pub open spec fn error_text(e: WorkonError) -> Seq<char> {
    match e {
        WorkonError::MissingArgument { message } => message@,
        WorkonError::RepositoryContext { message } => message@,
        WorkonError::TuiUnavailable { message } => "TUI unavailable: "@ + message@,
        WorkonError::WorkNotFound { query } => "no work matches `"@ + query@ + "`"@,
        WorkonError::AmbiguousWork { query, matches } => "`"@ + query@
            + "` matches several works: "@ + join(texts(matches@), ", "@),
        WorkonError::IntentRequired { available } => "an intent is required; available: "@ + join(
            texts(available@),
            ", "@,
        ),
        WorkonError::UnknownIntent { intent_id, available } => "unknown intent `"@ + intent_id@
            + "`; available: "@ + join(texts(available@), ", "@),
    }
}

/// A missing-argument error with the given message.
pub fn missing(message: String) -> (e: WorkonError)
    ensures
        e == (WorkonError::MissingArgument { message }),
{
    WorkonError::MissingArgument { message }
}

impl WorkonError {
    /// The text shown for the error.
    pub fn message(&self) -> (r: String)
        ensures
            r@ == error_text(*self),
    {
        match self {
            WorkonError::MissingArgument { message } => clone_string(message),
            WorkonError::RepositoryContext { message } => clone_string(message),
            WorkonError::TuiUnavailable { message } => concat2("TUI unavailable: ", message.as_str()),
            WorkonError::WorkNotFound { query } => concat3(
                "no work matches `",
                query.as_str(),
                "`",
            ),
            WorkonError::AmbiguousWork { query, matches } => {
                let mut r = concat3("`", query.as_str(), "` matches several works: ");
                let joined = join_strings(matches.as_slice(), ", ");
                push_str(&mut r, joined.as_str());
                r
            },
            WorkonError::IntentRequired { available } => {
                let joined = join_strings(available.as_slice(), ", ");
                concat2("an intent is required; available: ", joined.as_str())
            },
            WorkonError::UnknownIntent { intent_id, available } => {
                let mut r = concat3("unknown intent `", intent_id.as_str(), "`; available: ");
                let joined = join_strings(available.as_slice(), ", ");
                push_str(&mut r, joined.as_str());
                r
            },
        }
    }
}

} // verus!
