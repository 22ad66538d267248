use vstd::prelude::*;
use vstd::string::StringExecFns;

verus! {

/// Unified error taxonomy: any store-layer failure (connectivity, constraint,
/// malformed query, decode mismatch) is wrapped in `DatabaseError`; `Any`
/// carries a domain-level validation fault detected above the store layer.
#[derive(Debug)]
pub enum Error {
    DatabaseError(String),
    Any(String),
}

impl Error {
    /// The text an error renders to: a fixed prefix plus the underlying
    /// cause's text for store failures, the message verbatim for `Any`.
    pub open spec fn spec_message(self) -> Seq<char> {
        match self {
            Error::DatabaseError(cause) => "Ошибка при выполнении запроса:\n"@ + cause@,
            Error::Any(message) => message@,
        }
    }

    /// Render the error as a human-readable message, by the one shared
    /// formatting rule of the whole application.
    pub fn message(&self) -> (text: String)
        ensures
            text@ == self.spec_message(),
    {
        match self {
            Error::DatabaseError(cause) => {
                String::from_str("Ошибка при выполнении запроса:\n").concat(cause.as_str())
            },
            Error::Any(message) => message.clone(),
        }
    }
}

} // verus!
