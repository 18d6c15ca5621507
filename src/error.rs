use vstd::prelude::*;
use vstd::string::*;

verus! {

/// Everything that can end one invocation of the client.
#[derive(Debug)]
pub enum Error {
    /// The server could not be reached, or it answered with a non-success status.
    Transport(String),
    /// A response body did not match the expected schema.
    Decode(String),
    /// A required credential is missing from the environment; holds its variable name.
    EnvMissing(String),
    /// A required command-line argument is missing; holds its name.
    ArgumentMissing(String),
    /// A value could not be parsed.
    Parsable(String),
    /// Locally detectable bad input, such as a date range that ends before it starts.
    Validation(String),
    /// No account matches a selection.
    NoAccountFound(String),
    /// A pattern could not be compiled.
    Regex(String),
    /// The server accepted the request but reported a failure in its envelope.
    RemoteOperation(String),
    /// Any other failure, with a human-readable message.
    Message(String),
}

impl Error {
    /// The text that the error carries.
    pub open spec fn detail(&self) -> Seq<char> {
        match self {
            Error::Transport(s) => s@,
            Error::Decode(s) => s@,
            Error::EnvMissing(s) => s@,
            Error::ArgumentMissing(s) => s@,
            Error::Parsable(s) => s@,
            Error::Validation(s) => s@,
            Error::NoAccountFound(s) => s@,
            Error::Regex(s) => s@,
            Error::RemoteOperation(s) => s@,
            Error::Message(s) => s@,
        }
    }

    /// The human-readable message reported for the error.
    pub open spec fn spec_message(&self) -> Seq<char> {
        match self {
            Error::Transport(s) => "Transport error: "@ + s@,
            Error::Decode(s) => "Decode error: "@ + s@,
            Error::EnvMissing(s) => "Error: env "@ + s@ + " missing"@,
            Error::ArgumentMissing(s) => "Arg missing error: "@ + s@,
            Error::Parsable(s) => "Parse error: "@ + s@,
            Error::Validation(s) => "Validation error: "@ + s@,
            Error::NoAccountFound(s) => "No account found: "@ + s@,
            Error::Regex(s) => "Regex error: "@ + s@,
            Error::RemoteOperation(s) => "Remote operation failed: "@ + s@,
            Error::Message(s) => "Error: "@ + s@,
        }
    }

    /// The text that the error carries.
    pub fn description(&self) -> (r: String)
        ensures
            r@ == self.detail(),
    {
        match self {
            Error::Transport(s) => s.clone(),
            Error::Decode(s) => s.clone(),
            Error::EnvMissing(s) => s.clone(),
            Error::ArgumentMissing(s) => s.clone(),
            Error::Parsable(s) => s.clone(),
            Error::Validation(s) => s.clone(),
            Error::NoAccountFound(s) => s.clone(),
            Error::Regex(s) => s.clone(),
            Error::RemoteOperation(s) => s.clone(),
            Error::Message(s) => s.clone(),
        }
    }

    /// The human-readable message reported for the error.
    pub fn to_string(&self) -> (r: String)
        ensures
            r@ == self.spec_message(),
    {
        match self {
            Error::Transport(s) => String::from_str("Transport error: ").concat(s.as_str()),
            Error::Decode(s) => String::from_str("Decode error: ").concat(s.as_str()),
            Error::EnvMissing(s) => String::from_str("Error: env ").concat(s.as_str()).concat(
                " missing",
            ),
            Error::ArgumentMissing(s) => String::from_str("Arg missing error: ").concat(
                s.as_str(),
            ),
            Error::Parsable(s) => String::from_str("Parse error: ").concat(s.as_str()),
            Error::Validation(s) => String::from_str("Validation error: ").concat(s.as_str()),
            Error::NoAccountFound(s) => String::from_str("No account found: ").concat(s.as_str()),
            Error::Regex(s) => String::from_str("Regex error: ").concat(s.as_str()),
            Error::RemoteOperation(s) => String::from_str("Remote operation failed: ").concat(
                s.as_str(),
            ),
            Error::Message(s) => String::from_str("Error: ").concat(s.as_str()),
        }
    }
}

} // verus!
