use vstd::prelude::*;
use vstd::string::*;

verus! {

/// Every failure of the account-registration workflow, with a message for
/// the operator.
#[derive(Debug)]
pub enum GitHydraError {
    /// A generic failure, described by its message.
    GenErr { error: String },
    /// A required external tool could not be located.
    MissingDependency { error: String },
    /// Creating, opening or writing a file or directory failed.
    IOFailure { error: String },
    /// A persistent file holds something this library cannot extend.
    ConfigurationError { error: String },
}

impl GitHydraError {
    /// The operator-facing message carried by the error.
    pub open spec fn message(self) -> Seq<char> {
        match self {
            GitHydraError::GenErr { error } => error@,
            GitHydraError::MissingDependency { error } => error@,
            GitHydraError::IOFailure { error } => error@,
            GitHydraError::ConfigurationError { error } => error@,
        }
    }

    /// The text shown to the operator: the kind of the error, then its message.
    pub open spec fn text(self) -> Seq<char> {
        match self {
            GitHydraError::GenErr { error } => "Generic Error message: "@ + error@,
            GitHydraError::MissingDependency { error } => "Missing dependency: "@ + error@,
            GitHydraError::IOFailure { error } => "I/O failure: "@ + error@,
            GitHydraError::ConfigurationError { error } => "Configuration error: "@ + error@,
        }
    }

    /// The text shown to the operator, as an owned string.
    pub fn to_string(&self) -> (r: String)
        ensures
            r@ == self.text(),
    {
        let (prefix, error) = match self {
            GitHydraError::GenErr { error } => ("Generic Error message: ", error),
            GitHydraError::MissingDependency { error } => ("Missing dependency: ", error),
            GitHydraError::IOFailure { error } => ("I/O failure: ", error),
            GitHydraError::ConfigurationError { error } => ("Configuration error: ", error),
        };
        let mut r = String::from_str(prefix);
        r.append(error.as_str());
        r
    }
}

/// Builds a generic error carrying `val` as its message.
pub fn new_gh_err(val: String) -> (r: GitHydraError)
    ensures
        r == (GitHydraError::GenErr { error: val }),
{
    GitHydraError::GenErr { error: val }
}

} // verus!
