//! The executable-path command: interprets the outcome of the operating
//! environment's query for the running binary's path. The query itself is
//! I/O and belongs to the host shell; everything decided about its outcome
//! is owned, and proved, here.

use vstd::prelude::*;

verus! {

/// The fixed text that opens the description of every failed path query.
pub open spec fn query_failure_prefix() -> Seq<char> {
    "Failed to get executable path: "@
}

/// The cause reported when the environment answers the query with empty text.
pub open spec fn empty_path_cause() -> Seq<char> {
    "environment reported an empty path"@
}

/// The description attached to a failed query with the given cause.
pub open spec fn query_failure_text(cause: Seq<char>) -> Seq<char> {
    query_failure_prefix() + cause
}

/// The error raised when the operating environment refuses or fails to report
/// the running executable's path. It carries a human-readable description of
/// the underlying cause and is handed to the caller as a value, never a crash.
#[derive(Debug)]
pub struct EnvironmentQueryError {
    description: String,
}

impl View for EnvironmentQueryError {
    type V = Seq<char>;

    closed spec fn view(&self) -> Seq<char> {
        self.description@
    }
}

impl EnvironmentQueryError {
    /// Describes a failed query: the fixed failure prefix, then the cause.
    pub fn from_cause(cause: &str) -> (e: Self)
        ensures
            e@ == query_failure_text(cause@),
    {
        let mut description = String::from_str("Failed to get executable path: ");
        description.append(cause);
        EnvironmentQueryError { description }
    }

    /// The human-readable description of the underlying cause.
    pub fn description(&self) -> (d: &str)
        ensures
            d@ == self@,
    {
        self.description.as_str()
    }
}

/// The outcome of the environment's path query, as plain text: the path on
/// success, the cause of the refusal otherwise.
pub open spec fn query_view(query: Result<String, String>) -> Result<Seq<char>, Seq<char>> {
    match query {
        Ok(path) => Ok(path@),
        Err(cause) => Err(cause@),
    }
}

/// The command's answer, as plain text.
pub open spec fn response_view(response: Result<String, EnvironmentQueryError>) -> Result<
    Seq<char>,
    Seq<char>,
> {
    match response {
        Ok(path) => Ok(path@),
        Err(e) => Err(e@),
    }
}

/// What the command answers for each possible outcome of the environment's
/// path query: a non-empty path passes through unchanged; an empty path and a
/// refusal both become a described error.
pub open spec fn exe_path_response(query: Result<Seq<char>, Seq<char>>) -> Result<
    Seq<char>,
    Seq<char>,
> {
    match query {
        Ok(path) => if path.len() > 0 {
            Ok(path)
        } else {
            Err(query_failure_text(empty_path_cause()))
        },
        Err(cause) => Err(query_failure_text(cause)),
    }
}

/// Answers the executable-path command from the outcome the host shell
/// obtained for the environment query: the path text on success, or an
/// `EnvironmentQueryError` saying why the environment could not report it.
pub fn get_current_exe_path(query: Result<String, String>) -> (response: Result<
    String,
    EnvironmentQueryError,
>)
    ensures
        response_view(response) == exe_path_response(query_view(query)),
{
    match query {
        Ok(path) => {
            if path.as_str().is_empty() {
                Err(EnvironmentQueryError::from_cause("environment reported an empty path"))
            } else {
                Ok(path)
            }
        },
        Err(cause) => Err(EnvironmentQueryError::from_cause(cause.as_str())),
    }
}

/// Law: the command never answers with empty text — a success carries a
/// non-empty path and a failure carries a non-empty description.
pub proof fn lemma_exe_path_never_empty(query: Result<Seq<char>, Seq<char>>)
    ensures
        match exe_path_response(query) {
            Ok(path) => path.len() > 0,
            Err(description) => description.len() > 0,
        },
{
    reveal_strlit("Failed to get executable path: ");
}

/// Law: the command holds no hidden state — two queries whose outcomes are
/// identical are answered identically, so immediate repetition of the call
/// repeats its result.
pub proof fn lemma_exe_path_idempotent(
    first: Result<Seq<char>, Seq<char>>,
    second: Result<Seq<char>, Seq<char>>,
)
    requires
        first == second,
    ensures
        exe_path_response(first) == exe_path_response(second),
{
}

} // verus!
