//! Validation of the answers typed at the interactive prompts.
use vstd::prelude::*;
use crate::text::{trim, trim_seq};

verus! {

/// Why an answer typed at a prompt was refused.
#[derive(Debug, Clone, Copy, PartialEq, Eq, Structural)]
pub enum PromptError {
    EmptyBranchName,
    EmptyCommitMessage,
}

impl PromptError {
    /// The message shown to the user for this error.
    pub fn message(&self) -> (m: &'static str)
        ensures
            *self == PromptError::EmptyBranchName ==> m@ == "branch name must not be empty"@,
            *self == PromptError::EmptyCommitMessage ==> m@ == "commit message must not be empty"@,
    {
        match self {
            PromptError::EmptyBranchName => "branch name must not be empty",
            PromptError::EmptyCommitMessage => "commit message must not be empty",
        }
    }
}

/// The answer to a prompt: the line that was typed, without surrounding whitespace.
pub open spec fn answer(line: Seq<char>) -> Seq<char> {
    trim_seq(line)
}

/// Turns the line typed at the branch-name prompt into the branch name: the
/// line without surrounding whitespace, refused when nothing is left.
pub fn prompt_branch_name(line: &str) -> (r: Result<String, PromptError>)
    ensures
        answer(line@).len() > 0 ==> (r matches Ok(name) && name@ == answer(line@)),
        answer(line@).len() == 0 ==> r == Err::<String, PromptError>(PromptError::EmptyBranchName),
{
    let name = trim(line);
    if name.as_str().is_empty() {
        Err(PromptError::EmptyBranchName)
    } else {
        Ok(name)
    }
}

/// Turns the line typed at the commit-message prompt into the commit
/// message: the line without surrounding whitespace, refused when nothing is left.
pub fn prompt_commit_message(line: &str) -> (r: Result<String, PromptError>)
    ensures
        answer(line@).len() > 0 ==> (r matches Ok(message) && message@ == answer(line@)),
        answer(line@).len() == 0 ==> r == Err::<String, PromptError>(PromptError::EmptyCommitMessage),
{
    let message = trim(line);
    if message.as_str().is_empty() {
        Err(PromptError::EmptyCommitMessage)
    } else {
        Ok(message)
    }
}

} // verus!
