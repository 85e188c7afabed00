//! Migrating the files that changed on a branch of one git repository onto a
//! fresh branch of another: which files changed, which of them are migrated,
//! what is written or removed in the destination, and the `git` runs that
//! bring the destination up to date and commit the result.
pub mod cli;
pub mod copy_service;
pub mod diff_service;
pub mod git_commands;
pub mod git_repository;
pub mod prompt;
pub mod text;

pub use cli::{Args, CommitStep};
pub use copy_service::{CopyAction, CopyRun, CopyService};
pub use diff_service::{DiffSelection, DiffService};
pub use git_commands::GitCommand;
pub use git_repository::{ChangeStatus, ChangedFile, GitError, GitRepository, TreeChange};
pub use prompt::{prompt_branch_name, prompt_commit_message, PromptError};
