//! What the version-control tool is asked, and what its answers mean.

use vstd::prelude::*;
use vstd::string::*;

verus! {

pub const GIT_PROGRAM: &'static str = "git";

pub const DEFAULT_BRANCH: &'static str = "main";

pub const DIFF_FAILED: &'static str = "Failed to get diff";

pub const BRANCH_DIFF_FAILED_LEAD: &'static str = "Failed to get diff against branch '";

pub const COMMIT_FAILED: &'static str = "Failed to commit changes";

/// Why a request to the version-control tool gave no result.
#[derive(Debug, PartialEq, Eq)]
pub enum GitError {
    /// The tool could not be run; the text is the system's report.
    IoError(String),
    /// The tool ran and reported failure.
    GitCommandFailed(String),
    /// The tool ran and there is nothing to work on.
    EmptyDiff,
}

/// A `GitError` as plain mathematical values.
pub enum GitErrorView {
    IoError(Seq<char>),
    GitCommandFailed(Seq<char>),
    EmptyDiff,
}

impl View for GitError {
    type V = GitErrorView;

    open spec fn view(&self) -> GitErrorView {
        match self {
            GitError::IoError(report) => GitErrorView::IoError(report@),
            GitError::GitCommandFailed(report) => GitErrorView::GitCommandFailed(report@),
            GitError::EmptyDiff => GitErrorView::EmptyDiff,
        }
    }
}

impl Clone for GitError {
    fn clone(&self) -> (r: Self)
        ensures
            r@ == self@,
    {
        match self {
            GitError::IoError(report) => GitError::IoError(report.clone()),
            GitError::GitCommandFailed(report) => GitError::GitCommandFailed(report.clone()),
            GitError::EmptyDiff => GitError::EmptyDiff,
        }
    }
}

/// How a run of the tool ended: whether it reported success, and what it
/// wrote to its standard output.
#[derive(Debug, PartialEq, Eq)]
pub struct CommandOutput {
    pub success: bool,
    pub stdout: Vec<u8>,
}

/// A `CommandOutput` as plain mathematical values.
pub struct CommandOutputView {
    pub success: bool,
    pub stdout: Seq<u8>,
}

impl View for CommandOutput {
    type V = CommandOutputView;

    open spec fn view(&self) -> CommandOutputView {
        CommandOutputView { success: self.success, stdout: self.stdout@ }
    }
}

/// The text that stands for `bytes` when every invalid UTF-8 sequence in them
/// is replaced by U+FFFD, as `String::from_utf8_lossy` gives it.
pub uninterp spec fn lossy_text(bytes: Seq<u8>) -> Seq<char>;

/// `String::from_utf8_lossy`, as an owned string. Trusted: the contract
/// names the result, and says that bytes give text: each valid sequence
/// gives its character, each invalid one U+FFFD.
#[verifier::external_body]
fn decode_lossy(bytes: &[u8]) -> (r: String)
    ensures
        r@ == lossy_text(bytes@),
        bytes@.len() > 0 ==> r@.len() > 0,
{
    String::from_utf8_lossy(bytes).into_owned()
}

/// The base branch that `base_branch` stands for: the one named, or the
/// default one.
pub open spec fn resolved_branch(base_branch: Option<&str>) -> Seq<char> {
    match base_branch {
        Some(name) => name@,
        None => DEFAULT_BRANCH@,
    }
}

/// What `GitError::to_text` gives.
pub open spec fn git_error_text(error: GitErrorView) -> Seq<char> {
    match error {
        GitErrorView::IoError(report) => "IO error: "@ + report,
        GitErrorView::GitCommandFailed(report) => "Git command failed: "@ + report,
        GitErrorView::EmptyDiff => "No changes are staged for commit"@,
    }
}

/// A run of the tool, or the report of why it could not be run, as plain
/// mathematical values.
pub open spec fn run_view(ran: Result<CommandOutput, String>) -> Result<CommandOutputView, Seq<char>> {
    match ran {
        Ok(output) => Ok(output@),
        Err(report) => Err(report@),
    }
}

/// A diff or an error, as plain mathematical values.
pub open spec fn diff_result_view(result: Result<String, GitError>) -> Result<Seq<char>, GitErrorView> {
    match result {
        Ok(diff) => Ok(diff@),
        Err(error) => Err(error@),
    }
}

/// The end of a commit, as plain mathematical values.
pub open spec fn commit_result_view(result: Result<(), GitError>) -> Result<(), GitErrorView> {
    match result {
        Ok(()) => Ok(()),
        Err(error) => Err(error@),
    }
}

/// What a request for a diff comes to: the report where the tool could not
/// be run, `failure` where it reported failure, the empty diff where it
/// wrote nothing, and else what it wrote, as text.
pub open spec fn diff_outcome(ran: Result<CommandOutputView, Seq<char>>, failure: Seq<char>) -> Result<
    Seq<char>,
    GitErrorView,
> {
    match ran {
        Err(report) => Err(GitErrorView::IoError(report)),
        Ok(output) => if !output.success {
            Err(GitErrorView::GitCommandFailed(failure))
        } else if output.stdout.len() == 0 {
            Err(GitErrorView::EmptyDiff)
        } else {
            Ok(lossy_text(output.stdout))
        },
    }
}

/// The failure text for a diff against the branch `branch`.
pub open spec fn branch_diff_failure(branch: Seq<char>) -> Seq<char> {
    BRANCH_DIFF_FAILED_LEAD@ + branch + "'"@
}

/// What a commit comes to: the report where the tool could not be run, a
/// failure where it reported one, and else success.
pub open spec fn commit_outcome(ran: Result<bool, Seq<char>>) -> Result<(), GitErrorView> {
    match ran {
        Err(report) => Err(GitErrorView::IoError(report)),
        Ok(success) => if success {
            Ok(())
        } else {
            Err(GitErrorView::GitCommandFailed(COMMIT_FAILED@))
        },
    }
}

/// Whether the tool reported success, or why it could not be run, as plain
/// mathematical values.
pub open spec fn status_view(ran: Result<bool, String>) -> Result<bool, Seq<char>> {
    match ran {
        Ok(success) => Ok(success),
        Err(report) => Err(report@),
    }
}

/// The views of `arguments`, in order.
pub open spec fn arguments_view(arguments: Seq<String>) -> Seq<Seq<char>> {
    Seq::new(arguments.len(), |i: int| arguments[i]@)
}

impl GitError {
    /// The error as a line for the user.
    pub fn to_text(&self) -> (r: String)
        ensures
            r@ == git_error_text(self@),
    {
        match self {
            GitError::IoError(report) => String::from_str("IO error: ").concat(report.as_str()),
            GitError::GitCommandFailed(report) => String::from_str("Git command failed: ").concat(
                report.as_str(),
            ),
            GitError::EmptyDiff => String::from_str("No changes are staged for commit"),
        }
    }
}

/// The base branch to diff against: the one named, or the default one.
pub fn resolve_branch<'a>(base_branch: Option<&'a str>) -> (r: &'a str)
    ensures
        r@ == resolved_branch(base_branch),
{
    match base_branch {
        Some(name) => name,
        None => DEFAULT_BRANCH,
    }
}

fn diff_from(ran: Result<CommandOutput, String>, failure: String) -> (r: Result<String, GitError>)
    ensures
        diff_result_view(r) == diff_outcome(run_view(ran), failure@),
        r matches Ok(diff) ==> diff@.len() > 0,
{
    match ran {
        Err(report) => Err(GitError::IoError(report)),
        Ok(output) => if !output.success {
            Err(GitError::GitCommandFailed(failure))
        } else if output.stdout.len() == 0 {
            Err(GitError::EmptyDiff)
        } else {
            Ok(decode_lossy(output.stdout.as_slice()))
        },
    }
}

/// The arguments with which the tool gives the staged diff.
pub fn staged_diff_arguments() -> (r: Vec<String>)
    ensures
        arguments_view(r@) == seq!["diff"@, "--staged"@],
{
    let mut arguments: Vec<String> = Vec::new();
    arguments.push(String::from_str("diff"));
    arguments.push(String::from_str("--staged"));
    assert(arguments_view(arguments@) =~= seq!["diff"@, "--staged"@]);
    arguments
}

/// The arguments with which the tool gives the diff against a base branch.
pub fn branch_diff_arguments(base_branch: Option<&str>) -> (r: Vec<String>)
    ensures
        arguments_view(r@) == seq!["diff"@, resolved_branch(base_branch)],
{
    let mut arguments: Vec<String> = Vec::new();
    arguments.push(String::from_str("diff"));
    arguments.push(String::from_str(resolve_branch(base_branch)));
    assert(arguments_view(arguments@) =~= seq!["diff"@, resolved_branch(base_branch)]);
    arguments
}

/// The arguments with which the tool commits under `message`.
pub fn commit_arguments(message: &str) -> (r: Vec<String>)
    ensures
        arguments_view(r@) == seq!["commit"@, "-m"@, message@],
{
    let mut arguments: Vec<String> = Vec::new();
    arguments.push(String::from_str("commit"));
    arguments.push(String::from_str("-m"));
    arguments.push(String::from_str(message));
    assert(arguments_view(arguments@) =~= seq!["commit"@, "-m"@, message@]);
    arguments
}

/// The staged diff, given how the run for it ended. A diff is never empty.
pub fn get_diff(ran: Result<CommandOutput, String>) -> (r: Result<String, GitError>)
    ensures
        diff_result_view(r) == diff_outcome(run_view(ran), DIFF_FAILED@),
        r matches Ok(diff) ==> diff@.len() > 0,
{
    diff_from(ran, String::from_str(DIFF_FAILED))
}

/// The diff against a base branch, given how the run for it ended. A diff
/// is never empty.
pub fn get_branch_diff(base_branch: Option<&str>, ran: Result<CommandOutput, String>) -> (r: Result<
    String,
    GitError,
>)
    ensures
        diff_result_view(r) == diff_outcome(
            run_view(ran),
            branch_diff_failure(resolved_branch(base_branch)),
        ),
        r matches Ok(diff) ==> diff@.len() > 0,
{
    let failure = String::from_str(BRANCH_DIFF_FAILED_LEAD).concat(resolve_branch(base_branch)).concat(
        "'",
    );
    diff_from(ran, failure)
}

/// The end of a commit, given how the run for it ended.
pub fn commit(ran: Result<bool, String>) -> (r: Result<(), GitError>)
    ensures
        commit_result_view(r) == commit_outcome(status_view(ran)),
{
    match ran {
        Err(report) => Err(GitError::IoError(report)),
        Ok(success) => if success {
            Ok(())
        } else {
            Err(GitError::GitCommandFailed(String::from_str(COMMIT_FAILED)))
        },
    }
}

} // verus!
