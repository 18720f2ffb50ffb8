//! What the code-hosting tool is asked when a pull request is opened.

use vstd::prelude::*;
use vstd::string::*;
use crate::git::{arguments_view, resolve_branch, resolved_branch, status_view};

verus! {

pub const GH_PROGRAM: &'static str = "gh";

pub const PULL_REQUEST_OPENED: &'static str = "Pull request creation page opened in your browser.";

pub const PULL_REQUEST_FAILED: &'static str = "Failed to create pull request";

/// The arguments that open the creation page of a pull request.
pub open spec fn pull_request_command(
    title: Seq<char>,
    description: Seq<char>,
    base_branch: Option<&str>,
) -> Seq<Seq<char>> {
    seq![
        "pr"@,
        "create"@,
        "--title"@,
        title,
        "--body"@,
        description,
        "--base"@,
        resolved_branch(base_branch),
        "--web"@,
    ]
}

/// What the creation of a pull request comes to: the report where the tool
/// could not be run, a failure where it reported one, and else the notice
/// that the page was opened.
pub open spec fn pull_request_outcome(ran: Result<bool, Seq<char>>) -> Result<Seq<char>, Seq<char>> {
    match ran {
        Err(report) => Err(report),
        Ok(success) => if success {
            Ok(PULL_REQUEST_OPENED@)
        } else {
            Err(PULL_REQUEST_FAILED@)
        },
    }
}

/// A notice or an error text, as plain mathematical values.
pub open spec fn notice_view(result: Result<String, String>) -> Result<Seq<char>, Seq<char>> {
    match result {
        Ok(notice) => Ok(notice@),
        Err(error) => Err(error@),
    }
}

/// The arguments with which the tool opens the creation page of a pull
/// request with `title` and `description` against the base branch.
pub fn pull_request_arguments(title: &str, description: &str, base_branch: Option<&str>) -> (r: Vec<
    String,
>)
    ensures
        arguments_view(r@) == pull_request_command(title@, description@, base_branch),
{
    let mut arguments: Vec<String> = Vec::new();
    arguments.push(String::from_str("pr"));
    arguments.push(String::from_str("create"));
    arguments.push(String::from_str("--title"));
    arguments.push(String::from_str(title));
    arguments.push(String::from_str("--body"));
    arguments.push(String::from_str(description));
    arguments.push(String::from_str("--base"));
    arguments.push(String::from_str(resolve_branch(base_branch)));
    arguments.push(String::from_str("--web"));
    assert(arguments_view(arguments@) =~= pull_request_command(title@, description@, base_branch));
    arguments
}

/// The end of the creation of a pull request, given how the run for it
/// ended: the notice to show, or the text of the error.
pub fn create_pull_request(ran: Result<bool, String>) -> (r: Result<String, String>)
    ensures
        notice_view(r) == pull_request_outcome(status_view(ran)),
{
    match ran {
        Err(report) => Err(report),
        Ok(success) => if success {
            Ok(String::from_str(PULL_REQUEST_OPENED))
        } else {
            Err(String::from_str(PULL_REQUEST_FAILED))
        },
    }
}

} // verus!
