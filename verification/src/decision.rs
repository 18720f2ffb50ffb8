//! What the user's answer to a prompt decides.

use vstd::prelude::*;
use crate::text::{same_text, trim, trimmed};

verus! {

/// What can be decided about a generated commit message.
#[derive(Debug, Clone, Copy, PartialEq, Eq, Structural)]
pub enum CommitDecision {
    Accept,
    Edit,
    Regenerate,
    Quit,
}

/// What can be decided about a generated pull request.
#[derive(Debug, Clone, Copy, PartialEq, Eq, Structural)]
pub enum PullRequestDecision {
    Accept,
    Regenerate,
    Cancel,
}

/// `answer` is the one letter `lower` or `upper`.
pub open spec fn is_letter(answer: Seq<char>, lower: Seq<char>, upper: Seq<char>) -> bool {
    answer == lower || answer == upper
}

/// The decision that the answer `answer` stands for, the white space around
/// it already taken away: one letter, in either case; `None` for anything
/// else.
pub open spec fn commit_decision_of(answer: Seq<char>) -> Option<CommitDecision> {
    if is_letter(answer, "a"@, "A"@) {
        Some(CommitDecision::Accept)
    } else if is_letter(answer, "e"@, "E"@) {
        Some(CommitDecision::Edit)
    } else if is_letter(answer, "r"@, "R"@) {
        Some(CommitDecision::Regenerate)
    } else if is_letter(answer, "q"@, "Q"@) {
        Some(CommitDecision::Quit)
    } else {
        None
    }
}

/// The decision that the answer `answer` stands for, the white space around
/// it already taken away: one letter, in either case; `None` for anything
/// else.
pub open spec fn pull_request_decision_of(answer: Seq<char>) -> Option<PullRequestDecision> {
    if is_letter(answer, "a"@, "A"@) {
        Some(PullRequestDecision::Accept)
    } else if is_letter(answer, "r"@, "R"@) {
        Some(PullRequestDecision::Regenerate)
    } else if is_letter(answer, "c"@, "C"@) {
        Some(PullRequestDecision::Cancel)
    } else {
        None
    }
}

fn letter(answer: &str, lower: &str, upper: &str) -> (r: bool)
    ensures
        r == is_letter(answer@, lower@, upper@),
{
    same_text(answer, lower) || same_text(answer, upper)
}

/// The decision in an answer that has no white space around it.
pub fn commit_decision(answer: &str) -> (r: Option<CommitDecision>)
    ensures
        r == commit_decision_of(answer@),
{
    if letter(answer, "a", "A") {
        Some(CommitDecision::Accept)
    } else if letter(answer, "e", "E") {
        Some(CommitDecision::Edit)
    } else if letter(answer, "r", "R") {
        Some(CommitDecision::Regenerate)
    } else if letter(answer, "q", "Q") {
        Some(CommitDecision::Quit)
    } else {
        None
    }
}

/// The decision in an answer that has no white space around it.
pub fn pull_request_decision(answer: &str) -> (r: Option<PullRequestDecision>)
    ensures
        r == pull_request_decision_of(answer@),
{
    if letter(answer, "a", "A") {
        Some(PullRequestDecision::Accept)
    } else if letter(answer, "r", "R") {
        Some(PullRequestDecision::Regenerate)
    } else if letter(answer, "c", "C") {
        Some(PullRequestDecision::Cancel)
    } else {
        None
    }
}

/// The decision in a line as the user typed it.
pub fn read_commit_decision(line: &str) -> (r: Option<CommitDecision>)
    ensures
        r == commit_decision_of(trimmed(line@)),
{
    commit_decision(trim(line))
}

/// The decision in a line as the user typed it.
pub fn read_pull_request_decision(line: &str) -> (r: Option<PullRequestDecision>)
    ensures
        r == pull_request_decision_of(trimmed(line@)),
{
    pull_request_decision(trim(line))
}

/// The letters of the decisions differ from one another, so each answer
/// stands for the decision that is named after it.
pub proof fn lemma_decision_letters()
    ensures
        commit_decision_of("a"@) == Some(CommitDecision::Accept),
        commit_decision_of("A"@) == Some(CommitDecision::Accept),
        commit_decision_of("e"@) == Some(CommitDecision::Edit),
        commit_decision_of("E"@) == Some(CommitDecision::Edit),
        commit_decision_of("r"@) == Some(CommitDecision::Regenerate),
        commit_decision_of("R"@) == Some(CommitDecision::Regenerate),
        commit_decision_of("q"@) == Some(CommitDecision::Quit),
        commit_decision_of("Q"@) == Some(CommitDecision::Quit),
        commit_decision_of("x"@) is None,
        pull_request_decision_of("a"@) == Some(PullRequestDecision::Accept),
        pull_request_decision_of("A"@) == Some(PullRequestDecision::Accept),
        pull_request_decision_of("r"@) == Some(PullRequestDecision::Regenerate),
        pull_request_decision_of("R"@) == Some(PullRequestDecision::Regenerate),
        pull_request_decision_of("c"@) == Some(PullRequestDecision::Cancel),
        pull_request_decision_of("C"@) == Some(PullRequestDecision::Cancel),
        pull_request_decision_of("x"@) is None,
{
    reveal_strlit("a");
    reveal_strlit("A");
    reveal_strlit("e");
    reveal_strlit("E");
    reveal_strlit("r");
    reveal_strlit("R");
    reveal_strlit("q");
    reveal_strlit("Q");
    reveal_strlit("c");
    reveal_strlit("C");
    reveal_strlit("x");
    assert("a"@[0] == 'a' && "A"@[0] == 'A');
    assert("e"@[0] == 'e' && "E"@[0] == 'E');
    assert("r"@[0] == 'r' && "R"@[0] == 'R');
    assert("q"@[0] == 'q' && "Q"@[0] == 'Q');
    assert("c"@[0] == 'c' && "C"@[0] == 'C');
    assert("x"@[0] == 'x');
}

} // verus!
