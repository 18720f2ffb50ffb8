//! The loop around a commit message, as a state machine: each event from
//! outside (a diff was read, a reply came, the user answered, the editor
//! closed, the commit ended) gives the next state and the one thing to do
//! next.

use vstd::prelude::*;
use vstd::string::*;
use crate::client::{
    client_error_text, owned_prefix_of, reading_outcome, reply_view, CommitMessageGenerator, Reading,
    ReadingView,
};
use crate::decision::{commit_decision_of, read_commit_decision, CommitDecision};
use crate::git::{commit_result_view, diff_result_view, git_error_text, GitError, GitErrorView};
use crate::request::{CompletionRequest, CompletionRequestView};
use crate::text::trimmed;

verus! {

pub const REGENERATING_NOTICE: &'static str = "Regenerating commit message...";

pub const INVALID_OPTION_NOTICE: &'static str =
    "Invalid option. Please choose 'a' to accept, 'r' to regenerate, or 'q' to quit.";

pub const MESSAGE_HEADING: &'static str = "\nGenerated commit message:\n\n";

pub const COMMIT_PROMPT: &'static str =
    "Do you want to (a)ccept, (e)dit, (r)egenerate, or (q)uit? If you quit, nothing will be committed [a/r/q]: ";

pub const COMMITTED_LEAD: &'static str = "Committed with message: ";

pub const COMMITTED_EDITED_LEAD: &'static str = "Committed with edited message: ";

pub const SKIPPED_NOTICE: &'static str = "Commit skipped.";

pub const ERROR_LEAD: &'static str = "Error: ";

/// Where the loop stands.
#[derive(Debug, PartialEq, Eq)]
pub enum CommitState {
    /// The staged diff is being read.
    Generating,
    /// A request is out; the reply will be read as the `Reading` says.
    Requesting(Reading),
    /// The message is shown, and the user is asked what to do with it.
    Presenting(String),
    /// The editor is open on the message.
    Editing,
    /// The commit under `message` is under way.
    Committing { message: String, edited: bool },
    /// The commit was made. The loop has ended.
    Committed,
    /// Nothing was committed and nothing went wrong. The loop has ended.
    Skipped,
    /// Something went wrong. The loop has ended.
    Failed,
}

/// A `CommitState` as plain mathematical values.
pub enum CommitStateView {
    Generating,
    Requesting(ReadingView),
    Presenting(Seq<char>),
    Editing,
    Committing { message: Seq<char>, edited: bool },
    Committed,
    Skipped,
    Failed,
}

impl View for CommitState {
    type V = CommitStateView;

    open spec fn view(&self) -> CommitStateView {
        match self {
            CommitState::Generating => CommitStateView::Generating,
            CommitState::Requesting(reading) => CommitStateView::Requesting(reading@),
            CommitState::Presenting(message) => CommitStateView::Presenting(message@),
            CommitState::Editing => CommitStateView::Editing,
            CommitState::Committing { message, edited } => CommitStateView::Committing {
                message: message@,
                edited: *edited,
            },
            CommitState::Committed => CommitStateView::Committed,
            CommitState::Skipped => CommitStateView::Skipped,
            CommitState::Failed => CommitStateView::Failed,
        }
    }
}

/// What happened outside.
#[derive(Debug, PartialEq, Eq)]
pub enum CommitEvent {
    /// The staged diff was read, or could not be.
    Diff(Result<String, GitError>),
    /// The transport handed back the body of a reply, or its report of a
    /// failure.
    Reply(Result<String, String>),
    /// The user typed this line.
    Answer(String),
    /// The editor handed back the revised message, or could not be run.
    Revision(Result<String, String>),
    /// The commit ended.
    CommitEnded(Result<(), GitError>),
}

/// A `CommitEvent` as plain mathematical values.
pub enum CommitEventView {
    Diff(Result<Seq<char>, GitErrorView>),
    Reply(Result<Seq<char>, Seq<char>>),
    Answer(Seq<char>),
    Revision(Result<Seq<char>, Seq<char>>),
    CommitEnded(Result<(), GitErrorView>),
}

impl View for CommitEvent {
    type V = CommitEventView;

    open spec fn view(&self) -> CommitEventView {
        match self {
            CommitEvent::Diff(diff) => CommitEventView::Diff(diff_result_view(*diff)),
            CommitEvent::Reply(reply) => CommitEventView::Reply(reply_view(*reply)),
            CommitEvent::Answer(line) => CommitEventView::Answer(line@),
            CommitEvent::Revision(revision) => CommitEventView::Revision(reply_view(*revision)),
            CommitEvent::CommitEnded(end) => CommitEventView::CommitEnded(commit_result_view(*end)),
        }
    }
}

/// How the loop ended.
#[derive(Debug, PartialEq, Eq)]
pub enum CommitEnd {
    /// Nothing is staged.
    NothingStaged,
    /// The commit was made under `message`.
    Committed { message: String, edited: bool },
    /// The user quit; nothing was changed.
    Skipped,
    /// An error ended the loop; the text says which.
    Failed(String),
}

/// A `CommitEnd` as plain mathematical values.
pub enum CommitEndView {
    NothingStaged,
    Committed { message: Seq<char>, edited: bool },
    Skipped,
    Failed(Seq<char>),
}

impl View for CommitEnd {
    type V = CommitEndView;

    open spec fn view(&self) -> CommitEndView {
        match self {
            CommitEnd::NothingStaged => CommitEndView::NothingStaged,
            CommitEnd::Committed { message, edited } => CommitEndView::Committed {
                message: message@,
                edited: *edited,
            },
            CommitEnd::Skipped => CommitEndView::Skipped,
            CommitEnd::Failed(text) => CommitEndView::Failed(text@),
        }
    }
}

/// The one thing to do next.
#[derive(Debug, PartialEq, Eq)]
pub enum CommitAction {
    /// Nothing: the event was not one the state waits for.
    Nothing,
    /// Read the staged diff, and hand it in as `CommitEvent::Diff`.
    ReadDiff { regenerating: bool },
    /// Send the request, and hand the reply in as `CommitEvent::Reply`.
    Send(CompletionRequest),
    /// Show the message and ask what to do with it; hand the line in as
    /// `CommitEvent::Answer`. `again` says that the last answer was not
    /// understood.
    Present { message: String, again: bool },
    /// Open the editor on the message, and hand the revision in as
    /// `CommitEvent::Revision`.
    Edit(String),
    /// Commit under the message, and hand the end in as
    /// `CommitEvent::CommitEnded`.
    Commit(String),
    /// Leave the loop.
    Exit(CommitEnd),
}

/// A `CommitAction` as plain mathematical values.
pub enum CommitActionView {
    Nothing,
    ReadDiff { regenerating: bool },
    Send(CompletionRequestView),
    Present { message: Seq<char>, again: bool },
    Edit(Seq<char>),
    Commit(Seq<char>),
    Exit(CommitEndView),
}

impl View for CommitAction {
    type V = CommitActionView;

    open spec fn view(&self) -> CommitActionView {
        match self {
            CommitAction::Nothing => CommitActionView::Nothing,
            CommitAction::ReadDiff { regenerating } => CommitActionView::ReadDiff {
                regenerating: *regenerating,
            },
            CommitAction::Send(request) => CommitActionView::Send(request@),
            CommitAction::Present { message, again } => CommitActionView::Present {
                message: message@,
                again: *again,
            },
            CommitAction::Edit(message) => CommitActionView::Edit(message@),
            CommitAction::Commit(message) => CommitActionView::Commit(message@),
            CommitAction::Exit(end) => CommitActionView::Exit(end@),
        }
    }
}

/// The state the loop starts in, and the first thing to do.
pub open spec fn commit_start() -> (CommitStateView, CommitActionView) {
    (CommitStateView::Generating, CommitActionView::ReadDiff { regenerating: false })
}

/// Whether the loop has ended in `state`.
pub open spec fn commit_ended(state: CommitStateView) -> bool {
    state is Committed || state is Skipped || state is Failed
}

/// The status the process exits with after `end`.
pub open spec fn commit_exit_code(end: CommitEndView) -> int {
    match end {
        CommitEndView::Failed(_) => 1,
        _ => 0,
    }
}

/// The next state and the thing to do when `event` happens in `state`.
///
/// A diff leads to a request, an empty diff to a quiet end, a reply to the
/// message on display. An answer commits, edits, starts over or quits; one
/// that is not understood changes nothing and asks again. A revision is
/// committed as it came. Any failure ends the loop, and an event that the
/// state does not wait for changes nothing.
pub open spec fn commit_next<G: CommitMessageGenerator>(
    generator: &G,
    prefix: Option<Seq<char>>,
    state: CommitStateView,
    event: CommitEventView,
) -> (CommitStateView, CommitActionView) {
    match (state, event) {
        (CommitStateView::Generating, CommitEventView::Diff(Ok(diff))) => {
            let exchange = generator.commit_message_exchange(diff, prefix);
            (CommitStateView::Requesting(exchange.reading), CommitActionView::Send(exchange.request))
        },
        (CommitStateView::Generating, CommitEventView::Diff(Err(GitErrorView::EmptyDiff))) => (
            CommitStateView::Skipped,
            CommitActionView::Exit(CommitEndView::NothingStaged),
        ),
        (CommitStateView::Generating, CommitEventView::Diff(Err(error))) => (
            CommitStateView::Failed,
            CommitActionView::Exit(CommitEndView::Failed(git_error_text(error))),
        ),
        (CommitStateView::Requesting(reading), CommitEventView::Reply(reply)) => match reading_outcome(
            reading,
            reply,
        ) {
            Ok(message) => (
                CommitStateView::Presenting(message),
                CommitActionView::Present { message, again: false },
            ),
            Err(error) => (
                CommitStateView::Failed,
                CommitActionView::Exit(CommitEndView::Failed(client_error_text(error))),
            ),
        },
        (CommitStateView::Presenting(message), CommitEventView::Answer(line)) => match commit_decision_of(
            trimmed(line),
        ) {
            Some(CommitDecision::Accept) => (
                CommitStateView::Committing { message, edited: false },
                CommitActionView::Commit(message),
            ),
            Some(CommitDecision::Edit) => (CommitStateView::Editing, CommitActionView::Edit(message)),
            Some(CommitDecision::Regenerate) => (
                CommitStateView::Generating,
                CommitActionView::ReadDiff { regenerating: true },
            ),
            Some(CommitDecision::Quit) => (
                CommitStateView::Skipped,
                CommitActionView::Exit(CommitEndView::Skipped),
            ),
            None => (
                CommitStateView::Presenting(message),
                CommitActionView::Present { message, again: true },
            ),
        },
        (CommitStateView::Editing, CommitEventView::Revision(Ok(revised))) => (
            CommitStateView::Committing { message: revised, edited: true },
            CommitActionView::Commit(revised),
        ),
        (CommitStateView::Editing, CommitEventView::Revision(Err(report))) => (
            CommitStateView::Failed,
            CommitActionView::Exit(CommitEndView::Failed(report)),
        ),
        (CommitStateView::Committing { message, edited }, CommitEventView::CommitEnded(Ok(()))) => (
            CommitStateView::Committed,
            CommitActionView::Exit(CommitEndView::Committed { message, edited }),
        ),
        (CommitStateView::Committing { .. }, CommitEventView::CommitEnded(Err(error))) => (
            CommitStateView::Failed,
            CommitActionView::Exit(CommitEndView::Failed(git_error_text(error))),
        ),
        _ => (state, CommitActionView::Nothing),
    }
}

/// The state the loop starts in, and the first thing to do: read the diff.
pub fn start_commit_flow() -> (r: (CommitState, CommitAction))
    ensures
        (r.0@, r.1@) == commit_start(),
{
    (CommitState::Generating, CommitAction::ReadDiff { regenerating: false })
}

/// One step of the loop: the next state and the thing to do when `event`
/// happens in `state`.
pub fn commit_step<G: CommitMessageGenerator>(
    generator: &G,
    prefix: Option<&String>,
    state: CommitState,
    event: CommitEvent,
) -> (r: (CommitState, CommitAction))
    ensures
        (r.0@, r.1@) == commit_next(generator, owned_prefix_of(prefix), state@, event@),
{
    match state {
        CommitState::Generating => match event {
            CommitEvent::Diff(Ok(diff)) => {
                let exchange = generator.generate_commit_message(diff.as_str(), prefix);
                (CommitState::Requesting(exchange.reading), CommitAction::Send(exchange.request))
            },
            CommitEvent::Diff(Err(GitError::EmptyDiff)) => (
                CommitState::Skipped,
                CommitAction::Exit(CommitEnd::NothingStaged),
            ),
            CommitEvent::Diff(Err(error)) => (
                CommitState::Failed,
                CommitAction::Exit(CommitEnd::Failed(error.to_text())),
            ),
            _ => (CommitState::Generating, CommitAction::Nothing),
        },
        CommitState::Requesting(reading) => match event {
            CommitEvent::Reply(reply) => match reading.finish(reply) {
                Ok(message) => (
                    CommitState::Presenting(message.clone()),
                    CommitAction::Present { message, again: false },
                ),
                Err(error) => (
                    CommitState::Failed,
                    CommitAction::Exit(CommitEnd::Failed(error.to_text())),
                ),
            },
            _ => (CommitState::Requesting(reading), CommitAction::Nothing),
        },
        CommitState::Presenting(message) => match event {
            CommitEvent::Answer(line) => match read_commit_decision(line.as_str()) {
                Some(CommitDecision::Accept) => (
                    CommitState::Committing { message: message.clone(), edited: false },
                    CommitAction::Commit(message),
                ),
                Some(CommitDecision::Edit) => (CommitState::Editing, CommitAction::Edit(message)),
                Some(CommitDecision::Regenerate) => (
                    CommitState::Generating,
                    CommitAction::ReadDiff { regenerating: true },
                ),
                Some(CommitDecision::Quit) => (
                    CommitState::Skipped,
                    CommitAction::Exit(CommitEnd::Skipped),
                ),
                None => (
                    CommitState::Presenting(message.clone()),
                    CommitAction::Present { message, again: true },
                ),
            },
            _ => (CommitState::Presenting(message), CommitAction::Nothing),
        },
        CommitState::Editing => match event {
            CommitEvent::Revision(Ok(revised)) => (
                CommitState::Committing { message: revised.clone(), edited: true },
                CommitAction::Commit(revised),
            ),
            CommitEvent::Revision(Err(report)) => (
                CommitState::Failed,
                CommitAction::Exit(CommitEnd::Failed(report)),
            ),
            _ => (CommitState::Editing, CommitAction::Nothing),
        },
        CommitState::Committing { message, edited } => match event {
            CommitEvent::CommitEnded(Ok(())) => (
                CommitState::Committed,
                CommitAction::Exit(CommitEnd::Committed { message, edited }),
            ),
            CommitEvent::CommitEnded(Err(error)) => (
                CommitState::Failed,
                CommitAction::Exit(CommitEnd::Failed(error.to_text())),
            ),
            _ => (CommitState::Committing { message, edited }, CommitAction::Nothing),
        },
        CommitState::Committed => (CommitState::Committed, CommitAction::Nothing),
        CommitState::Skipped => (CommitState::Skipped, CommitAction::Nothing),
        CommitState::Failed => (CommitState::Failed, CommitAction::Nothing),
    }
}

/// The line that reports `end` to the user. Only a failure is reported as
/// an error.
pub open spec fn commit_end_text(end: CommitEndView) -> Seq<char> {
    match end {
        CommitEndView::NothingStaged => git_error_text(GitErrorView::EmptyDiff),
        CommitEndView::Committed { message, edited } => if edited {
            COMMITTED_EDITED_LEAD@ + message
        } else {
            COMMITTED_LEAD@ + message
        },
        CommitEndView::Skipped => SKIPPED_NOTICE@,
        CommitEndView::Failed(text) => ERROR_LEAD@ + text,
    }
}

/// What is shown when a message is presented: the message under its
/// heading, and the question; before them, where the last answer was not
/// understood, a line that says so.
pub open spec fn presentation_text(message: Seq<char>, again: bool) -> Seq<char> {
    let shown = MESSAGE_HEADING@ + message + "\n\n"@ + COMMIT_PROMPT@;
    if again {
        INVALID_OPTION_NOTICE@ + "\n"@ + shown
    } else {
        shown
    }
}

impl CommitEnd {
    /// The status the process exits with: 1 after a failure, else 0.
    pub fn exit_code(&self) -> (r: u8)
        ensures
            r == commit_exit_code(self@),
    {
        match self {
            CommitEnd::Failed(_) => 1,
            _ => 0,
        }
    }

    /// Whether the report goes to the error stream: it does after a
    /// failure, and only then. That nothing is staged is a piece of news.
    pub fn is_complaint(&self) -> (r: bool)
        ensures
            r == (self@ is Failed),
    {
        match self {
            CommitEnd::Failed(_) => true,
            _ => false,
        }
    }

    /// The line that reports the end to the user.
    pub fn to_text(&self) -> (r: String)
        ensures
            r@ == commit_end_text(self@),
    {
        match self {
            CommitEnd::NothingStaged => GitError::EmptyDiff.to_text(),
            CommitEnd::Committed { message, edited } => if *edited {
                String::from_str(COMMITTED_EDITED_LEAD).concat(message.as_str())
            } else {
                String::from_str(COMMITTED_LEAD).concat(message.as_str())
            },
            CommitEnd::Skipped => String::from_str(SKIPPED_NOTICE),
            CommitEnd::Failed(text) => String::from_str(ERROR_LEAD).concat(text.as_str()),
        }
    }
}

/// What is shown when `message` is presented.
pub fn presentation(message: &str, again: bool) -> (r: String)
    ensures
        r@ == presentation_text(message@, again),
{
    let shown = String::from_str(MESSAGE_HEADING).concat(message).concat("\n\n").concat(
        COMMIT_PROMPT,
    );
    if again {
        let text = String::from_str(INVALID_OPTION_NOTICE).concat("\n").concat(shown.as_str());
        assert(text@ =~= presentation_text(message@, again));
        text
    } else {
        shown
    }
}

} // verus!
