//! The loop around a pull request, as a state machine: each event from
//! outside (a diff was read, a reply came, the user answered, the creation
//! ended) gives the next state and the one thing to do next.

use vstd::prelude::*;
use vstd::string::*;
use crate::client::{
    client_error_text, prefix_of, reading_outcome, reply_view, ClientError, Exchange, ExchangeView,
    PullRequestGenerator, Reading, ReadingView,
};
use crate::decision::{pull_request_decision_of, read_pull_request_decision, PullRequestDecision};
use crate::git::{diff_result_view, git_error_text, resolve_branch, resolved_branch, GitError, GitErrorView};
use crate::request::{CompletionRequest, CompletionRequestView};
use crate::text::trimmed;

verus! {

pub const PR_REGENERATING_NOTICE: &'static str = "Regenerating commit message...";

pub const PR_INVALID_OPTION_NOTICE: &'static str =
    "Invalid option. Please choose 'a' to accept, 'e' to edit, or 'c' to cancel.";

pub const TITLE_HEADING: &'static str = "\nGenerated PR Title:\n";

pub const DESCRIPTION_HEADING: &'static str = "Generated PR Description:\n";

pub const PR_PROMPT: &'static str = "Do you want to (a)ccept, (r)egenerate, or (c)ancel? [a/e/c]: ";

pub const CREATED_NOTICE: &'static str = "Pull request created successfully.";

pub const CANCELLED_NOTICE: &'static str = "PR creation canceled.";

pub const PR_ERROR_LEAD: &'static str = "Error: ";

/// Where the loop stands.
#[derive(Debug, PartialEq, Eq)]
pub enum PullRequestState {
    /// The diff against the base branch is being read.
    Generating,
    /// The request for the title is out; the one for the description waits.
    RequestingTitle { reading: Reading, pending: Exchange },
    /// The title is there, and the request for the description is out.
    RequestingDescription { title: String, reading: Reading },
    /// Title and description are shown, and the user is asked what to do.
    Presenting { title: String, description: String },
    /// The creation of the pull request is under way.
    Creating,
    /// The pull request was handed to the tool. The loop has ended.
    Created,
    /// No pull request was made and nothing went wrong. The loop has ended.
    Cancelled,
    /// Something went wrong. The loop has ended.
    Failed,
}

/// A `PullRequestState` as plain mathematical values.
pub enum PullRequestStateView {
    Generating,
    RequestingTitle { reading: ReadingView, pending: ExchangeView },
    RequestingDescription { title: Seq<char>, reading: ReadingView },
    Presenting { title: Seq<char>, description: Seq<char> },
    Creating,
    Created,
    Cancelled,
    Failed,
}

impl View for PullRequestState {
    type V = PullRequestStateView;

    open spec fn view(&self) -> PullRequestStateView {
        match self {
            PullRequestState::Generating => PullRequestStateView::Generating,
            PullRequestState::RequestingTitle { reading, pending } => PullRequestStateView::RequestingTitle {
                reading: reading@,
                pending: pending@,
            },
            PullRequestState::RequestingDescription {
                title,
                reading,
            } => PullRequestStateView::RequestingDescription { title: title@, reading: reading@ },
            PullRequestState::Presenting { title, description } => PullRequestStateView::Presenting {
                title: title@,
                description: description@,
            },
            PullRequestState::Creating => PullRequestStateView::Creating,
            PullRequestState::Created => PullRequestStateView::Created,
            PullRequestState::Cancelled => PullRequestStateView::Cancelled,
            PullRequestState::Failed => PullRequestStateView::Failed,
        }
    }
}

/// What happened outside.
#[derive(Debug, PartialEq, Eq)]
pub enum PullRequestEvent {
    /// The diff against the base branch was read, or could not be.
    Diff(Result<String, GitError>),
    /// The transport handed back the body of a reply, or its report of a
    /// failure.
    Reply(Result<String, String>),
    /// The user typed this line.
    Answer(String),
    /// The creation ended: with a notice for the user, or with an error.
    CreationEnded(Result<String, String>),
}

/// A `PullRequestEvent` as plain mathematical values.
pub enum PullRequestEventView {
    Diff(Result<Seq<char>, GitErrorView>),
    Reply(Result<Seq<char>, Seq<char>>),
    Answer(Seq<char>),
    CreationEnded(Result<Seq<char>, Seq<char>>),
}

impl View for PullRequestEvent {
    type V = PullRequestEventView;

    open spec fn view(&self) -> PullRequestEventView {
        match self {
            PullRequestEvent::Diff(diff) => PullRequestEventView::Diff(diff_result_view(*diff)),
            PullRequestEvent::Reply(reply) => PullRequestEventView::Reply(reply_view(*reply)),
            PullRequestEvent::Answer(line) => PullRequestEventView::Answer(line@),
            PullRequestEvent::CreationEnded(end) => PullRequestEventView::CreationEnded(
                reply_view(*end),
            ),
        }
    }
}

/// How the loop ended.
#[derive(Debug, PartialEq, Eq)]
pub enum PullRequestEnd {
    /// There is no difference to the base branch.
    NothingToDiff,
    /// The pull request was handed to the tool, which gave this notice.
    Created(String),
    /// The user cancelled.
    Cancelled,
    /// An error ended the loop; the text says which.
    Failed(String),
}

/// A `PullRequestEnd` as plain mathematical values.
pub enum PullRequestEndView {
    NothingToDiff,
    Created(Seq<char>),
    Cancelled,
    Failed(Seq<char>),
}

impl View for PullRequestEnd {
    type V = PullRequestEndView;

    open spec fn view(&self) -> PullRequestEndView {
        match self {
            PullRequestEnd::NothingToDiff => PullRequestEndView::NothingToDiff,
            PullRequestEnd::Created(notice) => PullRequestEndView::Created(notice@),
            PullRequestEnd::Cancelled => PullRequestEndView::Cancelled,
            PullRequestEnd::Failed(text) => PullRequestEndView::Failed(text@),
        }
    }
}

/// The one thing to do next.
#[derive(Debug, PartialEq, Eq)]
pub enum PullRequestAction {
    /// Nothing: the event was not one the state waits for.
    Nothing,
    /// Read the diff against `base`, and hand it in as
    /// `PullRequestEvent::Diff`.
    ReadDiff { base: String, regenerating: bool },
    /// Send the request, and hand the reply in as `PullRequestEvent::Reply`.
    Send(CompletionRequest),
    /// Show title and description and ask what to do with them; hand the
    /// line in as `PullRequestEvent::Answer`. `again` says that the last
    /// answer was not understood.
    Present { title: String, description: String, again: bool },
    /// Create the pull request against `base`, and hand the end in as
    /// `PullRequestEvent::CreationEnded`.
    Create { title: String, description: String, base: String },
    /// Leave the loop.
    Exit(PullRequestEnd),
}

/// A `PullRequestAction` as plain mathematical values.
pub enum PullRequestActionView {
    Nothing,
    ReadDiff { base: Seq<char>, regenerating: bool },
    Send(CompletionRequestView),
    Present { title: Seq<char>, description: Seq<char>, again: bool },
    Create { title: Seq<char>, description: Seq<char>, base: Seq<char> },
    Exit(PullRequestEndView),
}

impl View for PullRequestAction {
    type V = PullRequestActionView;

    open spec fn view(&self) -> PullRequestActionView {
        match self {
            PullRequestAction::Nothing => PullRequestActionView::Nothing,
            PullRequestAction::ReadDiff { base, regenerating } => PullRequestActionView::ReadDiff {
                base: base@,
                regenerating: *regenerating,
            },
            PullRequestAction::Send(request) => PullRequestActionView::Send(request@),
            PullRequestAction::Present { title, description, again } => PullRequestActionView::Present {
                title: title@,
                description: description@,
                again: *again,
            },
            PullRequestAction::Create { title, description, base } => PullRequestActionView::Create {
                title: title@,
                description: description@,
                base: base@,
            },
            PullRequestAction::Exit(end) => PullRequestActionView::Exit(end@),
        }
    }
}

/// The state the loop starts in, and the first thing to do.
pub open spec fn pull_request_start(base: Seq<char>) -> (PullRequestStateView, PullRequestActionView) {
    (PullRequestStateView::Generating, PullRequestActionView::ReadDiff { base, regenerating: false })
}

/// Whether the loop has ended in `state`.
pub open spec fn pull_request_ended(state: PullRequestStateView) -> bool {
    state is Created || state is Cancelled || state is Failed
}

/// The status the process exits with after `end`.
pub open spec fn pull_request_exit_code(end: PullRequestEndView) -> int {
    match end {
        PullRequestEndView::Failed(_) => 1,
        _ => 0,
    }
}

/// The way out of the loop after the failure `error` of a generation.
pub open spec fn failure_of(error: crate::client::ClientErrorView) -> PullRequestActionView {
    PullRequestActionView::Exit(PullRequestEndView::Failed(client_error_text(error)))
}

/// The next state and the thing to do when `event` happens in `state`.
///
/// A diff leads to the request for the title, an empty diff to a quiet
/// end; the title's reply leads to the request for the description, and
/// that one's reply to both on display. Either generation failing ends the
/// loop with nothing shown. An answer creates the pull request against
/// `base`, starts over or cancels; one that is not understood changes
/// nothing and asks again. An event that the state does not wait for
/// changes nothing.
pub open spec fn pull_request_next<G: PullRequestGenerator>(
    generator: &G,
    prefix: Option<Seq<char>>,
    base: Seq<char>,
    state: PullRequestStateView,
    event: PullRequestEventView,
) -> (PullRequestStateView, PullRequestActionView) {
    match (state, event) {
        (PullRequestStateView::Generating, PullRequestEventView::Diff(Ok(diff))) => {
            let title = generator.title_exchange(diff, prefix);
            let description = generator.description_exchange(diff);
            (
                PullRequestStateView::RequestingTitle { reading: title.reading, pending: description },
                PullRequestActionView::Send(title.request),
            )
        },
        (PullRequestStateView::Generating, PullRequestEventView::Diff(Err(GitErrorView::EmptyDiff))) => (
            PullRequestStateView::Cancelled,
            PullRequestActionView::Exit(PullRequestEndView::NothingToDiff),
        ),
        (PullRequestStateView::Generating, PullRequestEventView::Diff(Err(error))) => (
            PullRequestStateView::Failed,
            PullRequestActionView::Exit(PullRequestEndView::Failed(git_error_text(error))),
        ),
        (
            PullRequestStateView::RequestingTitle { reading, pending },
            PullRequestEventView::Reply(reply),
        ) => match reading_outcome(reading, reply) {
            Ok(text) => (
                PullRequestStateView::RequestingDescription { title: text, reading: pending.reading },
                PullRequestActionView::Send(pending.request),
            ),
            Err(error) => (PullRequestStateView::Failed, failure_of(error)),
        },
        (
            PullRequestStateView::RequestingDescription { title, reading },
            PullRequestEventView::Reply(reply),
        ) => match reading_outcome(reading, reply) {
            Ok(text) => (
                PullRequestStateView::Presenting { title, description: text },
                PullRequestActionView::Present { title, description: text, again: false },
            ),
            Err(error) => (PullRequestStateView::Failed, failure_of(error)),
        },
        (
            PullRequestStateView::Presenting { title, description },
            PullRequestEventView::Answer(line),
        ) => match pull_request_decision_of(trimmed(line)) {
            Some(PullRequestDecision::Accept) => (
                PullRequestStateView::Creating,
                PullRequestActionView::Create { title, description, base },
            ),
            Some(PullRequestDecision::Regenerate) => (
                PullRequestStateView::Generating,
                PullRequestActionView::ReadDiff { base, regenerating: true },
            ),
            Some(PullRequestDecision::Cancel) => (
                PullRequestStateView::Cancelled,
                PullRequestActionView::Exit(PullRequestEndView::Cancelled),
            ),
            None => (
                PullRequestStateView::Presenting { title, description },
                PullRequestActionView::Present { title, description, again: true },
            ),
        },
        (PullRequestStateView::Creating, PullRequestEventView::CreationEnded(Ok(notice))) => (
            PullRequestStateView::Created,
            PullRequestActionView::Exit(PullRequestEndView::Created(notice)),
        ),
        (PullRequestStateView::Creating, PullRequestEventView::CreationEnded(Err(text))) => (
            PullRequestStateView::Failed,
            PullRequestActionView::Exit(PullRequestEndView::Failed(text)),
        ),
        _ => (state, PullRequestActionView::Nothing),
    }
}

/// The state the loop starts in, and the first thing to do: read the diff
/// against the base branch.
pub fn start_pull_request_flow(base: Option<&str>) -> (r: (PullRequestState, PullRequestAction))
    ensures
        (r.0@, r.1@) == pull_request_start(resolved_branch(base)),
{
    (
        PullRequestState::Generating,
        PullRequestAction::ReadDiff {
            base: String::from_str(resolve_branch(base)),
            regenerating: false,
        },
    )
}

fn failure(error: ClientError) -> (r: PullRequestAction)
    ensures
        r@ == failure_of(error@),
{
    PullRequestAction::Exit(PullRequestEnd::Failed(error.to_text()))
}

/// One step of the loop: the next state and the thing to do when `event`
/// happens in `state`.
pub fn pull_request_step<G: PullRequestGenerator>(
    generator: &G,
    prefix: Option<&str>,
    base: Option<&str>,
    state: PullRequestState,
    event: PullRequestEvent,
) -> (r: (PullRequestState, PullRequestAction))
    ensures
        (r.0@, r.1@) == pull_request_next(
            generator,
            prefix_of(prefix),
            resolved_branch(base),
            state@,
            event@,
        ),
{
    match state {
        PullRequestState::Generating => match event {
            PullRequestEvent::Diff(Ok(diff)) => {
                let title = generator.generate_pr_title(diff.as_str(), prefix);
                let description = generator.generate_pr_description(diff.as_str());
                (
                    PullRequestState::RequestingTitle { reading: title.reading, pending: description },
                    PullRequestAction::Send(title.request),
                )
            },
            PullRequestEvent::Diff(Err(GitError::EmptyDiff)) => (
                PullRequestState::Cancelled,
                PullRequestAction::Exit(PullRequestEnd::NothingToDiff),
            ),
            PullRequestEvent::Diff(Err(error)) => (
                PullRequestState::Failed,
                PullRequestAction::Exit(PullRequestEnd::Failed(error.to_text())),
            ),
            _ => (PullRequestState::Generating, PullRequestAction::Nothing),
        },
        PullRequestState::RequestingTitle { reading, pending } => match event {
            PullRequestEvent::Reply(reply) => match reading.finish(reply) {
                Ok(text) => (
                    PullRequestState::RequestingDescription { title: text, reading: pending.reading },
                    PullRequestAction::Send(pending.request),
                ),
                Err(error) => (PullRequestState::Failed, failure(error)),
            },
            _ => (PullRequestState::RequestingTitle { reading, pending }, PullRequestAction::Nothing),
        },
        PullRequestState::RequestingDescription { title, reading } => match event {
            PullRequestEvent::Reply(reply) => match reading.finish(reply) {
                Ok(text) => (
                    PullRequestState::Presenting { title: title.clone(), description: text.clone() },
                    PullRequestAction::Present { title, description: text, again: false },
                ),
                Err(error) => (PullRequestState::Failed, failure(error)),
            },
            _ => (PullRequestState::RequestingDescription { title, reading }, PullRequestAction::Nothing),
        },
        PullRequestState::Presenting { title, description } => match event {
            PullRequestEvent::Answer(line) => match read_pull_request_decision(line.as_str()) {
                Some(PullRequestDecision::Accept) => (
                    PullRequestState::Creating,
                    PullRequestAction::Create {
                        title,
                        description,
                        base: String::from_str(resolve_branch(base)),
                    },
                ),
                Some(PullRequestDecision::Regenerate) => (
                    PullRequestState::Generating,
                    PullRequestAction::ReadDiff {
                        base: String::from_str(resolve_branch(base)),
                        regenerating: true,
                    },
                ),
                Some(PullRequestDecision::Cancel) => (
                    PullRequestState::Cancelled,
                    PullRequestAction::Exit(PullRequestEnd::Cancelled),
                ),
                None => (
                    PullRequestState::Presenting {
                        title: title.clone(),
                        description: description.clone(),
                    },
                    PullRequestAction::Present { title, description, again: true },
                ),
            },
            _ => (PullRequestState::Presenting { title, description }, PullRequestAction::Nothing),
        },
        PullRequestState::Creating => match event {
            PullRequestEvent::CreationEnded(Ok(notice)) => (
                PullRequestState::Created,
                PullRequestAction::Exit(PullRequestEnd::Created(notice)),
            ),
            PullRequestEvent::CreationEnded(Err(text)) => (
                PullRequestState::Failed,
                PullRequestAction::Exit(PullRequestEnd::Failed(text)),
            ),
            _ => (PullRequestState::Creating, PullRequestAction::Nothing),
        },
        PullRequestState::Created => (PullRequestState::Created, PullRequestAction::Nothing),
        PullRequestState::Cancelled => (PullRequestState::Cancelled, PullRequestAction::Nothing),
        PullRequestState::Failed => (PullRequestState::Failed, PullRequestAction::Nothing),
    }
}

/// The lines that report `end` to the user. Only a failure is reported as
/// an error.
pub open spec fn pull_request_end_text(end: PullRequestEndView) -> Seq<char> {
    match end {
        PullRequestEndView::NothingToDiff => git_error_text(GitErrorView::EmptyDiff),
        PullRequestEndView::Created(notice) => notice + "\n"@ + CREATED_NOTICE@,
        PullRequestEndView::Cancelled => CANCELLED_NOTICE@,
        PullRequestEndView::Failed(text) => PR_ERROR_LEAD@ + text,
    }
}

/// What is shown when a pull request is presented: title and description
/// under their headings, and the question; before them, where the last
/// answer was not understood, a line that says so.
pub open spec fn pull_request_presentation_text(
    title: Seq<char>,
    description: Seq<char>,
    again: bool,
) -> Seq<char> {
    let shown = TITLE_HEADING@ + title + "\n\n"@ + DESCRIPTION_HEADING@ + description + "\n\n"@
        + PR_PROMPT@;
    if again {
        PR_INVALID_OPTION_NOTICE@ + "\n"@ + shown
    } else {
        shown
    }
}

impl PullRequestEnd {
    /// The status the process exits with: 1 after a failure, else 0.
    pub fn exit_code(&self) -> (r: u8)
        ensures
            r == pull_request_exit_code(self@),
    {
        match self {
            PullRequestEnd::Failed(_) => 1,
            _ => 0,
        }
    }

    /// Whether the report goes to the error stream: it does after a
    /// failure, and only then. That there is nothing to diff is a piece of
    /// news.
    pub fn is_complaint(&self) -> (r: bool)
        ensures
            r == (self@ is Failed),
    {
        match self {
            PullRequestEnd::Failed(_) => true,
            _ => false,
        }
    }

    /// The lines that report the end to the user.
    pub fn to_text(&self) -> (r: String)
        ensures
            r@ == pull_request_end_text(self@),
    {
        match self {
            PullRequestEnd::NothingToDiff => GitError::EmptyDiff.to_text(),
            PullRequestEnd::Created(notice) => notice.clone().concat("\n").concat(CREATED_NOTICE),
            PullRequestEnd::Cancelled => String::from_str(CANCELLED_NOTICE),
            PullRequestEnd::Failed(text) => String::from_str(PR_ERROR_LEAD).concat(text.as_str()),
        }
    }
}

/// What is shown when `title` and `description` are presented.
pub fn pull_request_presentation(title: &str, description: &str, again: bool) -> (r: String)
    ensures
        r@ == pull_request_presentation_text(title@, description@, again),
{
    let shown = String::from_str(TITLE_HEADING).concat(title).concat("\n\n").concat(
        DESCRIPTION_HEADING,
    ).concat(description).concat("\n\n").concat(PR_PROMPT);
    if again {
        let text = String::from_str(PR_INVALID_OPTION_NOTICE).concat("\n").concat(shown.as_str());
        assert(text@ =~= pull_request_presentation_text(title@, description@, again));
        text
    } else {
        shown
    }
}

} // verus!
