use gcmgen::client::{Client, Provider, PullRequestGenerator, Reading};
use gcmgen::config::ServiceConfig;
use gcmgen::git::GitError;
use gcmgen::pull_request_flow::{
    pull_request_presentation, pull_request_step, start_pull_request_flow, PullRequestAction,
    PullRequestEnd, PullRequestEvent, PullRequestState,
};

const DIFF: &str = "diff --git a/f b/f\n+hello\n";

fn client() -> Client {
    let settings =
        ServiceConfig { api_token: "test_token".to_string(), model: "gpt-4o-mini".to_string() };
    Client::new(&settings, "OpenAI").unwrap()
}

fn reply(content: &str) -> Result<String, String> {
    Ok(format!("{{\"choices\":[{{\"message\":{{\"content\":\"{}\"}}}}]}}", content))
}

fn presenting() -> PullRequestState {
    PullRequestState::Presenting {
        title: "Greet the user".to_string(),
        description: "Adds a greeting.".to_string(),
    }
}

fn answer(line: &str) -> PullRequestEvent {
    PullRequestEvent::Answer(line.to_string())
}

fn run(
    prefix: Option<&str>,
    base: Option<&str>,
    state: PullRequestState,
    events: Vec<PullRequestEvent>,
) -> (PullRequestState, Vec<PullRequestAction>) {
    let client = client();
    let mut state = state;
    let mut actions = Vec::new();
    for event in events {
        let (next, action) = pull_request_step(&client, prefix, base, state, event);
        state = next;
        actions.push(action);
    }
    (state, actions)
}

fn creations(actions: &[PullRequestAction]) -> usize {
    actions.iter().filter(|a| matches!(a, PullRequestAction::Create { .. })).count()
}

fn sends(actions: &[PullRequestAction]) -> usize {
    actions.iter().filter(|a| matches!(a, PullRequestAction::Send(_))).count()
}

fn reads(actions: &[PullRequestAction]) -> usize {
    actions.iter().filter(|a| matches!(a, PullRequestAction::ReadDiff { .. })).count()
}

#[test]
fn the_pull_request_flow_starts_by_reading_the_diff() {
    assert_eq!(
        start_pull_request_flow(None),
        (
            PullRequestState::Generating,
            PullRequestAction::ReadDiff { base: "main".to_string(), regenerating: false }
        )
    );
    assert_eq!(
        start_pull_request_flow(Some("develop")).1,
        PullRequestAction::ReadDiff { base: "develop".to_string(), regenerating: false }
    );
}

#[test]
fn title_and_description_are_asked_for_in_turn() {
    let (state, actions) = run(
        Some("TICKET-123"),
        None,
        PullRequestState::Generating,
        vec![
            PullRequestEvent::Diff(Ok(DIFF.to_string())),
            PullRequestEvent::Reply(reply(" Greet the user ")),
            PullRequestEvent::Reply(reply(" Adds a greeting. ")),
        ],
    );
    assert_eq!(
        actions[0],
        PullRequestAction::Send(client().generate_pr_title(DIFF, Some("TICKET-123")).request)
    );
    assert_eq!(actions[1], PullRequestAction::Send(client().generate_pr_description(DIFF).request));
    assert_eq!(
        actions[2],
        PullRequestAction::Present {
            title: "TICKET-123 Greet the user".to_string(),
            description: "Adds a greeting.".to_string(),
            again: false
        }
    );
    assert_eq!(
        state,
        PullRequestState::Presenting {
            title: "TICKET-123 Greet the user".to_string(),
            description: "Adds a greeting.".to_string()
        }
    );
    assert_eq!(sends(&actions), 2);
    assert_eq!(creations(&actions), 0);
}

#[test]
fn no_difference_ends_the_pull_request_flow_quietly() {
    let (state, actions) = run(
        None,
        None,
        PullRequestState::Generating,
        vec![PullRequestEvent::Diff(Err(GitError::EmptyDiff)), answer("a")],
    );
    assert_eq!(state, PullRequestState::Cancelled);
    assert_eq!(actions[0], PullRequestAction::Exit(PullRequestEnd::NothingToDiff));
    assert_eq!(actions[1], PullRequestAction::Nothing);
    assert_eq!(PullRequestEnd::NothingToDiff.exit_code(), 0);
    assert_eq!(creations(&actions), 0);
    assert_eq!(sends(&actions), 0);
}

#[test]
fn a_failed_branch_diff_ends_the_flow_with_an_error() {
    let (state, actions) = run(
        None,
        None,
        PullRequestState::Generating,
        vec![PullRequestEvent::Diff(Err(GitError::GitCommandFailed(
            "Failed to get diff against branch 'main'".to_string(),
        )))],
    );
    assert_eq!(state, PullRequestState::Failed);
    assert_eq!(
        actions,
        vec![PullRequestAction::Exit(PullRequestEnd::Failed(
            "Git command failed: Failed to get diff against branch 'main'".to_string()
        ))]
    );
}

#[test]
fn a_failed_title_asks_for_no_description() {
    let (state, actions) = run(
        None,
        None,
        PullRequestState::Generating,
        vec![
            PullRequestEvent::Diff(Ok(DIFF.to_string())),
            PullRequestEvent::Reply(Ok("{\"choices\":[]}".to_string())),
            PullRequestEvent::Reply(reply("late")),
        ],
    );
    assert_eq!(state, PullRequestState::Failed);
    assert_eq!(
        actions[1],
        PullRequestAction::Exit(PullRequestEnd::Failed(
            "Failed to generate PR title. Unexpected response format: {\"choices\":[]}".to_string()
        ))
    );
    assert_eq!(actions[2], PullRequestAction::Nothing);
    assert_eq!(sends(&actions), 1);
}

#[test]
fn a_failed_description_shows_nothing() {
    let (state, actions) = run(
        None,
        None,
        PullRequestState::RequestingDescription {
            title: "Greet the user".to_string(),
            reading: Reading { provider: Provider::OpenAI, prefix: None },
        },
        vec![PullRequestEvent::Reply(Err("timed out".to_string())), answer("a")],
    );
    assert_eq!(state, PullRequestState::Failed);
    assert_eq!(actions[0], PullRequestAction::Exit(PullRequestEnd::Failed("timed out".to_string())));
    assert_eq!(creations(&actions), 0);
}

#[test]
fn accept_creates_the_pull_request_once() {
    for line in ["a", "A\n"] {
        let (state, actions) = run(
            None,
            Some("main"),
            presenting(),
            vec![
                answer(line),
                PullRequestEvent::CreationEnded(Ok("opened".to_string())),
                answer("a"),
            ],
        );
        assert_eq!(state, PullRequestState::Created);
        assert_eq!(
            actions[0],
            PullRequestAction::Create {
                title: "Greet the user".to_string(),
                description: "Adds a greeting.".to_string(),
                base: "main".to_string()
            }
        );
        assert_eq!(actions[1], PullRequestAction::Exit(PullRequestEnd::Created("opened".to_string())));
        assert_eq!(creations(&actions), 1);
        assert_eq!(sends(&actions), 0);
        assert_eq!(reads(&actions), 0);
    }
}

#[test]
fn accept_creates_against_the_default_branch_when_none_is_named() {
    let (_, actions) = run(None, None, presenting(), vec![answer("a")]);
    assert!(matches!(&actions[0], PullRequestAction::Create { base, .. } if base == "main"));
    let (_, actions) = run(None, Some("develop"), presenting(), vec![answer("a")]);
    assert!(matches!(&actions[0], PullRequestAction::Create { base, .. } if base == "develop"));
}

#[test]
fn a_failed_creation_ends_the_flow_with_an_error() {
    let (state, actions) = run(
        None,
        None,
        presenting(),
        vec![
            answer("a"),
            PullRequestEvent::CreationEnded(Err("Failed to create pull request".to_string())),
        ],
    );
    assert_eq!(state, PullRequestState::Failed);
    let end = PullRequestEnd::Failed("Failed to create pull request".to_string());
    assert_eq!(end.exit_code(), 1);
    assert_eq!(actions[1], PullRequestAction::Exit(end));
}

#[test]
fn regenerate_asks_for_both_again() {
    for line in ["r", "R"] {
        let (state, actions) = run(
            None,
            None,
            presenting(),
            vec![
                answer(line),
                PullRequestEvent::Diff(Ok(DIFF.to_string())),
                PullRequestEvent::Reply(reply("New title")),
                PullRequestEvent::Reply(reply("New description")),
            ],
        );
        assert_eq!(
            state,
            PullRequestState::Presenting {
                title: "New title".to_string(),
                description: "New description".to_string()
            }
        );
        assert_eq!(
            actions[0],
            PullRequestAction::ReadDiff { base: "main".to_string(), regenerating: true }
        );
        assert_eq!(reads(&actions), 1);
        assert_eq!(sends(&actions), 2);
        assert_eq!(creations(&actions), 0);
    }
}

#[test]
fn cancel_creates_nothing() {
    for line in ["c", "C\n"] {
        let (state, actions) = run(None, None, presenting(), vec![answer(line), answer("a")]);
        assert_eq!(state, PullRequestState::Cancelled);
        assert_eq!(actions[0], PullRequestAction::Exit(PullRequestEnd::Cancelled));
        assert_eq!(PullRequestEnd::Cancelled.exit_code(), 0);
        assert_eq!(creations(&actions), 0);
    }
}

#[test]
fn an_unrecognized_answer_keeps_the_pull_request() {
    for line in ["x", "e", "q", ""] {
        let (state, actions) = run(None, None, presenting(), vec![answer(line)]);
        assert_eq!(state, presenting());
        assert_eq!(
            actions,
            vec![PullRequestAction::Present {
                title: "Greet the user".to_string(),
                description: "Adds a greeting.".to_string(),
                again: true
            }]
        );
    }
}

#[test]
fn a_pull_request_event_out_of_turn_is_ignored() {
    let (state, actions) = run(None, None, PullRequestState::Generating, vec![answer("a")]);
    assert_eq!(state, PullRequestState::Generating);
    assert_eq!(actions, vec![PullRequestAction::Nothing]);
    let (state, actions) =
        run(None, None, PullRequestState::Creating, vec![PullRequestEvent::Reply(reply("x"))]);
    assert_eq!(state, PullRequestState::Creating);
    assert_eq!(actions, vec![PullRequestAction::Nothing]);
    let (state, actions) =
        run(None, None, presenting(), vec![PullRequestEvent::Diff(Ok(DIFF.to_string()))]);
    assert_eq!(state, presenting());
    assert_eq!(actions, vec![PullRequestAction::Nothing]);
}

#[test]
fn an_ended_pull_request_flow_does_nothing_more() {
    for state in [PullRequestState::Created, PullRequestState::Cancelled, PullRequestState::Failed] {
        let (_, actions) = run(
            None,
            None,
            state,
            vec![
                PullRequestEvent::Diff(Ok(DIFF.to_string())),
                PullRequestEvent::Reply(reply("m")),
                answer("a"),
                PullRequestEvent::CreationEnded(Ok("opened".to_string())),
            ],
        );
        assert!(actions.iter().all(|a| *a == PullRequestAction::Nothing));
    }
}

#[test]
fn pull_request_end_texts() {
    assert_eq!(PullRequestEnd::NothingToDiff.to_text(), "No changes are staged for commit");
    assert_eq!(
        PullRequestEnd::Created("Pull request creation page opened in your browser.".to_string())
            .to_text(),
        "Pull request creation page opened in your browser.\nPull request created successfully."
    );
    assert_eq!(PullRequestEnd::Cancelled.to_text(), "PR creation canceled.");
    assert_eq!(PullRequestEnd::Failed("timed out".to_string()).to_text(), "Error: timed out");
    assert!(!PullRequestEnd::NothingToDiff.is_complaint());
    assert!(PullRequestEnd::Failed("x".to_string()).is_complaint());
    assert!(!PullRequestEnd::Cancelled.is_complaint());
    assert!(!PullRequestEnd::Created("n".to_string()).is_complaint());
}

#[test]
fn pull_request_presentation_texts() {
    assert_eq!(
        pull_request_presentation("T", "D", false),
        "\nGenerated PR Title:\nT\n\nGenerated PR Description:\nD\n\nDo you want to (a)ccept, (r)egenerate, or (c)ancel? [a/e/c]: "
    );
    assert_eq!(
        pull_request_presentation("T", "D", true),
        "Invalid option. Please choose 'a' to accept, 'e' to edit, or 'c' to cancel.\n\nGenerated PR Title:\nT\n\nGenerated PR Description:\nD\n\nDo you want to (a)ccept, (r)egenerate, or (c)ancel? [a/e/c]: "
    );
}
