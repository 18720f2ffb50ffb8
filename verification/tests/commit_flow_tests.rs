use gcmgen::client::{Client, CommitMessageGenerator, Provider, Reading};
use gcmgen::commit_flow::{
    commit_step, presentation, start_commit_flow, CommitAction, CommitEnd, CommitEvent, CommitState,
};
use gcmgen::config::ServiceConfig;
use gcmgen::git::GitError;

const DIFF: &str = "diff --git a/f b/f\n+hello\n";

fn client() -> Client {
    let settings =
        ServiceConfig { api_token: "test_token".to_string(), model: "gpt-4o-mini".to_string() };
    Client::new(&settings, "OpenAI").unwrap()
}

fn reply(content: &str) -> Result<String, String> {
    Ok(format!("{{\"choices\":[{{\"message\":{{\"content\":\"{}\"}}}}]}}", content))
}

fn presenting(message: &str) -> CommitState {
    CommitState::Presenting(message.to_string())
}

fn answer(line: &str) -> CommitEvent {
    CommitEvent::Answer(line.to_string())
}

/// Runs `events` from `state` on and hands back the last state and every
/// action.
fn run(
    prefix: Option<&String>,
    state: CommitState,
    events: Vec<CommitEvent>,
) -> (CommitState, Vec<CommitAction>) {
    let client = client();
    let mut state = state;
    let mut actions = Vec::new();
    for event in events {
        let (next, action) = commit_step(&client, prefix, state, event);
        state = next;
        actions.push(action);
    }
    (state, actions)
}

fn commits(actions: &[CommitAction]) -> usize {
    actions.iter().filter(|a| matches!(a, CommitAction::Commit(_))).count()
}

fn sends(actions: &[CommitAction]) -> usize {
    actions.iter().filter(|a| matches!(a, CommitAction::Send(_))).count()
}

fn reads(actions: &[CommitAction]) -> usize {
    actions.iter().filter(|a| matches!(a, CommitAction::ReadDiff { .. })).count()
}

fn edits(actions: &[CommitAction]) -> usize {
    actions.iter().filter(|a| matches!(a, CommitAction::Edit(_))).count()
}

#[test]
fn the_flow_starts_by_reading_the_diff() {
    assert_eq!(
        start_commit_flow(),
        (CommitState::Generating, CommitAction::ReadDiff { regenerating: false })
    );
}

#[test]
fn a_diff_leads_to_one_request() {
    let (state, actions) =
        run(None, CommitState::Generating, vec![CommitEvent::Diff(Ok(DIFF.to_string()))]);
    let exchange = client().generate_commit_message(DIFF, None);
    assert_eq!(state, CommitState::Requesting(exchange.reading));
    assert_eq!(actions, vec![CommitAction::Send(exchange.request)]);
}

#[test]
fn the_generated_message_is_presented() {
    let (state, actions) = run(
        None,
        CommitState::Generating,
        vec![CommitEvent::Diff(Ok(DIFF.to_string())), CommitEvent::Reply(reply("  Add hello greeting  "))],
    );
    assert_eq!(state, presenting("Add hello greeting"));
    assert_eq!(
        actions[1],
        CommitAction::Present { message: "Add hello greeting".to_string(), again: false }
    );
}

#[test]
fn the_prefix_stands_before_the_presented_message() {
    let prefix = "TICKET-123".to_string();
    let (state, _) = run(
        Some(&prefix),
        CommitState::Generating,
        vec![CommitEvent::Diff(Ok(DIFF.to_string())), CommitEvent::Reply(reply("  Add hello greeting  "))],
    );
    assert_eq!(state, presenting("TICKET-123 Add hello greeting"));
}

#[test]
fn an_empty_diff_ends_the_flow_quietly() {
    let (state, actions) = run(
        None,
        CommitState::Generating,
        vec![
            CommitEvent::Diff(Err(GitError::EmptyDiff)),
            answer("a"),
            CommitEvent::CommitEnded(Ok(())),
        ],
    );
    assert_eq!(state, CommitState::Skipped);
    assert_eq!(actions[0], CommitAction::Exit(CommitEnd::NothingStaged));
    assert_eq!(CommitEnd::NothingStaged.exit_code(), 0);
    assert_eq!(commits(&actions), 0);
    assert_eq!(sends(&actions), 0);
    assert_eq!(actions[1], CommitAction::Nothing);
    assert_eq!(actions[2], CommitAction::Nothing);
}

#[test]
fn a_failed_diff_ends_the_flow_with_an_error() {
    let (state, actions) = run(
        None,
        CommitState::Generating,
        vec![CommitEvent::Diff(Err(GitError::GitCommandFailed("Failed to get diff".to_string())))],
    );
    assert_eq!(state, CommitState::Failed);
    let end = CommitEnd::Failed("Git command failed: Failed to get diff".to_string());
    assert_eq!(end.exit_code(), 1);
    assert_eq!(actions, vec![CommitAction::Exit(end)]);
    let (state, actions) = run(
        None,
        CommitState::Generating,
        vec![CommitEvent::Diff(Err(GitError::IoError("denied".to_string())))],
    );
    assert_eq!(state, CommitState::Failed);
    assert_eq!(actions, vec![CommitAction::Exit(CommitEnd::Failed("IO error: denied".to_string()))]);
}

#[test]
fn a_malformed_reply_ends_the_flow_without_a_commit() {
    let (state, actions) = run(
        None,
        CommitState::Generating,
        vec![
            CommitEvent::Diff(Ok(DIFF.to_string())),
            CommitEvent::Reply(Ok("{\"choices\":[{\"message\":{}}]}".to_string())),
            answer("a"),
        ],
    );
    assert_eq!(state, CommitState::Failed);
    assert_eq!(
        actions[1],
        CommitAction::Exit(CommitEnd::Failed(
            "Failed to generate PR title. Unexpected response format: {\"choices\":[{\"message\":{}}]}"
                .to_string()
        ))
    );
    assert_eq!(commits(&actions), 0);
    assert_eq!(actions[2], CommitAction::Nothing);
}

#[test]
fn a_transport_failure_ends_the_flow() {
    let (state, actions) = run(
        None,
        CommitState::Requesting(Reading { provider: Provider::OpenAI, prefix: None }),
        vec![CommitEvent::Reply(Err("connection refused".to_string()))],
    );
    assert_eq!(state, CommitState::Failed);
    assert_eq!(
        actions,
        vec![CommitAction::Exit(CommitEnd::Failed("connection refused".to_string()))]
    );
}

#[test]
fn accept_commits_the_displayed_message_once() {
    for line in ["a", "A", "a\n", " A \r\n"] {
        let (state, actions) = run(
            None,
            presenting("Add hello greeting"),
            vec![answer(line), CommitEvent::CommitEnded(Ok(())), answer("a")],
        );
        assert_eq!(state, CommitState::Committed);
        assert_eq!(actions[0], CommitAction::Commit("Add hello greeting".to_string()));
        assert_eq!(
            actions[1],
            CommitAction::Exit(CommitEnd::Committed {
                message: "Add hello greeting".to_string(),
                edited: false
            })
        );
        assert_eq!(commits(&actions), 1);
        assert_eq!(sends(&actions), 0);
        assert_eq!(reads(&actions), 0);
    }
}

#[test]
fn a_failed_commit_ends_the_flow_with_an_error() {
    let (state, actions) = run(
        None,
        presenting("m"),
        vec![
            answer("a"),
            CommitEvent::CommitEnded(Err(GitError::GitCommandFailed(
                "Failed to commit changes".to_string(),
            ))),
        ],
    );
    assert_eq!(state, CommitState::Failed);
    assert_eq!(
        actions[1],
        CommitAction::Exit(CommitEnd::Failed("Git command failed: Failed to commit changes".to_string()))
    );
    assert_eq!(commits(&actions), 1);
}

#[test]
fn edit_opens_the_editor_once_and_commits_the_revision() {
    for line in ["e", "E\n"] {
        let (state, actions) = run(
            None,
            presenting("Add hello greeting"),
            vec![
                answer(line),
                CommitEvent::Revision(Ok("Greet the user".to_string())),
                CommitEvent::CommitEnded(Ok(())),
            ],
        );
        assert_eq!(state, CommitState::Committed);
        assert_eq!(actions[0], CommitAction::Edit("Add hello greeting".to_string()));
        assert_eq!(actions[1], CommitAction::Commit("Greet the user".to_string()));
        assert_eq!(
            actions[2],
            CommitAction::Exit(CommitEnd::Committed {
                message: "Greet the user".to_string(),
                edited: true
            })
        );
        assert_eq!(edits(&actions), 1);
        assert_eq!(commits(&actions), 1);
        assert_eq!(sends(&actions), 0);
        assert_eq!(reads(&actions), 0);
    }
}

#[test]
fn a_failed_editor_ends_the_flow_without_a_commit() {
    let (state, actions) = run(
        None,
        presenting("m"),
        vec![answer("e"), CommitEvent::Revision(Err("vim not found".to_string()))],
    );
    assert_eq!(state, CommitState::Failed);
    assert_eq!(actions[1], CommitAction::Exit(CommitEnd::Failed("vim not found".to_string())));
    assert_eq!(commits(&actions), 0);
}

#[test]
fn regenerate_reads_the_diff_again_and_asks_again() {
    for line in ["r", "R"] {
        let changed = "diff --git a/g b/g\n+more\n";
        let (state, actions) = run(
            None,
            presenting("Add hello greeting"),
            vec![
                answer(line),
                CommitEvent::Diff(Ok(changed.to_string())),
                CommitEvent::Reply(reply("Add more")),
            ],
        );
        assert_eq!(state, presenting("Add more"));
        assert_eq!(actions[0], CommitAction::ReadDiff { regenerating: true });
        assert_eq!(
            actions[1],
            CommitAction::Send(client().generate_commit_message(changed, None).request)
        );
        assert_eq!(actions[2], CommitAction::Present { message: "Add more".to_string(), again: false });
        assert_eq!(reads(&actions), 1);
        assert_eq!(sends(&actions), 1);
        assert_eq!(commits(&actions), 0);
    }
}

#[test]
fn quit_commits_nothing() {
    for line in ["q", "Q\n"] {
        let (state, actions) = run(
            None,
            presenting("Add hello greeting"),
            vec![answer(line), answer("a"), CommitEvent::CommitEnded(Ok(()))],
        );
        assert_eq!(state, CommitState::Skipped);
        assert_eq!(actions[0], CommitAction::Exit(CommitEnd::Skipped));
        assert_eq!(CommitEnd::Skipped.exit_code(), 0);
        assert_eq!(commits(&actions), 0);
    }
}

#[test]
fn an_unrecognized_answer_changes_nothing() {
    for line in ["x", "", "accept", "ae", "1\n"] {
        let (state, actions) = run(None, presenting("Add hello greeting"), vec![answer(line)]);
        assert_eq!(state, presenting("Add hello greeting"));
        assert_eq!(
            actions,
            vec![CommitAction::Present { message: "Add hello greeting".to_string(), again: true }]
        );
    }
}

#[test]
fn an_answer_after_an_unrecognized_one_still_counts() {
    let (state, actions) = run(
        None,
        presenting("m"),
        vec![answer("x"), answer("y"), answer("a"), CommitEvent::CommitEnded(Ok(()))],
    );
    assert_eq!(state, CommitState::Committed);
    assert_eq!(commits(&actions), 1);
    assert_eq!(actions[2], CommitAction::Commit("m".to_string()));
}

#[test]
fn an_event_out_of_turn_is_ignored() {
    let (state, actions) = run(None, CommitState::Generating, vec![answer("a")]);
    assert_eq!(state, CommitState::Generating);
    assert_eq!(actions, vec![CommitAction::Nothing]);
    let (state, actions) = run(None, presenting("m"), vec![CommitEvent::CommitEnded(Ok(()))]);
    assert_eq!(state, presenting("m"));
    assert_eq!(actions, vec![CommitAction::Nothing]);
    let (state, actions) = run(None, CommitState::Editing, vec![answer("a")]);
    assert_eq!(state, CommitState::Editing);
    assert_eq!(actions, vec![CommitAction::Nothing]);
    let committing = CommitState::Committing { message: "m".to_string(), edited: false };
    let (state, actions) = run(None, committing, vec![CommitEvent::Diff(Ok(DIFF.to_string()))]);
    assert_eq!(state, CommitState::Committing { message: "m".to_string(), edited: false });
    assert_eq!(actions, vec![CommitAction::Nothing]);
    let requesting = CommitState::Requesting(Reading { provider: Provider::OpenAI, prefix: None });
    let (state, actions) = run(None, requesting, vec![answer("a")]);
    assert_eq!(state, CommitState::Requesting(Reading { provider: Provider::OpenAI, prefix: None }));
    assert_eq!(actions, vec![CommitAction::Nothing]);
}

#[test]
fn an_ended_flow_does_nothing_more() {
    for state in [CommitState::Committed, CommitState::Skipped, CommitState::Failed] {
        let (_, actions) = run(
            None,
            state,
            vec![
                CommitEvent::Diff(Ok(DIFF.to_string())),
                CommitEvent::Reply(reply("m")),
                answer("a"),
                CommitEvent::Revision(Ok("m".to_string())),
                CommitEvent::CommitEnded(Ok(())),
            ],
        );
        assert!(actions.iter().all(|a| *a == CommitAction::Nothing));
    }
}

#[test]
fn commit_end_texts() {
    assert_eq!(CommitEnd::NothingStaged.to_text(), "No changes are staged for commit");
    assert_eq!(
        CommitEnd::Committed { message: "m".to_string(), edited: false }.to_text(),
        "Committed with message: m"
    );
    assert_eq!(
        CommitEnd::Committed { message: "m".to_string(), edited: true }.to_text(),
        "Committed with edited message: m"
    );
    assert_eq!(CommitEnd::Skipped.to_text(), "Commit skipped.");
    assert_eq!(CommitEnd::Failed("IO error: denied".to_string()).to_text(), "Error: IO error: denied");
}

#[test]
fn commit_end_codes_and_streams() {
    assert_eq!(CommitEnd::Committed { message: "m".to_string(), edited: false }.exit_code(), 0);
    assert_eq!(CommitEnd::Failed("x".to_string()).exit_code(), 1);
    assert!(!CommitEnd::NothingStaged.is_complaint());
    assert!(CommitEnd::Failed("x".to_string()).is_complaint());
    assert!(!CommitEnd::Skipped.is_complaint());
    assert!(!CommitEnd::Committed { message: "m".to_string(), edited: true }.is_complaint());
}

#[test]
fn presentation_texts() {
    assert_eq!(
        presentation("Add hello greeting", false),
        "\nGenerated commit message:\n\nAdd hello greeting\n\nDo you want to (a)ccept, (e)dit, (r)egenerate, or (q)uit? If you quit, nothing will be committed [a/r/q]: "
    );
    assert_eq!(
        presentation("m", true),
        "Invalid option. Please choose 'a' to accept, 'r' to regenerate, or 'q' to quit.\n\nGenerated commit message:\n\nm\n\nDo you want to (a)ccept, (e)dit, (r)egenerate, or (q)uit? If you quit, nothing will be committed [a/r/q]: "
    );
}
