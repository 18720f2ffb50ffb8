//! What holds of every run of the loop around a commit message: which calls
//! to the outside a decision leads to, and how often.

use vstd::prelude::*;
use crate::client::CommitMessageGenerator;
use crate::commit_flow::{
    commit_ended, commit_exit_code, commit_next, CommitActionView, CommitEndView, CommitEventView,
    CommitStateView,
};
use crate::decision::{commit_decision_of, lemma_decision_letters, CommitDecision};
use crate::git::GitErrorView;
use crate::text::trimmed;

verus! {

/// The calls to the outside that change or cost something.
pub enum CommitCall {
    /// The staged diff is read.
    DiffRead,
    /// A request goes to the provider.
    Generation,
    /// The editor is opened.
    Edit,
    /// A commit is made.
    Commit,
}

/// Whether `action` is the call `call`.
pub open spec fn is_commit_call(action: CommitActionView, call: CommitCall) -> bool {
    match call {
        CommitCall::DiffRead => action is ReadDiff,
        CommitCall::Generation => action is Send,
        CommitCall::Edit => action is Edit,
        CommitCall::Commit => action is Commit,
    }
}

/// How often the call `call` occurs among `actions`.
pub open spec fn commit_calls(actions: Seq<CommitActionView>, call: CommitCall) -> nat
    decreases actions.len(),
{
    if actions.len() == 0 {
        0
    } else {
        let first: nat = if is_commit_call(actions[0], call) {
            1
        } else {
            0
        };
        first + commit_calls(actions.drop_first(), call)
    }
}

/// The things to do, in order, when `events` happen one after the other
/// from `state` on.
pub open spec fn commit_run<G: CommitMessageGenerator>(
    generator: &G,
    prefix: Option<Seq<char>>,
    state: CommitStateView,
    events: Seq<CommitEventView>,
) -> Seq<CommitActionView>
    decreases events.len(),
{
    if events.len() == 0 {
        Seq::empty()
    } else {
        let step = commit_next(generator, prefix, state, events[0]);
        seq![step.1] + commit_run(generator, prefix, step.0, events.drop_first())
    }
}

/// A run on a first event and more is the first step and the run from
/// there.
pub proof fn lemma_commit_run_unfold<G: CommitMessageGenerator>(
    generator: &G,
    prefix: Option<Seq<char>>,
    state: CommitStateView,
    first: CommitEventView,
    rest: Seq<CommitEventView>,
)
    ensures
        commit_run(generator, prefix, state, seq![first] + rest) == seq![
            commit_next(generator, prefix, state, first).1,
        ] + commit_run(generator, prefix, commit_next(generator, prefix, state, first).0, rest),
        commit_run(generator, prefix, state, seq![first] + rest)[0] == commit_next(
            generator,
            prefix,
            state,
            first,
        ).1,
{
    let events = seq![first] + rest;
    assert(events[0] == first);
    assert(events.drop_first() =~= rest);
}

/// The calls of a run on a first event and more are those of the first
/// step and those of the run from there.
pub proof fn lemma_commit_run_step<G: CommitMessageGenerator>(
    generator: &G,
    prefix: Option<Seq<char>>,
    state: CommitStateView,
    first: CommitEventView,
    rest: Seq<CommitEventView>,
    call: CommitCall,
)
    ensures
        commit_calls(commit_run(generator, prefix, state, seq![first] + rest), call) == (if is_commit_call(
            commit_next(generator, prefix, state, first).1,
            call,
        ) {
            1nat
        } else {
            0nat
        }) + commit_calls(
            commit_run(
                generator,
                prefix,
                commit_next(generator, prefix, state, first).0,
                rest,
            ),
            call,
        ),
{
    lemma_commit_run_unfold(generator, prefix, state, first, rest);
    let step = commit_next(generator, prefix, state, first);
    let tail = commit_run(generator, prefix, step.0, rest);
    let actions = commit_run(generator, prefix, state, seq![first] + rest);
    assert(actions[0] == step.1);
    assert(actions.drop_first() =~= tail);
}

/// Once the loop has ended, nothing more is done.
pub proof fn lemma_commit_end_is_final<G: CommitMessageGenerator>(
    generator: &G,
    prefix: Option<Seq<char>>,
    state: CommitStateView,
    events: Seq<CommitEventView>,
    call: CommitCall,
)
    requires
        commit_ended(state),
    ensures
        commit_calls(commit_run(generator, prefix, state, events), call) == 0,
    decreases events.len(),
{
    if events.len() > 0 {
        let first = events[0];
        let rest = events.drop_first();
        assert(events =~= seq![first] + rest);
        lemma_commit_run_step(generator, prefix, state, first, rest, call);
        lemma_commit_end_is_final(generator, prefix, state, rest, call);
    }
}

/// While a commit is under way, no further call is made, whatever happens.
pub proof fn lemma_commit_under_way<G: CommitMessageGenerator>(
    generator: &G,
    prefix: Option<Seq<char>>,
    state: CommitStateView,
    events: Seq<CommitEventView>,
    call: CommitCall,
)
    requires
        state is Committing,
    ensures
        commit_calls(commit_run(generator, prefix, state, events), call) == 0,
    decreases events.len(),
{
    if events.len() > 0 {
        let first = events[0];
        let rest = events.drop_first();
        assert(events =~= seq![first] + rest);
        lemma_commit_run_step(generator, prefix, state, first, rest, call);
        let step = commit_next(generator, prefix, state, first);
        if step.0 is Committing {
            lemma_commit_under_way(generator, prefix, step.0, rest, call);
        } else {
            lemma_commit_end_is_final(generator, prefix, step.0, rest, call);
        }
    }
}

/// While the editor is open, nothing is read or generated, the editor is
/// not opened again, and at most one commit follows.
pub proof fn lemma_commit_while_editing<G: CommitMessageGenerator>(
    generator: &G,
    prefix: Option<Seq<char>>,
    events: Seq<CommitEventView>,
)
    ensures
        commit_calls(
            commit_run(generator, prefix, CommitStateView::Editing, events),
            CommitCall::DiffRead,
        ) == 0,
        commit_calls(
            commit_run(generator, prefix, CommitStateView::Editing, events),
            CommitCall::Generation,
        ) == 0,
        commit_calls(commit_run(generator, prefix, CommitStateView::Editing, events), CommitCall::Edit)
            == 0,
        commit_calls(
            commit_run(generator, prefix, CommitStateView::Editing, events),
            CommitCall::Commit,
        ) <= 1,
    decreases events.len(),
{
    if events.len() > 0 {
        let state = CommitStateView::Editing;
        let first = events[0];
        let rest = events.drop_first();
        assert(events =~= seq![first] + rest);
        lemma_commit_run_step(generator, prefix, state, first, rest, CommitCall::DiffRead);
        lemma_commit_run_step(generator, prefix, state, first, rest, CommitCall::Generation);
        lemma_commit_run_step(generator, prefix, state, first, rest, CommitCall::Edit);
        lemma_commit_run_step(generator, prefix, state, first, rest, CommitCall::Commit);
        let step = commit_next(generator, prefix, state, first);
        if step.0 is Editing {
            lemma_commit_while_editing(generator, prefix, rest);
        } else if step.0 is Committing {
            lemma_commit_under_way(generator, prefix, step.0, rest, CommitCall::DiffRead);
            lemma_commit_under_way(generator, prefix, step.0, rest, CommitCall::Generation);
            lemma_commit_under_way(generator, prefix, step.0, rest, CommitCall::Edit);
            lemma_commit_under_way(generator, prefix, step.0, rest, CommitCall::Commit);
        } else {
            lemma_commit_end_is_final(generator, prefix, step.0, rest, CommitCall::DiffRead);
            lemma_commit_end_is_final(generator, prefix, step.0, rest, CommitCall::Generation);
            lemma_commit_end_is_final(generator, prefix, step.0, rest, CommitCall::Edit);
            lemma_commit_end_is_final(generator, prefix, step.0, rest, CommitCall::Commit);
        }
    }
}

/// A run on three events is the three steps one after the other.
pub proof fn lemma_commit_run_of_three<G: CommitMessageGenerator>(
    generator: &G,
    prefix: Option<Seq<char>>,
    state: CommitStateView,
    first: CommitEventView,
    second: CommitEventView,
    third: CommitEventView,
)
    ensures
        ({
            let one = commit_next(generator, prefix, state, first);
            let two = commit_next(generator, prefix, one.0, second);
            let three = commit_next(generator, prefix, two.0, third);
            let actions = commit_run(generator, prefix, state, seq![first, second, third]);
            &&& actions == seq![one.1, two.1, three.1]
            &&& forall|call: CommitCall|
                #[trigger] commit_calls(actions, call) == (if is_commit_call(one.1, call) {
                    1nat
                } else {
                    0nat
                }) + (if is_commit_call(two.1, call) {
                    1nat
                } else {
                    0nat
                }) + (if is_commit_call(three.1, call) {
                    1nat
                } else {
                    0nat
                })
        }),
{
    let none = Seq::<CommitEventView>::empty();
    let events = seq![first, second, third];
    assert(events =~= seq![first] + (seq![second] + (seq![third] + none)));
    let one = commit_next(generator, prefix, state, first);
    let two = commit_next(generator, prefix, one.0, second);
    let three = commit_next(generator, prefix, two.0, third);
    assert(commit_run(generator, prefix, three.0, none) =~= Seq::empty());
    let actions = commit_run(generator, prefix, state, events);
    assert forall|call: CommitCall|
        #[trigger] commit_calls(actions, call) == (if is_commit_call(one.1, call) {
            1nat
        } else {
            0nat
        }) + (if is_commit_call(two.1, call) {
            1nat
        } else {
            0nat
        }) + (if is_commit_call(three.1, call) {
            1nat
        } else {
            0nat
        }) by {
        lemma_commit_run_step(generator, prefix, state, first, seq![second] + (seq![third] + none), call);
        lemma_commit_run_step(generator, prefix, one.0, second, seq![third] + none, call);
        lemma_commit_run_step(generator, prefix, two.0, third, none, call);
    }
    lemma_commit_run_unfold(generator, prefix, state, first, seq![second] + (seq![third] + none));
    lemma_commit_run_unfold(generator, prefix, one.0, second, seq![third] + none);
    lemma_commit_run_unfold(generator, prefix, two.0, third, none);
    assert(actions =~= seq![one.1, two.1, three.1]);
}

/// When the diff reader finds nothing staged, the loop ends at once with
/// status 0, and no request is sent and no commit made, whatever happens
/// afterwards.
pub proof fn law_nothing_staged_ends_quietly<G: CommitMessageGenerator>(
    generator: &G,
    prefix: Option<Seq<char>>,
    rest: Seq<CommitEventView>,
)
    ensures
        ({
            let events = seq![CommitEventView::Diff(Err(GitErrorView::EmptyDiff))] + rest;
            let actions = commit_run(generator, prefix, CommitStateView::Generating, events);
            &&& actions[0] == CommitActionView::Exit(CommitEndView::NothingStaged)
            &&& commit_exit_code(CommitEndView::NothingStaged) == 0
            &&& commit_calls(actions, CommitCall::Commit) == 0
            &&& commit_calls(actions, CommitCall::Generation) == 0
            &&& commit_calls(actions, CommitCall::Edit) == 0
            &&& commit_calls(actions, CommitCall::DiffRead) == 0
        }),
{
    let state = CommitStateView::Generating;
    let first = CommitEventView::Diff(Err(GitErrorView::EmptyDiff));
    let after = CommitStateView::Skipped;
    lemma_commit_run_unfold(generator, prefix, state, first, rest);
    lemma_commit_run_step(generator, prefix, state, first, rest, CommitCall::Commit);
    lemma_commit_run_step(generator, prefix, state, first, rest, CommitCall::Generation);
    lemma_commit_run_step(generator, prefix, state, first, rest, CommitCall::Edit);
    lemma_commit_run_step(generator, prefix, state, first, rest, CommitCall::DiffRead);
    lemma_commit_end_is_final(generator, prefix, after, rest, CommitCall::Commit);
    lemma_commit_end_is_final(generator, prefix, after, rest, CommitCall::Generation);
    lemma_commit_end_is_final(generator, prefix, after, rest, CommitCall::Edit);
    lemma_commit_end_is_final(generator, prefix, after, rest, CommitCall::DiffRead);
}

/// When the user answers `a` or `A` to the message on display, that very
/// message is committed, and it is the only commit; nothing is read,
/// generated or edited afterwards, whatever happens.
pub proof fn law_accept_commits_once<G: CommitMessageGenerator>(
    generator: &G,
    prefix: Option<Seq<char>>,
    message: Seq<char>,
    line: Seq<char>,
    rest: Seq<CommitEventView>,
)
    requires
        trimmed(line) == "a"@ || trimmed(line) == "A"@,
    ensures
        ({
            let events = seq![CommitEventView::Answer(line)] + rest;
            let actions = commit_run(generator, prefix, CommitStateView::Presenting(message), events);
            &&& actions[0] == CommitActionView::Commit(message)
            &&& commit_calls(actions, CommitCall::Commit) == 1
            &&& commit_calls(actions, CommitCall::Generation) == 0
            &&& commit_calls(actions, CommitCall::DiffRead) == 0
            &&& commit_calls(actions, CommitCall::Edit) == 0
        }),
{
    lemma_decision_letters();
    let state = CommitStateView::Presenting(message);
    let first = CommitEventView::Answer(line);
    let after = CommitStateView::Committing { message, edited: false };
    assert(commit_next(generator, prefix, state, first) == (after, CommitActionView::Commit(message)));
    lemma_commit_run_unfold(generator, prefix, state, first, rest);
    lemma_commit_run_step(generator, prefix, state, first, rest, CommitCall::Commit);
    lemma_commit_run_step(generator, prefix, state, first, rest, CommitCall::Generation);
    lemma_commit_run_step(generator, prefix, state, first, rest, CommitCall::Edit);
    lemma_commit_run_step(generator, prefix, state, first, rest, CommitCall::DiffRead);
    lemma_commit_under_way(generator, prefix, after, rest, CommitCall::Commit);
    lemma_commit_under_way(generator, prefix, after, rest, CommitCall::Generation);
    lemma_commit_under_way(generator, prefix, after, rest, CommitCall::Edit);
    lemma_commit_under_way(generator, prefix, after, rest, CommitCall::DiffRead);
}

/// When the user answers `e` or `E` to the message on display, the editor
/// is opened on that message, once; nothing is read or generated
/// afterwards, and at most one commit follows, whatever happens.
pub proof fn law_edit_opens_the_editor_once<G: CommitMessageGenerator>(
    generator: &G,
    prefix: Option<Seq<char>>,
    message: Seq<char>,
    line: Seq<char>,
    rest: Seq<CommitEventView>,
)
    requires
        trimmed(line) == "e"@ || trimmed(line) == "E"@,
    ensures
        ({
            let events = seq![CommitEventView::Answer(line)] + rest;
            let actions = commit_run(generator, prefix, CommitStateView::Presenting(message), events);
            &&& actions[0] == CommitActionView::Edit(message)
            &&& commit_calls(actions, CommitCall::Edit) == 1
            &&& commit_calls(actions, CommitCall::Generation) == 0
            &&& commit_calls(actions, CommitCall::DiffRead) == 0
            &&& commit_calls(actions, CommitCall::Commit) <= 1
        }),
{
    lemma_decision_letters();
    let state = CommitStateView::Presenting(message);
    let first = CommitEventView::Answer(line);
    assert(commit_next(generator, prefix, state, first) == (
        CommitStateView::Editing,
        CommitActionView::Edit(message),
    ));
    lemma_commit_run_unfold(generator, prefix, state, first, rest);
    lemma_commit_run_step(generator, prefix, state, first, rest, CommitCall::Commit);
    lemma_commit_run_step(generator, prefix, state, first, rest, CommitCall::Generation);
    lemma_commit_run_step(generator, prefix, state, first, rest, CommitCall::Edit);
    lemma_commit_run_step(generator, prefix, state, first, rest, CommitCall::DiffRead);
    lemma_commit_while_editing(generator, prefix, rest);
}

/// When the user answers `e` or `E` and the editor hands back a revision,
/// the revision is committed as it came, and that is the only commit;
/// nothing is generated on the way, whatever happens afterwards.
pub proof fn law_edit_commits_the_revision<G: CommitMessageGenerator>(
    generator: &G,
    prefix: Option<Seq<char>>,
    message: Seq<char>,
    line: Seq<char>,
    revised: Seq<char>,
    rest: Seq<CommitEventView>,
)
    requires
        trimmed(line) == "e"@ || trimmed(line) == "E"@,
    ensures
        ({
            let events = seq![CommitEventView::Answer(line)] + (seq![
                CommitEventView::Revision(Ok(revised)),
            ] + rest);
            let actions = commit_run(generator, prefix, CommitStateView::Presenting(message), events);
            &&& actions[0] == CommitActionView::Edit(message)
            &&& actions[1] == CommitActionView::Commit(revised)
            &&& commit_calls(actions, CommitCall::Edit) == 1
            &&& commit_calls(actions, CommitCall::Commit) == 1
            &&& commit_calls(actions, CommitCall::Generation) == 0
            &&& commit_calls(actions, CommitCall::DiffRead) == 0
        }),
{
    lemma_decision_letters();
    let state = CommitStateView::Presenting(message);
    let first = CommitEventView::Answer(line);
    let second = CommitEventView::Revision(Ok(revised));
    let editing = CommitStateView::Editing;
    let after = CommitStateView::Committing { message: revised, edited: true };
    let tail = seq![second] + rest;
    assert(commit_next(generator, prefix, state, first) == (editing, CommitActionView::Edit(message)));
    assert(commit_next(generator, prefix, editing, second) == (after, CommitActionView::Commit(revised)));
    lemma_commit_run_unfold(generator, prefix, state, first, tail);
    lemma_commit_run_step(generator, prefix, state, first, tail, CommitCall::Commit);
    lemma_commit_run_step(generator, prefix, state, first, tail, CommitCall::Generation);
    lemma_commit_run_step(generator, prefix, state, first, tail, CommitCall::Edit);
    lemma_commit_run_step(generator, prefix, state, first, tail, CommitCall::DiffRead);
    lemma_commit_run_unfold(generator, prefix, editing, second, rest);
    lemma_commit_run_step(generator, prefix, editing, second, rest, CommitCall::Commit);
    lemma_commit_run_step(generator, prefix, editing, second, rest, CommitCall::Generation);
    lemma_commit_run_step(generator, prefix, editing, second, rest, CommitCall::Edit);
    lemma_commit_run_step(generator, prefix, editing, second, rest, CommitCall::DiffRead);
    lemma_commit_under_way(generator, prefix, after, rest, CommitCall::Commit);
    lemma_commit_under_way(generator, prefix, after, rest, CommitCall::Generation);
    lemma_commit_under_way(generator, prefix, after, rest, CommitCall::Edit);
    lemma_commit_under_way(generator, prefix, after, rest, CommitCall::DiffRead);
}

/// When the user answers `r` or `R`, the diff is read once more and one
/// more request is sent, for the diff as it was read then; until the reply
/// has come, no commit is made and the editor is not opened.
pub proof fn law_regenerate_reads_and_generates_once<G: CommitMessageGenerator>(
    generator: &G,
    prefix: Option<Seq<char>>,
    message: Seq<char>,
    line: Seq<char>,
    diff: Seq<char>,
    reply: Result<Seq<char>, Seq<char>>,
)
    requires
        trimmed(line) == "r"@ || trimmed(line) == "R"@,
    ensures
        ({
            let events = seq![
                CommitEventView::Answer(line),
                CommitEventView::Diff(Ok(diff)),
                CommitEventView::Reply(reply),
            ];
            let actions = commit_run(generator, prefix, CommitStateView::Presenting(message), events);
            &&& actions.len() == 3
            &&& actions[0] == CommitActionView::ReadDiff { regenerating: true }
            &&& actions[1] == CommitActionView::Send(
                generator.commit_message_exchange(diff, prefix).request,
            )
            &&& (actions[2] is Present || actions[2] is Exit)
            &&& commit_calls(actions, CommitCall::DiffRead) == 1
            &&& commit_calls(actions, CommitCall::Generation) == 1
            &&& commit_calls(actions, CommitCall::Commit) == 0
            &&& commit_calls(actions, CommitCall::Edit) == 0
        }),
{
    lemma_decision_letters();
    let state = CommitStateView::Presenting(message);
    let first = CommitEventView::Answer(line);
    let second = CommitEventView::Diff(Ok(diff));
    let third = CommitEventView::Reply(reply);
    lemma_commit_run_of_three(generator, prefix, state, first, second, third);
    let one = commit_next(generator, prefix, state, first);
    let two = commit_next(generator, prefix, one.0, second);
    let three = commit_next(generator, prefix, two.0, third);
    assert(one.0 is Generating);
    assert(two.0 is Requesting);
    assert(three.1 is Present || three.1 is Exit);
}

/// When the user answers `q` or `Q`, the loop ends with status 0 and no
/// commit is made, whatever happens afterwards.
pub proof fn law_quit_commits_nothing<G: CommitMessageGenerator>(
    generator: &G,
    prefix: Option<Seq<char>>,
    message: Seq<char>,
    line: Seq<char>,
    rest: Seq<CommitEventView>,
)
    requires
        trimmed(line) == "q"@ || trimmed(line) == "Q"@,
    ensures
        ({
            let events = seq![CommitEventView::Answer(line)] + rest;
            let actions = commit_run(generator, prefix, CommitStateView::Presenting(message), events);
            &&& actions[0] == CommitActionView::Exit(CommitEndView::Skipped)
            &&& commit_exit_code(CommitEndView::Skipped) == 0
            &&& commit_calls(actions, CommitCall::Commit) == 0
            &&& commit_calls(actions, CommitCall::Generation) == 0
            &&& commit_calls(actions, CommitCall::DiffRead) == 0
            &&& commit_calls(actions, CommitCall::Edit) == 0
        }),
{
    lemma_decision_letters();
    let state = CommitStateView::Presenting(message);
    let first = CommitEventView::Answer(line);
    let after = CommitStateView::Skipped;
    assert(commit_next(generator, prefix, state, first) == (
        after,
        CommitActionView::Exit(CommitEndView::Skipped),
    ));
    lemma_commit_run_unfold(generator, prefix, state, first, rest);
    lemma_commit_run_step(generator, prefix, state, first, rest, CommitCall::Commit);
    lemma_commit_run_step(generator, prefix, state, first, rest, CommitCall::Generation);
    lemma_commit_run_step(generator, prefix, state, first, rest, CommitCall::Edit);
    lemma_commit_run_step(generator, prefix, state, first, rest, CommitCall::DiffRead);
    lemma_commit_end_is_final(generator, prefix, after, rest, CommitCall::Commit);
    lemma_commit_end_is_final(generator, prefix, after, rest, CommitCall::Generation);
    lemma_commit_end_is_final(generator, prefix, after, rest, CommitCall::Edit);
    lemma_commit_end_is_final(generator, prefix, after, rest, CommitCall::DiffRead);
}

/// An answer that is none of the letters, such as `x`, leaves the state as
/// it is and has the same message shown again: nothing is read, generated,
/// edited or committed.
pub proof fn law_unrecognized_answer_changes_nothing<G: CommitMessageGenerator>(
    generator: &G,
    prefix: Option<Seq<char>>,
    message: Seq<char>,
    line: Seq<char>,
)
    requires
        commit_decision_of(trimmed(line)) is None,
    ensures
        commit_next(
            generator,
            prefix,
            CommitStateView::Presenting(message),
            CommitEventView::Answer(line),
        ) == (
            CommitStateView::Presenting(message),
            CommitActionView::Present { message, again: true },
        ),
        commit_decision_of("x"@) is None,
{
    lemma_decision_letters();
}

/// Whatever the state and whatever happens, a run holds at most one
/// commit.
pub proof fn law_at_most_one_commit<G: CommitMessageGenerator>(
    generator: &G,
    prefix: Option<Seq<char>>,
    state: CommitStateView,
    events: Seq<CommitEventView>,
)
    ensures
        commit_calls(commit_run(generator, prefix, state, events), CommitCall::Commit) <= 1,
    decreases events.len(),
{
    if events.len() > 0 {
        let first = events[0];
        let rest = events.drop_first();
        assert(events =~= seq![first] + rest);
        lemma_commit_run_step(generator, prefix, state, first, rest, CommitCall::Commit);
        let step = commit_next(generator, prefix, state, first);
        if step.1 is Commit {
            lemma_commit_under_way(generator, prefix, step.0, rest, CommitCall::Commit);
        } else {
            law_at_most_one_commit(generator, prefix, step.0, rest);
        }
    }
}

/// A commit is asked for only when the user accepts the message on
/// display, and then under that message, or when the editor hands back a
/// revision, and then under that revision. No other state and no other
/// event leads to a commit.
pub proof fn law_commit_only_after_accept_or_revision<G: CommitMessageGenerator>(
    generator: &G,
    prefix: Option<Seq<char>>,
    state: CommitStateView,
    event: CommitEventView,
    message: Seq<char>,
)
    requires
        commit_next(generator, prefix, state, event).1 == CommitActionView::Commit(message),
    ensures
        commit_next(generator, prefix, state, event).0 is Committing,
        (state == CommitStateView::Presenting(message) && event is Answer && commit_decision_of(
            trimmed(event->Answer_0),
        ) == Some(CommitDecision::Accept)) || (state is Editing && event
            == CommitEventView::Revision(Ok(message))),
{
}

} // verus!
