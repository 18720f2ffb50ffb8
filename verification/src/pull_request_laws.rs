//! What holds of every run of the loop around a pull request: which calls
//! to the outside a decision leads to, and how often.

use vstd::prelude::*;
use crate::client::{reading_outcome, PullRequestGenerator};
use crate::decision::{lemma_decision_letters, pull_request_decision_of, PullRequestDecision};
use crate::git::GitErrorView;
use crate::pull_request_flow::{
    pull_request_ended, pull_request_exit_code, pull_request_next, PullRequestActionView,
    PullRequestEndView, PullRequestEventView, PullRequestStateView,
};
use crate::text::trimmed;

verus! {

/// The calls to the outside that change or cost something.
pub enum PullRequestCall {
    /// The diff against the base branch is read.
    DiffRead,
    /// A request goes to the provider.
    Generation,
    /// A pull request is created.
    Creation,
}

/// Whether `action` is the call `call`.
pub open spec fn is_pull_request_call(action: PullRequestActionView, call: PullRequestCall) -> bool {
    match call {
        PullRequestCall::DiffRead => action is ReadDiff,
        PullRequestCall::Generation => action is Send,
        PullRequestCall::Creation => action is Create,
    }
}

/// How often the call `call` occurs among `actions`.
pub open spec fn pull_request_calls(actions: Seq<PullRequestActionView>, call: PullRequestCall) -> nat
    decreases actions.len(),
{
    if actions.len() == 0 {
        0
    } else {
        let first: nat = if is_pull_request_call(actions[0], call) {
            1
        } else {
            0
        };
        first + pull_request_calls(actions.drop_first(), call)
    }
}

/// The things to do, in order, when `events` happen one after the other
/// from `state` on.
pub open spec fn pull_request_run<G: PullRequestGenerator>(
    generator: &G,
    prefix: Option<Seq<char>>,
    base: Seq<char>,
    state: PullRequestStateView,
    events: Seq<PullRequestEventView>,
) -> Seq<PullRequestActionView>
    decreases events.len(),
{
    if events.len() == 0 {
        Seq::empty()
    } else {
        let step = pull_request_next(generator, prefix, base, state, events[0]);
        seq![step.1] + pull_request_run(generator, prefix, base, step.0, events.drop_first())
    }
}

/// A run on a first event and more is the first step and the run from
/// there.
pub proof fn lemma_pull_request_run_unfold<G: PullRequestGenerator>(
    generator: &G,
    prefix: Option<Seq<char>>,
    base: Seq<char>,
    state: PullRequestStateView,
    first: PullRequestEventView,
    rest: Seq<PullRequestEventView>,
)
    ensures
        pull_request_run(generator, prefix, base, state, seq![first] + rest) == seq![
            pull_request_next(generator, prefix, base, state, first).1,
        ] + pull_request_run(
            generator,
            prefix,
            base,
            pull_request_next(generator, prefix, base, state, first).0,
            rest,
        ),
        pull_request_run(generator, prefix, base, state, seq![first] + rest)[0] == pull_request_next(
            generator,
            prefix,
            base,
            state,
            first,
        ).1,
{
    let events = seq![first] + rest;
    assert(events[0] == first);
    assert(events.drop_first() =~= rest);
}

/// The calls of a run on a first event and more are those of the first
/// step and those of the run from there.
pub proof fn lemma_pull_request_run_step<G: PullRequestGenerator>(
    generator: &G,
    prefix: Option<Seq<char>>,
    base: Seq<char>,
    state: PullRequestStateView,
    first: PullRequestEventView,
    rest: Seq<PullRequestEventView>,
    call: PullRequestCall,
)
    ensures
        pull_request_calls(pull_request_run(generator, prefix, base, state, seq![first] + rest), call)
            == (if is_pull_request_call(
            pull_request_next(generator, prefix, base, state, first).1,
            call,
        ) {
            1nat
        } else {
            0nat
        }) + pull_request_calls(
            pull_request_run(
                generator,
                prefix,
                base, pull_request_next(generator, prefix, base, state, first).0,
                rest,
            ),
            call,
        ),
{
    lemma_pull_request_run_unfold(generator, prefix, base, state, first, rest);
    let step = pull_request_next(generator, prefix, base, state, first);
    let tail = pull_request_run(generator, prefix, base, step.0, rest);
    let actions = pull_request_run(generator, prefix, base, state, seq![first] + rest);
    assert(actions[0] == step.1);
    assert(actions.drop_first() =~= tail);
}

/// Once the loop has ended, nothing more is done.
pub proof fn lemma_pull_request_end_is_final<G: PullRequestGenerator>(
    generator: &G,
    prefix: Option<Seq<char>>,
    base: Seq<char>,
    state: PullRequestStateView,
    events: Seq<PullRequestEventView>,
    call: PullRequestCall,
)
    requires
        pull_request_ended(state),
    ensures
        pull_request_calls(pull_request_run(generator, prefix, base, state, events), call) == 0,
    decreases events.len(),
{
    if events.len() > 0 {
        let first = events[0];
        let rest = events.drop_first();
        assert(events =~= seq![first] + rest);
        lemma_pull_request_run_step(generator, prefix, base, state, first, rest, call);
        lemma_pull_request_end_is_final(generator, prefix, base, state, rest, call);
    }
}

/// While a creation is under way, no further call is made, whatever
/// happens.
pub proof fn lemma_creation_under_way<G: PullRequestGenerator>(
    generator: &G,
    prefix: Option<Seq<char>>,
    base: Seq<char>,
    events: Seq<PullRequestEventView>,
    call: PullRequestCall,
)
    ensures
        pull_request_calls(
            pull_request_run(generator, prefix, base, PullRequestStateView::Creating, events),
            call,
        ) == 0,
    decreases events.len(),
{
    if events.len() > 0 {
        let state = PullRequestStateView::Creating;
        let first = events[0];
        let rest = events.drop_first();
        assert(events =~= seq![first] + rest);
        lemma_pull_request_run_step(generator, prefix, base, state, first, rest, call);
        let step = pull_request_next(generator, prefix, base, state, first);
        if step.0 is Creating {
            lemma_creation_under_way(generator, prefix, base, rest, call);
        } else {
            lemma_pull_request_end_is_final(generator, prefix, base, step.0, rest, call);
        }
    }
}

/// A run on three events is the three steps one after the other.
pub proof fn lemma_pull_request_run_of_three<G: PullRequestGenerator>(
    generator: &G,
    prefix: Option<Seq<char>>,
    base: Seq<char>,
    state: PullRequestStateView,
    first: PullRequestEventView,
    second: PullRequestEventView,
    third: PullRequestEventView,
)
    ensures
        ({
            let one = pull_request_next(generator, prefix, base, state, first);
            let two = pull_request_next(generator, prefix, base, one.0, second);
            let three = pull_request_next(generator, prefix, base, two.0, third);
            let actions = pull_request_run(generator, prefix, base, state, seq![first, second, third]);
            &&& actions == seq![one.1, two.1, three.1]
            &&& forall|call: PullRequestCall|
                #[trigger] pull_request_calls(actions, call) == (if is_pull_request_call(one.1, call) {
                    1nat
                } else {
                    0nat
                }) + (if is_pull_request_call(two.1, call) {
                    1nat
                } else {
                    0nat
                }) + (if is_pull_request_call(three.1, call) {
                    1nat
                } else {
                    0nat
                })
        }),
{
    let none = Seq::<PullRequestEventView>::empty();
    let events = seq![first, second, third];
    assert(events =~= seq![first] + (seq![second] + (seq![third] + none)));
    let one = pull_request_next(generator, prefix, base, state, first);
    let two = pull_request_next(generator, prefix, base, one.0, second);
    let three = pull_request_next(generator, prefix, base, two.0, third);
    assert(pull_request_run(generator, prefix, base, three.0, none) =~= Seq::empty());
    let actions = pull_request_run(generator, prefix, base, state, events);
    assert forall|call: PullRequestCall|
        #[trigger] pull_request_calls(actions, call) == (if is_pull_request_call(one.1, call) {
            1nat
        } else {
            0nat
        }) + (if is_pull_request_call(two.1, call) {
            1nat
        } else {
            0nat
        }) + (if is_pull_request_call(three.1, call) {
            1nat
        } else {
            0nat
        }) by {
        lemma_pull_request_run_step(
            generator,
            prefix,
            base,
            state,
            first,
            seq![second] + (seq![third] + none),
            call,
        );
        lemma_pull_request_run_step(generator, prefix, base, one.0, second, seq![third] + none, call);
        lemma_pull_request_run_step(generator, prefix, base, two.0, third, none, call);
    }
    lemma_pull_request_run_unfold(
        generator,
        prefix,
        base,
        state,
        first,
        seq![second] + (seq![third] + none),
    );
    lemma_pull_request_run_unfold(generator, prefix, base, one.0, second, seq![third] + none);
    lemma_pull_request_run_unfold(generator, prefix, base, two.0, third, none);
    assert(actions =~= seq![one.1, two.1, three.1]);
}

/// When the diff reader finds no difference, the loop ends at once with
/// status 0, and no request is sent and no pull request created, whatever
/// happens afterwards.
pub proof fn law_nothing_to_diff_ends_quietly<G: PullRequestGenerator>(
    generator: &G,
    prefix: Option<Seq<char>>,
    base: Seq<char>,
    rest: Seq<PullRequestEventView>,
)
    ensures
        ({
            let events = seq![PullRequestEventView::Diff(Err(GitErrorView::EmptyDiff))] + rest;
            let actions = pull_request_run(
                generator,
                prefix,
                base,
                PullRequestStateView::Generating,
                events,
            );
            &&& actions[0] == PullRequestActionView::Exit(PullRequestEndView::NothingToDiff)
            &&& pull_request_exit_code(PullRequestEndView::NothingToDiff) == 0
            &&& pull_request_calls(actions, PullRequestCall::Creation) == 0
            &&& pull_request_calls(actions, PullRequestCall::Generation) == 0
            &&& pull_request_calls(actions, PullRequestCall::DiffRead) == 0
        }),
{
    let state = PullRequestStateView::Generating;
    let first = PullRequestEventView::Diff(Err(GitErrorView::EmptyDiff));
    let after = PullRequestStateView::Cancelled;
    lemma_pull_request_run_unfold(generator, prefix, base, state, first, rest);
    lemma_pull_request_run_step(generator, prefix, base, state, first, rest, PullRequestCall::Creation);
    lemma_pull_request_run_step(generator, prefix, base, state, first, rest, PullRequestCall::Generation);
    lemma_pull_request_run_step(generator, prefix, base, state, first, rest, PullRequestCall::DiffRead);
    lemma_pull_request_end_is_final(generator, prefix, base, after, rest, PullRequestCall::Creation);
    lemma_pull_request_end_is_final(generator, prefix, base, after, rest, PullRequestCall::Generation);
    lemma_pull_request_end_is_final(generator, prefix, base, after, rest, PullRequestCall::DiffRead);
}

/// When the user answers `a` or `A` to the pull request on display, it is
/// created once, with the title and the description as shown and against
/// the base branch; nothing is read or generated afterwards, whatever
/// happens.
pub proof fn law_accept_creates_once<G: PullRequestGenerator>(
    generator: &G,
    prefix: Option<Seq<char>>,
    base: Seq<char>,
    title: Seq<char>,
    description: Seq<char>,
    line: Seq<char>,
    rest: Seq<PullRequestEventView>,
)
    requires
        trimmed(line) == "a"@ || trimmed(line) == "A"@,
    ensures
        ({
            let events = seq![PullRequestEventView::Answer(line)] + rest;
            let actions = pull_request_run(
                generator,
                prefix,
                base,
                PullRequestStateView::Presenting { title, description },
                events,
            );
            &&& actions[0] == PullRequestActionView::Create { title, description, base }
            &&& pull_request_calls(actions, PullRequestCall::Creation) == 1
            &&& pull_request_calls(actions, PullRequestCall::Generation) == 0
            &&& pull_request_calls(actions, PullRequestCall::DiffRead) == 0
        }),
{
    lemma_decision_letters();
    let state = PullRequestStateView::Presenting { title, description };
    let first = PullRequestEventView::Answer(line);
    assert(pull_request_next(generator, prefix, base, state, first) == (
        PullRequestStateView::Creating,
        PullRequestActionView::Create { title, description, base },
    ));
    lemma_pull_request_run_unfold(generator, prefix, base, state, first, rest);
    lemma_pull_request_run_step(generator, prefix, base, state, first, rest, PullRequestCall::Creation);
    lemma_pull_request_run_step(generator, prefix, base, state, first, rest, PullRequestCall::Generation);
    lemma_pull_request_run_step(generator, prefix, base, state, first, rest, PullRequestCall::DiffRead);
    lemma_creation_under_way(generator, prefix, base, rest, PullRequestCall::Creation);
    lemma_creation_under_way(generator, prefix, base, rest, PullRequestCall::Generation);
    lemma_creation_under_way(generator, prefix, base, rest, PullRequestCall::DiffRead);
}

/// When the user answers `c` or `C`, the loop ends with status 0 and no
/// pull request is created, whatever happens afterwards.
pub proof fn law_cancel_creates_nothing<G: PullRequestGenerator>(
    generator: &G,
    prefix: Option<Seq<char>>,
    base: Seq<char>,
    title: Seq<char>,
    description: Seq<char>,
    line: Seq<char>,
    rest: Seq<PullRequestEventView>,
)
    requires
        trimmed(line) == "c"@ || trimmed(line) == "C"@,
    ensures
        ({
            let events = seq![PullRequestEventView::Answer(line)] + rest;
            let actions = pull_request_run(
                generator,
                prefix,
                base,
                PullRequestStateView::Presenting { title, description },
                events,
            );
            &&& actions[0] == PullRequestActionView::Exit(PullRequestEndView::Cancelled)
            &&& pull_request_exit_code(PullRequestEndView::Cancelled) == 0
            &&& pull_request_calls(actions, PullRequestCall::Creation) == 0
            &&& pull_request_calls(actions, PullRequestCall::Generation) == 0
            &&& pull_request_calls(actions, PullRequestCall::DiffRead) == 0
        }),
{
    lemma_decision_letters();
    let state = PullRequestStateView::Presenting { title, description };
    let first = PullRequestEventView::Answer(line);
    let after = PullRequestStateView::Cancelled;
    assert(pull_request_next(generator, prefix, base, state, first) == (
        after,
        PullRequestActionView::Exit(PullRequestEndView::Cancelled),
    ));
    lemma_pull_request_run_unfold(generator, prefix, base, state, first, rest);
    lemma_pull_request_run_step(generator, prefix, base, state, first, rest, PullRequestCall::Creation);
    lemma_pull_request_run_step(generator, prefix, base, state, first, rest, PullRequestCall::Generation);
    lemma_pull_request_run_step(generator, prefix, base, state, first, rest, PullRequestCall::DiffRead);
    lemma_pull_request_end_is_final(generator, prefix, base, after, rest, PullRequestCall::Creation);
    lemma_pull_request_end_is_final(generator, prefix, base, after, rest, PullRequestCall::Generation);
    lemma_pull_request_end_is_final(generator, prefix, base, after, rest, PullRequestCall::DiffRead);
}

/// When the user answers `r` or `R`, the diff is read once more, and both
/// the title and the description are asked for anew, for the diff as it
/// was read then; on the way no pull request is created.
pub proof fn law_regenerate_asks_for_both_anew<G: PullRequestGenerator>(
    generator: &G,
    prefix: Option<Seq<char>>,
    base: Seq<char>,
    title: Seq<char>,
    description: Seq<char>,
    line: Seq<char>,
    diff: Seq<char>,
    title_body: Seq<char>,
)
    requires
        trimmed(line) == "r"@ || trimmed(line) == "R"@,
        reading_outcome(generator.title_exchange(diff, prefix).reading, Ok(title_body)) is Ok,
    ensures
        ({
            let events = seq![
                PullRequestEventView::Answer(line),
                PullRequestEventView::Diff(Ok(diff)),
                PullRequestEventView::Reply(Ok(title_body)),
            ];
            let actions = pull_request_run(
                generator,
                prefix,
                base,
                PullRequestStateView::Presenting { title, description },
                events,
            );
            &&& actions.len() == 3
            &&& actions[0] == PullRequestActionView::ReadDiff { base, regenerating: true }
            &&& actions[1] == PullRequestActionView::Send(
                generator.title_exchange(diff, prefix).request,
            )
            &&& actions[2] == PullRequestActionView::Send(generator.description_exchange(diff).request)
            &&& pull_request_calls(actions, PullRequestCall::DiffRead) == 1
            &&& pull_request_calls(actions, PullRequestCall::Generation) == 2
            &&& pull_request_calls(actions, PullRequestCall::Creation) == 0
        }),
{
    lemma_decision_letters();
    let state = PullRequestStateView::Presenting { title, description };
    let first = PullRequestEventView::Answer(line);
    let second = PullRequestEventView::Diff(Ok(diff));
    let third = PullRequestEventView::Reply(Ok(title_body));
    lemma_pull_request_run_of_three(generator, prefix, base, state, first, second, third);
    let one = pull_request_next(generator, prefix, base, state, first);
    let two = pull_request_next(generator, prefix, base, one.0, second);
    let three = pull_request_next(generator, prefix, base, two.0, third);
    assert(one.0 is Generating);
    assert(two.0 is RequestingTitle);
    assert(three.1 is Send);
}

/// A generation that fails, be it the title's or the description's, ends
/// the loop: nothing is shown, and no pull request is created, whatever
/// happens afterwards.
pub proof fn law_failed_generation_shows_nothing<G: PullRequestGenerator>(
    generator: &G,
    prefix: Option<Seq<char>>,
    base: Seq<char>,
    state: PullRequestStateView,
    reply: Result<Seq<char>, Seq<char>>,
    rest: Seq<PullRequestEventView>,
)
    requires
        match state {
            PullRequestStateView::RequestingTitle { reading, .. } => reading_outcome(reading, reply)
                is Err,
            PullRequestStateView::RequestingDescription { reading, .. } => reading_outcome(
                reading,
                reply,
            ) is Err,
            _ => false,
        },
    ensures
        ({
            let events = seq![PullRequestEventView::Reply(reply)] + rest;
            let actions = pull_request_run(generator, prefix, base, state, events);
            &&& actions[0] is Exit
            &&& actions[0]->Exit_0 is Failed
            &&& pull_request_exit_code(actions[0]->Exit_0) == 1
            &&& pull_request_calls(actions, PullRequestCall::Creation) == 0
            &&& pull_request_calls(actions, PullRequestCall::Generation) == 0
            &&& pull_request_calls(actions, PullRequestCall::DiffRead) == 0
        }),
{
    let first = PullRequestEventView::Reply(reply);
    let after = PullRequestStateView::Failed;
    assert(pull_request_next(generator, prefix, base, state, first).0 == after);
    lemma_pull_request_run_unfold(generator, prefix, base, state, first, rest);
    lemma_pull_request_run_step(generator, prefix, base, state, first, rest, PullRequestCall::Creation);
    lemma_pull_request_run_step(generator, prefix, base, state, first, rest, PullRequestCall::Generation);
    lemma_pull_request_run_step(generator, prefix, base, state, first, rest, PullRequestCall::DiffRead);
    lemma_pull_request_end_is_final(generator, prefix, base, after, rest, PullRequestCall::Creation);
    lemma_pull_request_end_is_final(generator, prefix, base, after, rest, PullRequestCall::Generation);
    lemma_pull_request_end_is_final(generator, prefix, base, after, rest, PullRequestCall::DiffRead);
}

/// An answer that is none of the letters, such as `x`, leaves the state as
/// it is and has the same title and description shown again: nothing is
/// read, generated or created.
pub proof fn law_unrecognized_answer_keeps_the_pull_request<G: PullRequestGenerator>(
    generator: &G,
    prefix: Option<Seq<char>>,
    base: Seq<char>,
    title: Seq<char>,
    description: Seq<char>,
    line: Seq<char>,
)
    requires
        pull_request_decision_of(trimmed(line)) is None,
    ensures
        pull_request_next(
            generator,
            prefix,
            base,
            PullRequestStateView::Presenting { title, description },
            PullRequestEventView::Answer(line),
        ) == (
            PullRequestStateView::Presenting { title, description },
            PullRequestActionView::Present { title, description, again: true },
        ),
        pull_request_decision_of("x"@) is None,
{
    lemma_decision_letters();
}

/// Whatever the state and whatever happens, a run holds at most one
/// creation of a pull request.
pub proof fn law_at_most_one_creation<G: PullRequestGenerator>(
    generator: &G,
    prefix: Option<Seq<char>>,
    base: Seq<char>,
    state: PullRequestStateView,
    events: Seq<PullRequestEventView>,
)
    ensures
        pull_request_calls(
            pull_request_run(generator, prefix, base, state, events),
            PullRequestCall::Creation,
        ) <= 1,
    decreases events.len(),
{
    if events.len() > 0 {
        let first = events[0];
        let rest = events.drop_first();
        assert(events =~= seq![first] + rest);
        lemma_pull_request_run_step(
            generator,
            prefix,
            base,
            state,
            first,
            rest,
            PullRequestCall::Creation,
        );
        let step = pull_request_next(generator, prefix, base, state, first);
        if step.1 is Create {
            lemma_creation_under_way(generator, prefix, base, rest, PullRequestCall::Creation);
        } else {
            law_at_most_one_creation(generator, prefix, base, step.0, rest);
        }
    }
}

/// A pull request is created only when the user accepts the title and the
/// description on display, and then with those two and against the base
/// branch. No other state and no other event leads to a creation.
pub proof fn law_creation_only_after_accept<G: PullRequestGenerator>(
    generator: &G,
    prefix: Option<Seq<char>>,
    base: Seq<char>,
    state: PullRequestStateView,
    event: PullRequestEventView,
)
    requires
        pull_request_next(generator, prefix, base, state, event).1 is Create,
    ensures
        pull_request_next(generator, prefix, base, state, event).0 is Creating,
        state is Presenting,
        event is Answer,
        pull_request_decision_of(trimmed(event->Answer_0)) == Some(PullRequestDecision::Accept),
        pull_request_next(generator, prefix, base, state, event).1 == (
            PullRequestActionView::Create {
                title: state->Presenting_title,
                description: state->Presenting_description,
                base,
            }
        ),
{
}

} // verus!
