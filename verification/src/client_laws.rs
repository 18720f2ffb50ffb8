//! What holds of every generation: what a reply with generated text comes
//! to, and what any other reply comes to.

use vstd::prelude::*;
use crate::anthropic::anthropic_completion;
use crate::client::{
    finished_text, malformed, reading_outcome, Client, ClientErrorView,
    CommitMessageGenerator, Provider, PullRequestGenerator,
};
use crate::json::{parsed, Json};
use crate::openai::{openai_completion, CHOICES_KEY};
use crate::text::{is_white_space, lemma_trimmed_has_clean_ends, trimmed};

verus! {

/// The generated text in a parsed reply of `provider`, if the reply holds
/// one where the provider puts it.
pub open spec fn completion_of(provider: Provider, tree: Json) -> Option<Seq<char>> {
    match provider {
        Provider::OpenAI => openai_completion(tree),
        Provider::Anthropic => anthropic_completion(tree),
    }
}

/// A reply that holds generated text, and not white space alone, gives
/// that text without the white space at its ends, and behind the prefix and
/// one space where a prefix was given: for a commit message and for a title
/// with the caller's prefix, for a description always without one. What
/// comes out is never empty, and the generated text in it neither starts
/// nor ends with white space.
pub proof fn law_generated_text_is_trimmed_behind_the_prefix(
    client: Client,
    diff: Seq<char>,
    prefix: Option<Seq<char>>,
    body: Seq<char>,
    tree: Json,
    text: Seq<char>,
)
    requires
        parsed(body) == Some(tree),
        completion_of(client.provider_of(), tree) == Some(text),
        trimmed(text).len() > 0,
    ensures
        reading_outcome(client.commit_message_exchange(diff, prefix).reading, Ok(body)) == Ok::<
            Seq<char>,
            ClientErrorView,
        >(finished_text(prefix, text)),
        reading_outcome(client.title_exchange(diff, prefix).reading, Ok(body)) == Ok::<
            Seq<char>,
            ClientErrorView,
        >(finished_text(prefix, text)),
        reading_outcome(client.description_exchange(diff).reading, Ok(body)) == Ok::<
            Seq<char>,
            ClientErrorView,
        >(trimmed(text)),
        prefix is None ==> finished_text(prefix, text) == trimmed(text),
        prefix matches Some(lead) ==> finished_text(prefix, text) == lead + " "@ + trimmed(text),
        finished_text(prefix, text).len() > 0,
        !is_white_space(trimmed(text)[0]),
        !is_white_space(trimmed(text).last()),
{
    lemma_trimmed_has_clean_ends(text);
}

/// A reply that is no JSON, or that holds no string where the provider
/// puts the generated text, or white space alone there, is a malformed
/// reply, and the error carries it whole: no text comes out of it, whatever
/// was asked for.
pub proof fn law_malformed_reply_gives_no_text(
    client: Client,
    diff: Seq<char>,
    prefix: Option<Seq<char>>,
    body: Seq<char>,
)
    requires
        match parsed(body) {
            Some(tree) => match completion_of(client.provider_of(), tree) {
                Some(text) => trimmed(text).len() == 0,
                None => true,
            },
            None => true,
        },
    ensures
        reading_outcome(client.commit_message_exchange(diff, prefix).reading, Ok(body)) == Err::<
            Seq<char>,
            ClientErrorView,
        >(malformed(client.provider_of(), body)),
        reading_outcome(client.title_exchange(diff, prefix).reading, Ok(body)) == Err::<
            Seq<char>,
            ClientErrorView,
        >(malformed(client.provider_of(), body)),
        reading_outcome(client.description_exchange(diff).reading, Ok(body)) == Err::<
            Seq<char>,
            ClientErrorView,
        >(malformed(client.provider_of(), body)),
{
}

/// The replies without generated text: one without the first member of the
/// path, one whose list of choices or of content blocks is empty or no
/// list, and one with anything but a string at the end of the path.
pub proof fn law_replies_without_text(tree: Json, items: Json, item: Json, inner: Json, last: Json)
    ensures
        tree.member_of(CHOICES_KEY@) is None ==> openai_completion(tree) is None,
        tree.member_of(CHOICES_KEY@) == Some(items) && !(items is Array) ==> openai_completion(tree)
            is None,
        tree.member_of(CHOICES_KEY@) == Some(items) && (items matches Json::Array(list) && list@.len()
            == 0) ==> openai_completion(tree) is None,
        tree.member_of(CHOICES_KEY@) == Some(items) && items.element_of(0) == Some(item)
            && item.member_of(crate::openai::MESSAGE_KEY@) is None ==> openai_completion(tree) is None,
        tree.member_of(CHOICES_KEY@) == Some(items) && items.element_of(0) == Some(item)
            && item.member_of(crate::openai::MESSAGE_KEY@) == Some(inner) && inner.member_of(
            crate::openai::CONTENT_KEY@,
        ) is None ==> openai_completion(tree) is None,
        tree.member_of(CHOICES_KEY@) == Some(items) && items.element_of(0) == Some(item)
            && item.member_of(crate::openai::MESSAGE_KEY@) == Some(inner) && inner.member_of(
            crate::openai::CONTENT_KEY@,
        ) == Some(last) && !(last is Text) ==> openai_completion(tree) is None,
        tree.member_of(crate::anthropic::CONTENT_KEY@) is None ==> anthropic_completion(tree) is None,
        tree.member_of(crate::anthropic::CONTENT_KEY@) == Some(items) && !(items is Array)
            ==> anthropic_completion(tree) is None,
        tree.member_of(crate::anthropic::CONTENT_KEY@) == Some(items) && (items matches Json::Array(
            list,
        ) && list@.len() == 0) ==> anthropic_completion(tree) is None,
        tree.member_of(crate::anthropic::CONTENT_KEY@) == Some(items) && items.element_of(0) == Some(
            item,
        ) && item.member_of(crate::anthropic::TEXT_KEY@) is None ==> anthropic_completion(tree)
            is None,
        tree.member_of(crate::anthropic::CONTENT_KEY@) == Some(items) && items.element_of(0) == Some(
            item,
        ) && item.member_of(crate::anthropic::TEXT_KEY@) == Some(last) && !(last is Text)
            ==> anthropic_completion(tree) is None,
{
}

/// A failure of the transport is handed on as it was reported, whatever
/// the provider and the prefix.
pub proof fn law_transport_failure_is_handed_on(
    client: Client,
    diff: Seq<char>,
    prefix: Option<Seq<char>>,
    report: Seq<char>,
)
    ensures
        reading_outcome(client.commit_message_exchange(diff, prefix).reading, Err(report)) == Err::<
            Seq<char>,
            ClientErrorView,
        >(ClientErrorView::Transport(report)),
{
}

} // verus!
