//! The Anthropic-style provider: messages, authorised by a key in a header of its own.

use vstd::prelude::*;
use vstd::string::*;
use crate::client::{
    malformed, prefix_of, text_result_view, ClientError, ClientErrorView, CommitMessageGenerator,
    Exchange, ExchangeView, Provider, PullRequestGenerator, Reading, ReadingView,
};
use crate::config::ServiceConfig;
use crate::json::{parse, parsed, Json};
use crate::request::{
    instructions, instructions_for, messages_view, CompletionRequest, CompletionRequestView,
    Credential, CredentialView, Message, MessageView, Task,
};

verus! {

pub const ANTHROPIC_URL: &'static str = "https://api.anthropic.com/v1/messages";

pub const ANTHROPIC_MAX_TOKENS: u64 = 1024;

pub const API_KEY_HEADER: &'static str = "x-api-key";

pub const CONTENT_KEY: &'static str = "content";

pub const TEXT_KEY: &'static str = "text";

/// A client of the Anthropic-style provider: the key and the model it asks with.
#[derive(Debug, PartialEq, Eq)]
pub struct AnthropicClient {
    api_token: String,
    model: String,
}

/// What an `AnthropicClient` holds, as sequences of characters.
pub struct AnthropicClientView {
    pub api_token: Seq<char>,
    pub model: Seq<char>,
}

impl View for AnthropicClient {
    type V = AnthropicClientView;

    closed spec fn view(&self) -> AnthropicClientView {
        AnthropicClientView { api_token: self.api_token@, model: self.model@ }
    }
}

/// The request that carries `messages` for the client `client`.
pub open spec fn anthropic_request(
    client: AnthropicClientView,
    messages: Seq<MessageView>,
) -> CompletionRequestView {
    CompletionRequestView {
        url: ANTHROPIC_URL@,
        credential: CredentialView::Header { name: API_KEY_HEADER@, value: client.api_token },
        model: client.model,
        messages,
        max_tokens: ANTHROPIC_MAX_TOKENS,
    }
}

/// The exchange in which `client` asks for `task` on `diff`.
pub open spec fn anthropic_exchange(
    client: AnthropicClientView,
    task: Task,
    diff: Seq<char>,
    prefix: Option<Seq<char>>,
) -> ExchangeView {
    ExchangeView {
        request: anthropic_request(client, instructions(task, diff)),
        reading: ReadingView { provider: Provider::Anthropic, prefix },
    }
}

/// The generated text in a reply: the string at `content[0].text`, or `None`
/// where a step of that path is missing or the value at its end is no
/// string.
pub open spec fn anthropic_completion(tree: Json) -> Option<Seq<char>> {
    match tree.member_of(CONTENT_KEY@) {
        Some(content) => match content.element_of(0) {
            Some(block) => match block.member_of(TEXT_KEY@) {
                Some(text) => text.text_of(),
                None => None,
            },
            None => None,
        },
        None => None,
    }
}

/// What a reply gives, once parsed: the generated text as it stands, or the
/// reply itself as a malformed one.
pub open spec fn anthropic_text(tree: Option<Json>, body: Seq<char>) -> Result<
    Seq<char>,
    ClientErrorView,
> {
    match tree {
        Some(tree) => match anthropic_completion(tree) {
            Some(text) => Ok(text),
            None => Err(malformed(Provider::Anthropic, body)),
        },
        None => Err(malformed(Provider::Anthropic, body)),
    }
}

impl AnthropicClient {
    /// The client that asks with the token and the model of `service_config`.
    pub fn new(service_config: &ServiceConfig) -> (r: Self)
        ensures
            r@.api_token == service_config@.api_token,
            r@.model == service_config@.model,
    {
        AnthropicClient {
            api_token: service_config.api_token.clone(),
            model: service_config.model.clone(),
        }
    }

    /// The request that asks the provider to answer `messages`: one POST to
    /// the messages endpoint, with this client's key and model.
    pub fn generate_message(&self, messages: Vec<Message>) -> (r: CompletionRequest)
        ensures
            r@ == anthropic_request(self@, messages_view(messages@)),
    {
        CompletionRequest {
            url: String::from_str(ANTHROPIC_URL),
            credential: Credential::Header {
                name: String::from_str(API_KEY_HEADER),
                value: self.api_token.clone(),
            },
            model: self.model.clone(),
            messages,
            max_tokens: ANTHROPIC_MAX_TOKENS,
        }
    }

    /// The generated text in a parsed reply.
    pub fn completion_text<'a>(tree: &'a Json) -> (r: Option<&'a str>)
        ensures
            match r {
                Some(text) => anthropic_completion(*tree) == Some(text@),
                None => anthropic_completion(*tree) is None,
            },
    {
        let content = match tree.member(CONTENT_KEY) {
            Some(content) => content,
            None => return None,
        };
        let block = match content.element(0) {
            Some(block) => block,
            None => return None,
        };
        match block.member(TEXT_KEY) {
            Some(text) => text.as_text(),
            None => None,
        }
    }

    /// The generated text of the reply `body`, of which `tree` is what a
    /// parse gave.
    pub fn text_of_tree(tree: Option<&Json>, body: &str) -> (r: Result<String, ClientError>)
        ensures
            text_result_view(r) == anthropic_text(
                match tree {
                    Some(tree) => Some(*tree),
                    None => None,
                },
                body@,
            ),
    {
        let found = match tree {
            Some(tree) => Self::completion_text(tree),
            None => None,
        };
        match found {
            Some(text) => Ok(String::from_str(text)),
            None => Err(
                ClientError::MalformedResponse {
                    provider: Provider::Anthropic,
                    body: String::from_str(body),
                },
            ),
        }
    }

    /// The generated text of the reply `body`.
    pub fn text_of_reply(body: &str) -> (r: Result<String, ClientError>)
        ensures
            text_result_view(r) == anthropic_text(parsed(body@), body@),
    {
        let tree = parse(body);
        Self::text_of_tree(tree.as_ref(), body)
    }

    fn exchange(&self, task: Task, diff: &str, prefix: Option<&str>) -> (r: Exchange)
        ensures
            r@ == anthropic_exchange(self@, task, diff@, prefix_of(prefix)),
    {
        Exchange {
            request: self.generate_message(instructions_for(task, diff)),
            reading: Reading {
                provider: Provider::Anthropic,
                prefix: match prefix {
                    Some(prefix) => Some(String::from_str(prefix)),
                    None => None,
                },
            },
        }
    }
}

impl PullRequestGenerator for AnthropicClient {
    open spec fn title_exchange(&self, diff: Seq<char>, prefix: Option<Seq<char>>) -> ExchangeView {
        anthropic_exchange(self@, Task::PullRequestTitle, diff, prefix)
    }

    open spec fn description_exchange(&self, diff: Seq<char>) -> ExchangeView {
        anthropic_exchange(self@, Task::PullRequestDescription, diff, None)
    }

    fn generate_pr_title(&self, diff: &str, prefix: Option<&str>) -> (r: Exchange) {
        self.exchange(Task::PullRequestTitle, diff, prefix)
    }

    fn generate_pr_description(&self, diff: &str) -> (r: Exchange) {
        self.exchange(Task::PullRequestDescription, diff, None)
    }
}

impl CommitMessageGenerator for AnthropicClient {
    open spec fn commit_message_exchange(
        &self,
        diff: Seq<char>,
        prefix: Option<Seq<char>>,
    ) -> ExchangeView {
        anthropic_exchange(self@, Task::CommitMessage, diff, prefix)
    }

    fn generate_commit_message(&self, diff: &str, prefix: Option<&String>) -> (r: Exchange) {
        self.exchange(
            Task::CommitMessage,
            diff,
            match prefix {
                Some(prefix) => Some(prefix.as_str()),
                None => None,
            },
        )
    }
}

} // verus!
