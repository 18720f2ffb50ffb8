//! The OpenAI-style provider: chat completions, authorised by a bearer token.

use vstd::prelude::*;
use vstd::string::*;
use crate::client::{
    malformed, prefix_of, text_result_view, ClientError, ClientErrorView, CommitMessageGenerator,
    Exchange, ExchangeView, Provider, PullRequestGenerator, Reading, ReadingView,
};
use crate::config::ServiceConfig;
use crate::json::{parse, parsed, Json};
use crate::request::{
    instructions, instructions_for, messages_view, CompletionRequest, CompletionRequestView,
    Credential, CredentialView, Message, MessageView, Task,
};

verus! {

pub const OPENAI_URL: &'static str = "https://api.openai.com/v1/chat/completions";

pub const OPENAI_MAX_TOKENS: u64 = 500;

pub const CHOICES_KEY: &'static str = "choices";

pub const MESSAGE_KEY: &'static str = "message";

pub const CONTENT_KEY: &'static str = "content";

/// A client of the OpenAI-style provider: the key and the model it asks with.
#[derive(Debug, PartialEq, Eq)]
pub struct OpenAIClient {
    api_key: String,
    model: String,
}

/// What an `OpenAIClient` holds, as sequences of characters.
pub struct OpenAIClientView {
    pub api_key: Seq<char>,
    pub model: Seq<char>,
}

impl View for OpenAIClient {
    type V = OpenAIClientView;

    closed spec fn view(&self) -> OpenAIClientView {
        OpenAIClientView { api_key: self.api_key@, model: self.model@ }
    }
}

/// The request that carries `messages` for the client `client`.
pub open spec fn openai_request(
    client: OpenAIClientView,
    messages: Seq<MessageView>,
) -> CompletionRequestView {
    CompletionRequestView {
        url: OPENAI_URL@,
        credential: CredentialView::Bearer(client.api_key),
        model: client.model,
        messages,
        max_tokens: OPENAI_MAX_TOKENS,
    }
}

/// The exchange in which `client` asks for `task` on `diff`.
pub open spec fn openai_exchange(
    client: OpenAIClientView,
    task: Task,
    diff: Seq<char>,
    prefix: Option<Seq<char>>,
) -> ExchangeView {
    ExchangeView {
        request: openai_request(client, instructions(task, diff)),
        reading: ReadingView { provider: Provider::OpenAI, prefix },
    }
}

/// The generated text in a reply: the string at `choices[0].message.content`,
/// or `None` where a step of that path is missing or the value at its end is
/// no string.
pub open spec fn openai_completion(tree: Json) -> Option<Seq<char>> {
    match tree.member_of(CHOICES_KEY@) {
        Some(choices) => match choices.element_of(0) {
            Some(choice) => match choice.member_of(MESSAGE_KEY@) {
                Some(message) => match message.member_of(CONTENT_KEY@) {
                    Some(content) => content.text_of(),
                    None => None,
                },
                None => None,
            },
            None => None,
        },
        None => None,
    }
}

/// What a reply gives, once parsed: the generated text as it stands, or the
/// reply itself as a malformed one.
pub open spec fn openai_text(tree: Option<Json>, body: Seq<char>) -> Result<
    Seq<char>,
    ClientErrorView,
> {
    match tree {
        Some(tree) => match openai_completion(tree) {
            Some(text) => Ok(text),
            None => Err(malformed(Provider::OpenAI, body)),
        },
        None => Err(malformed(Provider::OpenAI, body)),
    }
}

impl OpenAIClient {
    /// The client that asks with the token and the model of `service_config`.
    pub fn new(service_config: &ServiceConfig) -> (r: Self)
        ensures
            r@.api_key == service_config@.api_token,
            r@.model == service_config@.model,
    {
        OpenAIClient {
            api_key: service_config.api_token.clone(),
            model: service_config.model.clone(),
        }
    }

    /// The request that asks the provider to answer `messages`: one POST to
    /// the chat-completions endpoint, with this client's key and model.
    pub fn generate_text(&self, messages: Vec<Message>) -> (r: CompletionRequest)
        ensures
            r@ == openai_request(self@, messages_view(messages@)),
    {
        CompletionRequest {
            url: String::from_str(OPENAI_URL),
            credential: Credential::Bearer(self.api_key.clone()),
            model: self.model.clone(),
            messages,
            max_tokens: OPENAI_MAX_TOKENS,
        }
    }

    /// The generated text in a parsed reply.
    pub fn completion_text<'a>(tree: &'a Json) -> (r: Option<&'a str>)
        ensures
            match r {
                Some(text) => openai_completion(*tree) == Some(text@),
                None => openai_completion(*tree) is None,
            },
    {
        let choices = match tree.member(CHOICES_KEY) {
            Some(choices) => choices,
            None => return None,
        };
        let choice = match choices.element(0) {
            Some(choice) => choice,
            None => return None,
        };
        let message = match choice.member(MESSAGE_KEY) {
            Some(message) => message,
            None => return None,
        };
        match message.member(CONTENT_KEY) {
            Some(content) => content.as_text(),
            None => None,
        }
    }

    /// The generated text of the reply `body`, of which `tree` is what a
    /// parse gave.
    pub fn text_of_tree(tree: Option<&Json>, body: &str) -> (r: Result<String, ClientError>)
        ensures
            text_result_view(r) == openai_text(
                match tree {
                    Some(tree) => Some(*tree),
                    None => None,
                },
                body@,
            ),
    {
        let found = match tree {
            Some(tree) => Self::completion_text(tree),
            None => None,
        };
        match found {
            Some(text) => Ok(String::from_str(text)),
            None => Err(
                ClientError::MalformedResponse {
                    provider: Provider::OpenAI,
                    body: String::from_str(body),
                },
            ),
        }
    }

    /// The generated text of the reply `body`.
    pub fn text_of_reply(body: &str) -> (r: Result<String, ClientError>)
        ensures
            text_result_view(r) == openai_text(parsed(body@), body@),
    {
        let tree = parse(body);
        Self::text_of_tree(tree.as_ref(), body)
    }

    fn exchange(&self, task: Task, diff: &str, prefix: Option<&str>) -> (r: Exchange)
        ensures
            r@ == openai_exchange(self@, task, diff@, prefix_of(prefix)),
    {
        Exchange {
            request: self.generate_text(instructions_for(task, diff)),
            reading: Reading {
                provider: Provider::OpenAI,
                prefix: match prefix {
                    Some(prefix) => Some(String::from_str(prefix)),
                    None => None,
                },
            },
        }
    }
}

impl PullRequestGenerator for OpenAIClient {
    open spec fn title_exchange(&self, diff: Seq<char>, prefix: Option<Seq<char>>) -> ExchangeView {
        openai_exchange(self@, Task::PullRequestTitle, diff, prefix)
    }

    open spec fn description_exchange(&self, diff: Seq<char>) -> ExchangeView {
        openai_exchange(self@, Task::PullRequestDescription, diff, None)
    }

    fn generate_pr_title(&self, diff: &str, prefix: Option<&str>) -> (r: Exchange) {
        self.exchange(Task::PullRequestTitle, diff, prefix)
    }

    fn generate_pr_description(&self, diff: &str) -> (r: Exchange) {
        self.exchange(Task::PullRequestDescription, diff, None)
    }
}

impl CommitMessageGenerator for OpenAIClient {
    open spec fn commit_message_exchange(
        &self,
        diff: Seq<char>,
        prefix: Option<Seq<char>>,
    ) -> ExchangeView {
        openai_exchange(self@, Task::CommitMessage, diff, prefix)
    }

    fn generate_commit_message(&self, diff: &str, prefix: Option<&String>) -> (r: Exchange) {
        self.exchange(
            Task::CommitMessage,
            diff,
            match prefix {
                Some(prefix) => Some(prefix.as_str()),
                None => None,
            },
        )
    }
}

} // verus!
