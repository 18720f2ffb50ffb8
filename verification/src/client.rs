//! The providers behind one surface: what a client is asked for, the
//! exchange that answers it, and what the provider's reply comes to.

use vstd::prelude::*;
use vstd::string::*;
use crate::anthropic::{anthropic_text, AnthropicClient};
use crate::config::ServiceConfig;
use crate::json::parsed;
use crate::openai::{openai_text, OpenAIClient};
use crate::request::{instructions, CompletionRequest, CompletionRequestView, Task};
use crate::text::{same_text, trim, trimmed};

verus! {

/// The providers this crate can talk to.
#[derive(Debug, Clone, Copy, PartialEq, Eq, Structural)]
pub enum Provider {
    OpenAI,
    Anthropic,
}

pub const OPENAI_NAME: &'static str = "OpenAI";

pub const ANTHROPIC_NAME: &'static str = "Anthropic";

/// Why a client could not be made, or a generation gave no text.
#[derive(Debug, PartialEq, Eq)]
pub enum ClientError {
    /// No provider goes by the configured name.
    UnsupportedService,
    /// The request could not be sent, or no reply came; the text is the
    /// transport's report.
    Transport(String),
    /// The reply does not hold generated text where the provider puts it;
    /// `body` is the reply as it came.
    MalformedResponse { provider: Provider, body: String },
}

/// A `ClientError` as plain mathematical values.
pub enum ClientErrorView {
    UnsupportedService,
    Transport(Seq<char>),
    MalformedResponse { provider: Provider, body: Seq<char> },
}

impl View for ClientError {
    type V = ClientErrorView;

    open spec fn view(&self) -> ClientErrorView {
        match self {
            ClientError::UnsupportedService => ClientErrorView::UnsupportedService,
            ClientError::Transport(report) => ClientErrorView::Transport(report@),
            ClientError::MalformedResponse { provider, body } => ClientErrorView::MalformedResponse {
                provider: *provider,
                body: body@,
            },
        }
    }
}

/// The error for a reply `body` of `provider` that holds no generated text.
pub open spec fn malformed(provider: Provider, body: Seq<char>) -> ClientErrorView {
    ClientErrorView::MalformedResponse { provider, body }
}

/// A text or an error, as plain mathematical values.
pub open spec fn text_result_view(result: Result<String, ClientError>) -> Result<
    Seq<char>,
    ClientErrorView,
> {
    match result {
        Ok(text) => Ok(text@),
        Err(error) => Err(error@),
    }
}

/// The characters of an optional prefix.
pub open spec fn prefix_of(prefix: Option<&str>) -> Option<Seq<char>> {
    match prefix {
        Some(prefix) => Some(prefix@),
        None => None,
    }
}

/// The characters of an optional owned prefix.
pub open spec fn owned_prefix_of(prefix: Option<&String>) -> Option<Seq<char>> {
    match prefix {
        Some(prefix) => Some(prefix@),
        None => None,
    }
}

/// The characters of an optional stored prefix.
pub open spec fn stored_prefix_of(prefix: Option<String>) -> Option<Seq<char>> {
    match prefix {
        Some(prefix) => Some(prefix@),
        None => None,
    }
}

/// How the reply to a request is to be read: whose reply it is, and the
/// prefix that stands before the generated text.
#[derive(Debug, PartialEq, Eq)]
pub struct Reading {
    pub provider: Provider,
    pub prefix: Option<String>,
}

/// A `Reading` as plain mathematical values.
pub struct ReadingView {
    pub provider: Provider,
    pub prefix: Option<Seq<char>>,
}

impl View for Reading {
    type V = ReadingView;

    open spec fn view(&self) -> ReadingView {
        ReadingView { provider: self.provider, prefix: stored_prefix_of(self.prefix) }
    }
}

/// One generation, still to be carried out: the request to send, and how
/// the reply to it is to be read.
#[derive(Debug, PartialEq, Eq)]
pub struct Exchange {
    pub request: CompletionRequest,
    pub reading: Reading,
}

/// An `Exchange` as plain mathematical values.
pub struct ExchangeView {
    pub request: CompletionRequestView,
    pub reading: ReadingView,
}

impl View for Exchange {
    type V = ExchangeView;

    open spec fn view(&self) -> ExchangeView {
        ExchangeView { request: self.request@, reading: self.reading@ }
    }
}

/// `text` behind `prefix` and one space, or `text` alone where there is no
/// prefix.
pub open spec fn prefixed(prefix: Option<Seq<char>>, text: Seq<char>) -> Seq<char> {
    match prefix {
        Some(prefix) => prefix + " "@ + text,
        None => text,
    }
}

/// The generated text as it is handed on: without the white space at its
/// ends, and behind the prefix and one space where there is a prefix.
pub open spec fn finished_text(prefix: Option<Seq<char>>, text: Seq<char>) -> Seq<char> {
    prefixed(prefix, trimmed(text))
}

/// What the reply `body` of `provider` gives once parsed into `tree`: the
/// generated text as the provider wrote it, or the malformed reply.
pub open spec fn reply_text(provider: Provider, tree: Option<crate::json::Json>, body: Seq<char>) -> Result<
    Seq<char>,
    ClientErrorView,
> {
    match provider {
        Provider::OpenAI => openai_text(tree, body),
        Provider::Anthropic => anthropic_text(tree, body),
    }
}

/// What the reply `body`, parsed into `tree`, comes to under `reading`: the
/// finished text, or the malformed reply. A reply whose generated text is
/// white space alone is malformed too: no empty text is ever handed on.
pub open spec fn reading_of_tree(
    reading: ReadingView,
    tree: Option<crate::json::Json>,
    body: Seq<char>,
) -> Result<Seq<char>, ClientErrorView> {
    match reply_text(reading.provider, tree, body) {
        Ok(text) => if trimmed(text).len() == 0 {
            Err(malformed(reading.provider, body))
        } else {
            Ok(finished_text(reading.prefix, text))
        },
        Err(error) => Err(error),
    }
}

/// What a generation comes to when the transport hands back `reply`: the
/// transport's failure, the malformed reply, or the finished text.
pub open spec fn reading_outcome(reading: ReadingView, reply: Result<Seq<char>, Seq<char>>) -> Result<
    Seq<char>,
    ClientErrorView,
> {
    match reply {
        Ok(body) => reading_of_tree(reading, parsed(body), body),
        Err(report) => Err(ClientErrorView::Transport(report)),
    }
}

/// What the transport handed back, as plain mathematical values.
pub open spec fn reply_view(reply: Result<String, String>) -> Result<Seq<char>, Seq<char>> {
    match reply {
        Ok(body) => Ok(body@),
        Err(report) => Err(report@),
    }
}

/// The lead of the text for a malformed reply of `provider`.
pub open spec fn malformed_lead(provider: Provider) -> Seq<char> {
    match provider {
        Provider::OpenAI => "Failed to generate PR title. Unexpected response format: "@,
        Provider::Anthropic => "Failed to generate commit message. Unexpected response format: "@,
    }
}

/// What `ClientError::to_text` gives.
pub open spec fn client_error_text(error: ClientErrorView) -> Seq<char> {
    match error {
        ClientErrorView::UnsupportedService => "Unsupported service type"@,
        ClientErrorView::Transport(report) => report,
        ClientErrorView::MalformedResponse { provider, body } => malformed_lead(provider) + body,
    }
}

impl ClientError {
    /// The error as a line for the user. A malformed reply is shown whole.
    pub fn to_text(&self) -> (r: String)
        ensures
            r@ == client_error_text(self@),
    {
        match self {
            ClientError::UnsupportedService => String::from_str("Unsupported service type"),
            ClientError::Transport(report) => report.clone(),
            ClientError::MalformedResponse { provider, body } => {
                let lead = match provider {
                    Provider::OpenAI => "Failed to generate PR title. Unexpected response format: ",
                    Provider::Anthropic => "Failed to generate commit message. Unexpected response format: ",
                };
                String::from_str(lead).concat(body.as_str())
            },
        }
    }
}

/// `text` behind `prefix` and one space, or `text` alone where there is no
/// prefix.
pub fn with_prefix(prefix: Option<&str>, text: &str) -> (r: String)
    ensures
        r@ == prefixed(prefix_of(prefix), text@),
{
    match prefix {
        Some(prefix) => String::from_str(prefix).concat(" ").concat(text),
        None => String::from_str(text),
    }
}

/// The text of a generation as it is handed on: `text` trimmed, behind
/// `prefix` and one space where there is a prefix.
pub fn finish_text(prefix: Option<&str>, text: &str) -> (r: String)
    ensures
        r@ == finished_text(prefix_of(prefix), text@),
{
    with_prefix(prefix, trim(text))
}

impl Reading {
    /// What the reply `body` comes to, of which `tree` is what a parse
    /// gave: the malformed reply where the tree does not hold generated
    /// text at the provider's place or holds white space alone there, and
    /// else that text, finished.
    pub fn finish_tree(&self, tree: Option<&crate::json::Json>, body: &str) -> (r: Result<
        String,
        ClientError,
    >)
        ensures
            text_result_view(r) == reading_of_tree(
                self@,
                match tree {
                    Some(tree) => Some(*tree),
                    None => None,
                },
                body@,
            ),
    {
        let text = match self.provider {
            Provider::OpenAI => OpenAIClient::text_of_tree(tree, body),
            Provider::Anthropic => AnthropicClient::text_of_tree(tree, body),
        };
        match text {
            Ok(text) => {
                let kept = trim(text.as_str());
                if kept.is_empty() {
                    Err(
                        ClientError::MalformedResponse {
                            provider: self.provider,
                            body: String::from_str(body),
                        },
                    )
                } else {
                    Ok(
                        with_prefix(
                            match &self.prefix {
                                Some(prefix) => Some(prefix.as_str()),
                                None => None,
                            },
                            kept,
                        ),
                    )
                }
            },
            Err(error) => Err(error),
        }
    }

    /// What the generation comes to, given what the transport handed back:
    /// the body of the reply, or its report of a failure.
    pub fn finish(&self, reply: Result<String, String>) -> (r: Result<String, ClientError>)
        ensures
            text_result_view(r) == reading_outcome(self@, reply_view(reply)),
    {
        match reply {
            Ok(body) => {
                let tree = crate::json::parse(body.as_str());
                self.finish_tree(tree.as_ref(), body.as_str())
            },
            Err(report) => Err(ClientError::Transport(report)),
        }
    }
}

impl Exchange {
    /// What the exchange comes to, given what the transport handed back:
    /// the body of the reply, or its report of a failure.
    pub fn finish(&self, reply: Result<String, String>) -> (r: Result<String, ClientError>)
        ensures
            text_result_view(r) == reading_outcome(self@.reading, reply_view(reply)),
    {
        self.reading.finish(reply)
    }
}

/// Writes the title and the description of a pull request from a diff.
pub trait PullRequestGenerator {
    /// The exchange that asks for a title.
    spec fn title_exchange(&self, diff: Seq<char>, prefix: Option<Seq<char>>) -> ExchangeView;

    /// The exchange that asks for a description.
    spec fn description_exchange(&self, diff: Seq<char>) -> ExchangeView;

    /// The exchange that gives the title for `diff`: the three instructions
    /// for a title, and `prefix` to stand before the generated text.
    fn generate_pr_title(&self, diff: &str, prefix: Option<&str>) -> (r: Exchange)
        ensures
            r@ == self.title_exchange(diff@, prefix_of(prefix)),
            r@.request.messages == instructions(Task::PullRequestTitle, diff@),
            r@.reading.prefix == prefix_of(prefix),
    ;

    /// The exchange that gives the description for `diff`: the three
    /// instructions for a description, and no prefix.
    fn generate_pr_description(&self, diff: &str) -> (r: Exchange)
        ensures
            r@ == self.description_exchange(diff@),
            r@.request.messages == instructions(Task::PullRequestDescription, diff@),
            r@.reading.prefix is None,
    ;
}

/// Writes a commit message from a diff.
pub trait CommitMessageGenerator {
    /// The exchange that asks for a commit message.
    spec fn commit_message_exchange(&self, diff: Seq<char>, prefix: Option<Seq<char>>) -> ExchangeView;

    /// The exchange that gives the commit message for `diff`: the three
    /// instructions for a commit message, and `prefix` to stand before the
    /// generated text.
    fn generate_commit_message(&self, diff: &str, prefix: Option<&String>) -> (r: Exchange)
        ensures
            r@ == self.commit_message_exchange(diff@, owned_prefix_of(prefix)),
            r@.request.messages == instructions(Task::CommitMessage, diff@),
            r@.reading.prefix == owned_prefix_of(prefix),
    ;
}

/// A client of one of the providers.
#[derive(Debug, PartialEq, Eq)]
pub enum Client {
    OpenAI(OpenAIClient),
    Anthropic(AnthropicClient),
}

/// The provider that goes by `name`, if there is one.
pub open spec fn provider_named(name: Seq<char>) -> Option<Provider> {
    if name == OPENAI_NAME@ {
        Some(Provider::OpenAI)
    } else if name == ANTHROPIC_NAME@ {
        Some(Provider::Anthropic)
    } else {
        None
    }
}

/// The provider that goes by `name`, if there is one.
pub fn provider_by_name(name: &str) -> (r: Option<Provider>)
    ensures
        r == provider_named(name@),
{
    if same_text(name, OPENAI_NAME) {
        Some(Provider::OpenAI)
    } else if same_text(name, ANTHROPIC_NAME) {
        Some(Provider::Anthropic)
    } else {
        None
    }
}

impl Client {
    /// The provider of this client.
    pub open spec fn provider_of(&self) -> Provider {
        match self {
            Client::OpenAI(_) => Provider::OpenAI,
            Client::Anthropic(_) => Provider::Anthropic,
        }
    }

    /// The client of the provider named `service_type`, with the settings
    /// `service_config`; an error for any other name.
    pub fn new(service_config: &ServiceConfig, service_type: &str) -> (r: Result<Self, ClientError>)
        ensures
            match provider_named(service_type@) {
                Some(Provider::OpenAI) => r matches Ok(Client::OpenAI(client)) && client@.api_key
                    == service_config@.api_token && client@.model == service_config@.model,
                Some(Provider::Anthropic) => r matches Ok(Client::Anthropic(client))
                    && client@.api_token == service_config@.api_token && client@.model
                    == service_config@.model,
                None => r matches Err(ClientError::UnsupportedService),
            },
    {
        match provider_by_name(service_type) {
            Some(Provider::OpenAI) => Ok(Client::OpenAI(OpenAIClient::new(service_config))),
            Some(Provider::Anthropic) => Ok(Client::Anthropic(AnthropicClient::new(service_config))),
            None => Err(ClientError::UnsupportedService),
        }
    }

    /// The provider of this client.
    pub fn provider(&self) -> (r: Provider)
        ensures
            r == self.provider_of(),
    {
        match self {
            Client::OpenAI(_) => Provider::OpenAI,
            Client::Anthropic(_) => Provider::Anthropic,
        }
    }
}

impl PullRequestGenerator for Client {
    open spec fn title_exchange(&self, diff: Seq<char>, prefix: Option<Seq<char>>) -> ExchangeView {
        match self {
            Client::OpenAI(client) => client.title_exchange(diff, prefix),
            Client::Anthropic(client) => client.title_exchange(diff, prefix),
        }
    }

    open spec fn description_exchange(&self, diff: Seq<char>) -> ExchangeView {
        match self {
            Client::OpenAI(client) => client.description_exchange(diff),
            Client::Anthropic(client) => client.description_exchange(diff),
        }
    }

    fn generate_pr_title(&self, diff: &str, prefix: Option<&str>) -> (r: Exchange) {
        match self {
            Client::OpenAI(client) => client.generate_pr_title(diff, prefix),
            Client::Anthropic(client) => client.generate_pr_title(diff, prefix),
        }
    }

    fn generate_pr_description(&self, diff: &str) -> (r: Exchange) {
        match self {
            Client::OpenAI(client) => client.generate_pr_description(diff),
            Client::Anthropic(client) => client.generate_pr_description(diff),
        }
    }
}

impl CommitMessageGenerator for Client {
    open spec fn commit_message_exchange(
        &self,
        diff: Seq<char>,
        prefix: Option<Seq<char>>,
    ) -> ExchangeView {
        match self {
            Client::OpenAI(client) => client.commit_message_exchange(diff, prefix),
            Client::Anthropic(client) => client.commit_message_exchange(diff, prefix),
        }
    }

    fn generate_commit_message(&self, diff: &str, prefix: Option<&String>) -> (r: Exchange) {
        match self {
            Client::OpenAI(client) => client.generate_commit_message(diff, prefix),
            Client::Anthropic(client) => client.generate_commit_message(diff, prefix),
        }
    }
}

} // verus!
