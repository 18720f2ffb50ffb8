//! The request a provider is sent: where it goes, how it is authorised, and
//! the instructions that carry the diff.

use vstd::prelude::*;
use vstd::string::*;
use crate::json::Json;

verus! {

/// What is to be written from a diff.
#[derive(Debug, Clone, Copy, PartialEq, Eq, Structural)]
pub enum Task {
    CommitMessage,
    PullRequestTitle,
    PullRequestDescription,
}

/// One instruction: who speaks, and what is said.
#[derive(Debug, PartialEq, Eq)]
pub struct Message {
    pub role: String,
    pub content: String,
}

/// A `Message` as sequences of characters.
pub struct MessageView {
    pub role: Seq<char>,
    pub content: Seq<char>,
}

impl View for Message {
    type V = MessageView;

    open spec fn view(&self) -> MessageView {
        MessageView { role: self.role@, content: self.content@ }
    }
}

/// How a request proves who sends it.
#[derive(Debug, PartialEq, Eq)]
pub enum Credential {
    /// A bearer token in the `Authorization` header.
    Bearer(String),
    /// A header of its own, by name.
    Header { name: String, value: String },
}

/// A `Credential` as sequences of characters.
pub enum CredentialView {
    Bearer(Seq<char>),
    Header { name: Seq<char>, value: Seq<char> },
}

impl View for Credential {
    type V = CredentialView;

    open spec fn view(&self) -> CredentialView {
        match self {
            Credential::Bearer(token) => CredentialView::Bearer(token@),
            Credential::Header { name, value } => CredentialView::Header {
                name: name@,
                value: value@,
            },
        }
    }
}

/// One POST to a provider: the body is the JSON object of `model`,
/// `messages` and `max_tokens`.
#[derive(Debug, PartialEq, Eq)]
pub struct CompletionRequest {
    pub url: String,
    pub credential: Credential,
    pub model: String,
    pub messages: Vec<Message>,
    pub max_tokens: u64,
}

/// A `CompletionRequest` as plain mathematical values.
pub struct CompletionRequestView {
    pub url: Seq<char>,
    pub credential: CredentialView,
    pub model: Seq<char>,
    pub messages: Seq<MessageView>,
    pub max_tokens: u64,
}

/// The views of `messages`, in order.
pub open spec fn messages_view(messages: Seq<Message>) -> Seq<MessageView> {
    Seq::new(messages.len(), |i: int| messages[i]@)
}

impl View for CompletionRequest {
    type V = CompletionRequestView;

    open spec fn view(&self) -> CompletionRequestView {
        CompletionRequestView {
            url: self.url@,
            credential: self.credential@,
            model: self.model@,
            messages: messages_view(self.messages@),
            max_tokens: self.max_tokens,
        }
    }
}

pub const SYSTEM_ROLE: &'static str = "system";

pub const USER_ROLE: &'static str = "user";

pub const ASSISTANT_ROLE: &'static str = "assistant";

pub const DIFF_LEAD: &'static str = "Here is a git diff:\n\n";

pub const COMMIT_MESSAGE_SYSTEM: &'static str =
    "You are a helpful assistant specialized in writing concise and meaningful git commit messages.";

pub const COMMIT_MESSAGE_STYLE: &'static str =
    "Generate a concise and meaningful commit message based on the provided git diff.\nOnly include the concise and meaningful commit message. Don't include any text formatting.";

pub const TITLE_SYSTEM: &'static str =
    "You are a helpful assistant specialized in writing concise GitHub pull request titles.";

pub const TITLE_STYLE: &'static str =
    "Generate a concise and meaningful title for a GitHub pull request based on the provided git diff.";

pub const DESCRIPTION_SYSTEM: &'static str =
    "You are a helpful assistant specialized in writing detailed GitHub pull request descriptions.";

pub const DESCRIPTION_STYLE: &'static str =
    "Generate a detailed and meaningful description for a GitHub pull request based on the provided git diff. \nOnly answer with the description, nothing else. The description will be read by engineers, so keep it concise and meaningful.\nDon't bloat it. Keep the response under 500 tokens. \nDon't include any How To's or comments about future work. \nONLY include the changes made.";

/// The system instruction of `task`: what the assistant specialises in.
pub open spec fn system_text(task: Task) -> Seq<char> {
    match task {
        Task::CommitMessage => COMMIT_MESSAGE_SYSTEM@,
        Task::PullRequestTitle => TITLE_SYSTEM@,
        Task::PullRequestDescription => DESCRIPTION_SYSTEM@,
    }
}

/// The instruction of `task` on style and length.
pub open spec fn style_text(task: Task) -> Seq<char> {
    match task {
        Task::CommitMessage => COMMIT_MESSAGE_STYLE@,
        Task::PullRequestTitle => TITLE_STYLE@,
        Task::PullRequestDescription => DESCRIPTION_STYLE@,
    }
}

/// The instruction that carries `diff`.
pub open spec fn diff_text(diff: Seq<char>) -> Seq<char> {
    DIFF_LEAD@ + diff
}

/// The three instructions for `task` on `diff`: the system's, the user's
/// with the diff, and the assistant's on style. A description is asked for
/// with the style before the diff.
pub open spec fn instructions(task: Task, diff: Seq<char>) -> Seq<MessageView> {
    let system = MessageView { role: SYSTEM_ROLE@, content: system_text(task) };
    let user = MessageView { role: USER_ROLE@, content: diff_text(diff) };
    let assistant = MessageView { role: ASSISTANT_ROLE@, content: style_text(task) };
    match task {
        Task::PullRequestDescription => seq![system, assistant, user],
        _ => seq![system, user, assistant],
    }
}

fn message(role: &str, content: String) -> (r: Message)
    ensures
        r@ == (MessageView { role: role@, content: content@ }),
{
    Message { role: String::from_str(role), content }
}

/// The instructions for `task` on `diff`.
pub fn instructions_for(task: Task, diff: &str) -> (r: Vec<Message>)
    ensures
        messages_view(r@) == instructions(task, diff@),
{
    let (system_content, style_content) = match task {
        Task::CommitMessage => (COMMIT_MESSAGE_SYSTEM, COMMIT_MESSAGE_STYLE),
        Task::PullRequestTitle => (TITLE_SYSTEM, TITLE_STYLE),
        Task::PullRequestDescription => (DESCRIPTION_SYSTEM, DESCRIPTION_STYLE),
    };
    let system = message(SYSTEM_ROLE, String::from_str(system_content));
    let user = message(USER_ROLE, String::from_str(DIFF_LEAD).concat(diff));
    let assistant = message(ASSISTANT_ROLE, String::from_str(style_content));
    let mut messages: Vec<Message> = Vec::new();
    messages.push(system);
    match task {
        Task::PullRequestDescription => {
            messages.push(assistant);
            messages.push(user);
        },
        _ => {
            messages.push(user);
            messages.push(assistant);
        },
    }
    assert(messages_view(messages@) =~= instructions(task, diff@));
    messages
}

pub const MODEL_FIELD: &'static str = "model";

pub const MESSAGES_FIELD: &'static str = "messages";

pub const MAX_TOKENS_FIELD: &'static str = "max_tokens";

pub const ROLE_FIELD: &'static str = "role";

pub const CONTENT_FIELD: &'static str = "content";

/// The digit `digit` as text.
pub open spec fn digit_text(digit: nat) -> Seq<char> {
    if digit == 0 {
        "0"@
    } else if digit == 1 {
        "1"@
    } else if digit == 2 {
        "2"@
    } else if digit == 3 {
        "3"@
    } else if digit == 4 {
        "4"@
    } else if digit == 5 {
        "5"@
    } else if digit == 6 {
        "6"@
    } else if digit == 7 {
        "7"@
    } else if digit == 8 {
        "8"@
    } else {
        "9"@
    }
}

/// The number `n` as it is written in base ten.
pub open spec fn decimal_text(n: nat) -> Seq<char>
    decreases n,
{
    if n < 10 {
        digit_text(n)
    } else {
        decimal_text(n / 10) + digit_text(n % 10)
    }
}

/// `value` is the JSON object of one instruction: its role, then its
/// content, both as strings.
pub open spec fn is_message_object(value: Json, message: MessageView) -> bool {
    &&& value matches Json::Object(members) && {
        &&& members@.len() == 2
        &&& members@[0].0@ == ROLE_FIELD@
        &&& members@[0].1.text_of() == Some(message.role)
        &&& members@[1].0@ == CONTENT_FIELD@
        &&& members@[1].1.text_of() == Some(message.content)
    }
}

/// `value` is the list of the JSON objects of `messages`, in order.
pub open spec fn is_message_list(value: Json, messages: Seq<MessageView>) -> bool {
    &&& value matches Json::Array(items) && {
        &&& items@.len() == messages.len()
        &&& forall|i: int|
            0 <= i < items@.len() ==> is_message_object(#[trigger] items@[i], messages[i])
    }
}

/// `value` is the body of `request`: the JSON object of the model as a
/// string, the instructions as a list of objects, and the ceiling on the
/// generated tokens as a number, under these names and in this order.
pub open spec fn is_body_of(value: Json, request: CompletionRequestView) -> bool {
    &&& value matches Json::Object(members) && {
        &&& members@.len() == 3
        &&& members@[0].0@ == MODEL_FIELD@
        &&& members@[0].1.text_of() == Some(request.model)
        &&& members@[1].0@ == MESSAGES_FIELD@
        &&& is_message_list(members@[1].1, request.messages)
        &&& members@[2].0@ == MAX_TOKENS_FIELD@
        &&& members@[2].1 matches Json::Number(ceiling) && ceiling@ == decimal_text(
            request.max_tokens as nat,
        )
    }
}

fn digit(value: u64) -> (r: &'static str)
    requires
        value < 10,
    ensures
        r@ == digit_text(value as nat),
{
    if value == 0 {
        "0"
    } else if value == 1 {
        "1"
    } else if value == 2 {
        "2"
    } else if value == 3 {
        "3"
    } else if value == 4 {
        "4"
    } else if value == 5 {
        "5"
    } else if value == 6 {
        "6"
    } else if value == 7 {
        "7"
    } else if value == 8 {
        "8"
    } else {
        "9"
    }
}

/// The number `n` as it is written in base ten.
pub fn decimal(n: u64) -> (r: String)
    ensures
        r@ == decimal_text(n as nat),
    decreases n,
{
    if n < 10 {
        String::from_str(digit(n))
    } else {
        decimal(n / 10).concat(digit(n % 10))
    }
}

impl Message {
    /// The instruction as a JSON object.
    pub fn to_json(&self) -> (r: Json)
        ensures
            is_message_object(r, self@),
    {
        let mut members: Vec<(String, Json)> = Vec::new();
        members.push((String::from_str(ROLE_FIELD), Json::Text(self.role.clone())));
        members.push((String::from_str(CONTENT_FIELD), Json::Text(self.content.clone())));
        Json::Object(members)
    }
}

impl CompletionRequest {
    /// The body of the request as a JSON object.
    pub fn body(&self) -> (r: Json)
        ensures
            is_body_of(r, self@),
    {
        let mut items: Vec<Json> = Vec::new();
        let mut i: usize = 0;
        while i < self.messages.len()
            invariant
                i <= self.messages.len(),
                items@.len() == i,
                forall|j: int|
                    0 <= j < i ==> is_message_object(#[trigger] items@[j], self.messages@[j]@),
            decreases self.messages.len() - i,
        {
            items.push(self.messages[i].to_json());
            i += 1;
        }
        let list = Json::Array(items);
        assert(is_message_list(list, messages_view(self.messages@)));
        let mut members: Vec<(String, Json)> = Vec::new();
        members.push((String::from_str(MODEL_FIELD), Json::Text(self.model.clone())));
        members.push((String::from_str(MESSAGES_FIELD), list));
        members.push((String::from_str(MAX_TOKENS_FIELD), Json::Number(decimal(self.max_tokens))));
        Json::Object(members)
    }
}

} // verus!
