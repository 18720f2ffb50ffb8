use gcmgen::anthropic::AnthropicClient;
use gcmgen::client::{
    finish_text, provider_by_name, with_prefix, Client, ClientError, CommitMessageGenerator, Exchange,
    Provider, PullRequestGenerator, Reading,
};
use gcmgen::config::ServiceConfig;
use gcmgen::json::Json;
use gcmgen::openai::OpenAIClient;
use gcmgen::request::{decimal, instructions_for, Credential, Message, Task};

const DIFF: &str = "diff --git a/f b/f\n+hello\n";

fn settings() -> ServiceConfig {
    ServiceConfig { api_token: "test_token".to_string(), model: "gpt-4o-mini".to_string() }
}

fn openai() -> Client {
    Client::new(&settings(), "OpenAI").unwrap()
}

fn anthropic() -> Client {
    Client::new(&settings(), "Anthropic").unwrap()
}

fn openai_reply(content: &str) -> String {
    let escaped = content.replace('\\', "\\\\").replace('"', "\\\"").replace('\n', "\\n");
    format!(
        "{{\"id\":\"c1\",\"choices\":[{{\"index\":0,\"message\":{{\"role\":\"assistant\",\"content\":\"{}\"}}}}],\"usage\":{{\"total_tokens\":12}}}}",
        escaped
    )
}

fn anthropic_reply(text: &str) -> String {
    format!("{{\"content\":[{{\"type\":\"text\",\"text\":\"{}\"}}],\"model\":\"messages-v1\"}}", text)
}

fn message(role: &str, content: &str) -> Message {
    Message { role: role.to_string(), content: content.to_string() }
}

#[test]
fn client_new_picks_the_provider_by_name() {
    assert!(matches!(Client::new(&settings(), "OpenAI"), Ok(Client::OpenAI(_))));
    assert!(matches!(Client::new(&settings(), "Anthropic"), Ok(Client::Anthropic(_))));
    assert_eq!(openai().provider(), Provider::OpenAI);
    assert_eq!(anthropic().provider(), Provider::Anthropic);
}

#[test]
fn client_new_refuses_any_other_name() {
    assert_eq!(Client::new(&settings(), "Mistral"), Err(ClientError::UnsupportedService));
    assert_eq!(Client::new(&settings(), "openai"), Err(ClientError::UnsupportedService));
    assert_eq!(Client::new(&settings(), ""), Err(ClientError::UnsupportedService));
}

#[test]
fn client_new_hands_the_settings_to_the_provider() {
    assert_eq!(Client::new(&settings(), "OpenAI"), Ok(Client::OpenAI(OpenAIClient::new(&settings()))));
    assert_eq!(
        Client::new(&settings(), "Anthropic"),
        Ok(Client::Anthropic(AnthropicClient::new(&settings())))
    );
}

#[test]
fn provider_by_name_knows_two_names() {
    assert_eq!(provider_by_name("OpenAI"), Some(Provider::OpenAI));
    assert_eq!(provider_by_name("Anthropic"), Some(Provider::Anthropic));
    assert_eq!(provider_by_name("Other"), None);
}

#[test]
fn commit_message_request_for_openai() {
    let exchange = openai().generate_commit_message(DIFF, None);
    assert_eq!(exchange.request.url, "https://api.openai.com/v1/chat/completions");
    assert_eq!(exchange.request.credential, Credential::Bearer("test_token".to_string()));
    assert_eq!(exchange.request.model, "gpt-4o-mini");
    assert_eq!(exchange.request.max_tokens, 500);
    assert_eq!(
        exchange.request.messages,
        vec![
            message(
                "system",
                "You are a helpful assistant specialized in writing concise and meaningful git commit messages."
            ),
            message("user", "Here is a git diff:\n\ndiff --git a/f b/f\n+hello\n"),
            message(
                "assistant",
                "Generate a concise and meaningful commit message based on the provided git diff.\nOnly include the concise and meaningful commit message. Don't include any text formatting."
            ),
        ]
    );
    assert_eq!(exchange.reading, Reading { provider: Provider::OpenAI, prefix: None });
}

#[test]
fn commit_message_request_for_anthropic() {
    let prefix = "TICKET-123".to_string();
    let exchange = anthropic().generate_commit_message(DIFF, Some(&prefix));
    assert_eq!(exchange.request.url, "https://api.anthropic.com/v1/messages");
    assert_eq!(
        exchange.request.credential,
        Credential::Header { name: "x-api-key".to_string(), value: "test_token".to_string() }
    );
    assert_eq!(exchange.request.model, "gpt-4o-mini");
    assert_eq!(exchange.request.max_tokens, 1024);
    assert_eq!(exchange.request.messages, instructions_for(Task::CommitMessage, DIFF));
    assert_eq!(
        exchange.reading,
        Reading { provider: Provider::Anthropic, prefix: Some("TICKET-123".to_string()) }
    );
}

#[test]
fn title_request_carries_the_title_instructions() {
    let exchange = openai().generate_pr_title(DIFF, Some("TICKET-123"));
    assert_eq!(
        exchange.request.messages,
        vec![
            message(
                "system",
                "You are a helpful assistant specialized in writing concise GitHub pull request titles."
            ),
            message("user", "Here is a git diff:\n\ndiff --git a/f b/f\n+hello\n"),
            message(
                "assistant",
                "Generate a concise and meaningful title for a GitHub pull request based on the provided git diff."
            ),
        ]
    );
    assert_eq!(exchange.reading.prefix, Some("TICKET-123".to_string()));
    assert_eq!(exchange.request.max_tokens, 500);
}

#[test]
fn description_request_puts_the_style_before_the_diff() {
    let exchange = openai().generate_pr_description(DIFF);
    assert_eq!(
        exchange.request.messages,
        vec![
            message(
                "system",
                "You are a helpful assistant specialized in writing detailed GitHub pull request descriptions."
            ),
            message(
                "assistant",
                "Generate a detailed and meaningful description for a GitHub pull request based on the provided git diff. \nOnly answer with the description, nothing else. The description will be read by engineers, so keep it concise and meaningful.\nDon't bloat it. Keep the response under 500 tokens. \nDon't include any How To's or comments about future work. \nONLY include the changes made."
            ),
            message("user", "Here is a git diff:\n\ndiff --git a/f b/f\n+hello\n"),
        ]
    );
    assert_eq!(exchange.reading.prefix, None);
}

#[test]
fn anthropic_writes_titles_and_descriptions_too() {
    let title = anthropic().generate_pr_title(DIFF, None);
    assert_eq!(title.request.url, "https://api.anthropic.com/v1/messages");
    assert_eq!(title.request.messages, instructions_for(Task::PullRequestTitle, DIFF));
    let description = anthropic().generate_pr_description(DIFF);
    assert_eq!(description.request.messages, instructions_for(Task::PullRequestDescription, DIFF));
    assert_eq!(description.reading, Reading { provider: Provider::Anthropic, prefix: None });
}

#[test]
fn generate_text_frames_any_messages() {
    let client = OpenAIClient::new(&settings());
    let request = client.generate_text(vec![message("user", "hi")]);
    assert_eq!(request.messages, vec![message("user", "hi")]);
    assert_eq!(request.model, "gpt-4o-mini");
    let request = AnthropicClient::new(&settings()).generate_message(vec![]);
    assert!(request.messages.is_empty());
    assert_eq!(request.max_tokens, 1024);
}

#[test]
fn generated_message_is_trimmed() {
    let exchange = openai().generate_commit_message(DIFF, None);
    let result = exchange.finish(Ok(openai_reply("  Add hello greeting  ")));
    assert_eq!(result, Ok("Add hello greeting".to_string()));
}

#[test]
fn generated_message_stands_behind_the_prefix() {
    let prefix = "TICKET-123".to_string();
    let exchange = openai().generate_commit_message(DIFF, Some(&prefix));
    let result = exchange.finish(Ok(openai_reply("  Add hello greeting  ")));
    assert_eq!(result, Ok("TICKET-123 Add hello greeting".to_string()));
}

#[test]
fn reply_without_the_text_field_is_malformed() {
    let exchange = openai().generate_commit_message(DIFF, None);
    let body = "{\"choices\":[{\"message\":{\"role\":\"assistant\"}}]}".to_string();
    assert_eq!(
        exchange.finish(Ok(body.clone())),
        Err(ClientError::MalformedResponse { provider: Provider::OpenAI, body })
    );
}

#[test]
fn malformed_replies_of_openai() {
    let reading = Reading { provider: Provider::OpenAI, prefix: None };
    let bodies = [
        "{}",
        "{\"choices\":[]}",
        "{\"choices\":{}}",
        "{\"choices\":\"none\"}",
        "{\"choices\":[{}]}",
        "{\"choices\":[{\"message\":\"text\"}]}",
        "{\"choices\":[{\"message\":{\"content\":12}}]}",
        "{\"choices\":[{\"message\":{\"content\":null}}]}",
        "{\"choices\":[{\"message\":{\"content\":[\"a\"]}}]}",
        "{\"error\":{\"message\":\"Incorrect API key\"}}",
        "[]",
        "\"text\"",
        "not json",
        "",
        "{\"content\":[{\"text\":\"for another provider\"}]}",
    ];
    for body in bodies {
        assert_eq!(
            reading.finish(Ok(body.to_string())),
            Err(ClientError::MalformedResponse {
                provider: Provider::OpenAI,
                body: body.to_string()
            })
        );
    }
}

#[test]
fn malformed_replies_of_anthropic() {
    let reading = Reading { provider: Provider::Anthropic, prefix: Some("P".to_string()) };
    let bodies = [
        "{}",
        "{\"content\":[]}",
        "{\"content\":\"text\"}",
        "{\"content\":[{}]}",
        "{\"content\":[{\"text\":5}]}",
        "{\"content\":[{\"type\":\"text\"}]}",
        "{\"choices\":[{\"message\":{\"content\":\"for another provider\"}}]}",
        "{",
    ];
    for body in bodies {
        assert_eq!(
            reading.finish(Ok(body.to_string())),
            Err(ClientError::MalformedResponse {
                provider: Provider::Anthropic,
                body: body.to_string()
            })
        );
    }
}

#[test]
fn only_the_first_choice_counts() {
    let reading = Reading { provider: Provider::OpenAI, prefix: None };
    let body = "{\"choices\":[{\"message\":{\"content\":\"first\"}},{\"message\":{\"content\":\"second\"}}]}";
    assert_eq!(reading.finish(Ok(body.to_string())), Ok("first".to_string()));
    let body = "{\"choices\":[{},{\"message\":{\"content\":\"second\"}}]}";
    assert!(matches!(
        reading.finish(Ok(body.to_string())),
        Err(ClientError::MalformedResponse { .. })
    ));
}

#[test]
fn anthropic_reply_is_read_at_its_own_place() {
    let prefix = "TICKET-123".to_string();
    let exchange = anthropic().generate_commit_message(DIFF, Some(&prefix));
    assert_eq!(
        exchange.finish(Ok(anthropic_reply("\\n Add hello greeting\\n"))),
        Ok("TICKET-123 Add hello greeting".to_string())
    );
    let exchange = anthropic().generate_commit_message(DIFF, None);
    assert_eq!(
        exchange.finish(Ok(anthropic_reply("Add hello greeting"))),
        Ok("Add hello greeting".to_string())
    );
}

#[test]
fn title_and_description_are_finished_alike() {
    let title = openai().generate_pr_title(DIFF, Some("TICKET-123"));
    assert_eq!(
        title.finish(Ok(openai_reply(" Greet the user\n"))),
        Ok("TICKET-123 Greet the user".to_string())
    );
    let description = openai().generate_pr_description(DIFF);
    assert_eq!(
        description.finish(Ok(openai_reply("\nAdds a greeting.\n\nNothing else.\n"))),
        Ok("Adds a greeting.\n\nNothing else.".to_string())
    );
}

#[test]
fn text_of_white_space_alone_is_a_malformed_reply() {
    for content in ["   ", "", "\n\t "] {
        let body = openai_reply(content);
        let reading = Reading { provider: Provider::OpenAI, prefix: None };
        assert_eq!(
            reading.finish(Ok(body.clone())),
            Err(ClientError::MalformedResponse { provider: Provider::OpenAI, body: body.clone() })
        );
        let reading = Reading { provider: Provider::OpenAI, prefix: Some("P".to_string()) };
        assert_eq!(
            reading.finish(Ok(body.clone())),
            Err(ClientError::MalformedResponse { provider: Provider::OpenAI, body })
        );
    }
    let exchange = openai().generate_commit_message("+x\n", None);
    assert!(exchange.finish(Ok("{\"choices\":[{\"message\":{\"content\":\"   \"}}]}".to_string())).is_err());
    let blank = Json::Object(vec![(
        "content".to_string(),
        Json::Array(vec![Json::Object(vec![("text".to_string(), Json::Text("  ".to_string()))])]),
    )]);
    let reading = Reading { provider: Provider::Anthropic, prefix: None };
    assert_eq!(
        reading.finish_tree(Some(&blank), "raw"),
        Err(ClientError::MalformedResponse { provider: Provider::Anthropic, body: "raw".to_string() })
    );
}

#[test]
fn with_prefix_formula() {
    assert_eq!(with_prefix(None, "Add hello greeting"), "Add hello greeting");
    assert_eq!(with_prefix(Some("TICKET-123"), "Add hello greeting"), "TICKET-123 Add hello greeting");
    assert_eq!(with_prefix(Some("P"), " kept as it is "), "P  kept as it is ");
    assert_eq!(with_prefix(Some(""), "x"), " x");
}

#[test]
fn transport_failure_is_handed_on() {
    let exchange = openai().generate_commit_message(DIFF, None);
    assert_eq!(
        exchange.finish(Err("connection refused".to_string())),
        Err(ClientError::Transport("connection refused".to_string()))
    );
}

#[test]
fn finish_tree_reads_a_tree_built_by_hand() {
    let reading = Reading { provider: Provider::Anthropic, prefix: None };
    let tree = Json::Object(vec![(
        "content".to_string(),
        Json::Array(vec![Json::Object(vec![(
            "text".to_string(),
            Json::Text(" by hand ".to_string()),
        )])]),
    )]);
    assert_eq!(reading.finish_tree(Some(&tree), "raw"), Ok("by hand".to_string()));
    assert_eq!(
        reading.finish_tree(None, "raw"),
        Err(ClientError::MalformedResponse { provider: Provider::Anthropic, body: "raw".to_string() })
    );
    let empty = Json::Object(vec![("content".to_string(), Json::Array(vec![]))]);
    assert_eq!(
        reading.finish_tree(Some(&empty), "raw"),
        Err(ClientError::MalformedResponse { provider: Provider::Anthropic, body: "raw".to_string() })
    );
}

fn object(members: Vec<(&str, Json)>) -> Json {
    Json::Object(members.into_iter().map(|(name, value)| (name.to_string(), value)).collect())
}

#[test]
fn completion_text_walks_the_path() {
    let tree = object(vec![
        ("id", Json::Text("c1".to_string())),
        (
            "choices",
            Json::Array(vec![object(vec![
                ("index", Json::Number("0".to_string())),
                ("message", object(vec![("content", Json::Text("hello".to_string()))])),
            ])]),
        ),
    ]);
    assert_eq!(OpenAIClient::completion_text(&tree), Some("hello"));
    assert_eq!(AnthropicClient::completion_text(&tree), None);
    let tree = object(vec![(
        "content",
        Json::Array(vec![object(vec![("text", Json::Text("hello".to_string()))])]),
    )]);
    assert_eq!(AnthropicClient::completion_text(&tree), Some("hello"));
    assert_eq!(OpenAIClient::completion_text(&tree), None);
}

#[test]
fn text_of_reply_keeps_the_text_as_it_came() {
    assert_eq!(OpenAIClient::text_of_reply(&openai_reply("  padded ")), Ok("  padded ".to_string()));
    assert_eq!(
        AnthropicClient::text_of_reply(&anthropic_reply(" padded ")),
        Ok(" padded ".to_string())
    );
    assert_eq!(
        OpenAIClient::text_of_reply("{}"),
        Err(ClientError::MalformedResponse { provider: Provider::OpenAI, body: "{}".to_string() })
    );
    assert_eq!(
        AnthropicClient::text_of_tree(None, "{}"),
        Err(ClientError::MalformedResponse { provider: Provider::Anthropic, body: "{}".to_string() })
    );
    assert_eq!(
        OpenAIClient::text_of_tree(None, "x"),
        Err(ClientError::MalformedResponse { provider: Provider::OpenAI, body: "x".to_string() })
    );
}

#[test]
fn finish_text_formula() {
    assert_eq!(finish_text(None, "  Add hello greeting  "), "Add hello greeting");
    assert_eq!(finish_text(Some("TICKET-123"), "  Add hello greeting  "), "TICKET-123 Add hello greeting");
    assert_eq!(finish_text(Some("A B"), "x"), "A B x");
}

#[test]
fn client_error_to_text() {
    assert_eq!(ClientError::UnsupportedService.to_text(), "Unsupported service type");
    assert_eq!(ClientError::Transport("timed out".to_string()).to_text(), "timed out");
    assert_eq!(
        ClientError::MalformedResponse { provider: Provider::OpenAI, body: "{}".to_string() }.to_text(),
        "Failed to generate PR title. Unexpected response format: {}"
    );
    assert_eq!(
        ClientError::MalformedResponse { provider: Provider::Anthropic, body: "[]".to_string() }
            .to_text(),
        "Failed to generate commit message. Unexpected response format: []"
    );
}

#[test]
fn exchange_finish_is_that_of_its_reading() {
    let exchange: Exchange = openai().generate_commit_message(DIFF, None);
    let body = openai_reply("x");
    assert_eq!(exchange.finish(Ok(body.clone())), exchange.reading.finish(Ok(body)));
}

fn text(value: &str) -> Json {
    Json::Text(value.to_string())
}

#[test]
fn body_holds_model_messages_and_ceiling() {
    let request = OpenAIClient::new(&settings())
        .generate_text(vec![message("system", "Be brief."), message("user", "Here is a git diff:\n\n+x\n")]);
    assert_eq!(
        request.body(),
        object(vec![
            ("model", text("gpt-4o-mini")),
            (
                "messages",
                Json::Array(vec![
                    object(vec![("role", text("system")), ("content", text("Be brief."))]),
                    object(vec![
                        ("role", text("user")),
                        ("content", text("Here is a git diff:\n\n+x\n"))
                    ]),
                ])
            ),
            ("max_tokens", Json::Number("500".to_string())),
        ])
    );
}

#[test]
fn body_of_a_request_without_messages() {
    let request = AnthropicClient::new(&settings()).generate_message(vec![]);
    assert_eq!(
        request.body(),
        object(vec![
            ("model", text("gpt-4o-mini")),
            ("messages", Json::Array(vec![])),
            ("max_tokens", Json::Number("1024".to_string())),
        ])
    );
}

#[test]
fn message_to_json_holds_role_and_content() {
    assert_eq!(
        message("assistant", "Keep it short.").to_json(),
        object(vec![("role", text("assistant")), ("content", text("Keep it short."))])
    );
}

#[test]
fn decimal_writes_numbers_in_base_ten() {
    assert_eq!(decimal(0), "0");
    assert_eq!(decimal(7), "7");
    assert_eq!(decimal(9), "9");
    assert_eq!(decimal(10), "10");
    assert_eq!(decimal(500), "500");
    assert_eq!(decimal(1024), "1024");
    assert_eq!(decimal(1234567890), "1234567890");
    assert_eq!(decimal(u64::MAX), "18446744073709551615");
}
