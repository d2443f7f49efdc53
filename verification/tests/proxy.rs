//! What a client asks is put to a backend, and what the backend answers is put to the client.
use base64::engine::general_purpose::URL_SAFE;
use base64::Engine;
use byob_proxy::backend::parse_responses_sse_data;
use byob_proxy::body::backend_text_from_body;
use byob_proxy::bytes::warp_sse_data;
use byob_proxy::calls::ToolCallAccumulatorSet;
use byob_proxy::chat::{responses_input_items_from_chat_messages, OpenAIChatMessage};
use byob_proxy::config::{
    default_agent_system_prompt, parse_codex_config, Config, WireApi,
};
use byob_proxy::events::{agent_output_message, finished_event_done, WarpIds};
use byob_proxy::headers::Headers;
use byob_proxy::history::build_chat_request;
use byob_proxy::json::Json;
use byob_proxy::outputs::WarpClientOutput;
use byob_proxy::queries::{
    clean_query_suggestion, parse_am_query_suggestion_text, AMSimpleQuery, AMSuggestion,
};
use byob_proxy::ranking::rank_relevant_files;
use byob_proxy::requests::{
    ContextMessagePayload, GenerateAIInputSuggestionsRequest, GenerateBlockTitleRequest,
    GetRelevantFilesRequest, RelevantFileContext,
};
use byob_proxy::sse::SseDecoder;
use byob_proxy::suggest::{local_next_command_suggestion, parse_input_suggestion_text};
use byob_proxy::titles::local_block_title;
use byob_proxy::tools::build_tool_definitions;
use byob_proxy::warp::{
    FinishReason, Input, InputType, ModelConfig, Request, ResponseEvent, Settings, Tool, ToolType,
    UserInput,
};
use byob_proxy::wire::{
    OpenAIFunctionCall, OpenAIFunctionDelta, OpenAIMessageToolCall, OpenAIToolCallDelta,
};
use prost::Message;
use std::collections::BTreeSet;

fn test_config() -> Config {
    Config {
        listen_addr: "127.0.0.1:1337".to_string(),
        openai_base_url: "http://127.0.0.1:8000/v1".to_string(),
        backend_url_override: None,
        openai_api_key: None,
        model_override: Some("test-model".to_string()),
        wire_api: WireApi::ChatCompletions,
        extra_headers: Headers::new(),
        system_prompt: "system".to_string(),
        request_timeout_secs: 5,
    }
}

fn request_with_tools(supported_tools: Vec<ToolType>) -> Request {
    Request {
        settings: Some(Settings { model_config: None, supported_tools }),
        metadata: None,
        task_context: None,
        input: None,
    }
}

fn suggestions_request(
    context_messages: Vec<ContextMessagePayload>,
    prefix: Option<String>,
) -> GenerateAIInputSuggestionsRequest {
    GenerateAIInputSuggestionsRequest {
        context_messages,
        history_context: String::new(),
        system_context: None,
        rejected_suggestions: Vec::new(),
        prefix,
        block_context: None,
        previous_result: None,
    }
}

fn context_message(output: &str) -> Json {
    Json::object(vec![
        ("input".to_string(), Json::text("brew search nvtop")),
        ("output".to_string(), Json::text(output)),
        (
            "context".to_string(),
            Json::object(vec![("exit_code".to_string(), Json::integer(0))]),
        ),
    ])
}

fn tool_call(id: &str, name: &str, arguments: &str) -> OpenAIMessageToolCall {
    OpenAIMessageToolCall {
        id: id.to_string(),
        kind: "function".to_string(),
        function: OpenAIFunctionCall { name: name.to_string(), arguments: arguments.to_string() },
    }
}

#[test]
fn converts_user_query_to_openai_message() {
    let request = Request {
        task_context: Some(vec![]),
        input: Some(Input {
            context: None,
            input_type: Some(InputType::UserInputs(vec![Some(UserInput::UserQuery(
                "list files".to_string(),
            ))])),
        }),
        settings: Some(Settings {
            model_config: Some(ModelConfig {
                coding: String::new(),
                base: "from-request".to_string(),
                cli_agent: String::new(),
                computer_use_agent: String::new(),
            }),
            supported_tools: vec![ToolType::RunShellCommand],
        }),
        metadata: None,
    };

    let chat = build_chat_request(&request, &test_config());

    assert_eq!(chat.model, "from-request");
    assert!(chat
        .messages
        .iter()
        .any(|message| message.role == "user" && message.content.as_deref() == Some("list files")));
    assert!(chat.tools.iter().any(|tool| tool.function.name == "run_shell_command"));
}

#[test]
fn default_prompt_describes_agentic_terminal_loop() {
    let prompt = default_agent_system_prompt();

    assert!(prompt.contains("state what you are about to do"));
    assert!(prompt.contains("monitor it with the long-running command tools"));
}

#[test]
fn exposes_long_running_terminal_tools() {
    let request = request_with_tools(vec![
        ToolType::RunShellCommand,
        ToolType::ReadShellCommandOutput,
        ToolType::WriteToLongRunningShellCommand,
        ToolType::TransferShellCommandControlToUser,
    ]);

    let tools = build_tool_definitions(&request);
    let names = tools.iter().map(|tool| tool.function.name.as_str()).collect::<BTreeSet<_>>();

    assert!(names.contains("run_shell_command"));
    assert!(names.contains("read_shell_command_output"));
    assert!(names.contains("write_to_lrc"));
    assert!(names.contains("transfer_shell_command_control"));
}

#[test]
fn exposes_native_context_and_question_tools() {
    let request = request_with_tools(vec![
        ToolType::ReadFiles,
        ToolType::SearchCodebase,
        ToolType::Grep,
        ToolType::FileGlobV2,
        ToolType::ReadSkill,
        ToolType::AskUserQuestion,
    ]);

    let tools = build_tool_definitions(&request);
    let names = tools.iter().map(|tool| tool.function.name.as_str()).collect::<BTreeSet<_>>();

    assert!(names.contains("read_files"));
    assert!(names.contains("search_codebase"));
    assert!(names.contains("grep"));
    assert!(names.contains("file_glob_v2"));
    assert!(names.contains("read_skill"));
    assert!(names.contains("ask_user_question"));
}

#[test]
fn encodes_warp_sse_data_as_decodable_response_event() {
    let event = prost_types::Timestamp { seconds: 1_700_000_000, nanos: 12_345 };
    let encoded = warp_sse_data(&event.encode_to_vec());
    let decoded = URL_SAFE.decode(encoded).unwrap();
    let round_trip = prost_types::Timestamp::decode(decoded.as_slice()).unwrap();

    assert_eq!(round_trip, event);
    assert!(matches!(finished_event_done(), ResponseEvent::Finished(FinishReason::Done)));
}

#[test]
fn generated_messages_use_current_timestamps() {
    let ids = WarpIds {
        conversation_id: "conv".to_string(),
        request_id: "req".to_string(),
        run_id: "run".to_string(),
        task_id: "task".to_string(),
    };

    let message = agent_output_message(&ids, "msg", "hello");

    assert!(message.timestamp.is_some_and(|timestamp| timestamp.seconds > 0));
}

#[test]
fn responses_input_drops_orphaned_function_calls() {
    let input = responses_input_items_from_chat_messages(vec![
        OpenAIChatMessage::assistant_tool_call(tool_call(
            "call_missing_output",
            "run_shell_command",
            r#"{"command":"date"}"#,
        )),
        OpenAIChatMessage::user("continue".to_string()),
    ]);

    assert!(input.iter().all(|item| item.get_str("call_id") != Some("call_missing_output")));
    assert!(input.iter().any(|item| item.get_str("role") == Some("user")));
}

#[test]
fn responses_input_keeps_paired_function_calls_and_outputs() {
    let input = responses_input_items_from_chat_messages(vec![
        OpenAIChatMessage::assistant_tool_call(tool_call(
            "call_with_output",
            "run_shell_command",
            r#"{"command":"date"}"#,
        )),
        OpenAIChatMessage::tool("call_with_output".to_string(), "Tue May 19".to_string()),
    ]);

    assert!(input.iter().any(|item| {
        item.get_str("type") == Some("function_call")
            && item.get_str("call_id") == Some("call_with_output")
    }));
    assert!(input.iter().any(|item| {
        item.get_str("type") == Some("function_call_output")
            && item.get_str("call_id") == Some("call_with_output")
    }));
}

#[test]
fn accumulates_openai_tool_call_delta_to_warp_tool_call() {
    let mut calls = ToolCallAccumulatorSet::default();
    calls.apply_deltas(vec![OpenAIToolCallDelta {
        index: 0,
        id: Some("call_1".to_string()),
        kind: Some("function".to_string()),
        function: Some(OpenAIFunctionDelta {
            name: Some("run_shell_command".to_string()),
            arguments: Some("{\"command\":\"pwd\",\"is_read_only\":true}".to_string()),
        }),
    }]);

    let call = calls.into_warp_tool_calls().remove(0).unwrap();
    assert_eq!(call.tool_call_id, "call_1");
    assert!(matches!(call.tool, Some(Tool::RunShellCommand(_))));
}

#[test]
fn accumulates_long_running_terminal_tool_calls() {
    let mut calls = ToolCallAccumulatorSet::default();
    calls.apply_full_calls(vec![
        tool_call(
            "call_read",
            "read_shell_command_output",
            r#"{"command_id":"block_1","delay_seconds":1}"#,
        ),
        tool_call(
            "call_write",
            "write_to_lrc",
            r#"{"command_id":"block_1","input":"y\n","mode":"raw"}"#,
        ),
        tool_call(
            "call_transfer",
            "transfer_shell_command_control",
            r#"{"reason":"Password prompt requires the user."}"#,
        ),
    ]);

    let calls =
        calls.into_warp_tool_calls().into_iter().collect::<Result<Vec<_>, _>>().unwrap();

    assert!(matches!(calls[0].tool.as_ref(), Some(Tool::ReadShellCommandOutput(_))));
    assert!(matches!(calls[1].tool.as_ref(), Some(Tool::WriteToLongRunningShellCommand(_))));
    assert!(matches!(calls[2].tool.as_ref(), Some(Tool::TransferShellCommandControlToUser(_))));
}

#[test]
fn accumulates_context_and_question_tool_calls() {
    let mut calls = ToolCallAccumulatorSet::default();
    calls.apply_full_calls(vec![
        tool_call(
            "call_read_files",
            "read_files",
            r#"{"files":[{"path":"src/main.rs","line_ranges":[{"start":1,"end":20}]}]}"#,
        ),
        tool_call(
            "call_search",
            "search_codebase",
            r#"{"query":"agent action conversion","path_filters":["crates/ai"]}"#,
        ),
        tool_call(
            "call_grep",
            "grep",
            r#"{"query":"ToolCallAccumulator","path":"crates/byob_proxy"}"#,
        ),
        tool_call(
            "call_glob",
            "file_glob_v2",
            r#"{"patterns":["*.rs"],"search_dir":"crates/byob_proxy","max_matches":10}"#,
        ),
        tool_call("call_skill", "read_skill", r#"{"skill_path":"/tmp/SKILL.md","name":"tmp"}"#),
        tool_call(
            "call_question",
            "ask_user_question",
            r#"{"questions":[{"question":"Which host should I inspect?","options":["dev","prod"],"recommended_option_index":0}]}"#,
        ),
    ]);

    let calls =
        calls.into_warp_tool_calls().into_iter().collect::<Result<Vec<_>, _>>().unwrap();

    assert!(matches!(calls[0].tool.as_ref(), Some(Tool::ReadFiles(_))));
    assert!(matches!(calls[1].tool.as_ref(), Some(Tool::SearchCodebase(_))));
    assert!(matches!(calls[2].tool.as_ref(), Some(Tool::Grep(_))));
    assert!(matches!(calls[3].tool.as_ref(), Some(Tool::FileGlobV2(_))));
    assert!(matches!(calls[4].tool.as_ref(), Some(Tool::ReadSkill(_))));
    assert!(matches!(calls[5].tool.as_ref(), Some(Tool::AskUserQuestion(_))));
}

#[test]
fn parses_crlf_sse_events() {
    let mut decoder = SseDecoder::default();
    let events = decoder.push("data: {\"a\":1}\r\n\r\ndata: [DONE]\r\n\r\n");
    assert_eq!(events, vec!["{\"a\":1}", "[DONE]"]);
}

#[test]
fn parses_codex_oca_provider_config() {
    let parsed = parse_codex_config(
        r#"
            model_provider = "oca"
            profile = "codex-enterprise"
            model = "top-level"

            [model_providers.oca]
            base_url = "https://code.example.com/20250206/app/litellm"
            http_headers = { "client" = "codex-cli", "client-version" = "0" }
            model = "provider-model"
            wire_api = "responses"

            [profiles.codex-enterprise]
            model = "profile-model"
            model_provider = "oca"
            "#,
    )
    .unwrap();

    assert_eq!(
        parsed.base_url.as_deref(),
        Some("https://code.example.com/20250206/app/litellm")
    );
    assert_eq!(parsed.model.as_deref(), Some("profile-model"));
    assert_eq!(parsed.wire_api, Some(WireApi::Responses));
    assert_eq!(parsed.http_headers.get("client"), Some("codex-cli"));
}

#[test]
fn suggests_brew_install_after_brew_search() {
    let request = suggestions_request(
        vec![ContextMessagePayload::Text(context_message("==> Formulae\nnvtop").to_text())],
        None,
    );

    let response = local_next_command_suggestion(&request).unwrap();

    assert_eq!(response.most_likely_action, "brew install nvtop");
    assert_eq!(response.commands, vec!["brew install nvtop"]);
}

#[test]
fn brew_install_suggestion_respects_prefix() {
    let request = suggestions_request(
        vec![ContextMessagePayload::Text(context_message("nvtop").to_text())],
        Some("git".to_string()),
    );

    assert!(local_next_command_suggestion(&request).is_none());
}

#[test]
fn accepts_object_context_message_for_brew_fallback() {
    let request = suggestions_request(
        vec![ContextMessagePayload::Object(context_message("==> Formulae\nnvtop"))],
        None,
    );

    let response = local_next_command_suggestion(&request).unwrap();

    assert_eq!(response.most_likely_action, "brew install nvtop");
}

#[test]
fn accepts_literal_newline_context_message_for_brew_fallback() {
    let request = suggestions_request(
        vec![ContextMessagePayload::Text(
            "{\"input\":\"brew search nvtop\",\"output\":\"==> Formulae\nnvtop\",\"context\":{\"exit_code\":0}}".to_string(),
        )],
        None,
    );

    let response = local_next_command_suggestion(&request).unwrap();

    assert_eq!(response.most_likely_action, "brew install nvtop");
}

#[test]
fn generates_local_block_title_for_common_commands() {
    let request = GenerateBlockTitleRequest {
        command: "brew install nvtop".to_string(),
        output: String::new(),
    };

    assert_eq!(local_block_title(&request), Some("Install nvtop".to_string()));
}

#[test]
fn parses_agent_mode_query_suggestion_json() {
    let response = parse_am_query_suggestion_text(
        r#"```json
            {"query":"Explain why this command failed","should_plan_task":false}
            ```"#,
    );

    assert!(matches!(
        response.suggestion,
        Some(AMSuggestion::Simple(AMSimpleQuery { query, .. }))
            if query == "Explain why this command failed"
    ));
}

#[test]
fn parses_concatenated_agent_mode_query_json() {
    let response = parse_am_query_suggestion_text(
        r#"{"query":"Install nvtop with Homebrew and verify it runs","should_plan_task":false}{"query":"Install nvtop with Homebrew and verify it runs","should_plan_task":false}"#,
    );

    assert!(matches!(
        response.suggestion,
        Some(AMSuggestion::Simple(AMSimpleQuery { query, .. }))
            if query == "Install nvtop with Homebrew and verify it runs"
    ));
}

#[test]
fn cleans_concatenated_predict_am_query_json() {
    let suggestion = clean_query_suggestion(
        r#"{"query":"Install nvtop with Homebrew and verify it runs","should_plan_task":false}{"query":"Install nvtop with Homebrew and verify it runs","should_plan_task":false}"#,
        "",
    );

    assert_eq!(suggestion, "Install nvtop with Homebrew and verify it runs");
}

#[test]
fn parses_concatenated_input_suggestion_json() {
    let request = suggestions_request(Vec::new(), None);
    let response = parse_input_suggestion_text(
        &request,
        r#"{"commands":["brew install nvtop"],"ai_queries":[],"most_likely_action":"brew install nvtop"}{"commands":["brew install nvtop"],"ai_queries":[],"most_likely_action":"brew install nvtop"}"#,
    );

    assert_eq!(response.most_likely_action, "brew install nvtop");
}

#[test]
fn ranks_relevant_files_from_query_terms() {
    let request = GetRelevantFilesRequest {
        query: "auth login token".to_string(),
        files: vec![
            RelevantFileContext {
                path: "src/ui/view.rs".to_string(),
                symbols: "render settings".to_string(),
            },
            RelevantFileContext {
                path: "src/auth/login.rs".to_string(),
                symbols: "login token refresh".to_string(),
            },
        ],
    };

    let paths = rank_relevant_files(&request);

    assert_eq!(paths.first().map(String::as_str), Some("src/auth/login.rs"));
}

#[test]
fn parses_responses_text_delta() {
    let mut calls = ToolCallAccumulatorSet::default();
    let text = parse_responses_sse_data(
        r#"{"type":"response.output_text.delta","delta":"hello"}"#,
        &mut calls,
        true,
    )
    .unwrap();

    assert_eq!(text, vec!["hello"]);
}

#[test]
fn responses_sse_text_does_not_duplicate_completed_output() {
    let body = [
        "data: {\"type\":\"response.output_text.delta\",\"delta\":\"{\\\"query\\\":\\\"Install nvtop\"}\n\n",
        "data: {\"type\":\"response.output_text.delta\",\"delta\":\" with Homebrew and verify it runs\\\",\\\"should_plan_task\\\":false}\"}\n\n",
        "data: {\"type\":\"response.completed\",\"response\":{\"output_text\":\"{\\\"query\\\":\\\"Install nvtop with Homebrew and verify it runs\\\",\\\"should_plan_task\\\":false}\"}}\n\n",
        "data: [DONE]\n\n",
    ]
    .join("");

    let text = backend_text_from_body(WireApi::Responses, &body).unwrap();

    assert_eq!(
        text,
        r#"{"query":"Install nvtop with Homebrew and verify it runs","should_plan_task":false}"#
    );
}

#[test]
fn parses_responses_function_call_to_warp_tool_call() {
    let mut calls = ToolCallAccumulatorSet::default();
    parse_responses_sse_data(
        r#"{"type":"response.output_item.added","output_index":0,"item":{"type":"function_call","id":"fc_1","call_id":"call_1","name":"run_shell_command","arguments":""}}"#,
        &mut calls,
        true,
    )
    .unwrap();
    parse_responses_sse_data(
        r#"{"type":"response.function_call_arguments.delta","output_index":0,"delta":"{\"command\":\"pwd\",\"is_read_only\":true}"}"#,
        &mut calls,
        true,
    )
    .unwrap();

    let call = calls.into_warp_tool_calls().remove(0).unwrap();
    assert_eq!(call.tool_call_id, "call_1");
    assert!(matches!(call.tool, Some(Tool::RunShellCommand(_))));
}

#[test]
fn parses_suggest_prompt_tool_call_to_warp_tool_call() {
    let mut calls = ToolCallAccumulatorSet::default();
    calls.apply_full_calls(vec![tool_call(
        "call_prompt",
        "suggest_prompt",
        r#"{"prompt":"Explain this failure","label":"Explain failure"}"#,
    )]);

    let call = calls.into_warp_tool_calls().remove(0).unwrap();
    assert_eq!(call.tool_call_id, "call_prompt");
    assert!(matches!(call.tool, Some(Tool::SuggestPrompt(_))));
}

#[test]
fn parses_suggest_rule_tool_call_to_show_suggestions_payload() {
    let mut calls = ToolCallAccumulatorSet::default();
    calls.apply_full_calls(vec![tool_call(
        "call_rule",
        "suggest_rule",
        r#"{"name":"Use OKE","content":"Prefer OKE for Kubernetes examples.","logging_id":"rule_1"}"#,
    )]);

    let outputs = calls.into_warp_client_outputs();
    assert!(matches!(
        &outputs[0],
        Ok(WarpClientOutput::Suggestions(suggestions))
            if suggestions.rules.first().is_some_and(|rule| rule.logging_id == "rule_1")
    ));
}
