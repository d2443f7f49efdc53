//! The stream of a response, step by step.
use byob_proxy::backend::{
    error_message_from_value, format_reasoning_delta, parse_backend_full_response,
    parse_backend_sse_data, parse_chat_full_response, parse_chat_sse_data,
    parse_responses_full_response, parse_responses_sse_data, response_output_index,
    responses_output_text,
};
use byob_proxy::body::{backend_text_from_body, looks_like_sse};
use byob_proxy::bytes::{bytes_of_text, text_of_bytes};
use byob_proxy::calls::ToolCallAccumulatorSet;
use byob_proxy::config::{Config, WireApi};
use byob_proxy::events::WarpIds;
use byob_proxy::headers::Headers;
use byob_proxy::json::{parse_json, Json};
use byob_proxy::paths::Platform;
use byob_proxy::session::{
    broken_stream_message, event_of_step, missing_auth_message, refused_message, start_steps,
    unreachable_message, OutputText, Session, StreamStep,
};
use byob_proxy::sse::{find_sse_boundary, SseDecoder};
use byob_proxy::warp::{
    ClientAction, FinishReason, MessageContent, Metadata, Request, ResponseEvent, Task, Tool,
};

use byob_proxy::wire::{OpenAIFunctionDelta, OpenAIToolCallDelta};

fn empty_request() -> Request {
    Request { settings: None, metadata: None, task_context: None, input: None }
}

fn config(key: Option<&str>) -> Config {
    Config {
        listen_addr: "127.0.0.1:1337".to_string(),
        openai_base_url: "http://127.0.0.1:8000/v1".to_string(),
        backend_url_override: None,
        openai_api_key: key.map(str::to_string),
        model_override: None,
        wire_api: WireApi::Responses,
        extra_headers: Headers::new(),
        system_prompt: "system".to_string(),
        request_timeout_secs: 5,
    }
}

fn ids() -> WarpIds {
    WarpIds {
        conversation_id: "conv".to_string(),
        request_id: "req".to_string(),
        run_id: "run".to_string(),
        task_id: "task".to_string(),
    }
}

fn session(wire_api: WireApi) -> Session {
    Session::with_message_id(wire_api, "msg_1".to_string())
}

/// One line for each step.
fn shown(steps: &[StreamStep]) -> Vec<String> {
    steps
        .iter()
        .map(|step| match step {
            StreamStep::Init => "init".to_string(),
            StreamStep::CreateRootTask => "task".to_string(),
            StreamStep::AddOutput(output) => format!("add {} {}", output.message_id, output.text),
            StreamStep::AppendOutput(output) => {
                format!("append {} {}", output.message_id, output.text)
            }
            StreamStep::AddToolCalls(calls) => format!(
                "calls {}",
                calls.iter().map(|call| call.tool_call_id.as_str()).collect::<Vec<_>>().join(",")
            ),
            StreamStep::ShowSuggestions(suggestions) => format!(
                "rules {}",
                suggestions.rules.iter().map(|rule| rule.name.as_str()).collect::<Vec<_>>().join(",")
            ),
            StreamStep::Finish(FinishReason::Done) => "done".to_string(),
            StreamStep::Finish(FinishReason::InternalError(message)) => format!("error {message}"),
        })
        .collect()
}

fn delta(text: &str) -> String {
    format!("data: {{\"type\":\"response.output_text.delta\",\"delta\":\"{text}\"}}\n\n")
}

#[test]
fn a_stream_starts_and_creates_its_task() {
    assert_eq!(shown(&start_steps(&empty_request())), vec!["init", "task"]);
    let mut request = empty_request();
    request.task_context = Some(vec![]);
    assert_eq!(shown(&start_steps(&request)), vec!["init", "task"]);
    request.task_context = Some(vec![Task { id: "t".to_string(), messages: vec![] }]);
    assert_eq!(shown(&start_steps(&request)), vec!["init"]);
}

#[test]
fn the_first_text_adds_a_message_and_the_next_is_appended() {
    let mut session = session(WireApi::Responses);
    let steps = session.on_chunk(&(delta("Hello") + &delta("") + &delta(" there")));
    assert_eq!(shown(&steps), vec!["add msg_1 Hello", "append msg_1  there"]);
    let steps = session.finish();
    assert_eq!(shown(&steps), vec!["done"]);
}

#[test]
fn pieces_of_the_stream_do_not_matter() {
    let whole = delta("Hello") + &delta(" there") + "data: [DONE]\n\n";
    let mut at_once = session(WireApi::Responses);
    let expected = shown(&at_once.on_chunk(&whole));
    for at in 0..whole.len() {
        let mut in_pieces = session(WireApi::Responses);
        let mut steps = shown(&in_pieces.on_chunk(&whole[..at]));
        steps.extend(shown(&in_pieces.on_chunk(&whole[at..])));
        assert_eq!(steps, expected);
    }
}

#[test]
fn streamed_text_is_not_repeated_by_the_completed_response() {
    let completed = "data: {\"type\":\"response.completed\",\"response\":{\"output_text\":\"Hello\"}}\n\n";
    let mut streamed = session(WireApi::Responses);
    let steps = streamed.on_chunk(&(delta("Hello") + completed));
    assert_eq!(shown(&steps), vec!["add msg_1 Hello"]);
    let mut unstreamed = session(WireApi::Responses);
    let steps = unstreamed.on_chunk(completed);
    assert_eq!(shown(&steps), vec!["add msg_1 Hello"]);
}

#[test]
fn an_event_that_cannot_be_read_is_told() {
    let mut session = session(WireApi::ChatCompletions);
    let steps = session.on_data("x", Err("no JSON".to_string()));
    assert_eq!(
        shown(&steps),
        vec!["add msg_1 Unable to parse backend SSE chunk as chat_completions delta: no JSON"]
    );
    assert!(session.on_data(" [DONE] ", Err("no JSON".to_string())).is_empty());
}

#[test]
fn bytes_that_are_no_text_are_replaced() {
    let mut session = session(WireApi::Responses);
    let mut bytes = bytes_of_text("data: {\"type\":\"response.output_text.delta\",\"delta\":\"a");
    bytes.push(0xff);
    bytes.extend(bytes_of_text("b\"}\n\n"));
    let steps = session.on_bytes(&bytes);
    assert_eq!(shown(&steps), vec!["add msg_1 a\u{fffd}b"]);
}

#[test]
fn text_survives_its_bytes() {
    let text = "a\u{e4}\u{20ac}\u{1f600}\n";
    assert_eq!(text_of_bytes(&bytes_of_text(text)), text);
    assert_eq!(bytes_of_text("\u{e4}"), vec![0xc3, 0xa4]);
}

#[test]
fn an_answer_without_events_is_read_as_one_response() {
    let mut chat = session(WireApi::ChatCompletions);
    let body = r#"{"choices":[{"message":{"content":"Hi"}}]}"#;
    assert!(chat.on_chunk(body).is_empty());
    assert_eq!(chat.unread_body(), Some(body.to_string()));
    assert_eq!(shown(&chat.finish()), vec!["add msg_1 Hi", "done"]);

    let mut broken = session(WireApi::Responses);
    assert!(broken.on_chunk("no JSON").is_empty());
    let steps = broken.on_end(Err("wrong".to_string()));
    assert_eq!(
        shown(&steps),
        vec!["add msg_1 Backend did not return responses SSE or JSON response: wrong. Raw body: no JSON"]
    );

    let mut blank = session(WireApi::Responses);
    assert!(blank.on_chunk(" \n").is_empty());
    assert_eq!(blank.unread_body(), None);
    assert_eq!(shown(&blank.finish()), vec!["done"]);

    let mut streamed = session(WireApi::Responses);
    assert_eq!(streamed.on_chunk(&(delta("a") + "rest")).len(), 1);
    assert_eq!(streamed.unread_body(), None);
}

#[test]
fn a_session_ends_with_errors_calls_and_suggestions() {
    let mut session = session(WireApi::ChatCompletions);
    let body = r#"{"choices":[{"message":{"content":null,"tool_calls":[
        {"id":"call_1","type":"function","function":{"name":"run_shell_command","arguments":"{\"command\":\"pwd\"}"}},
        {"id":"call_2","type":"function","function":{"name":"fly","arguments":"{}"}},
        {"id":"call_3","type":"function","function":{"name":"suggest_rule","arguments":"{\"name\":\"R\",\"content\":\"C\"}"}}
    ]}}]}"#;
    assert!(session.on_chunk(body).is_empty());
    let steps = shown(&session.finish());
    assert_eq!(
        steps,
        vec![
            "add msg_1 Unsupported or malformed backend tool call: unknown tool `fly`",
            "calls call_1",
            "rules R",
            "done",
        ]
    );
}

#[test]
fn failures_are_told_and_end_the_stream() {
    let steps = session(WireApi::Responses).fail("wrong".to_string());
    assert_eq!(shown(&steps), vec!["add msg_1 wrong", "error wrong"]);
    let steps = session(WireApi::Responses).fail_unreachable("/ai/multi-agent", "refused");
    assert_eq!(
        shown(&steps)[1],
        "error Failed to reach BYOB backend for /ai/multi-agent: refused"
    );
    let steps = session(WireApi::Responses).fail_refused("502 Bad Gateway", "no");
    assert_eq!(shown(&steps)[1], "error BYOB backend returned HTTP 502 Bad Gateway: no");
    let steps = session(WireApi::Responses).fail_broken("cut");
    assert_eq!(shown(&steps)[1], "error BYOB backend stream failed: cut");
    assert_eq!(unreachable_message("/", "e"), "Failed to reach BYOB backend for /: e");
    assert_eq!(broken_stream_message("e"), "BYOB backend stream failed: e");
    let long = "x".repeat(1201);
    let kept = "x".repeat(1200);
    assert_eq!(
        refused_message("500", &long),
        format!("BYOB backend returned HTTP 500: {kept}\n...[truncated]")
    );
}

#[test]
fn without_a_key_the_stream_ends_at_once() {
    let (steps, open) = Session::open(&empty_request(), &config(None), Platform::Other);
    assert!(open.is_none());
    let message = "WarpOCA could not find Codex CLI authentication. Run `codex login`, confirm `~/.codex/auth.json` exists, then relaunch WarpOCA.";
    assert_eq!(missing_auth_message(Platform::Other), message);
    assert!(missing_auth_message(Platform::Windows).contains("`%USERPROFILE%\\.codex\\auth.json`"));
    assert_eq!(steps.len(), 4);
    assert!(matches!(&steps[2], StreamStep::AddOutput(output)
        if output.text == message && output.message_id.starts_with("msg_")));
    assert!(matches!(&steps[3], StreamStep::Finish(FinishReason::InternalError(text))
        if text == message));
    let (steps, open) = Session::open(&empty_request(), &config(Some("key")), Platform::Other);
    assert!(open.is_some());
    assert_eq!(shown(&steps), vec!["init", "task"]);
}

#[test]
fn steps_become_events() {
    let ids = ids();
    assert!(matches!(
        event_of_step(&ids, StreamStep::Init),
        ResponseEvent::Init(init) if init.conversation_id == "conv" && init.request_id == "req"
            && init.run_id == "run"
    ));
    match event_of_step(&ids, StreamStep::CreateRootTask) {
        ResponseEvent::ClientActions(actions) => {
            assert!(matches!(&actions[..], [ClientAction::CreateTask(task)]
                if task.id == "task" && task.description == "WarpOCA agent"));
        }
        other => panic!("{other:?}"),
    }
    let output = OutputText { message_id: "msg_1".to_string(), text: "Hi".to_string() };
    match event_of_step(&ids, StreamStep::AddOutput(output)) {
        ResponseEvent::ClientActions(actions) => match &actions[..] {
            [ClientAction::AddMessagesToTask(added)] => {
                assert_eq!(added.task_id, "task");
                assert_eq!(added.messages[0].id, "msg_1");
                assert!(matches!(&added.messages[0].message,
                    Some(MessageContent::AgentOutput(text)) if text == "Hi"));
            }
            other => panic!("{other:?}"),
        },
        other => panic!("{other:?}"),
    }
    let output = OutputText { message_id: "msg_1".to_string(), text: "Hi".to_string() };
    match event_of_step(&ids, StreamStep::AppendOutput(output)) {
        ResponseEvent::ClientActions(actions) => {
            assert!(matches!(&actions[..], [ClientAction::AppendToMessageContent(appended)]
                if appended.mask == vec!["agent_output.text"] && appended.task_id == "task"));
        }
        other => panic!("{other:?}"),
    }
    let mut calls = ToolCallAccumulatorSet::default();
    parse_chat_full_response(
        r#"{"choices":[{"message":{"tool_calls":[{"id":"c","type":"function","function":{"name":"grep","arguments":"{\"query\":\"x\"}"}}]}}]}"#,
        &mut calls,
    )
    .unwrap();
    let calls: Vec<_> = calls.into_warp_tool_calls().into_iter().map(Result::unwrap).collect();
    match event_of_step(&ids, StreamStep::AddToolCalls(calls)) {
        ResponseEvent::ClientActions(actions) => match &actions[..] {
            [ClientAction::AddMessagesToTask(added)] => {
                assert!(added.messages[0].id.starts_with("msg_"));
                assert_eq!(added.messages[0].id.len(), 40);
                assert!(matches!(&added.messages[0].message,
                    Some(MessageContent::ToolCall(call))
                        if matches!(&call.tool, Some(Tool::Grep(grep)) if grep.queries == vec!["x"])));
            }
            other => panic!("{other:?}"),
        },
        other => panic!("{other:?}"),
    }
    assert!(matches!(
        event_of_step(&ids, StreamStep::Finish(FinishReason::Done)),
        ResponseEvent::Finished(FinishReason::Done)
    ));
}

#[test]
fn identifiers_come_from_the_request_or_are_fresh() {
    let fresh = WarpIds::from_request(&empty_request());
    assert!(fresh.conversation_id.starts_with("conv_"));
    assert_eq!(fresh.run_id, fresh.conversation_id);
    assert!(fresh.request_id.starts_with("req_"));
    assert!(fresh.task_id.starts_with("task_"));
    let other = WarpIds::from_request(&empty_request());
    assert_ne!(fresh.conversation_id, other.conversation_id);

    let request = Request {
        settings: None,
        metadata: Some(Metadata {
            conversation_id: "c".to_string(),
            ambient_agent_task_id: "a".to_string(),
        }),
        task_context: Some(vec![Task { id: "t".to_string(), messages: vec![] }]),
        input: None,
    };
    let given = WarpIds::from_request(&request);
    assert_eq!(given.conversation_id, "c");
    assert_eq!(given.run_id, "a");
    assert_eq!(given.task_id, "t");
}

#[test]
fn events_end_at_an_empty_line() {
    assert_eq!(find_sse_boundary("a\n\nb"), Some((1, 2)));
    assert_eq!(find_sse_boundary("a\r\n\r\nb"), Some((1, 4)));
    assert_eq!(find_sse_boundary("a\nb"), None);
    let mut decoder = SseDecoder::default();
    assert_eq!(decoder.push("event: x\ndata: 1\ndata:  2\n\ndata: 3"), vec!["1\n2"]);
    assert_eq!(decoder.remaining(), "data: 3");
    assert_eq!(decoder.push("\n\n: comment\n\n"), vec!["3"]);
    assert_eq!(decoder.into_remaining(), "");
}

#[test]
fn bodies_are_read_as_streams_or_as_responses() {
    assert!(looks_like_sse("  data: x"));
    assert!(looks_like_sse("event: x"));
    assert!(!looks_like_sse("{\"data\":1}"));
    let body = delta("a") + &delta("b") + "data: [DONE]\n\n";
    assert_eq!(backend_text_from_body(WireApi::Responses, &body), Ok("ab".to_string()));
    assert_eq!(
        backend_text_from_body(
            WireApi::ChatCompletions,
            r#"{"choices":[{"message":{"content":"one"}}]}"#
        ),
        Ok("one".to_string())
    );
    assert!(backend_text_from_body(WireApi::Responses, "no JSON").is_err());
    let failed = "data: {\"type\":\"response.failed\",\"response\":{\"error\":{\"message\":\"quota\"}}}\n\n";
    assert_eq!(backend_text_from_body(WireApi::Responses, failed), Err("quota".to_string()));
}

#[test]
fn chunks_of_a_chat_are_read() {
    let mut calls = ToolCallAccumulatorSet::default();
    let texts = parse_chat_sse_data(
        r#"{"choices":[{"delta":{"content":"Hi","reasoning_content":"why"}}]}"#,
        &mut calls,
    );
    assert_eq!(texts, Ok(vec!["Hi".to_string(), format_reasoning_delta("why")]));
    assert_eq!(parse_chat_sse_data("{}", &mut calls), Ok(vec![]));
    assert!(parse_chat_sse_data("{", &mut calls).is_err());
    assert!(parse_chat_full_response("[1]", &mut calls).is_err());
    assert_eq!(
        parse_backend_sse_data(
            WireApi::ChatCompletions,
            r#"{"choices":[{"delta":{"content":"x"}}]}"#,
            &mut calls,
            true
        ),
        Ok(vec!["x".to_string()])
    );
    assert_eq!(
        parse_backend_full_response(WireApi::Responses, r#"{"output_text":"x"}"#, &mut calls, true),
        Ok(vec!["x".to_string()])
    );
}

#[test]
fn events_of_responses_are_read() {
    let mut calls = ToolCallAccumulatorSet::default();
    assert_eq!(
        parse_responses_sse_data(r#"{"type":"response.failed"}"#, &mut calls, true),
        Err("Responses backend reported failure".to_string())
    );
    assert_eq!(
        parse_responses_sse_data(r#"{"type":"error"}"#, &mut calls, true),
        Err("Responses backend returned an error event".to_string())
    );
    assert_eq!(
        parse_responses_sse_data(r#"{"type":"error","message":"busy"}"#, &mut calls, true),
        Err("busy".to_string())
    );
    assert_eq!(
        parse_responses_sse_data(r#"{"type":"response.created"}"#, &mut calls, true),
        Ok(vec![])
    );
    let completed = r#"{"type":"response.completed","response":{"output_text":"all"}}"#;
    assert_eq!(parse_responses_sse_data(completed, &mut calls, false), Ok(vec![]));
    assert_eq!(
        parse_responses_sse_data(completed, &mut calls, true),
        Ok(vec!["all".to_string()])
    );
    assert_eq!(
        parse_responses_full_response(r#"{"output_text":"all"}"#, &mut calls, false),
        Ok(vec![])
    );
    let response = parse_json(
        r#"{"output":[{"type":"message","content":[{"type":"output_text","text":"a"},{"type":"text","text":"b"}]}]}"#,
    )
    .unwrap();
    assert_eq!(responses_output_text(&response).concat(), "ab");
    assert_eq!(response_output_index(&parse_json(r#"{"output_index":3}"#).unwrap()), Some(3));
    assert_eq!(response_output_index(&Json::Null), None);
    assert_eq!(
        error_message_from_value(&parse_json(r#"{"message":"m"}"#).unwrap()),
        Some("m".to_string())
    );
    assert_eq!(error_message_from_value(&Json::Null), None);
}

#[test]
fn deltas_of_calls_add_up_in_any_chunks() {
    let parts = ["{\"command\"", ":\"pw", "d\"}"];
    let mut at_once = ToolCallAccumulatorSet::default();
    for part in parts {
        let escaped = part.replace('"', "\\\"");
        parse_chat_sse_data(
            &format!(
                "{{\"choices\":[{{\"delta\":{{\"tool_calls\":[{{\"index\":0,\"id\":\"c\",\"function\":{{\"name\":\"run_shell_command\",\"arguments\":\"{escaped}\"}}}}]}}}}]}}"
            ),
            &mut at_once,
        )
        .unwrap();
    }
    let calls = at_once.into_calls();
    assert_eq!(calls.len(), 1);
    assert_eq!(calls[0].0, 0);
    assert_eq!(calls[0].1.arguments, "{\"command\":\"pwd\"}");
    assert_eq!(calls[0].1.id.as_deref(), Some("c"));
}

fn piece(index: usize, id: Option<&str>, name: Option<&str>, text: &str) -> OpenAIToolCallDelta {
    OpenAIToolCallDelta {
        index,
        id: id.map(str::to_owned),
        kind: None,
        function: Some(OpenAIFunctionDelta {
            name: name.map(str::to_owned),
            arguments: Some(text.to_owned()),
        }),
    }
}

#[test]
fn pieces_of_calls_are_put_together_by_index() {
    let pieces = || {
        vec![
            piece(7, Some("a"), Some("grep"), "{"),
            piece(2, Some("b"), None, "["),
            piece(7, Some("c"), None, "}"),
            piece(2, None, Some("read_files"), "]"),
        ]
    };
    let shown = |set: ToolCallAccumulatorSet| {
        set.into_calls()
            .into_iter()
            .map(|(index, call)| (index, call.id, call.kind, call.name, call.arguments))
            .collect::<Vec<_>>()
    };
    let text = |text: &str| Some(text.to_string());
    let mut whole = ToolCallAccumulatorSet::default();
    whole.apply_deltas(pieces());
    let whole = shown(whole);
    assert_eq!(
        whole,
        vec![
            (2, text("b"), None, text("read_files"), "[]".to_string()),
            (7, text("c"), None, text("grep"), "{}".to_string()),
        ]
    );
    let mut parts = ToolCallAccumulatorSet::default();
    let mut second = pieces();
    let first = second.drain(..3).collect();
    parts.apply_deltas(first);
    parts.apply_deltas(second);
    assert_eq!(shown(parts), whole);
}

#[test]
fn steps_carry_the_time_of_a_clock() {
    let request = empty_request();
    let ids = WarpIds::from_request(&request);
    let step = StreamStep::AddOutput(OutputText {
        message_id: "m".to_string(),
        text: "hello".to_string(),
    });
    let ResponseEvent::ClientActions(actions) = event_of_step(&ids, step) else {
        panic!("no actions");
    };
    let ClientAction::AddMessagesToTask(added) = &actions[0] else {
        panic!("no messages");
    };
    let time = added.messages[0].timestamp.as_ref().unwrap();
    assert!(time.seconds > 0 && (0..1_000_000_000).contains(&time.nanos));
}
