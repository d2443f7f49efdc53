//! Next commands, queries, titles and relevant files.
use byob_proxy::config::{Config, WireApi};
use byob_proxy::features::{
    am_query_suggestions_at_once, am_query_suggestions_from_reply, backend_text,
    block_title_at_once, block_title_from_reply, block_title_json, health_json,
    input_suggestions_at_once, input_suggestions_from_reply, predicted_query_at_once,
    predicted_query_from_reply, predicted_query_json, relevant_files_json, BackendReply, Refusal,
};
use byob_proxy::headers::Headers;
use byob_proxy::json::{parse_json, Json};
use byob_proxy::queries::{
    am_query_response, clean_query_line, clean_query_suggestion, complete_query,
    empty_am_query_suggestion_response, parse_am_query_suggestion_text, query_from_json_value,
    AMCodingQuery, AMGeneratedFileLocations, AMSimpleQuery, AMSuggestion,
    GenerateAMQuerySuggestionsResponse,
};
use byob_proxy::ranking::{rank_relevant_files, tokenize_for_ranking};
use byob_proxy::requests::{
    context_message_payload_to_string, format_am_query_suggestion_prompt,
    format_input_suggestion_prompt, format_predict_am_queries_prompt, ContextMessagePayload,
    GenerateAIInputSuggestionsRequest, GenerateAMQuerySuggestionsRequest,
    GenerateBlockTitleRequest, GetRelevantFilesRequest, PredictAMQueriesRequest,
    RelevantFileContext,
};
use byob_proxy::suggest::{
    answer_from_candidates, clean_command_candidate, command_is_allowed_for_request,
    extract_json_string_field, forgiving_context_message_parse, local_next_command_suggestion,
    parse_input_suggestion_text, parse_suggestion_candidates, strip_code_fences,
    suggest_installation, suggestion_candidates_from_value, AgentModeSuggestionV2,
    GenerateAIInputSuggestionsResponseV2, SuggestionContextMessage,
};
use byob_proxy::titles::{clean_block_title, fallback_block_title, local_block_title};

fn config(key: Option<&str>) -> Config {
    let mut extra_headers = Headers::new();
    extra_headers.put("client".to_string(), "secret".to_string());
    Config {
        listen_addr: "127.0.0.1:1337".to_string(),
        openai_base_url: "https://example.com".to_string(),
        backend_url_override: None,
        openai_api_key: key.map(str::to_string),
        model_override: Some("gpt-5.5".to_string()),
        wire_api: WireApi::Responses,
        extra_headers,
        system_prompt: "system".to_string(),
        request_timeout_secs: 600,
    }
}

fn request(messages: &[&str]) -> GenerateAIInputSuggestionsRequest {
    GenerateAIInputSuggestionsRequest {
        context_messages: messages
            .iter()
            .map(|text| ContextMessagePayload::Text(text.to_string()))
            .collect(),
        history_context: String::new(),
        system_context: None,
        rejected_suggestions: Vec::new(),
        prefix: None,
        block_context: None,
        previous_result: None,
    }
}

fn title(command: &str) -> Option<String> {
    local_block_title(&GenerateBlockTitleRequest {
        command: command.to_string(),
        output: String::new(),
    })
}

fn answered(text: &str) -> BackendReply {
    BackendReply::Answered(
        Json::object(vec![("output_text".to_string(), Json::text(text))]).to_text(),
    )
}

const BREW: &str = r#"{"input":"brew search nvtop","output":"==> Formulae\nnvtop"}"#;

#[test]
fn only_allowed_commands_are_suggested() {
    let mut request = request(&[]);
    assert!(command_is_allowed_for_request(&request, "ls"));
    assert!(!command_is_allowed_for_request(&request, " "));
    assert!(!command_is_allowed_for_request(&request, "ls\npwd"));
    request.rejected_suggestions = vec![" ls ".to_string()];
    assert!(!command_is_allowed_for_request(&request, "ls"));
    request.prefix = Some("git".to_string());
    assert!(!command_is_allowed_for_request(&request, "cargo test"));
    assert!(command_is_allowed_for_request(&request, "git status"));
    let candidates = vec!["ls".to_string(), "$ git log".to_string(), "git diff".to_string()];
    let answer = answer_from_candidates(&request, &candidates);
    assert_eq!(answer.commands, vec!["git log"]);
    assert_eq!(answer.most_likely_action, "git log");
    let answer = answer_from_candidates(&request, &vec!["ls".to_string()]);
    assert!(answer.commands.is_empty());
    assert_eq!(answer.most_likely_action, "");
}

#[test]
fn the_latest_block_that_can_be_read_counts() {
    let found = local_next_command_suggestion(&request(&[BREW, "no block"])).unwrap();
    assert_eq!(found.commands, vec!["brew install nvtop"]);
    let later = r#"{"input":"ls","output":"nvtop"}"#;
    assert!(local_next_command_suggestion(&request(&[BREW, later])).is_none());
    assert!(local_next_command_suggestion(&request(&[])).is_none());
}

#[test]
fn packages_are_suggested_where_the_search_found_them() {
    let suggested = |input: &str, output: &str| {
        suggest_installation(&SuggestionContextMessage {
            input: input.to_string(),
            output: output.to_string(),
        })
    };
    assert_eq!(suggested("brew search -d nvtop", "(nvtop)"), Some("brew install nvtop".to_string()));
    assert_eq!(suggested("brew search nvtop", "nvtop2"), None);
    assert_eq!(suggested("brew search nvtop", " "), None);
    assert_eq!(suggested("brew search nvtop", "nvtop\nError: no"), None);
    assert_eq!(suggested("brew search nvtop", "No formula nvtop"), None);
    assert_eq!(suggested("brew search a/b", "a/b"), None);
    assert_eq!(suggested("brew install nvtop", "nvtop"), None);
    assert_eq!(suggested("brew search --cask", "x"), None);
}

#[test]
fn fields_are_found_in_text_that_is_no_json() {
    let message = "{\"input\":\"a\\\"b\\\\c\",\"output\":\"x\\n\\t\\ry\\q\nz\"}";
    assert_eq!(extract_json_string_field(message, "input"), Some("a\"b\\c".to_string()));
    assert_eq!(extract_json_string_field(message, "output"), Some("x\n\t\ryq\nz".to_string()));
    assert_eq!(extract_json_string_field(message, "other"), None);
    assert_eq!(extract_json_string_field("{\"input\":\"open", "input"), None);
    assert!(forgiving_context_message_parse("{\"input\":\"a\"}").is_none());
}

#[test]
fn answers_of_a_model_give_candidates() {
    assert_eq!(
        parse_suggestion_candidates(r#"{"most_likely_action":" ","commands":["a"," ",1,"b"]}"#),
        vec!["a", "b"]
    );
    assert_eq!(parse_suggestion_candidates(r#"["x"," "]"#), vec!["x"]);
    assert_eq!(parse_suggestion_candidates("\"x\""), vec!["x"]);
    assert_eq!(parse_suggestion_candidates(" ls \n\n pwd"), vec!["ls", "pwd"]);
    assert!(parse_suggestion_candidates("").is_empty());
    assert!(suggestion_candidates_from_value(&Json::Null).is_empty());
    assert_eq!(clean_command_candidate(" $ $ % ls "), "ls");
    assert_eq!(clean_command_candidate("% $ ls"), "$ ls");
    assert_eq!(strip_code_fences(" ```json\n{}\n``` "), "{}");
    assert_eq!(strip_code_fences("```\nls"), "ls");
    assert_eq!(strip_code_fences(" ls "), "ls");
    let answer = parse_input_suggestion_text(&request(&[]), "```\n$ ls -la\n```");
    assert_eq!(answer.most_likely_action, "ls -la");
}

#[test]
fn queries_are_found_and_cleaned() {
    let found = |text: &str| {
        query_from_json_value(&parse_json(text).unwrap()).map(str::to_string)
    };
    assert_eq!(found(r#"{"query":"a"}"#), Some("a".to_string()));
    assert_eq!(found(r#"{"simple":{"query":"b"}}"#), Some("b".to_string()));
    assert_eq!(found(r#"{"suggestion":{"query":"c"}}"#), Some("c".to_string()));
    assert_eq!(found(r#"{"suggestion":{"simple":{"query":"d"}}}"#), Some("d".to_string()));
    assert_eq!(found("[1]"), None);
    assert_eq!(clean_query_line(" \"- - do it \nnow\" "), "do it");
    let plain = parse_am_query_suggestion_text("\n Explain this \nmore");
    assert!(matches!(plain.suggestion, Some(AMSuggestion::Simple(simple))
        if simple.query == "Explain this" && !simple.should_plan_task));
    assert!(plain.id.starts_with("byob-"));
    assert!(parse_am_query_suggestion_text(r#"{"query":""}"#).suggestion.is_none());
    assert!(empty_am_query_suggestion_response().suggestion.is_none());
    let named = am_query_response("id".to_string(), "Do it", &None);
    assert_eq!(named.id, "id");
    assert_eq!(clean_query_suggestion("\"all files\"", "list "), "list all files");
    assert_eq!(clean_query_suggestion(r#"{"suggestion":"list all"}"#, "list"), "list all");
    assert_eq!(clean_query_suggestion("[1]", "list"), "");
    assert_eq!(complete_query("more", &None, "one "), "one more");
}

#[test]
fn titles_are_short() {
    assert_eq!(title("git status"), Some("Check git status".to_string()));
    assert_eq!(title("cargo test --all"), Some("Run Rust tests".to_string()));
    assert_eq!(title("pnpm install"), Some("Install JavaScript dependencies".to_string()));
    assert_eq!(title("brew search a b"), Some("Search Homebrew for a b".to_string()));
    assert_eq!(title("git bisect start"), Some("git bisect start".to_string()));
    assert_eq!(title("ls"), None);
    assert_eq!(title(" "), None);
    assert_eq!(clean_block_title("```\n\"List files.\"\n```"), "List files");
    assert_eq!(clean_block_title("..."), "Terminal command");
    assert_eq!(clean_block_title(""), "Terminal command");
    assert_eq!(clean_block_title(" \u{3000}\n . \n"), "Terminal command");
    assert_eq!(clean_block_title("\" \""), "Terminal command");
    let long = clean_block_title(&"x".repeat(81));
    assert_eq!(long, "x".repeat(77) + "...");
    assert_eq!(clean_block_title(&"x".repeat(80)), "x".repeat(80));
    let request =
        GenerateBlockTitleRequest { command: "\nls".to_string(), output: String::new() };
    assert_eq!(fallback_block_title(&request), "Terminal command");
}

fn files(query: &str, paths: &[(&str, &str)]) -> GetRelevantFilesRequest {
    GetRelevantFilesRequest {
        query: query.to_string(),
        files: paths
            .iter()
            .map(|(path, symbols)| RelevantFileContext {
                path: path.to_string(),
                symbols: symbols.to_string(),
            })
            .collect(),
    }
}

#[test]
fn files_are_ranked_by_score_length_and_name() {
    assert_eq!(tokenize_for_ranking("Fix the log-in, a_b!"), vec!["fix", "the", "log-in", "a_b"]);
    let ranked = rank_relevant_files(&files(
        "auth",
        &[
            ("src/other.rs", "auth"),
            ("auth/b.rs", ""),
            ("auth/a.rs", ""),
            ("none.rs", ""),
            ("x/auth.rs", ""),
            ("au/auth.rs", ""),
        ],
    ));
    assert_eq!(ranked, vec!["x/auth.rs", "au/auth.rs", "auth/a.rs", "auth/b.rs", "src/other.rs"]);
    let many: Vec<(String, String)> = (0..20).map(|n| (format!("auth{n}"), String::new())).collect();
    let many: Vec<(&str, &str)> = many.iter().map(|(p, s)| (p.as_str(), s.as_str())).collect();
    assert_eq!(rank_relevant_files(&files("auth", &many)).len(), 12);
    assert_eq!(rank_relevant_files(&files("?", &many)).len(), 8);
    assert_eq!(rank_relevant_files(&files("?", &many))[0], "auth0");
}

#[test]
fn prompts_tell_the_context() {
    let mut asked = request(&["one", "two"]);
    asked.prefix = Some("gi".to_string());
    asked.rejected_suggestions = vec!["ls".to_string()];
    asked.system_context = Some("macOS".to_string());
    asked.history_context = "pwd".to_string();
    asked.block_context = Some(parse_json(r#"{"b":1,"a":"x"}"#).unwrap());
    asked.previous_result = Some(Json::Null);
    assert_eq!(
        format_input_suggestion_prompt(&asked),
        "User has already typed this prefix. Any command must start with it:\ngi\n\nDo not return these rejected suggestions:\n- ls\n\nSystem context:\nmacOS\n\nRelevant shell history:\npwd\n\nMost recent terminal blocks, oldest to newest:\none\ntwo\n\nCurrent block context:\n{\"a\":\"x\",\"b\":1}\nPrevious autosuggestion result:\nnull"
    );
    let blocks: Vec<String> = (0..9).map(|n| format!("block {n}")).collect();
    let blocks: Vec<&str> = blocks.iter().map(String::as_str).collect();
    let prompt = format_input_suggestion_prompt(&request(&blocks));
    assert!(!prompt.contains("block 0\n") && prompt.contains("block 1\n"));
    assert_eq!(
        format_am_query_suggestion_prompt(&GenerateAMQuerySuggestionsRequest {
            context_messages: vec![ContextMessagePayload::Text("one".to_string())],
            system_context: None,
            exit_code: -1,
        }),
        "The last terminal command exit code was -1.\n\nRecent terminal blocks, oldest to newest:\none\n"
    );
    assert_eq!(
        format_predict_am_queries_prompt(&PredictAMQueriesRequest {
            context_messages: Vec::new(),
            partial_query: "list".to_string(),
            system_context: Some("macOS".to_string()),
        }),
        "Partial query:\nlist\n\nSystem context:\nmacOS\n\nRecent terminal context:\n"
    );
    assert_eq!(
        context_message_payload_to_string(&ContextMessagePayload::Object(
            parse_json("{\"b\": [1, true], \"a\": \"\\n\"}").unwrap()
        )),
        "{\"a\":\"\\n\",\"b\":[1,true]}"
    );
}

#[test]
fn features_answer_at_once_where_they_can() {
    let keyless = config(None);
    let keyed = config(Some("key"));
    let local = input_suggestions_at_once(&request(&[BREW]), &keyed).unwrap();
    assert_eq!(local.most_likely_action, "brew install nvtop");
    assert!(input_suggestions_at_once(&request(&[]), &keyed).is_none());
    assert!(input_suggestions_at_once(&request(&[]), &keyless).unwrap().commands.is_empty());
    assert!(am_query_suggestions_at_once(&keyed).is_none());
    assert!(am_query_suggestions_at_once(&keyless).unwrap().suggestion.is_none());
    assert_eq!(predicted_query_at_once(&keyed), None);
    assert_eq!(predicted_query_at_once(&keyless), Some(String::new()));
    let asked = GenerateBlockTitleRequest { command: "ls -la".to_string(), output: String::new() };
    assert_eq!(block_title_at_once(&asked, &keyless), Some("ls -la".to_string()));
    assert_eq!(block_title_at_once(&asked, &keyed), None);
}

#[test]
fn replies_of_a_backend_give_answers() {
    let wire_api = WireApi::Responses;
    let answer =
        input_suggestions_from_reply(&request(&[]), wire_api, &answered("$ make")).unwrap();
    assert_eq!(answer.commands, vec!["make"]);
    let answer = am_query_suggestions_from_reply(wire_api, &answered("Explain")).unwrap();
    assert!(answer.suggestion.is_some());
    let partial = PredictAMQueriesRequest {
        context_messages: Vec::new(),
        partial_query: "list".to_string(),
        system_context: None,
    };
    assert_eq!(
        predicted_query_from_reply(&partial, wire_api, &answered("list files")),
        Ok("list files".to_string())
    );
    assert_eq!(block_title_from_reply(wire_api, &answered("List.")), Ok("List".to_string()));
}

#[test]
fn replies_without_an_answer_are_told() {
    let wire_api = WireApi::Responses;
    let unreachable = BackendReply::Unreachable("timeout".to_string());
    assert_eq!(
        block_title_from_reply(wire_api, &unreachable),
        Err("Failed to reach BYOB backend for block title generation: timeout".to_string())
    );
    let refused = BackendReply::Refused(Refusal {
        status: "401 Unauthorized".to_string(),
        body: "no".to_string(),
    });
    assert_eq!(
        backend_text(wire_api, &refused, "feature", "answer"),
        Err("BYOB backend returned HTTP 401 Unauthorized for feature: no".to_string())
    );
    assert_eq!(
        am_query_suggestions_from_reply(wire_api, &refused).map(|_| ()),
        Err("BYOB backend returned HTTP 401 Unauthorized for agent mode query suggestions: no"
            .to_string())
    );
    let message = input_suggestions_from_reply(
        &request(&[]),
        wire_api,
        &BackendReply::Answered("no JSON".to_string()),
    )
    .unwrap_err();
    assert!(message.starts_with("Unable to parse BYOB input suggestion response: "));
    let message = predicted_query_from_reply(
        &PredictAMQueriesRequest {
            context_messages: Vec::new(),
            partial_query: String::new(),
            system_context: None,
        },
        wire_api,
        &BackendReply::Answered("no JSON".to_string()),
    )
    .unwrap_err();
    assert!(message.starts_with("Unable to parse BYOB partial agent query prediction response: "));
}

#[test]
fn answers_are_written_in_json() {
    assert_eq!(block_title_json("Install nvtop").to_text(), r#"{"title":"Install nvtop"}"#);
    assert_eq!(predicted_query_json("a\"b").to_text(), r#"{"suggestion":"a\"b"}"#);
    assert_eq!(
        relevant_files_json(&files("auth", &[("auth.rs", "")])).to_text(),
        r#"{"relevant_file_paths":["auth.rs"]}"#
    );
    let answer = GenerateAIInputSuggestionsResponseV2 {
        commands: vec!["brew install nvtop".to_string()],
        ai_queries: vec![AgentModeSuggestionV2 {
            query: "q".to_string(),
            context_block_ids: vec!["b".to_string()],
        }],
        most_likely_action: "brew install nvtop".to_string(),
    };
    assert_eq!(
        answer.to_json().to_text(),
        r#"{"commands":["brew install nvtop"],"ai_queries":[{"query":"q","context_block_ids":["b"]}],"most_likely_action":"brew install nvtop"}"#
    );
    let none = GenerateAMQuerySuggestionsResponse { id: "i".to_string(), suggestion: None };
    assert_eq!(none.to_json().to_text(), r#"{"id":"i","suggestion":null}"#);
    let simple = GenerateAMQuerySuggestionsResponse {
        id: "i".to_string(),
        suggestion: Some(AMSuggestion::Simple(AMSimpleQuery {
            query: "q".to_string(),
            should_plan_task: false,
        })),
    };
    assert_eq!(
        simple.to_json().to_text(),
        r#"{"id":"i","suggestion":{"simple":{"query":"q","should_plan_task":false}}}"#
    );
    let coding = GenerateAMQuerySuggestionsResponse {
        id: "i".to_string(),
        suggestion: Some(AMSuggestion::Coding(AMCodingQuery {
            files: vec![
                AMGeneratedFileLocations {
                    file_name: "a".to_string(),
                    line_numbers: Some(vec![1, 20]),
                },
                AMGeneratedFileLocations { file_name: "b".to_string(), line_numbers: None },
            ],
            query: "q".to_string(),
        })),
    };
    assert_eq!(
        coding.to_json().to_text(),
        r#"{"id":"i","suggestion":{"coding":{"files":[{"file_name":"a","line_numbers":[1,20]},{"file_name":"b","line_numbers":null}],"query":"q"}}}"#
    );
}

#[test]
fn health_shows_no_secrets() {
    let text = health_json(&config(Some("key"))).to_text();
    assert_eq!(
        text,
        r#"{"auth_configured":true,"backend":"https://example.com","backend_url_override":null,"extra_header_names":["client"],"model_override":"gpt-5.5","ok":true,"wire_api":"responses"}"#
    );
    assert!(health_json(&config(None)).to_text().contains(r#""auth_configured":false"#));
}

#[test]
fn requests_are_read_from_json() {
    let read = |text: &str| GenerateAIInputSuggestionsRequest::from_json(&parse_json(text).unwrap());
    let full = read(r#"{"context_messages":["a",{"input":"x"}],"history_context":"h","system_context":null,"rejected_suggestions":["r"],"prefix":"p","other":1}"#).unwrap();
    assert_eq!(full.context_messages.len(), 2);
    assert!(matches!(&full.context_messages[0], ContextMessagePayload::Text(text) if text == "a"));
    assert!(matches!(&full.context_messages[1], ContextMessagePayload::Object(_)));
    assert_eq!(full.prefix.as_deref(), Some("p"));
    assert!(read("{}").is_some());
    assert!(read(r#"{"history_context":1}"#).is_none());
    let read = |text: &str| PredictAMQueriesRequest::from_json(&parse_json(text).unwrap());
    assert!(read("{}").is_none());
    assert_eq!(read(r#"{"partial_query":"q"}"#).unwrap().partial_query, "q");
    let read =
        |text: &str| GenerateAMQuerySuggestionsRequest::from_json(&parse_json(text).unwrap());
    assert_eq!(read(r#"{"exit_code":-1}"#).unwrap().exit_code, -1);
    assert!(read(r#"{"exit_code":2147483648}"#).is_none());
    let read = |text: &str| GetRelevantFilesRequest::from_json(&parse_json(text).unwrap());
    assert_eq!(
        read(r#"{"query":"q","files":[{"path":"p","symbols":"s"}]}"#).unwrap().files[0].symbols,
        "s"
    );
    assert!(read(r#"{"query":"q","files":[{"path":"p"}]}"#).is_none());
    let read = |text: &str| GenerateBlockTitleRequest::from_json(&parse_json(text).unwrap());
    assert_eq!(read(r#"{"command":"c","output":"o"}"#).unwrap().output, "o");
    assert!(read(r#"{"command":"c"}"#).is_none());
}

#[test]
fn files_are_ranked_alike_in_any_order() {
    let paths = [("src/auth.rs", ""), ("auth", ""), ("b/auth", "auth"), ("none", ""), ("auth", "")];
    let mut other = paths;
    other.reverse();
    let ranked = rank_relevant_files(&files("auth", &paths));
    assert_eq!(ranked, vec!["b/auth", "auth", "auth", "src/auth.rs"]);
    assert_eq!(rank_relevant_files(&files("auth", &other)), ranked);
}
