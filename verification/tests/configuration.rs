//! The configuration of the proxy, where its files are, and what is sent to a backend.
use byob_proxy::addresses::is_socket_address;
use byob_proxy::config::{
    codex_provider_name, default_extra_headers, listen_address, load_byob_config_file,
    load_codex_backend_config, nonempty_string, parse_codex_auth_api_key, parse_codex_config,
    parse_extra_headers_json, parse_toml_headers, ByobConfigFile, Config, EnvValues, WireApi,
    DEFAULT_AGENT_SYSTEM_PROMPT, DEFAULT_MODEL, DEFAULT_OCA_BASE_URL,
};
use byob_proxy::headers::{is_before, Headers};
use byob_proxy::history::build_chat_request;
use byob_proxy::json::parse_json;
use byob_proxy::paths::{
    app_support_roots, byob_config_candidates, byob_config_path, codex_auth_hint, codex_auth_path,
    codex_config_path, user_home_dir, PathEnv, PathPlan, Platform,
};
use byob_proxy::requests::{
    build_am_query_suggestion_backend_request, build_backend_request,
    build_block_title_backend_request, build_input_suggestions_backend_request,
    build_predict_am_queries_backend_request, BackendRequest, GenerateAIInputSuggestionsRequest,
    GenerateAMQuerySuggestionsRequest, GenerateBlockTitleRequest, PredictAMQueriesRequest,
};
use byob_proxy::send::{
    backend_request_json, is_oracle_code_assist_backend, join_endpoint, plan_backend_call,
    prepare_backend_call,
};
use byob_proxy::toml::{parse_toml, Toml};
use byob_proxy::warp::{Input, InputType, Request, Settings, ToolType};

fn env() -> EnvValues {
    EnvValues {
        listen: None,
        openai_base_url: None,
        backend_url: None,
        openai_api_key: None,
        model: None,
        wire_api: None,
        extra_headers_json: None,
        system_prompt: None,
        request_timeout_secs: None,
    }
}

fn some(text: &str) -> Option<String> {
    Some(text.to_string())
}

fn shown(headers: &Headers) -> Vec<String> {
    headers.entries().iter().map(|(name, value)| format!("{name}={value}")).collect()
}

fn path(plan: &PathPlan) -> String {
    let mut all = vec![plan.base.clone()];
    all.extend(plan.parts.iter().cloned());
    all.join("|")
}

fn path_env() -> PathEnv {
    PathEnv {
        byob_config_path: None,
        byob_codex_config_path: None,
        byob_codex_auth_path: None,
        codex_home: None,
        userprofile: None,
        home: None,
        appdata: None,
        xdg_data_home: None,
    }
}

fn request(query: &str) -> Request {
    Request {
        settings: Some(Settings { model_config: None, supported_tools: vec![ToolType::Grep] }),
        metadata: None,
        task_context: None,
        input: Some(Input {
            context: None,
            input_type: Some(InputType::UserQuery(query.to_string())),
        }),
    }
}

#[test]
fn defaults_stand_where_nothing_is_configured() {
    let config = Config::from_env(
        &env(),
        &load_byob_config_file(None),
        load_codex_backend_config(None, None),
    )
    .unwrap();
    assert_eq!(config.listen_addr, "127.0.0.1:1337");
    assert_eq!(config.openai_base_url, DEFAULT_OCA_BASE_URL);
    assert_eq!(config.backend_url_override, None);
    assert_eq!(config.openai_api_key, None);
    assert_eq!(config.model_override.as_deref(), Some("gpt-5.5"));
    assert_eq!(DEFAULT_MODEL, "gpt-5.5");
    assert_eq!(config.wire_api, WireApi::Responses);
    assert_eq!(shown(&config.extra_headers), vec!["client=codex-cli", "client-version=0"]);
    assert_eq!(config.system_prompt, DEFAULT_AGENT_SYSTEM_PROMPT);
    assert_eq!(config.request_timeout_secs, 600);
}

#[test]
fn the_environment_comes_before_the_file_and_the_file_before_codex() {
    let file = load_byob_config_file(Some(
        r#"{"base_url":"https://file/","api_key":"file-key","model":" ","wire_api":"chat","http_headers":{"client":"file","x":"file"}}"#,
    ));
    let codex = || {
        load_codex_backend_config(
            Some("model_provider = \"p\"\nmodel = \"codex-model\"\n[model_providers.p]\nbase_url = \"https://codex\"\nhttp_headers = { x = \"codex\", y = \"codex\" }\n"),
            Some(r#"{"OPENAI_API_KEY":" codex-key "}"#),
        )
    };
    let config = Config::from_env(&env(), &file, codex()).unwrap();
    assert_eq!(config.openai_base_url, "https://file");
    assert_eq!(config.openai_api_key.as_deref(), Some("file-key"));
    assert_eq!(config.model_override.as_deref(), Some("codex-model"));
    assert_eq!(config.wire_api, WireApi::ChatCompletions);
    assert_eq!(
        shown(&config.extra_headers),
        vec!["client=file", "client-version=0", "x=file", "y=codex"]
    );
    let mut values = env();
    values.openai_base_url = some(" https://env// ");
    values.openai_api_key = some("env-key");
    values.model = some("env-model");
    values.wire_api = some("Responses");
    values.backend_url = some("https://all");
    values.extra_headers_json = some(r#"{"y":"env","z":"env"}"#);
    values.listen = some("0.0.0.0:80");
    values.system_prompt = some("");
    values.request_timeout_secs = some("+5");
    let config = Config::from_env(&values, &file, codex()).unwrap();
    assert_eq!(config.openai_base_url, "https://env");
    assert_eq!(config.openai_api_key.as_deref(), Some("env-key"));
    assert_eq!(config.model_override.as_deref(), Some("env-model"));
    assert_eq!(config.wire_api, WireApi::Responses);
    assert_eq!(config.backend_url_override.as_deref(), Some("https://all"));
    assert_eq!(
        shown(&config.extra_headers),
        vec!["client=file", "client-version=0", "x=file", "y=env", "z=env"]
    );
    assert_eq!(config.listen_addr, "0.0.0.0:80");
    assert_eq!(config.system_prompt, "");
    assert_eq!(config.request_timeout_secs, 5);
}

#[test]
fn what_cannot_be_read_is_an_error_or_is_ignored() {
    let mut values = env();
    values.wire_api = some(" soap ");
    let none = || load_byob_config_file(None);
    let codex = || load_codex_backend_config(None, None);
    assert_eq!(
        Config::from_env(&values, &none(), codex()).map(|_| ()),
        Err("unsupported BYOB_WIRE_API `soap`".to_string())
    );
    let mut values = env();
    values.extra_headers_json = some("[]");
    assert_eq!(
        Config::from_env(&values, &none(), codex()).map(|_| ()),
        Err("BYOB_EXTRA_HEADERS_JSON must be a JSON object".to_string())
    );
    values.extra_headers_json = some(r#"{"b":2,"a":1}"#);
    assert_eq!(
        Config::from_env(&values, &none(), codex()).map(|_| ()),
        Err("BYOB_EXTRA_HEADERS_JSON value for `a` must be a string".to_string())
    );
    values.extra_headers_json = some("{");
    assert!(Config::from_env(&values, &none(), codex()).is_err());
    values.extra_headers_json = some(" ");
    values.request_timeout_secs = some(" 5");
    assert_eq!(Config::from_env(&values, &none(), codex()).unwrap().request_timeout_secs, 600);
    let unread = load_byob_config_file(Some("{\"model\":1}"));
    assert_eq!(unread.model, None);
    assert!(load_codex_backend_config(Some("= 1"), Some("{")).base_url.is_none());
}

#[test]
fn the_file_of_the_configuration_has_other_names() {
    let read = |text: &str| ByobConfigFile::from_json(&parse_json(text).unwrap());
    let file = read(
        r#"{"openai_base_url":"u","backend_url":"b","openai_api_key":"k","extra_headers":{"a":"1"}}"#,
    )
    .unwrap();
    assert_eq!(file.openai_base_url.as_deref(), Some("u"));
    assert_eq!(file.backend_url_override.as_deref(), Some("b"));
    assert_eq!(file.openai_api_key.as_deref(), Some("k"));
    assert_eq!(shown(&file.extra_headers), vec!["a=1"]);
    assert!(read(r#"{"openai_base_url":"u","base_url":"v"}"#).is_none());
    assert!(read(r#"{"extra_headers":{"a":1}}"#).is_none());
    assert!(read("1").is_none());
}

#[test]
fn protocols_have_names() {
    for api in [WireApi::ChatCompletions, WireApi::Responses] {
        assert_eq!(WireApi::parse(api.as_str()), Some(api));
    }
    assert_eq!(WireApi::parse(" OpenAI_Chat "), Some(WireApi::ChatCompletions));
    assert_eq!(WireApi::parse("responses_api"), Some(WireApi::Responses));
    assert_eq!(WireApi::parse("soap"), None);
    assert_eq!(WireApi::ChatCompletions.endpoint(), "chat/completions");
    assert_eq!(WireApi::Responses.endpoint(), "responses");
    assert_eq!(nonempty_string(Some("  a b ")), some("a b"));
    assert_eq!(nonempty_string(Some(" \t")), None);
    assert_eq!(nonempty_string(None), None);
    assert_eq!(listen_address(None).unwrap(), "127.0.0.1:1337");
    assert_eq!(shown(&default_extra_headers()).len(), 2);
}

#[test]
fn the_provider_of_the_profile_counts() {
    let doc = parse_toml(
        "model_provider = \"a\"\nprofile = \"x\"\n[profiles.x]\nmodel_provider = \"b\"\n",
    )
    .unwrap();
    assert_eq!(codex_provider_name(&doc), some("b"));
    assert_eq!(
        codex_provider_name(&parse_toml("model_provider = \"a\"").unwrap()),
        some("a")
    );
    assert_eq!(codex_provider_name(&parse_toml("").unwrap()), None);
    let config = parse_codex_config(
        "model_provider = \"p\"\n[model_providers.p]\nmodel = \"m\"\nwire_api = \"chat\"\n[model_providers.p.http_headers]\nb = \"2\"\na = \"1\"\nc = 3\n",
    )
    .unwrap();
    assert_eq!(config.model.as_deref(), Some("m"));
    assert_eq!(config.wire_api, Some(WireApi::ChatCompletions));
    assert_eq!(shown(&config.http_headers), vec!["a=1", "b=2"]);
    assert!(parse_codex_config("= 1").is_err());
    assert_eq!(shown(&parse_toml_headers(&Toml::Other)), Vec::<String>::new());
    assert_eq!(parse_codex_auth_api_key(r#"{"OPENAI_API_KEY":" k "}"#), some("k"));
    assert_eq!(parse_codex_auth_api_key(r#"{"OPENAI_API_KEY":" "}"#), None);
    assert_eq!(parse_codex_auth_api_key(r#"{"OPENAI_API_KEY":1}"#), None);
    assert_eq!(parse_codex_auth_api_key("{"), None);
    assert_eq!(shown(&parse_extra_headers_json(r#"{"b":"2","a":"1"}"#).unwrap()), vec!["a=1", "b=2"]);
}

#[test]
fn headers_are_kept_in_order_and_the_last_counts() {
    let mut headers = Headers::new();
    for (name, value) in [("b", "1"), ("a", "2"), ("c", "3"), ("b", "4")] {
        headers.put(name.to_string(), value.to_string());
    }
    assert_eq!(shown(&headers), vec!["a=2", "b=4", "c=3"]);
    assert_eq!(headers.get("b"), Some("4"));
    assert_eq!(headers.get("d"), None);
    let mut more = Headers::new();
    more.put("c".to_string(), "5".to_string());
    headers.put_all(&more);
    assert_eq!(shown(&headers), vec!["a=2", "b=4", "c=5"]);
    assert!(is_before("a", "ab") && is_before("ab", "b") && !is_before("b", "b"));
}

#[test]
fn files_are_looked_for_by_platform() {
    let mut env = path_env();
    assert_eq!(user_home_dir(&env, Platform::Other), None);
    assert!(codex_config_path(&env, Platform::Other).is_none());
    assert!(app_support_roots(&env, Platform::MacOs).is_empty());
    env.home = some(" /home/u ");
    env.userprofile = some("C:\\u");
    assert_eq!(user_home_dir(&env, Platform::Windows), some("C:\\u"));
    assert_eq!(user_home_dir(&env, Platform::MacOs), some("/home/u"));
    assert_eq!(
        path(&codex_config_path(&env, Platform::Other).unwrap()),
        "/home/u|.codex|config.toml"
    );
    assert_eq!(path(&codex_auth_path(&env, Platform::Windows).unwrap()), "C:\\u|.codex|auth.json");
    env.codex_home = some("/codex");
    assert_eq!(path(&codex_auth_path(&env, Platform::Other).unwrap()), "/codex|auth.json");
    assert_eq!(path(&codex_config_path(&env, Platform::Other).unwrap()), "/codex|config.toml");
    env.byob_codex_config_path = some("/c.toml");
    env.byob_codex_auth_path = some("/a.json");
    assert_eq!(path(&codex_config_path(&env, Platform::Other).unwrap()), "/c.toml");
    assert_eq!(path(&codex_auth_path(&env, Platform::Other).unwrap()), "/a.json");
    env.xdg_data_home = some("/data");
    env.appdata = some("C:\\data");
    let roots = |platform| {
        app_support_roots(&env, platform).iter().map(path).collect::<Vec<_>>()
    };
    assert_eq!(roots(Platform::Other), vec!["/data", "/home/u|.local|share"]);
    assert_eq!(roots(Platform::Windows), vec!["C:\\data", "C:\\u|AppData|Roaming"]);
    assert_eq!(roots(Platform::MacOs), vec!["/home/u|Library/Application Support"]);
    assert_eq!(codex_auth_hint(Platform::MacOs), "~/.codex/auth.json");
    assert_eq!(codex_auth_hint(Platform::Windows), "%USERPROFILE%\\.codex\\auth.json");
}

#[test]
fn the_first_configuration_that_exists_is_taken() {
    let mut env = path_env();
    env.home = some("/h");
    let candidates: Vec<String> =
        byob_config_candidates(&env, Platform::Other).iter().map(path).collect();
    assert_eq!(
        candidates,
        vec![
            "/h|.local|share|WarpOCA|config.json",
            "/h|.local|share|WarpOCI|config.json",
            "/h|.local|share|WarpByob|config.json",
        ]
    );
    let chosen = byob_config_path(&env, Platform::Other, &vec![false, true, true]).unwrap();
    assert_eq!(path(&chosen), candidates[1]);
    assert!(byob_config_path(&env, Platform::Other, &vec![false, false, false]).is_none());
    env.byob_config_path = some("/x.json");
    let chosen = byob_config_path(&env, Platform::Other, &vec![true, true, true]).unwrap();
    assert_eq!(path(&chosen), "/x.json");
}

fn config(wire_api: WireApi) -> Config {
    Config {
        listen_addr: "127.0.0.1:1337".to_string(),
        openai_base_url: "https://example.com/v1".to_string(),
        backend_url_override: None,
        openai_api_key: some("key"),
        model_override: None,
        wire_api,
        extra_headers: Headers::new(),
        system_prompt: "system".to_string(),
        request_timeout_secs: 5,
    }
}

#[test]
fn the_endpoint_is_added_once() {
    assert_eq!(join_endpoint("https://a/v1/", "responses"), "https://a/v1/responses");
    assert_eq!(join_endpoint("https://a/v1/responses/", "responses"), "https://a/v1/responses");
    let twice = join_endpoint(&join_endpoint("https://a", "chat/completions"), "chat/completions");
    assert_eq!(twice, "https://a/chat/completions");
    assert!(is_oracle_code_assist_backend(DEFAULT_OCA_BASE_URL));
    assert!(!is_oracle_code_assist_backend("https://example.com"));
}

#[test]
fn requests_carry_the_headers_that_are_configured() {
    let mut config = config(WireApi::Responses);
    config.extra_headers.put("Authorization".to_string(), "other".to_string());
    config.extra_headers.put("x".to_string(), "1".to_string());
    let call = plan_backend_call(&config, true, "byob-1".to_string());
    assert_eq!(call.url, "https://example.com/v1/responses");
    assert_eq!(call.bearer.as_deref(), Some("key"));
    assert_eq!(
        call.headers,
        vec![
            ("Accept".to_string(), "text/event-stream".to_string()),
            ("x".to_string(), "1".to_string()),
        ]
    );
    config.openai_base_url = DEFAULT_OCA_BASE_URL.to_string();
    config.backend_url_override = some("https://all");
    config.extra_headers.put("Client-IDE".to_string(), "mine".to_string());
    let call = plan_backend_call(&config, false, "byob-1".to_string());
    assert_eq!(call.url, "https://all");
    let names: Vec<&str> = call.headers.iter().map(|(name, _)| name.as_str()).collect();
    assert_eq!(names, vec!["Client-IDE", "x", "opc-request-id", "client-ide-version"]);
    assert_eq!(call.headers[2].1, "byob-1");
    assert_eq!(call.headers[3].1, "0");
    let request = build_backend_request(&request("hi"), &config);
    let call = prepare_backend_call(&config, &request);
    let id = &call.headers.iter().find(|(name, _)| name == "opc-request-id").unwrap().1;
    assert!(id.starts_with("byob-") && id.len() == 41);
}

#[test]
fn requests_are_written_in_json() {
    let chat = build_backend_request(&request("hi"), &config(WireApi::ChatCompletions));
    assert!(chat.stream());
    let json = backend_request_json(&chat);
    assert_eq!(json.get_str("model"), Some("local-model"));
    let messages = json.get_array("messages").unwrap();
    assert_eq!(messages[1].to_text(), r#"{"role":"user","content":"hi"}"#);
    let tool = &json.get_array("tools").unwrap()[0];
    assert_eq!(tool.get_str("type"), Some("function"));
    assert_eq!(tool.get("function").unwrap().get_str("name"), Some("grep"));

    let responses = build_backend_request(&request("hi"), &config(WireApi::Responses));
    let json = backend_request_json(&responses);
    assert_eq!(json.get("store").map(|store| store.to_text()).as_deref(), Some("false"));
    assert_eq!(json.get_array("input").unwrap()[1].to_text(), r#"{"content":"hi","role":"user"}"#);
    assert_eq!(json.get_array("tools").unwrap()[0].get_str("name"), Some("grep"));
}

#[test]
fn questions_have_instructions_and_a_prompt() {
    let config = config(WireApi::ChatCompletions);
    let texts = |request: BackendRequest| match request {
        BackendRequest::Chat(chat) => {
            assert_eq!(chat.model, "gpt-5.5");
            assert!(chat.tools.is_empty());
            chat.messages.into_iter().map(|message| message.content.unwrap()).collect::<Vec<_>>()
        }
        BackendRequest::Responses(_) => panic!("not a chat"),
    };
    let asked = GenerateAIInputSuggestionsRequest {
        context_messages: Vec::new(),
        history_context: String::new(),
        system_context: None,
        rejected_suggestions: Vec::new(),
        prefix: None,
        block_context: None,
        previous_result: None,
    };
    let said = texts(build_input_suggestions_backend_request(&asked, &config));
    assert!(said[0].starts_with("You predict the next shell command for Warp terminal."));
    assert_eq!(said[1], "Most recent terminal blocks, oldest to newest:\n");
    let asked = GenerateAMQuerySuggestionsRequest {
        context_messages: Vec::new(),
        system_context: None,
        exit_code: 0,
    };
    let said = texts(build_am_query_suggestion_backend_request(&asked, &config));
    assert!(said[0].starts_with("You suggest a useful follow-up Agent Mode query"));
    let asked = PredictAMQueriesRequest {
        context_messages: Vec::new(),
        partial_query: "li".to_string(),
        system_context: None,
    };
    let said = texts(build_predict_am_queries_backend_request(&asked, &config));
    assert!(said[1].starts_with("Partial query:\nli\n"));
    let asked =
        GenerateBlockTitleRequest { command: "ls -la".to_string(), output: "out".to_string() };
    let said = texts(build_block_title_backend_request(&asked, &config));
    assert!(said[1].contains("ls -la") && said[1].contains("out"));
}

#[test]
fn the_model_of_the_request_comes_first() {
    let mut asked = request("hi");
    let mut config = config(WireApi::Responses);
    assert_eq!(build_chat_request(&asked, &config).model, "local-model");
    config.model_override = some("configured");
    assert_eq!(build_chat_request(&asked, &config).model, "configured");
    asked.settings = Some(Settings {
        model_config: Some(byob_proxy::warp::ModelConfig {
            coding: String::new(),
            base: String::new(),
            cli_agent: "cli".to_string(),
            computer_use_agent: "computer".to_string(),
        }),
        supported_tools: Vec::new(),
    });
    assert_eq!(build_chat_request(&asked, &config).model, "cli");
}

#[test]
fn only_a_socket_address_can_be_listened_on() {
    for good in [
        "127.0.0.1:1337", "0.0.0.0:0", "255.255.255.255:65535", "1.2.3.4:00080", "[::]:80",
        "[::1]:80", "[1::]:80", "[1:2:3:4:5:6:7:8]:80", "[1:2:3:4:5:6:7::]:80",
        "[::2:3:4:5:6:7:8]:80", "[fe80::AbCd%3]:80", "[::1.2.3.4]:80", "[1:2:3:4:5:6:1.2.3.4]:80",
        "[1:2:3:4:5::1.2.3.4]:80", "[::1%4294967295]:1",
    ] {
        assert!(is_socket_address(good), "{good}");
    }
    for bad in [
        "", ":80", "localhost:80", "127.0.0.1", "127.0.0.1:", "127.0.0.1:65536", "127.0.0.1:+80",
        " 127.0.0.1:80", "127.0.0.1:80 ", "127.0.0:80", "127.0.0.1.1:80", "256.0.0.1:80",
        "01.0.0.1:80", "1.2.3.0004:80", "::1:80", "[::1]", "[::1]80", "[:::1]:80", "[1::2::3]:80",
        "[1:2:3:4:5:6:7]:80", "[1:2:3:4:5:6:7:8:9]:80", "[1::2:3:4:5:6:7:8]:80", "[12345::]:80",
        "[1.2.3.4::]:80", "[::1.2.3.4:5]:80", "[1:2:3:4:5:6:7:1.2.3.4]:80", "[::g]:80", "[]:80",
        "[::1%eth0]:80", "[::1%]:80", "[::1%4294967296]:80", "[127.0.0.1]:80",
    ] {
        assert!(!is_socket_address(bad), "{bad}");
    }
    let mut values = env();
    values.listen = some("nowhere");
    values.wire_api = some("soap");
    let codex = load_codex_backend_config(None, None);
    let error = Config::from_env(&values, &load_byob_config_file(None), codex).unwrap_err();
    assert_eq!(error, "invalid socket address syntax");
}
