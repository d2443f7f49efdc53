//! What a backend is told of a conversation, and what its tool calls become.
use byob_proxy::args::{
    GrepArgs, ReadShellCommandOutputArgs, ReadSkillArgs, SuggestPromptArgs,
    WriteToLongRunningShellCommandArgs,
};
use byob_proxy::calls::ToolCallAccumulatorSet;
use byob_proxy::chat::{
    responses_input_items_with_ids, retain_paired_function_io, value_call_id, OpenAIChatMessage,
    OpenAIChatRequest, OpenAIResponsesRequest,
};
use byob_proxy::config::{Config, WireApi};
use byob_proxy::headers::Headers;
use byob_proxy::history::{
    append_history_message, append_request_input_messages, build_chat_request,
    format_input_context, format_running_command, format_summarization, format_system_query,
    format_user_query, warp_tool_instructions,
};
use byob_proxy::json::{parse_json, Json};
use byob_proxy::outputs::{
    identify_output, output_from_arguments, tool_from_arguments, WarpClientOutput,
};
use byob_proxy::past_calls::{arguments_of_tool, warp_tool_call_to_openai};
use byob_proxy::results::format_tool_call_result;
use byob_proxy::tools::{build_tool_definitions, should_offer_suggest_rule, supports_tool};
use byob_proxy::warp::{
    AgentMessage, Answer, AnswerItem, AnyFileContent, ApplyFileDiffs, ApplyFileDiffsOutcome,
    ApplyFileDiffsSuccess, AskUserQuestionOutcome, BinaryFile, ChosenOptions, CliAgentUserQuery,
    Codebase, Delay, Directory, DisplayMode, ExecutedShellCommand, FileContent, FileDiff,
    FileGlobOutcome, FileGlobV2Outcome, FileGlobV2Success, Git, Grep, GrepFile, GrepOutcome,
    Input, InputContext, InputType, LineRange, LongRunningShellCommandSnapshot, Message,
    MessageContent, OperatingSystem, ProjectRules, ReadFilesOutcome, ReadShellCommandOutput,
    ReadShellCommandOutputResult, ReadSkillOutcome, Request, RunShellCommand,
    RunShellCommandOutcome, RunShellCommandResult, RunningShellCommand, SearchCodebaseOutcome,
    Settings, Shell, ShellCommandFinished, ShellOutcome, SkillReference, Summarization,
    SuggestPrompt, SystemQuery, Task, Tool, ToolCall, ToolCallResult, ToolResult, ToolType,
    UserInput, UserQuery, V4aFileUpdate, WriteMode, WriteToLongRunningShellCommand,
};
use byob_proxy::wire::{OpenAIFunctionCall, OpenAIMessageToolCall};

fn text(text: &str) -> String {
    text.to_string()
}

fn result_text(result: Option<ToolResult>) -> String {
    format_tool_call_result(&ToolCallResult { tool_call_id: text("c"), result })
}

fn finished() -> ShellCommandFinished {
    ShellCommandFinished { command_id: text("b"), exit_code: 1, output: text("out") }
}

fn snapshot() -> LongRunningShellCommandSnapshot {
    LongRunningShellCommandSnapshot {
        command_id: text("b"),
        is_alt_screen_active: true,
        is_preempted: false,
        output: text("out"),
    }
}

fn file(range: Option<LineRange>) -> FileContent {
    FileContent { file_path: text("a.rs"), content: text("fn a() {}"), line_range: range }
}

fn message(content: MessageContent) -> Message {
    Message {
        id: text("m"),
        task_id: text("t"),
        request_id: text("r"),
        timestamp: None,
        message: Some(content),
    }
}

fn told(content: MessageContent) -> Vec<(String, Option<String>)> {
    let mut messages = Vec::new();
    append_history_message(&mut messages, &message(content));
    messages.into_iter().map(|message| (message.role, message.content)).collect()
}

fn request(input_type: Option<InputType>, supported_tools: Vec<ToolType>) -> Request {
    Request {
        settings: Some(Settings { model_config: None, supported_tools }),
        metadata: None,
        task_context: None,
        input: Some(Input { context: None, input_type }),
    }
}

fn asked(input_type: InputType) -> Vec<(String, Option<String>)> {
    let request = request(Some(input_type), vec![]);
    let mut messages = Vec::new();
    append_request_input_messages(&mut messages, request.input.as_ref().unwrap(), &request);
    messages.into_iter().map(|message| (message.role, message.content)).collect()
}

fn user(content: &str) -> Vec<(String, Option<String>)> {
    vec![(text("user"), Some(text(content)))]
}

fn system(content: &str) -> Vec<(String, Option<String>)> {
    vec![(text("system"), Some(text(content)))]
}

fn config() -> Config {
    Config {
        listen_addr: text("127.0.0.1:1337"),
        openai_base_url: text("https://example.com"),
        backend_url_override: None,
        openai_api_key: None,
        model_override: Some(text("model")),
        wire_api: WireApi::ChatCompletions,
        extra_headers: Headers::new(),
        system_prompt: text("system"),
        request_timeout_secs: 5,
    }
}

#[test]
fn results_of_shell_tools_are_told() {
    let run = |result| {
        result_text(Some(ToolResult::RunShellCommand(RunShellCommandResult {
            command: text("ls"),
            output: text("old"),
            exit_code: 2,
            result,
        })))
    };
    assert_eq!(
        run(Some(RunShellCommandOutcome::CommandFinished(finished()))),
        "command: ls\ncommand_id: b\nexit_code: 1\noutput:\nout"
    );
    assert_eq!(
        run(Some(RunShellCommandOutcome::LongRunningCommandSnapshot(snapshot()))),
        "command: ls\ncommand_id: b\nstatus: still running\nalt_screen: true\npreempted: false\noutput:\nout"
    );
    assert_eq!(
        run(Some(RunShellCommandOutcome::PermissionDenied)),
        "command denied by user or policy: ls"
    );
    assert_eq!(run(None), "command: ls\nexit_code: 2\noutput:\nold");
    let read = |command: &str, result| {
        result_text(Some(ToolResult::ReadShellCommandOutput(ReadShellCommandOutputResult {
            command: text(command),
            result,
        })))
    };
    assert_eq!(
        read("ls", Some(ShellOutcome::CommandFinished(finished()))),
        "command: ls\ncommand_id: b\nexit_code: 1\noutput:\nout"
    );
    assert_eq!(
        read("", Some(ShellOutcome::CommandFinished(finished()))),
        "command_id: b\nexit_code: 1\noutput:\nout"
    );
    assert_eq!(
        read("ls", Some(ShellOutcome::Error(text("gone")))),
        "read_shell_command_output failed: gone"
    );
    assert_eq!(
        read("ls", None),
        "command: ls\nread_shell_command_output returned no result."
    );
    assert_eq!(
        result_text(Some(ToolResult::WriteToLongRunningShellCommand(None))),
        "write_to_lrc returned no result."
    );
    assert_eq!(
        result_text(Some(ToolResult::TransferShellCommandControlToUser(Some(
            ShellOutcome::Error(text("gone"))
        )))),
        "transfer_shell_command_control failed: gone"
    );
    assert_eq!(result_text(None), "Tool returned no result.");
    assert_eq!(result_text(Some(ToolResult::Other(text("X")))), "Tool result: X");
    let long = run(Some(RunShellCommandOutcome::CommandFinished(ShellCommandFinished {
        command_id: text("b"),
        exit_code: 0,
        output: "x".repeat(12001),
    })));
    assert!(long.ends_with("x\n...[truncated]"));
}

#[test]
fn results_of_file_tools_are_told() {
    let read = |result| result_text(Some(ToolResult::ReadFiles(result)));
    assert_eq!(
        read(Some(ReadFilesOutcome::TextFilesSuccess(vec![
            file(Some(LineRange { start: 1, end: 20 })),
            file(None)
        ]))),
        "read_files result:\nfile: a.rs lines 1-20\nfn a() {}\n\nfile: a.rs\nfn a() {}"
    );
    assert_eq!(
        read(Some(ReadFilesOutcome::AnyFilesSuccess(vec![
            AnyFileContent::Binary(BinaryFile { file_path: text("b"), data: vec![1, 2, 3] }),
            AnyFileContent::Empty,
        ]))),
        "read_files result:\nbinary file: b\nbytes: 3\n\nempty file content"
    );
    assert_eq!(
        read(Some(ReadFilesOutcome::TextFilesSuccess(vec![]))),
        "read_files returned no files."
    );
    assert_eq!(read(Some(ReadFilesOutcome::Error(text("no")))), "read_files failed: no");
    assert_eq!(read(None), "read_files returned no result.");
    let search = |result| result_text(Some(ToolResult::SearchCodebase(result)));
    assert_eq!(
        search(Some(SearchCodebaseOutcome::Success(vec![]))),
        "search_codebase returned no files."
    );
    assert_eq!(search(None), "search_codebase returned no result.");
    let grep = |result| result_text(Some(ToolResult::Grep(result)));
    assert_eq!(
        grep(Some(GrepOutcome::Success(vec![GrepFile {
            file_path: text("a"),
            matched_lines: vec![1, 22],
        }]))),
        "grep matches:\na: lines [1, 22]"
    );
    assert_eq!(grep(Some(GrepOutcome::Success(vec![]))), "grep found no matches.");
    assert_eq!(grep(Some(GrepOutcome::Error(text("no")))), "grep failed: no");
    assert_eq!(
        result_text(Some(ToolResult::FileGlob(Some(FileGlobOutcome::Success(text("a\nb")))))),
        "file_glob matches:\na\nb"
    );
    let glob = |files: &[&str], warnings: &str| {
        result_text(Some(ToolResult::FileGlobV2(Some(FileGlobV2Outcome::Success(
            FileGlobV2Success {
                matched_files: files.iter().map(|file| file.to_string()).collect(),
                warnings: text(warnings),
            },
        )))))
    };
    assert_eq!(glob(&["a", "b"], " "), "file_glob_v2 matches:\na\nb");
    assert_eq!(glob(&[], "slow"), "file_glob_v2 found no matches.\nwarnings:\nslow");
    let skill = |result| result_text(Some(ToolResult::ReadSkill(result)));
    assert_eq!(
        skill(Some(ReadSkillOutcome::Success(Some(file(None))))),
        "read_skill result:\nfile: a.rs\nfn a() {}"
    );
    assert_eq!(
        skill(Some(ReadSkillOutcome::Success(None))),
        "read_skill returned success without content."
    );
}

#[test]
fn results_of_questions_and_edits_are_told() {
    let answers = vec![
        AnswerItem {
            question_id: text("q1"),
            answer: Some(Answer::MultipleChoice(ChosenOptions {
                selected_options: vec![text("a"), text("b")],
                other_text: text(" "),
            })),
        },
        AnswerItem {
            question_id: text("q2"),
            answer: Some(Answer::MultipleChoice(ChosenOptions {
                selected_options: vec![],
                other_text: text("mine"),
            })),
        },
        AnswerItem { question_id: text("q3"), answer: Some(Answer::Skipped) },
        AnswerItem { question_id: text("q4"), answer: None },
    ];
    assert_eq!(
        result_text(Some(ToolResult::AskUserQuestion(Some(AskUserQuestionOutcome::Success(
            answers
        ))))),
        "ask_user_question answers:\nq1: a, b\nq2:  other=mine\nq3: skipped\nq4: no answer"
    );
    assert_eq!(
        result_text(Some(ToolResult::AskUserQuestion(Some(AskUserQuestionOutcome::Success(
            vec![]
        ))))),
        "ask_user_question completed with no answers."
    );
    assert_eq!(
        result_text(Some(ToolResult::ApplyFileDiffs(Some(ApplyFileDiffsOutcome::Success(
            ApplyFileDiffsSuccess {
                updated_files: vec![Some(text("a")), None, Some(text("b"))],
                deleted_files: vec![text("c")],
            }
        ))))),
        "file edits applied. updated: [a, b] deleted: [c]"
    );
    assert_eq!(
        result_text(Some(ToolResult::ApplyFileDiffs(Some(ApplyFileDiffsOutcome::Error(text(
            "no"
        )))))),
        "file edits failed: no"
    );
    assert_eq!(
        result_text(Some(ToolResult::ApplyFileDiffs(None))),
        "file edit result was empty"
    );
}

fn context() -> InputContext {
    InputContext {
        directory: Some(Directory { pwd: text("/p"), home: text("/h") }),
        operating_system: Some(OperatingSystem { platform: text("mac"), distribution: text("") }),
        shell: Some(Shell { name: text("zsh"), version: text("5") }),
        git: Some(Git { head: text("h"), branch: text("b") }),
        codebases: vec![Codebase { name: text("n"), path: text("/c") }],
        executed_shell_commands: (0..6)
            .map(|n| ExecutedShellCommand {
                command_id: format!("{n}"),
                command: text("ls"),
                exit_code: 0,
                output: text("o"),
            })
            .collect(),
        selected_text: vec![text("sel")],
        files: vec![Some(file(None)), None],
        project_rules: vec![ProjectRules { active_rule_files: vec![file(None)] }],
    }
}

fn empty_context() -> InputContext {
    InputContext {
        directory: None,
        operating_system: None,
        shell: None,
        git: None,
        codebases: vec![],
        executed_shell_commands: vec![],
        selected_text: vec![],
        files: vec![],
        project_rules: vec![],
    }
}

#[test]
fn the_context_is_told() {
    let shown = format_input_context(&context());
    assert!(shown.starts_with(
        "pwd: /p\n\nhome: /h\n\nos: mac\n\nshell: zsh 5\n\ngit: head=h branch=b\n\ncodebase: n (/c)\n\nrecent command [1]: ls\nexit: 0\no\n\n"
    ));
    assert!(shown.ends_with(
        "recent command [5]: ls\nexit: 0\no\n\nselected text:\nsel\n\nfile: a.rs\nfn a() {}\n\nproject rule a.rs:\nfn a() {}"
    ));
    assert_eq!(format_input_context(&empty_context()), "");
    assert_eq!(format_user_query("q", Some(&empty_context())), "q");
    let mut small = empty_context();
    small.directory = Some(Directory { pwd: text("/p"), home: text("") });
    assert_eq!(format_user_query("q", Some(&small)), "q\n\nContext:\npwd: /p");
    assert_eq!(format_user_query("q", None), "q");
}

#[test]
fn the_history_is_told() {
    assert_eq!(
        told(MessageContent::UserQuery(UserQuery { query: text("q"), context: None })),
        user("q")
    );
    assert_eq!(
        told(MessageContent::SystemQuery(Some(SystemQuery::CloneRepository(text("u"))))),
        system("Clone repository: u")
    );
    assert_eq!(format_system_query(&None), "System query.");
    assert_eq!(
        format_system_query(&Some(SystemQuery::SummarizeConversation(text("p")))),
        "Summarize conversation: p"
    );
    assert_eq!(
        told(MessageContent::AgentOutput(text("hi"))),
        vec![(text("assistant"), Some(text("hi")))]
    );
    assert!(told(MessageContent::AgentOutput(text(""))).is_empty());
    assert_eq!(
        told(MessageContent::AgentReasoning(text("why"))),
        vec![(text("assistant"), Some(text("[reasoning]\nwhy")))]
    );
    assert_eq!(
        told(MessageContent::ToolCallResult(ToolCallResult {
            tool_call_id: text("c"),
            result: None
        })),
        vec![(text("tool"), Some(text("Tool returned no result.")))]
    );
    assert_eq!(
        told(MessageContent::Summarization(Some(Summarization::ConversationSummary(text("s"))))),
        system("Conversation summary: s")
    );
    assert_eq!(
        format_summarization(&Some(Summarization::ToolCallResultSummary)),
        "A prior tool call result was summarized."
    );
    assert!(told(MessageContent::Other).is_empty());
}

#[test]
fn what_is_asked_for_is_told() {
    assert_eq!(asked(InputType::QueryWithCannedResponse(text("q"))), user("q"));
    assert_eq!(asked(InputType::ResumeConversation), user("Resume the conversation."));
    assert_eq!(asked(InputType::CreateNewProject(text("p"))), user("Create a new project: p"));
    assert_eq!(
        asked(InputType::CloneRepository(text("u"))),
        user("Clone and set up this repository: u")
    );
    assert_eq!(asked(InputType::CodeReview), user("Review the provided code changes."));
    assert_eq!(
        asked(InputType::CreateEnvironment(vec![text("a"), text("b")])),
        user("Create a development environment for: a, b")
    );
    assert_eq!(
        asked(InputType::FetchReviewComments(text("r"))),
        user("Fetch review comments for r.")
    );
    assert_eq!(
        asked(InputType::StartFromAmbientRunPrompt(text("i"))),
        user("Start ambient run i.")
    );
    assert_eq!(asked(InputType::InvokeSkill(None)), user("Invoke the provided skill."));
    assert_eq!(
        asked(InputType::SummarizeConversation(text("p"))),
        user("Summarize this conversation. p")
    );
    assert_eq!(
        asked(InputType::UserInputs(vec![
            Some(UserInput::CliAgentUserQuery(CliAgentUserQuery {
                user_query: Some(text("q")),
                running_command: Some(RunningShellCommand {
                    command: text("top"),
                    snapshot: Some(snapshot()),
                }),
            })),
            None,
        ])),
        user("q\n\nActive command context:\ncommand: top\ncommand_id: b\noutput:\nout")
    );
    assert_eq!(
        asked(InputType::UserInputs(vec![Some(UserInput::MessagesReceivedFromAgents(vec![
            AgentMessage {
                sender_agent_id: text("a"),
                addresses: vec![text("b"), text("c\"d")],
                subject: text("s"),
                message_body: text("m"),
            }
        ]))])),
        system("Messages received from agents:\n- from a to [\"b\", \"c\\\"d\"]: s\nm")
    );
    assert_eq!(
        asked(InputType::UserInputs(vec![Some(UserInput::EventsFromAgents(12))])),
        system("Received 12 agent lifecycle event(s).")
    );
    assert_eq!(
        asked(InputType::UserInputs(vec![Some(UserInput::PassiveSuggestionResult)])),
        system("The user accepted or rejected a passive suggestion.")
    );
    assert_eq!(
        format_running_command(&RunningShellCommand { command: text("top"), snapshot: None }),
        "command: top\n"
    );
    let request = request(
        Some(InputType::GeneratePassiveSuggestions),
        vec![ToolType::SuggestPrompt, ToolType::ApplyFileDiffs],
    );
    let mut messages = Vec::new();
    append_request_input_messages(&mut messages, request.input.as_ref().unwrap(), &request);
    let instruction = messages[0].content.as_deref().unwrap();
    assert!(instruction.contains("call suggest_prompt exactly once"));
    assert!(instruction.contains("call apply_file_diffs exactly once"));
    assert!(instruction.ends_with(" Do not answer with explanatory prose for passive suggestions."));
}

#[test]
fn a_request_tells_all_and_asks_for_something() {
    let mut request = request(Some(InputType::UserQuery(text("now"))), vec![]);
    request.input.as_mut().unwrap().context = Some(context());
    request.task_context = Some(vec![Task {
        id: text("t"),
        messages: vec![
            message(MessageContent::AgentOutput(text("before"))),
            message(MessageContent::ToolCallResult(ToolCallResult {
                tool_call_id: text("c"),
                result: None,
            })),
        ],
    }]);
    let chat = build_chat_request(&request, &config());
    let roles: Vec<&str> = chat.messages.iter().map(|message| message.role.as_str()).collect();
    assert_eq!(roles, vec!["system", "system", "assistant", "tool", "user"]);
    assert_eq!(
        chat.messages[0].content.as_deref().unwrap(),
        format!("system\n\n{}", warp_tool_instructions())
    );
    assert_eq!(chat.messages[3].tool_call_id.as_deref(), Some("c"));
    assert!(chat.stream);
    let nothing = Request { settings: None, metadata: None, task_context: None, input: None };
    let chat = build_chat_request(&nothing, &config());
    assert_eq!(chat.messages.len(), 2);
    assert_eq!(chat.messages[1].content.as_deref(), Some("Continue."));
}

fn call(tool: Tool) -> ToolCall {
    ToolCall { tool_call_id: text("c"), tool: Some(tool) }
}

#[test]
fn calls_are_told_as_they_were_made() {
    let run = Tool::RunShellCommand(RunShellCommand {
        command: text("ls \"a\""),
        is_read_only: true,
        uses_pager: false,
        is_risky: false,
        wait_until_complete: None,
    });
    let told = warp_tool_call_to_openai(&call(run)).unwrap();
    assert_eq!(told.id, "c");
    assert_eq!(told.kind, "function");
    assert_eq!(told.function.name, "run_shell_command");
    assert_eq!(
        told.function.arguments,
        r#"{"command":"ls \"a\"","is_read_only":true,"is_risky":false,"uses_pager":false,"wait_until_complete":true}"#
    );
    let read = Tool::ReadShellCommandOutput(ReadShellCommandOutput {
        command_id: text("b"),
        delay: Some(Delay::Seconds(3)),
    });
    assert_eq!(
        warp_tool_call_to_openai(&call(read)).unwrap().function.arguments,
        r#"{"command_id":"b","delay_seconds":3,"wait_until_complete":false}"#
    );
    let write = Tool::WriteToLongRunningShellCommand(WriteToLongRunningShellCommand {
        command_id: text("b"),
        input: vec![b'y', b'\n', 0xff],
        mode: None,
    });
    assert_eq!(
        warp_tool_call_to_openai(&call(write)).unwrap().function.arguments,
        "{\"command_id\":\"b\",\"input\":\"y\\n\u{fffd}\",\"mode\":\"raw\"}"
    );
    let prompt = Tool::SuggestPrompt(SuggestPrompt { is_trigger_irrelevant: false, display_mode: None });
    assert!(warp_tool_call_to_openai(&call(prompt)).is_none());
    assert!(warp_tool_call_to_openai(&ToolCall { tool_call_id: text("c"), tool: None }).is_none());
}

#[test]
fn arguments_that_were_told_read_back_as_the_same_tool() {
    for (name, arguments) in [
        ("run_shell_command", r#"{"command":"ls","is_risky":true,"wait_until_complete":false}"#),
        ("read_shell_command_output", r#"{"command_id":"b","delay_seconds":-5}"#),
        ("read_shell_command_output", r#"{"command_id":"b","wait_until_complete":true}"#),
        ("write_to_long_running_shell_command", r#"{"command_id":"b","input":"ä","mode":"LINE"}"#),
        ("transfer_shell_command_control_to_user", r#"{"reason":"r"}"#),
        ("read_files", r#"{"files":[{"path":"a","line_ranges":[{"start":1,"end":2}]},{"name":"b"}]}"#),
        ("search_codebase", r#"{"query":"q","path_filters":["p"]}"#),
        ("grep", r#"{"queries":["a"],"query":"b"}"#),
        ("file_glob", r#"{"patterns":["*"]}"#),
        ("file_glob_v2", r#"{"patterns":["*"],"max_depth":-1}"#),
        ("read_skill", r#"{"bundled_skill_id":"s","skill_path":" "}"#),
        ("ask_user_question", r#"{"questions":[{"question":"q","options":["a"],"supports_other":true}]}"#),
        ("apply_file_diffs", r#"{"diffs":[{"file_path":"f","search":"s","replace":"r"}],"new_files":[{"file_path":"n","content":"c"}],"deleted_files":[{"file_path":"d"}]}"#),
    ] {
        let tool = tool_from_arguments(name, &parse_json(arguments)).unwrap();
        let (told, json) = arguments_of_tool(&tool).unwrap();
        let again = tool_from_arguments(told, &parse_json(&json.to_text())).unwrap();
        assert_eq!(format!("{again:?}"), format!("{tool:?}"));
    }
}

#[test]
fn edits_in_the_form_of_patches_are_not_told() {
    let diffs = Tool::ApplyFileDiffs(ApplyFileDiffs {
        summary: text("s"),
        diffs: vec![FileDiff { file_path: text("f"), search: text("s"), replace: text("r") }],
        new_files: vec![],
        deleted_files: vec![],
        v4a_updates: vec![V4aFileUpdate {
            file_path: text("f"),
            move_to: text(""),
            hunks: vec![],
        }],
    });
    assert_eq!(
        warp_tool_call_to_openai(&call(diffs)).unwrap().function.arguments,
        r#"{"deleted_files":[],"diffs":[{"file_path":"f","replace":"r","search":"s"}],"new_files":[],"summary":"s"}"#
    );
}

#[test]
fn arguments_become_tools() {
    let error = |name: &str, arguments: &str| {
        tool_from_arguments(name, &parse_json(arguments)).map(|_| ()).unwrap_err()
    };
    assert_eq!(error("fly", "{}"), "unknown tool `fly`");
    assert_eq!(
        error("run_shell_command", "{}"),
        "arguments do not fit the schema of `run_shell_command`"
    );
    assert_eq!(error("read_skill", "{}"), "read_skill requires skill_path or bundled_skill_id");
    assert!(error("grep", "{").len() > 0);
    let read = ReadShellCommandOutputArgs {
        command_id: text("b"),
        delay_seconds: Some(-2),
        wait_until_complete: false,
    };
    assert!(matches!(read.to_delay(), Some(Delay::Seconds(0))));
    let mode = |mode: Option<&str>| {
        WriteToLongRunningShellCommandArgs {
            command_id: text("b"),
            input: text("x"),
            mode: mode.map(text),
        }
        .to_mode()
    };
    assert_eq!(mode(Some("Block")), WriteMode::Block);
    assert_eq!(mode(Some("line")), WriteMode::Line);
    assert_eq!(mode(Some("other")), WriteMode::Raw);
    assert_eq!(mode(None), WriteMode::Raw);
    let grep = GrepArgs { query: Some(text("b")), queries: vec![text("a")], path: None };
    assert_eq!(grep.queries(), vec!["a", "b"]);
    let skill = ReadSkillArgs {
        skill_path: Some(text("p")),
        bundled_skill_id: Some(text("i")),
        name: None,
    };
    assert!(matches!(skill.skill_reference(), Ok(SkillReference::SkillPath(path)) if path == "p"));
    let banner = SuggestPromptArgs {
        prompt: text("p"),
        label: Some(text("l")),
        mode: None,
        title: None,
        description: Some(text("d")),
        is_trigger_irrelevant: true,
    }
    .into_api();
    assert!(banner.is_trigger_irrelevant);
    assert!(matches!(banner.display_mode, Some(DisplayMode::InlineQueryBanner(banner))
        if banner.title == "l" && banner.description == "d" && banner.query == "p"));
}

#[test]
fn calls_without_identifiers_get_fresh_ones() {
    let questions = output_from_arguments(
        Some(text("ask_user_question")),
        None,
        &parse_json(r#"{"questions":[{"question":"a","options":[]},{"question_id":"mine","question":"b","options":[]}]}"#),
    )
    .unwrap();
    let identified = identify_output(questions, text("tool_1"), vec![text("q1"), text("q2")], text("r"));
    match identified {
        WarpClientOutput::ToolCall(call) => {
            assert_eq!(call.tool_call_id, "tool_1");
            match call.tool {
                Some(Tool::AskUserQuestion(ask)) => {
                    assert_eq!(ask.questions[0].question_id, "q1");
                    assert_eq!(ask.questions[1].question_id, "mine");
                }
                other => panic!("{other:?}"),
            }
        }
        other => panic!("{other:?}"),
    }
    assert_eq!(
        output_from_arguments(None, None, &parse_json("{}")).map(|_| ()),
        Err(text("missing function name"))
    );
    let mut calls = ToolCallAccumulatorSet::default();
    calls.apply_full_calls(vec![OpenAIMessageToolCall {
        id: text(""),
        kind: text("function"),
        function: OpenAIFunctionCall { name: text("grep"), arguments: text("{\"query\":\"x\"}") },
    }]);
    let call = calls.into_warp_tool_calls().remove(0).unwrap();
    assert!(call.tool_call_id.starts_with("tool_") && call.tool_call_id.len() == 41);
    assert!(matches!(call.tool, Some(Tool::Grep(Grep { queries, .. })) if queries == vec!["x"]));
}

#[test]
fn calls_of_responses_are_found_by_their_items() {
    let mut calls = ToolCallAccumulatorSet::default();
    let item = parse_json(
        r#"{"type":"function_call","id":"item","call_id":"call","name":"grep","arguments":""}"#,
    )
    .unwrap();
    calls.apply_response_output_item(Some(4), &item);
    calls.apply_response_arguments_delta(None, Some("item"), "{\"que");
    calls.apply_response_arguments_delta(None, Some("item"), "ry\":\"x\"}");
    calls.apply_response_arguments_done(None, None, "{}");
    calls.apply_response_output_item(None, &parse_json(r#"{"type":"message"}"#).unwrap());
    let calls = calls.into_calls();
    assert_eq!(calls.len(), 2);
    assert_eq!(calls[0].0, 4);
    assert_eq!(calls[0].1.arguments, "{\"query\":\"x\"}");
    assert_eq!(calls[0].1.id.as_deref(), Some("call"));
    assert_eq!(calls[1].0, 5);
    assert_eq!(calls[1].1.arguments, "{}");
    let mut calls = ToolCallAccumulatorSet::default();
    calls.apply_responses_output(&Json::object(vec![(
        text("output"),
        Json::array(vec![item]),
    )]));
    assert_eq!(calls.into_calls()[0].0, 0);
}

#[test]
fn kept_items_are_paired() {
    let item = |kind: &str, id: &str| {
        Json::object(vec![
            (text("type"), Json::text(kind)),
            (text("call_id"), Json::text(id)),
        ])
    };
    let kept = retain_paired_function_io(vec![
        item("function_call", "a"),
        item("function_call_output", "b"),
        item("function_call", "c"),
        item("function_call_output", "c"),
        Json::Null,
    ]);
    let ids: Vec<Option<String>> = kept.iter().map(value_call_id).collect();
    assert_eq!(ids, vec![Some(text("c")), Some(text("c")), None]);
    let again = retain_paired_function_io(kept);
    assert_eq!(again.len(), 3);
}

#[test]
fn messages_become_input() {
    let message = OpenAIChatMessage {
        role: text("tool"),
        content: Some(text("out")),
        tool_call_id: None,
        tool_calls: None,
    };
    let asking = OpenAIChatMessage::assistant_tool_call(OpenAIMessageToolCall {
        id: text("tool_1"),
        kind: text("function"),
        function: OpenAIFunctionCall { name: text("grep"), arguments: text("{}") },
    });
    let input = responses_input_items_with_ids(vec![asking, message], vec![text("x"), text("tool_1")]);
    assert_eq!(input.len(), 2);
    assert_eq!(
        input[0].to_text(),
        r#"{"arguments":"{}","call_id":"tool_1","name":"grep","type":"function_call"}"#
    );
    assert_eq!(
        input[1].to_text(),
        r#"{"call_id":"tool_1","output":"out","type":"function_call_output"}"#
    );
    let request = OpenAIResponsesRequest::from_chat_request(OpenAIChatRequest {
        model: text("m"),
        messages: vec![
            OpenAIChatMessage::user(text("")),
            OpenAIChatMessage::assistant(text("a")),
        ],
        tools: vec![],
        stream: true,
    });
    assert_eq!(request.input.len(), 1);
    assert!(request.stream && !request.store);
}

#[test]
fn tools_are_offered_where_the_client_has_them() {
    let none = request(Some(InputType::UserQuery(text("q"))), vec![]);
    assert!(supports_tool(&none, ToolType::Grep));
    let some = request(Some(InputType::UserQuery(text("q"))), vec![ToolType::Grep]);
    assert!(supports_tool(&some, ToolType::Grep));
    assert!(!supports_tool(&some, ToolType::ReadFiles));
    let names = |request: &Request| {
        build_tool_definitions(request)
            .into_iter()
            .map(|tool| tool.function.name)
            .collect::<Vec<_>>()
    };
    assert!(names(&some).contains(&text("grep")));
    assert!(!names(&some).contains(&text("read_files")));
    assert_eq!(
        names(&some).contains(&text("suggest_rule")),
        should_offer_suggest_rule(&some)
    );
    let grep = build_tool_definitions(&some).remove(0);
    assert_eq!(grep.function.parameters.get_str("type"), Some("object"));
}
