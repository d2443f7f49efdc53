//! What a backend is told, said of what is in a request: every query, every result and every call
//! that the request holds stands in a message of the right role.
use crate::chat::{
    call_item, lemma_kept_items_are_paired, message_items, messages_items, output_item,
    paired_items, responses_tools, text_item, OpenAIChatMessageView, OpenAIToolView,
};
use crate::chat::{any_speaks_of, paired, paired_among, speaks_of};
use crate::config::ConfigView;
use crate::history::{
    agent_message_lines, chat_messages, chat_request, cli_query_text, codebase_lines, command_lines,
    context_file_lines, context_lines, context_text, debug_texts, directory_lines, git_lines,
    lemma_history_is_told, lemma_input_is_told, lemma_opening_comes_first,
    lemma_request_asks_for_something, messages_before_input, opening_messages, os_lines,
    passive_instruction, project_rule_lines, rule_lines, selection_lines, shell_lines,
    user_input_message, user_query_text, with_history, with_tasks, with_user_inputs,
    WARP_TOOL_INSTRUCTIONS,
};
use crate::json::{json_text, member_named, JsonView};
use crate::offered::usable;
use crate::past_calls::{openai_tool_call, tool_arguments};
use crate::results::{
    answer_text, answer_texts, any_file_text, any_file_texts, file_texts, grep_file_text,
    grep_file_texts, line_number_texts, present, tool_result_text,
};
use crate::text::{blank, decimal, joined, trimmed, truncated};
use crate::tools::tool_definitions;
use crate::warp::{
    AgentMessageView, AnswerItemView, AnswerView, AnyFileContentView, ApplyFileDiffsOutcomeView,
    AskUserQuestionOutcomeView, CliAgentUserQueryView, ExecutedShellCommandView, FileContentView,
    FileGlobOutcomeView, FileGlobV2OutcomeView, GrepFileView, GrepOutcomeView, InputContextView,
    InputTypeView, InputView, MessageContentView, MessageView, ProjectRulesView,
    ReadFilesOutcomeView, ReadSkillOutcomeView, RequestView, RunShellCommandOutcomeView,
    SearchCodebaseOutcomeView, ShellOutcomeView, SummarizationView, SystemQueryView, TaskView,
    ToolCallResultView, ToolCallView, ToolResultView, ToolType, UserInputView,
};
use crate::lists::{last_of, lemma_last_items};
use crate::wire::OpenAIMessageToolCallView;
use vstd::prelude::*;

verus! {

/// A message of a role with a text, and nothing else.
pub open spec fn plain(role: Seq<char>, text: Seq<char>) -> OpenAIChatMessageView {
    OpenAIChatMessageView { role, content: Some(text), tool_call_id: None, tool_calls: None }
}

/// A message with the result of a call.
pub open spec fn answer_to(call_id: Seq<char>, text: Seq<char>) -> OpenAIChatMessageView {
    OpenAIChatMessageView {
        role: "tool"@,
        content: Some(text),
        tool_call_id: Some(call_id),
        tool_calls: None,
    }
}

// ---------------------------------------------------------------------------------------------
// The input of a request
// ---------------------------------------------------------------------------------------------
/// A result of a tool that comes with a request is told to the backend as the result of its call.
pub proof fn lemma_results_answer_their_calls(
    request: RequestView,
    system_prompt: Seq<char>,
    input: InputView,
    inputs: Seq<Option<UserInputView>>,
    i: int,
    result: ToolCallResultView,
)
    requires
        request.input == Some(input),
    ensures
        input.input_type == Some(InputTypeView::UserInputs(inputs)) && 0 <= i < inputs.len()
            && inputs[i] == Some(UserInputView::ToolCallResult(result)) ==> chat_messages(
            request,
            system_prompt,
        ).contains(
            OpenAIChatMessageView {
                role: "tool"@,
                content: Some(tool_result_text(result)),
                tool_call_id: Some(result.tool_call_id),
                tool_calls: None,
            },
        ),
        input.input_type == Some(InputTypeView::ToolCallResult(result)) ==> chat_messages(
            request,
            system_prompt,
        ).contains(
            OpenAIChatMessageView {
                role: "tool"@,
                content: Some(tool_result_text(result)),
                tool_call_id: Some(result.tool_call_id),
                tool_calls: None,
            },
        ),
{
    if input.input_type == Some(InputTypeView::UserInputs(inputs)) && 0 <= i < inputs.len()
        && inputs[i] == Some(UserInputView::ToolCallResult(result)) {
        lemma_input_is_told(request, system_prompt, input, input.input_type->0, i);
    }
    if input.input_type == Some(InputTypeView::ToolCallResult(result)) {
        lemma_input_is_told(request, system_prompt, input, input.input_type->0, i);
    }
}

/// What the user asks is told to the backend as the words of the user.
pub proof fn lemma_queries_are_told(
    request: RequestView,
    system_prompt: Seq<char>,
    input: InputView,
    inputs: Seq<Option<UserInputView>>,
    i: int,
    query: Seq<char>,
)
    requires
        request.input == Some(input),
    ensures
        input.input_type == Some(InputTypeView::UserInputs(inputs)) && 0 <= i < inputs.len()
            && inputs[i] == Some(UserInputView::UserQuery(query)) ==> chat_messages(
            request,
            system_prompt,
        ).contains(plain("user"@, query)),
        (input.input_type == Some(InputTypeView::UserQuery(query)) || input.input_type == Some(
            InputTypeView::QueryWithCannedResponse(query),
        ) || input.input_type == Some(InputTypeView::AutoCodeDiffQuery(query)) || input.input_type
            == Some(InputTypeView::InvokeSkill(Some(query)))) ==> chat_messages(
            request,
            system_prompt,
        ).contains(plain("user"@, query)),
        input.input_type == Some(InputTypeView::CreateNewProject(query)) ==> chat_messages(
            request,
            system_prompt,
        ).contains(plain("user"@, "Create a new project: "@ + query)),
        input.input_type == Some(InputTypeView::CloneRepository(query)) ==> chat_messages(
            request,
            system_prompt,
        ).contains(plain("user"@, "Clone and set up this repository: "@ + query)),
        input.input_type == Some(InputTypeView::SummarizeConversation(query)) ==> chat_messages(
            request,
            system_prompt,
        ).contains(plain("user"@, "Summarize this conversation. "@ + query)),
        input.input_type == Some(InputTypeView::FetchReviewComments(query)) ==> chat_messages(
            request,
            system_prompt,
        ).contains(plain("user"@, "Fetch review comments for "@ + query + "."@)),
        input.input_type == Some(InputTypeView::StartFromAmbientRunPrompt(query)) ==> chat_messages(
            request,
            system_prompt,
        ).contains(plain("user"@, "Start ambient run "@ + query + "."@)),
{
    if input.input_type is Some {
        match input.input_type->0 {
            InputTypeView::UserInputs(all) => {
                if 0 <= i < all.len() && all[i] is Some {
                    lemma_input_is_told(request, system_prompt, input, input.input_type->0, i);
                }
            },
            _ => {
                lemma_input_is_told(request, system_prompt, input, input.input_type->0, i);
            },
        }
    }
}

/// What the client asks for without words of the user is told in words of its own.
pub proof fn lemma_requests_of_the_client_are_told(
    request: RequestView,
    system_prompt: Seq<char>,
    input: InputView,
    paths: Seq<Seq<char>>,
)
    requires
        request.input == Some(input),
    ensures
        input.input_type == Some(InputTypeView::ResumeConversation) ==> chat_messages(
            request,
            system_prompt,
        ).contains(plain("user"@, "Resume the conversation."@)),
        input.input_type == Some(InputTypeView::CodeReview) ==> chat_messages(
            request,
            system_prompt,
        ).contains(plain("user"@, "Review the provided code changes."@)),
        input.input_type == Some(InputTypeView::InvokeSkill(None)) ==> chat_messages(
            request,
            system_prompt,
        ).contains(plain("user"@, "Invoke the provided skill."@)),
        input.input_type == Some(InputTypeView::CreateEnvironment(paths)) ==> chat_messages(
            request,
            system_prompt,
        ).contains(
            plain("user"@, "Create a development environment for: "@ + joined(paths, ", "@)),
        ),
{
    if input.input_type is Some && !(input.input_type->0 is UserInputs) {
        lemma_input_is_told(request, system_prompt, input, input.input_type->0, 0);
    }
}

/// What other inputs are told as.
pub proof fn lemma_other_inputs_are_told(
    request: RequestView,
    system_prompt: Seq<char>,
    input: InputView,
    inputs: Seq<Option<UserInputView>>,
    i: int,
    message: AgentMessageView,
)
    requires
        request.input == Some(input),
        input.input_type == Some(InputTypeView::UserInputs(inputs)),
        0 <= i < inputs.len(),
    ensures
        inputs[i] == Some(UserInputView::PassiveSuggestionResult) ==> chat_messages(
            request,
            system_prompt,
        ).contains(plain("system"@, "The user accepted or rejected a passive suggestion."@)),
        inputs[i] matches Some(UserInputView::EventsFromAgents(count)) ==> chat_messages(
            request,
            system_prompt,
        ).contains(
            plain("system"@, "Received "@ + decimal(count as int) + " agent lifecycle event(s)."@),
        ),
        inputs[i] == Some(UserInputView::MessagesReceivedFromAgents(seq![message]))
            ==> chat_messages(request, system_prompt).contains(
            plain(
                "system"@,
                "Messages received from agents:\n"@ + ("- from "@ + message.sender_agent_id + " to "@
                    + debug_texts(message.addresses) + ": "@ + message.subject + "\n"@
                    + message.message_body),
            ),
        ),
        inputs[i] matches Some(UserInputView::CliAgentUserQuery(query)) ==> (query.user_query
            matches Some(asked) ==> (query.running_command matches Some(running) ==> (
        running.snapshot matches Some(snapshot) ==> chat_messages(request, system_prompt).contains(
            plain(
                "user"@,
                asked + "\n\nActive command context:\n"@ + ("command: "@ + running.command + "\n"@
                    + ("command_id: "@ + snapshot.command_id + "\noutput:\n"@ + truncated(
                    snapshot.output,
                    4000,
                ))),
            ),
        )))),
{
    if inputs[i] is Some {
        lemma_input_is_told(request, system_prompt, input, input.input_type->0, i);
        if inputs[i] == Some(UserInputView::MessagesReceivedFromAgents(seq![message])) {
            let line = "- from "@ + message.sender_agent_id + " to "@ + debug_texts(
                message.addresses,
            ) + ": "@ + message.subject + "\n"@ + message.message_body;
            assert(agent_message_lines(seq![message]) =~= seq![line]);
        }
    }
}

/// Several inputs are told in their order, each once, behind everything that came before.
pub proof fn lemma_inputs_are_told_in_order(
    messages: Seq<OpenAIChatMessageView>,
    inputs: Seq<Option<UserInputView>>,
    last: UserInputView,
)
    ensures
        with_user_inputs(messages, Seq::empty()) == messages,
        with_user_inputs(messages, inputs.push(None)) == with_user_inputs(messages, inputs),
        with_user_inputs(messages, inputs.push(Some(last))).len() == with_user_inputs(
            messages,
            inputs,
        ).len() + 1,
        with_user_inputs(messages, inputs.push(Some(last))).drop_last() == with_user_inputs(
            messages,
            inputs,
        ),
        last matches UserInputView::ToolCallResult(result) ==> with_user_inputs(
            messages,
            inputs.push(Some(last)),
        ).last() == answer_to(result.tool_call_id, tool_result_text(result)),
        last matches UserInputView::UserQuery(query) ==> with_user_inputs(
            messages,
            inputs.push(Some(last)),
        ).last() == plain("user"@, query),
{
    assert(inputs.push(None).drop_last() =~= inputs);
    assert(inputs.push(Some(last)).drop_last() =~= inputs);
    assert(with_user_inputs(messages, inputs.push(Some(last))).drop_last() =~= with_user_inputs(
        messages,
        inputs,
    ));
}

/// The input comes last: what is told of it stands behind the history, and the history behind the
/// opening.
pub proof fn lemma_input_comes_last(
    request: RequestView,
    system_prompt: Seq<char>,
    input: InputView,
    inputs: Seq<Option<UserInputView>>,
    query: Seq<char>,
)
    requires
        request.input == Some(input),
    ensures
        input.input_type == Some(InputTypeView::UserQuery(query)) ==> chat_messages(
            request,
            system_prompt,
        ) == messages_before_input(request, system_prompt).push(plain("user"@, query)),
        input.input_type == Some(InputTypeView::UserInputs(inputs)) && inputs.len() > 0
            && inputs.last() == Some(UserInputView::UserQuery(query)) ==> chat_messages(
            request,
            system_prompt,
        ).last() == plain("user"@, query),
        input.input_type == Some(InputTypeView::UserInputs(inputs)) && inputs.len() > 0 && (
        inputs.last() matches Some(UserInputView::ToolCallResult(result)) && chat_messages(
            request,
            system_prompt,
        ).last() != answer_to(result.tool_call_id, tool_result_text(result))) ==> false,
        request.task_context is None ==> messages_before_input(request, system_prompt)
            == opening_messages(request, system_prompt),
{
    let before = messages_before_input(request, system_prompt);
    lemma_starts_with_instructions(request, system_prompt);
    if input.input_type == Some(InputTypeView::UserInputs(inputs)) && inputs.len() > 0
        && inputs.last() is Some {
        let all = with_user_inputs(before, inputs);
        lemma_inputs_are_told_in_order(before, inputs.drop_last(), inputs.last()->0);
        assert(inputs.drop_last().push(inputs.last()) =~= inputs);
        lemma_only_more_inputs(before, inputs.drop_last());
    }
}

proof fn lemma_only_more_inputs(
    messages: Seq<OpenAIChatMessageView>,
    inputs: Seq<Option<UserInputView>>,
)
    ensures
        with_user_inputs(messages, inputs).len() >= messages.len(),
    decreases inputs.len(),
{
    if inputs.len() > 0 {
        lemma_only_more_inputs(messages, inputs.drop_last());
    }
}

/// A request starts with the instructions, and goes on with the context of the input where there is
/// any; where nothing else is asked for, the user says to continue.
pub proof fn lemma_starts_with_instructions(request: RequestView, system_prompt: Seq<char>)
    ensures
        chat_messages(request, system_prompt).len() >= 2,
        messages_before_input(request, system_prompt).len() >= 1,
        chat_messages(request, system_prompt)[0] == plain(
            "system"@,
            system_prompt + "\n\n"@ + WARP_TOOL_INSTRUCTIONS@,
        ),
        request.input matches Some(input) ==> (input.context matches Some(context) ==> (
        context_text(context).len() > 0 ==> chat_messages(request, system_prompt)[1] == plain(
            "system"@,
            context_text(context),
        ))),
        request.input is None && request.task_context is None ==> chat_messages(
            request,
            system_prompt,
        ) == seq![
            plain("system"@, system_prompt + "\n\n"@ + WARP_TOOL_INSTRUCTIONS@),
            plain("user"@, "Continue."@),
        ],
{
    lemma_request_asks_for_something(request, system_prompt);
    lemma_opening_comes_first(request, system_prompt);
    let opening = opening_messages(request, system_prompt);
    let all = chat_messages(request, system_prompt);
    assert(opening.len() >= 1);
    assert forall|i: int| 0 <= i < opening.len() implies all[i] == opening[i] by {}
    if request.input is None && request.task_context is None {
        assert(all =~= seq![
            plain("system"@, system_prompt + "\n\n"@ + WARP_TOOL_INSTRUCTIONS@),
            plain("user"@, "Continue."@),
        ]);
    }
}

// ---------------------------------------------------------------------------------------------
// The history of a request
// ---------------------------------------------------------------------------------------------
/// What was said before is told again as it was said, by whoever said it.
pub proof fn lemma_what_was_said_is_told(
    request: RequestView,
    system_prompt: Seq<char>,
    tasks: Seq<TaskView>,
    t: int,
    i: int,
)
    requires
        request.task_context == Some(tasks),
        0 <= t < tasks.len(),
        0 <= i < tasks[t].messages.len(),
    ensures
        ({
            let all = chat_messages(request, system_prompt);
            let message = tasks[t].messages[i];
            &&& message.message matches Some(MessageContentView::UserQuery(query))
                ==> query.context is None ==> all.contains(plain("user"@, query.query))
            &&& message.message matches Some(MessageContentView::AgentOutput(text)) ==> text.len()
                > 0 ==> all.contains(plain("assistant"@, text))
            &&& message.message matches Some(MessageContentView::AgentReasoning(text))
                ==> text.len() > 0 ==> all.contains(plain("assistant"@, "[reasoning]\n"@ + text))
            &&& message.message matches Some(MessageContentView::ToolCallResult(result))
                ==> all.contains(answer_to(result.tool_call_id, tool_result_text(result)))
            &&& message.message matches Some(MessageContentView::ToolCall(call))
                ==> openai_tool_call(call) is Some ==> all.contains(
                OpenAIChatMessageView {
                    role: "assistant"@,
                    content: None,
                    tool_call_id: None,
                    tool_calls: Some(seq![openai_tool_call(call)->0]),
                },
            )
            &&& message.message == Some(
                MessageContentView::SystemQuery(Some(SystemQueryView::ResumeConversation)),
            ) ==> all.contains(plain("system"@, "Resume the conversation."@))
        }),
        tasks[t].messages[i].message matches Some(
            MessageContentView::SystemQuery(Some(SystemQueryView::AutoCodeDiff(text))),
        ) ==> chat_messages(request, system_prompt).contains(plain("system"@, text)),
        tasks[t].messages[i].message matches Some(
            MessageContentView::SystemQuery(Some(SystemQueryView::CreateNewProject(text))),
        ) ==> chat_messages(request, system_prompt).contains(plain("system"@, text)),
        tasks[t].messages[i].message matches Some(
            MessageContentView::SystemQuery(Some(SystemQueryView::CloneRepository(text))),
        ) ==> chat_messages(request, system_prompt).contains(
            plain("system"@, "Clone repository: "@ + text),
        ),
        tasks[t].messages[i].message matches Some(
            MessageContentView::SystemQuery(Some(SystemQueryView::SummarizeConversation(text))),
        ) ==> chat_messages(request, system_prompt).contains(
            plain("system"@, "Summarize conversation: "@ + text),
        ),
        tasks[t].messages[i].message matches Some(
            MessageContentView::SystemQuery(Some(SystemQueryView::FetchReviewComments(text))),
        ) ==> chat_messages(request, system_prompt).contains(
            plain("system"@, "Fetch review comments: "@ + text),
        ),
        tasks[t].messages[i].message matches Some(
            MessageContentView::Summarization(Some(SummarizationView::ConversationSummary(text))),
        ) ==> chat_messages(request, system_prompt).contains(
            plain("system"@, "Conversation summary: "@ + text),
        ),
{
    lemma_history_is_told(request, system_prompt, tasks, t, i);
}

/// The history is told in its order, each message at most once; what says nothing is left out.
pub proof fn lemma_history_is_told_in_order(
    messages: Seq<OpenAIChatMessageView>,
    history: Seq<MessageView>,
    last: MessageView,
)
    ensures
        with_history(messages, Seq::empty()) == messages,
        last.message matches Some(MessageContentView::AgentOutput(text)) ==> text.len() > 0
            ==> with_history(messages, history.push(last)) == with_history(messages, history).push(
            plain("assistant"@, text),
        ),
        last.message matches Some(MessageContentView::AgentOutput(text)) ==> text.len() == 0
            ==> with_history(messages, history.push(last)) == with_history(messages, history),
        last.message matches Some(MessageContentView::ToolCallResult(result)) ==> with_history(
            messages,
            history.push(last),
        ) == with_history(messages, history).push(
            answer_to(result.tool_call_id, tool_result_text(result)),
        ),
        last.message matches Some(MessageContentView::UserQuery(query)) ==> query.context is None
            ==> with_history(messages, history.push(last)) == with_history(messages, history).push(
            plain("user"@, query.query),
        ),
        last.message is None || last.message == Some(MessageContentView::Other) ==> with_history(
            messages,
            history.push(last),
        ) == with_history(messages, history),
{
    assert(history.push(last).drop_last() =~= history);
}

/// A query of the user is told as it is, and behind it its context where there is any.
pub proof fn lemma_query_with_context(query: Seq<char>, context: InputContextView)
    ensures
        user_query_text(query, None) == query,
        context_text(context).len() == 0 ==> user_query_text(query, Some(context)) == query,
        context_text(context).len() > 0 ==> user_query_text(query, Some(context)) == query
            + "\n\nContext:\n"@ + context_text(context),
        context_text(context) == joined(context_lines(context), "\n\n"@),
{
}

proof fn lemma_in_sum<T>(a: Seq<T>, b: Seq<T>, x: T)
    ensures
        a.contains(x) || b.contains(x) ==> (a + b).contains(x),
{
    if a.contains(x) {
        let i = choose|i: int| 0 <= i < a.len() && a[i] == x;
        assert((a + b)[i] == x);
    } else if b.contains(x) {
        let i = choose|i: int| 0 <= i < b.len() && b[i] == x;
        assert((a + b)[a.len() + i] == x);
    }
}

/// A line that is told of any part of a context is told of the context.
proof fn lemma_lines_of_parts(context: InputContextView, line: Seq<char>)
    ensures
        directory_lines(context.directory).contains(line)
            || os_lines(context.operating_system).contains(line)
            || shell_lines(context.shell).contains(line)
            || git_lines(context.git).contains(line)
            || codebase_lines(context.codebases).contains(line)
            || command_lines(
            last_of(context.executed_shell_commands, 5),
        ).contains(line) || selection_lines(context.selected_text).contains(line)
            || context_file_lines(context.files).contains(line)
            || project_rule_lines(context.project_rules).contains(line)
            ==> context_lines(context).contains(line),
{
    let a = directory_lines(context.directory);
    let b = os_lines(context.operating_system);
    let c = shell_lines(context.shell);
    let d = git_lines(context.git);
    let e = codebase_lines(context.codebases);
    let f = command_lines(
        last_of(context.executed_shell_commands, 5),
    );
    let g = selection_lines(context.selected_text);
    let h = context_file_lines(context.files);
    let i = project_rule_lines(context.project_rules);
    lemma_in_sum(a, b, line);
    lemma_in_sum(a + b, c, line);
    lemma_in_sum(a + b + c, d, line);
    lemma_in_sum(a + b + c + d, e, line);
    lemma_in_sum(a + b + c + d + e, f, line);
    lemma_in_sum(a + b + c + d + e + f, g, line);
    lemma_in_sum(a + b + c + d + e + f + g, h, line);
    lemma_in_sum(a + b + c + d + e + f + g + h, i, line);
}

/// Where the user is, on what system and in what shell and repository is told.
pub proof fn lemma_place_is_told(context: InputContextView)
    ensures
        context.directory matches Some(directory) ==> directory.pwd.len() > 0 ==> context_lines(
            context,
        ).contains("pwd: "@ + directory.pwd),
        context.directory matches Some(directory) ==> directory.home.len() > 0 ==> context_lines(
            context,
        ).contains("home: "@ + directory.home),
        context.operating_system matches Some(os) ==> os.platform.len() > 0 ==> context_lines(
            context,
        ).contains(trimmed("os: "@ + os.platform + " "@ + os.distribution)),
        context.shell matches Some(shell) ==> shell.name.len() > 0 ==> context_lines(
            context,
        ).contains(trimmed("shell: "@ + shell.name + " "@ + shell.version)),
        context.git matches Some(git) ==> git.head.len() > 0 || git.branch.len() > 0
            ==> context_lines(context).contains(
            "git: head="@ + git.head + " branch="@ + git.branch,
        ),
{
    if context.directory is Some {
        let directory = context.directory->0;
        let lines = directory_lines(context.directory);
        let pwd = "pwd: "@ + directory.pwd;
        let home = "home: "@ + directory.home;
        if directory.pwd.len() > 0 {
            assert(lines[0] == pwd);
            lemma_lines_of_parts(context, pwd);
        }
        if directory.home.len() > 0 {
            assert(lines[lines.len() - 1] == home);
            lemma_lines_of_parts(context, home);
        }
    }
    if context.operating_system is Some {
        let os = context.operating_system->0;
        let line = trimmed("os: "@ + os.platform + " "@ + os.distribution);
        if os.platform.len() > 0 {
            assert(os_lines(context.operating_system)[0] == line);
            lemma_lines_of_parts(context, line);
        }
    }
    if context.shell is Some {
        let shell = context.shell->0;
        let line = trimmed("shell: "@ + shell.name + " "@ + shell.version);
        if shell.name.len() > 0 {
            assert(shell_lines(context.shell)[0] == line);
            lemma_lines_of_parts(context, line);
        }
    }
    if context.git is Some {
        let git = context.git->0;
        let line = "git: head="@ + git.head + " branch="@ + git.branch;
        if git.head.len() > 0 || git.branch.len() > 0 {
            assert(git_lines(context.git)[0] == line);
            lemma_lines_of_parts(context, line);
        }
    }
}

/// The codebases, the last commands that were run, the selected texts and the files are told.
pub proof fn lemma_surroundings_are_told(context: InputContextView, i: int, k: int)
    ensures
        0 <= i < context.codebases.len() ==> context_lines(context).contains(
            "codebase: "@ + context.codebases[i].name + " ("@ + context.codebases[i].path + ")"@,
        ),
        0 <= i < context.executed_shell_commands.len() && i
            >= context.executed_shell_commands.len() - 5 ==> ({
            let command = context.executed_shell_commands[i];
            context_lines(context).contains(
                "recent command ["@ + command.command_id + "]: "@ + command.command + "\nexit: "@
                    + decimal(command.exit_code as int) + "\n"@ + truncated(command.output, 4000),
            )
        }),
        0 <= i < context.selected_text.len() ==> context_lines(context).contains(
            "selected text:\n"@ + truncated(context.selected_text[i], 2000),
        ),
        0 <= i < context.files.len() && context.files[i] is Some ==> context_lines(
            context,
        ).contains(
            "file: "@ + context.files[i]->0.file_path + "\n"@ + truncated(
                context.files[i]->0.content,
                6000,
            ),
        ),
        0 <= i < context.project_rules.len() && 0 <= k
            < context.project_rules[i].active_rule_files.len() ==> context_lines(context).contains(
            "project rule "@ + context.project_rules[i].active_rule_files[k].file_path + ":\n"@
                + truncated(context.project_rules[i].active_rule_files[k].content, 4000),
        ),
{
    if 0 <= i < context.codebases.len() {
        let line = "codebase: "@ + context.codebases[i].name + " ("@ + context.codebases[i].path
            + ")"@;
        assert(codebase_lines(context.codebases)[i] == line);
        lemma_lines_of_parts(context, line);
    }
    let commands = context.executed_shell_commands;
    if 0 <= i < commands.len() && i >= commands.len() - 5 {
        let command = commands[i];
        let line = "recent command ["@ + command.command_id + "]: "@ + command.command
            + "\nexit: "@ + decimal(command.exit_code as int) + "\n"@ + truncated(
            command.output,
            4000,
        );
        let last = last_of(commands, 5);
        let n = if commands.len() > 5 {
            i - (commands.len() - 5)
        } else {
            i
        };
        assert(last[n] == command);
        assert(command_lines(last)[n] == line);
        lemma_lines_of_parts(context, line);
    }
    if 0 <= i < context.selected_text.len() {
        let line = "selected text:\n"@ + truncated(context.selected_text[i], 2000);
        assert(selection_lines(context.selected_text)[i] == line);
        lemma_lines_of_parts(context, line);
    }
    if 0 <= i < context.files.len() && context.files[i] is Some {
        let line = "file: "@ + context.files[i]->0.file_path + "\n"@ + truncated(
            context.files[i]->0.content,
            6000,
        );
        lemma_files_are_told(context.files, i);
        lemma_lines_of_parts(context, line);
    }
    if 0 <= i < context.project_rules.len() && 0 <= k
        < context.project_rules[i].active_rule_files.len() {
        let file = context.project_rules[i].active_rule_files[k];
        let line = "project rule "@ + file.file_path + ":\n"@ + truncated(file.content, 4000);
        lemma_rules_are_told(context.project_rules, i, k);
        lemma_lines_of_parts(context, line);
    }
}

proof fn lemma_files_are_told(files: Seq<Option<FileContentView>>, i: int)
    requires
        0 <= i < files.len(),
        files[i] is Some,
    ensures
        context_file_lines(files).contains(
            "file: "@ + files[i]->0.file_path + "\n"@ + truncated(files[i]->0.content, 6000),
        ),
    decreases files.len(),
{
    let all = context_file_lines(files);
    let line = "file: "@ + files[i]->0.file_path + "\n"@ + truncated(files[i]->0.content, 6000);
    if i == files.len() - 1 {
        assert(all[all.len() - 1] == line);
    } else {
        lemma_files_are_told(files.drop_last(), i);
        let before = context_file_lines(files.drop_last());
        let n = choose|n: int| 0 <= n < before.len() && before[n] == line;
        assert(all[n] == line);
    }
}

proof fn lemma_rules_are_told(rules: Seq<ProjectRulesView>, i: int, k: int)
    requires
        0 <= i < rules.len(),
        0 <= k < rules[i].active_rule_files.len(),
    ensures
        project_rule_lines(rules).contains(
            "project rule "@ + rules[i].active_rule_files[k].file_path + ":\n"@ + truncated(
                rules[i].active_rule_files[k].content,
                4000,
            ),
        ),
    decreases rules.len(),
{
    let file = rules[i].active_rule_files[k];
    let line = "project rule "@ + file.file_path + ":\n"@ + truncated(file.content, 4000);
    let before = project_rule_lines(rules.drop_last());
    let last = rule_lines(rules.last().active_rule_files);
    if i == rules.len() - 1 {
        assert(last[k] == line);
    } else {
        lemma_rules_are_told(rules.drop_last(), i, k);
    }
    lemma_in_sum(before, last, line);
}

// ---------------------------------------------------------------------------------------------
// The rest of a request
// ---------------------------------------------------------------------------------------------
/// The model is the one that the user picked for coding, else one of the other picks, else the
/// configured one; the request asks for a stream and offers the tools of the request.
pub proof fn lemma_request_is_for_the_picked_model(request: RequestView, config: ConfigView)
    ensures
        request.settings matches Some(settings) ==> (settings.model_config matches Some(models)
            ==> ({
            let asked = chat_request(request, config).model;
            &&& models.coding.len() > 0 ==> asked == models.coding
            &&& models.coding.len() == 0 && models.base.len() > 0 ==> asked == models.base
            &&& models.coding.len() == 0 && models.base.len() == 0 && models.cli_agent.len() > 0
                ==> asked == models.cli_agent
            &&& models.coding.len() == 0 && models.base.len() == 0 && models.cli_agent.len() == 0
                && models.computer_use_agent.len() > 0 ==> asked == models.computer_use_agent
        })),
        request.settings is None ==> (config.model_override matches Some(model) ==> chat_request(
            request,
            config,
        ).model == model),
        request.settings is None && config.model_override is None ==> chat_request(
            request,
            config,
        ).model == "local-model"@,
        request.settings matches Some(settings) ==> (settings.model_config is None ==> (
        config.model_override matches Some(model) ==> chat_request(
            request,
            config,
        ).model == model)),
        chat_request(request, config).stream,
        chat_request(request, config).messages == chat_messages(request, config.system_prompt),
        chat_request(request, config).tools == tool_definitions(request),
{
}

/// A call that was made is told under its identifier, as a function of the name of its tool.
pub proof fn lemma_calls_keep_their_names(call: ToolCallView)
    ensures
        openai_tool_call(call) matches Some(told) ==> {
            &&& told.id == call.tool_call_id
            &&& told.kind == "function"@
            &&& call.tool matches Some(tool)
            &&& tool_arguments(tool) matches Some((name, arguments))
            &&& told.function.name == name
            &&& told.function.arguments == json_text(arguments)
        },
        call.tool is None ==> openai_tool_call(call) is None,
        call.tool matches Some(tool) ==> !(tool is Other) && !(tool is SuggestPrompt)
            ==> openai_tool_call(call) is Some,
{
}

// ---------------------------------------------------------------------------------------------
// Requests in the form of responses
// ---------------------------------------------------------------------------------------------
/// In the form of responses, the result of a call is an output of that call, other text is text of
/// its role, and each call is a function call.
pub proof fn lemma_items_of_a_message(message: OpenAIChatMessageView, fresh: Seq<char>, k: int)
    ensures
        message.content matches Some(text) ==> text.len() > 0 && message.role == "tool"@
            && message.tool_calls is None ==> ({
            let items = message_items(message, fresh);
            &&& items.len() == 1
            &&& items[0].get_str("type"@) == Some("function_call_output"@)
            &&& items[0].get_str("output"@) == Some(text)
            &&& message.tool_call_id is Some ==> items[0].get_str("call_id"@)
                == message.tool_call_id
            &&& message.tool_call_id is None ==> items[0].get_str("call_id"@) == Some(fresh)
        }),
        message.content matches Some(text) ==> text.len() > 0 && message.role != "tool"@
            && message.tool_calls is None ==> ({
            let items = message_items(message, fresh);
            &&& items.len() == 1
            &&& items[0].get_str("role"@) == Some(message.role)
            &&& items[0].get_str("content"@) == Some(text)
            &&& items[0].get("type"@) is None
        }),
        message.content is None && message.tool_calls is Some ==> ({
            let items = message_items(message, fresh);
            let calls = message.tool_calls->0;
            &&& items.len() == calls.len()
            &&& 0 <= k < calls.len() ==> items[k].get_str("type"@) == Some("function_call"@)
                && items[k].get_str("call_id"@) == Some(calls[k].id) && items[k].get_str("name"@)
                == Some(calls[k].function.name) && items[k].get_str("arguments"@) == Some(
                calls[k].function.arguments,
            )
        }),
        message.content is None && message.tool_calls is None ==> message_items(
            message,
            fresh,
        ).len() == 0,
{
    reveal_with_fuel(member_named, 5);
    lemma_item_names_differ();
    if message.content is None && message.tool_calls is Some {
        let calls = message.tool_calls->0;
        let items = message_items(message, fresh);
        assert(items =~= Seq::new(calls.len(), |i: int| call_item(calls[i])));
        if 0 <= k < calls.len() {
            lemma_call_item_reads(calls[k]);
        }
    }
    if message.content is Some && message.content->0.len() > 0 {
        let id = match message.tool_call_id {
            Some(id) => id,
            None => fresh,
        };
        lemma_output_item_reads(id, message.content->0);
        lemma_text_item_reads(message.role, message.content->0);
    }
}

proof fn lemma_item_names_differ()
    ensures
        "type"@ != "call_id"@,
        "type"@ != "output"@,
        "type"@ != "arguments"@,
        "type"@ != "name"@,
        "type"@ != "role"@,
        "type"@ != "content"@,
        "name"@ != "call_id"@,
        "name"@ != "arguments"@,
        "call_id"@ != "arguments"@,
        "output"@ != "call_id"@,
        "role"@ != "content"@,
{
    reveal_strlit("type");
    reveal_strlit("call_id");
    reveal_strlit("output");
    reveal_strlit("arguments");
    reveal_strlit("name");
    reveal_strlit("role");
    reveal_strlit("content");
    assert("type"@[0] != "name"@[0]);
    assert("type"@[0] != "role"@[0]);
    assert("type"@.len() != "call_id"@.len());
    assert("type"@.len() != "output"@.len());
    assert("type"@.len() != "arguments"@.len());
    assert("type"@.len() != "content"@.len());
    assert("name"@.len() != "call_id"@.len());
    assert("name"@.len() != "arguments"@.len());
    assert("call_id"@.len() != "arguments"@.len());
    assert("output"@.len() != "call_id"@.len());
    assert("role"@.len() != "content"@.len());
}

proof fn lemma_output_item_reads(call_id: Seq<char>, output: Seq<char>)
    ensures
        output_item(call_id, output).get("type"@) == Some(
            JsonView::Str("function_call_output"@),
        ),
        output_item(call_id, output).get("output"@) == Some(JsonView::Str(output)),
        output_item(call_id, output).get("call_id"@) == Some(JsonView::Str(call_id)),
{
    lemma_item_names_differ();
    let members = seq![
        ("call_id"@, JsonView::Str(call_id)),
        ("output"@, JsonView::Str(output)),
        ("type"@, JsonView::Str("function_call_output"@)),
    ];
    reveal_with_fuel(member_named, 4);
    assert(members.drop_last().last() == members[1]);
    assert(members.drop_last().drop_last().last() == members[0]);
}

proof fn lemma_text_item_reads(role: Seq<char>, content: Seq<char>)
    ensures
        text_item(role, content).get("role"@) == Some(JsonView::Str(role)),
        text_item(role, content).get("content"@) == Some(JsonView::Str(content)),
        text_item(role, content).get("type"@) is None,
{
    lemma_item_names_differ();
    let members = seq![("content"@, JsonView::Str(content)), ("role"@, JsonView::Str(role))];
    reveal_with_fuel(member_named, 3);
    assert(members.drop_last().last() == members[0]);
    assert(members.drop_last().drop_last().len() == 0);
}

proof fn lemma_call_item_reads(call: OpenAIMessageToolCallView)
    ensures
        call_item(call).get("type"@) == Some(JsonView::Str("function_call"@)),
        call_item(call).get("name"@) == Some(JsonView::Str(call.function.name)),
        call_item(call).get("call_id"@) == Some(JsonView::Str(call.id)),
        call_item(call).get("arguments"@) == Some(
            JsonView::Str(call.function.arguments),
        ),
{
    lemma_item_names_differ();
    let members = seq![
        ("arguments"@, JsonView::Str(call.function.arguments)),
        ("call_id"@, JsonView::Str(call.id)),
        ("name"@, JsonView::Str(call.function.name)),
        ("type"@, JsonView::Str("function_call"@)),
    ];
    reveal_with_fuel(member_named, 5);
    assert(members.drop_last().last() == members[2]);
    assert(members.drop_last().drop_last().last() == members[1]);
    assert(members.drop_last().drop_last().drop_last().last() == members[0]);
}

/// The items of messages follow one another as the messages do.
pub proof fn lemma_items_follow_the_messages(
    messages: Seq<OpenAIChatMessageView>,
    last: OpenAIChatMessageView,
    fresh: Seq<Seq<char>>,
)
    ensures
        messages_items(Seq::empty(), fresh) == Seq::<JsonView>::empty(),
        messages_items(messages.push(last), fresh) == messages_items(messages, fresh)
            + message_items(last, fresh[messages.len() as int]),
{
    assert(messages.push(last).drop_last() =~= messages);
}

/// Text is never dropped; a call and its output are kept where both are there; what is kept keeps
/// its order.
pub proof fn lemma_what_is_kept(items: Seq<JsonView>, i: int, j: int, id: Seq<char>)
    ensures
        0 <= i < items.len() && items[i].get("type"@) is None ==> paired_items(items).contains(
            items[i],
        ),
        0 <= i < items.len() && 0 <= j < items.len() && items[i].get("type"@) == Some(
            JsonView::Str("function_call"@),
        ) && items[i].get("call_id"@) == Some(JsonView::Str(id)) && items[j].get("type"@) == Some(
            JsonView::Str("function_call_output"@),
        ) && items[j].get("call_id"@) == Some(JsonView::Str(id)) ==> paired_items(items).contains(
            items[i],
        ) && paired_items(items).contains(items[j]),
        paired_items(items).len() <= items.len(),
{
    lemma_kept_among(items, items.len() as int, i);
    lemma_kept_among(items, items.len() as int, j);
    reveal_strlit("function_call");
    reveal_strlit("function_call_output");
    assert("function_call"@.len() != "function_call_output"@.len());
    if 0 <= i < items.len() && 0 <= j < items.len() && items[i].get("type"@) == Some(
        JsonView::Str("function_call"@),
    ) && items[i].get("call_id"@) == Some(JsonView::Str(id)) && items[j].get("type"@) == Some(
        JsonView::Str("function_call_output"@),
    ) && items[j].get("call_id"@) == Some(JsonView::Str(id)) {
        assert(speaks_of(items[i], "function_call"@, id));
        assert(speaks_of(items[j], "function_call_output"@, id));
        assert(any_speaks_of(items, "function_call"@, id));
        assert(any_speaks_of(items, "function_call_output"@, id));
    }
}

proof fn lemma_kept_among(items: Seq<JsonView>, n: int, i: int)
    requires
        n <= items.len(),
    ensures
        0 <= i < n && paired(items, items[i]) ==> paired_among(items, n).contains(items[i]),
        n >= 0 ==> paired_among(items, n).len() <= n,
    decreases n,
{
    if n > 0 {
        lemma_kept_among(items, n - 1, i);
        let before = paired_among(items, n - 1);
        let all = paired_among(items, n);
        if 0 <= i < n && paired(items, items[i]) {
            if i == n - 1 {
                assert(all[all.len() - 1] == items[i]);
            } else {
                let k = choose|k: int| 0 <= k < before.len() && before[k] == items[i];
                assert(all[k] == items[i]);
            }
        }
    }
}

// ---------------------------------------------------------------------------------------------
// The texts of results
// ---------------------------------------------------------------------------------------------
/// The result of a command says the command, how it ended and what it put out.
pub proof fn lemma_results_of_commands(result: ToolCallResultView)
    ensures
        result.result matches Some(ToolResultView::RunShellCommand(run)) ==> ({
            let text = tool_result_text(result);
            &&& run.result matches Some(RunShellCommandOutcomeView::CommandFinished(done)) ==> text
                == "command: "@ + run.command + "\ncommand_id: "@ + done.command_id
                + "\nexit_code: "@ + decimal(done.exit_code as int) + "\noutput:\n"@ + truncated(
                done.output,
                12000,
            )
            &&& run.result matches Some(
                RunShellCommandOutcomeView::LongRunningCommandSnapshot(shot),
            ) ==> text == "command: "@ + run.command + "\n"@ + ("command_id: "@ + shot.command_id
                + "\nstatus: still running\nalt_screen: "@ + (if shot.is_alt_screen_active {
                "true"@
            } else {
                "false"@
            }) + "\npreempted: "@ + (if shot.is_preempted {
                "true"@
            } else {
                "false"@
            }) + "\noutput:\n"@ + truncated(shot.output, 12000))
            &&& run.result == Some(RunShellCommandOutcomeView::PermissionDenied) ==> text
                == "command denied by user or policy: "@ + run.command
            &&& run.result is None ==> text == "command: "@ + run.command + "\nexit_code: "@
                + decimal(run.exit_code as int) + "\noutput:\n"@ + truncated(run.output, 12000)
        }),
        result.result matches Some(ToolResultView::ReadShellCommandOutput(read)) ==> ({
            let text = tool_result_text(result);
            &&& read.result matches Some(ShellOutcomeView::CommandFinished(done))
                ==> read.command.len() > 0 ==> text == "command: "@ + read.command + "\n"@ + (
            "command_id: "@ + done.command_id + "\nexit_code: "@ + decimal(done.exit_code as int)
                + "\noutput:\n"@ + truncated(done.output, 12000))
            &&& read.result matches Some(ShellOutcomeView::Error(error)) ==> text
                == "read_shell_command_output"@ + " failed: "@ + error
            &&& read.result is None ==> text == "command: "@ + read.command
                + "\nread_shell_command_output returned no result."@
        }),
        result.result matches Some(
            ToolResultView::WriteToLongRunningShellCommand(Some(ShellOutcomeView::Error(error))),
        ) ==> tool_result_text(result) == "write_to_lrc"@ + " failed: "@ + error,
        result.result matches Some(
            ToolResultView::TransferShellCommandControlToUser(Some(ShellOutcomeView::Error(error))),
        ) ==> tool_result_text(result) == "transfer_shell_command_control"@ + " failed: "@ + error,
        result.result == Some(ToolResultView::WriteToLongRunningShellCommand(None))
            ==> tool_result_text(result) == "write_to_lrc returned no result."@,
        result.result == Some(ToolResultView::TransferShellCommandControlToUser(None))
            ==> tool_result_text(result) == "transfer_shell_command_control returned no result."@,
{
}

/// The result of writing to a running command, or of handing it over, says how the command stands.
pub proof fn lemma_results_of_running_commands(result: ToolCallResultView)
    ensures
        (result.result matches Some(
            ToolResultView::WriteToLongRunningShellCommand(
                Some(ShellOutcomeView::CommandFinished(done)),
            ),
        )) ==> ({
            let done = result.result->0->WriteToLongRunningShellCommand_0->0->CommandFinished_0;
            tool_result_text(result) =~= "command_id: "@ + done.command_id + "\nexit_code: "@
                + decimal(done.exit_code as int) + "\noutput:\n"@ + truncated(done.output, 12000)
        }),
        (result.result matches Some(
            ToolResultView::TransferShellCommandControlToUser(
                Some(ShellOutcomeView::CommandFinished(done)),
            ),
        )) ==> ({
            let done = result.result->0->TransferShellCommandControlToUser_0->0->CommandFinished_0;
            tool_result_text(result) =~= "command_id: "@ + done.command_id + "\nexit_code: "@
                + decimal(done.exit_code as int) + "\noutput:\n"@ + truncated(done.output, 12000)
        }),
        result.result matches Some(
            ToolResultView::WriteToLongRunningShellCommand(
                Some(ShellOutcomeView::LongRunningCommandSnapshot(shot)),
            ),
        ) ==> tool_result_text(result) == "command_id: "@ + shot.command_id
            + "\nstatus: still running\nalt_screen: "@ + (if shot.is_alt_screen_active {
            "true"@
        } else {
            "false"@
        }) + "\npreempted: "@ + (if shot.is_preempted {
            "true"@
        } else {
            "false"@
        }) + "\noutput:\n"@ + truncated(shot.output, 12000),
{
}

/// A file as it is told: its path, the range of its lines where that is given, and its content.
pub open spec fn file_as_told(file: FileContentView) -> Seq<char> {
    "file: "@ + file.file_path + (match file.line_range {
        Some(range) => " lines "@ + decimal(range.start as int) + "-"@ + decimal(range.end as int),
        None => Seq::empty(),
    }) + "\n"@ + truncated(file.content, 12000)
}

/// The result of reading or searching files says what is in them, one after another.
pub proof fn lemma_results_of_reading(result: ToolCallResultView, files: Seq<FileContentView>)
    ensures
        files.len() > 0 && result.result == Some(
            ToolResultView::ReadFiles(Some(ReadFilesOutcomeView::TextFilesSuccess(files))),
        ) ==> tool_result_text(result) == "read_files"@ + " result:\n"@ + joined(
            Seq::new(files.len(), |i: int| file_as_told(files[i])),
            "\n\n"@,
        ),
        files.len() > 0 && result.result == Some(
            ToolResultView::SearchCodebase(Some(SearchCodebaseOutcomeView::Success(files))),
        ) ==> tool_result_text(result) == "search_codebase"@ + " result:\n"@ + joined(
            Seq::new(files.len(), |i: int| file_as_told(files[i])),
            "\n\n"@,
        ),
        files.len() == 0 && result.result == Some(
            ToolResultView::ReadFiles(Some(ReadFilesOutcomeView::TextFilesSuccess(files))),
        ) ==> tool_result_text(result) == "read_files"@ + " returned no files."@,
        files.len() == 0 && result.result == Some(
            ToolResultView::SearchCodebase(Some(SearchCodebaseOutcomeView::Success(files))),
        ) ==> tool_result_text(result) == "search_codebase"@ + " returned no files."@,
        result.result matches Some(
            ToolResultView::ReadFiles(Some(ReadFilesOutcomeView::Error(message))),
        ) ==> tool_result_text(result) == "read_files failed: "@ + message,
        result.result matches Some(
            ToolResultView::SearchCodebase(Some(SearchCodebaseOutcomeView::Error(message))),
        ) ==> tool_result_text(result) == "search_codebase failed: "@ + message,
        result.result matches Some(
            ToolResultView::ReadSkill(Some(ReadSkillOutcomeView::Success(Some(file)))),
        ) ==> tool_result_text(result) == "read_skill result:\n"@ + file_as_told(file),
        result.result matches Some(
            ToolResultView::ReadSkill(Some(ReadSkillOutcomeView::Error(message))),
        ) ==> tool_result_text(result) == "read_skill failed: "@ + message,
{
    reveal_strlit("file: ");
    let texts = file_texts(files);
    assert(texts =~= Seq::new(files.len(), |i: int| file_as_told(files[i])));
    if files.len() > 0 {
        assert(texts[0].len() >= 6);
        lemma_joined_is_longer(texts, "\n\n"@);
    }
}

proof fn lemma_joined_is_longer(parts: Seq<Seq<char>>, separator: Seq<char>)
    requires
        parts.len() > 0,
    ensures
        joined(parts, separator).len() >= parts[0].len(),
    decreases parts.len(),
{
    if parts.len() > 1 {
        lemma_joined_is_longer(parts.drop_last(), separator);
    }
}

/// What was read of files of any kind, and what a search for patterns found.
pub proof fn lemma_results_of_finding(
    result: ToolCallResultView,
    file: AnyFileContentView,
    path: Seq<char>,
    lines: Seq<u32>,
)
    ensures
        result.result == Some(
            ToolResultView::ReadFiles(Some(ReadFilesOutcomeView::AnyFilesSuccess(seq![file]))),
        ) ==> tool_result_text(result) == "read_files"@ + " result:\n"@ + (match file {
            AnyFileContentView::Text(content) => file_as_told(content),
            AnyFileContentView::Binary(binary) => "binary file: "@ + binary.file_path + "\nbytes: "@
                + decimal(binary.data.len() as int),
            AnyFileContentView::Empty => "empty file content"@,
        }),
        result.result == Some(
            ToolResultView::Grep(
                Some(
                    GrepOutcomeView::Success(
                        seq![GrepFileView { file_path: path, matched_lines: lines }],
                    ),
                ),
            ),
        ) ==> tool_result_text(result) == "grep matches:\n"@ + (path + ": lines ["@ + joined(
            Seq::new(lines.len(), |i: int| decimal(lines[i] as int)),
            ", "@,
        ) + "]"@),
        result.result == Some(ToolResultView::Grep(Some(GrepOutcomeView::Success(Seq::empty()))))
            ==> tool_result_text(result) == "grep found no matches."@,
        result.result matches Some(ToolResultView::Grep(Some(GrepOutcomeView::Error(message))))
            ==> tool_result_text(result) == "grep failed: "@ + message,
        result.result matches Some(
            ToolResultView::FileGlob(Some(FileGlobOutcomeView::Success(files))),
        ) ==> tool_result_text(result) == "file_glob matches:\n"@ + files,
        result.result matches Some(
            ToolResultView::FileGlob(Some(FileGlobOutcomeView::Error(message))),
        ) ==> tool_result_text(result) == "file_glob failed: "@ + message,
        result.result matches Some(
            ToolResultView::FileGlobV2(Some(FileGlobV2OutcomeView::Success(found))),
        ) ==> blank(found.warnings) && joined(found.matched_files, "\n"@).len() > 0
            ==> tool_result_text(result) =~= "file_glob_v2 matches:\n"@ + joined(
            found.matched_files,
            "\n"@,
        ),
        result.result matches Some(
            ToolResultView::FileGlobV2(Some(FileGlobV2OutcomeView::Success(found))),
        ) ==> !blank(found.warnings) && joined(found.matched_files, "\n"@).len() > 0
            ==> tool_result_text(result) == "file_glob_v2 matches:\n"@ + joined(
            found.matched_files,
            "\n"@,
        ) + ("\nwarnings:\n"@ + found.warnings),
        result.result matches Some(
            ToolResultView::FileGlobV2(Some(FileGlobV2OutcomeView::Error(message))),
        ) ==> tool_result_text(result) == "file_glob_v2 failed: "@ + message,
{
    reveal_strlit("file: ");
    reveal_strlit("binary file: ");
    reveal_strlit("empty file content");
    reveal_strlit("]");
    let texts = any_file_texts(seq![file]);
    assert(texts.len() == 1);
    assert(texts[0].len() > 0);
    let grep = GrepFileView { file_path: path, matched_lines: lines };
    let found = grep_file_texts(seq![grep]);
    assert(line_number_texts(lines) =~= Seq::new(
        lines.len(),
        |i: int| decimal(lines[i] as int),
    ));
    assert(found.len() == 1);
    assert(found[0].len() > 0);
}

/// What the user answered, and what became of edits.
pub proof fn lemma_results_of_asking_and_editing(
    result: ToolCallResultView,
    answer: AnswerItemView,
    updated: Seq<Seq<char>>,
    deleted: Seq<Seq<char>>,
)
    ensures
        result.result == Some(
            ToolResultView::AskUserQuestion(
                Some(AskUserQuestionOutcomeView::Success(seq![answer]))
            ),
        ) ==> tool_result_text(result) == "ask_user_question answers:\n"@ + (match answer.answer {
            Some(AnswerView::MultipleChoice(choice)) => if blank(choice.other_text) {
                answer.question_id + ": "@ + joined(choice.selected_options, ", "@)
            } else {
                answer.question_id + ": "@ + joined(choice.selected_options, ", "@) + " other="@
                    + choice.other_text
            },
            Some(AnswerView::Skipped) => answer.question_id + ": skipped"@,
            None => answer.question_id + ": no answer"@,
        }),
        result.result matches Some(
            ToolResultView::AskUserQuestion(Some(AskUserQuestionOutcomeView::Error(message))),
        ) ==> tool_result_text(result) == "ask_user_question failed: "@ + message,
        result.result matches Some(
            ToolResultView::ApplyFileDiffs(Some(ApplyFileDiffsOutcomeView::Success(done))),
        ) ==> done.updated_files == Seq::new(
            updated.len(),
            |i: int| Some(updated[i]),
        ) && done.deleted_files == deleted ==> tool_result_text(result)
            == "file edits applied. updated: ["@ + joined(updated, ", "@) + "] deleted: ["@
            + joined(deleted, ", "@) + "]"@,
        result.result matches Some(
            ToolResultView::ApplyFileDiffs(Some(ApplyFileDiffsOutcomeView::Error(message))),
        ) ==> tool_result_text(result) == "file edits failed: "@ + message,
        result.result matches Some(ToolResultView::Other(shown)) ==> tool_result_text(result)
            == "Tool result: "@ + shown,
        result.result is None ==> tool_result_text(result) == "Tool returned no result."@,
{
    reveal_strlit(": ");
    reveal_strlit(": skipped");
    reveal_strlit(": no answer");
    let texts = answer_texts(seq![answer]);
    assert(texts.len() == 1);
    assert(texts[0].len() > 0);
    lemma_present(updated);
}

proof fn lemma_present(texts: Seq<Seq<char>>)
    ensures
        present(Seq::new(texts.len(), |i: int| Some(texts[i]))) == texts,
    decreases texts.len(),
{
    let all = Seq::new(texts.len(), |i: int| Some(texts[i]));
    if texts.len() > 0 {
        let rest = texts.drop_last();
        lemma_present(rest);
        assert(all.drop_last() =~= Seq::new(rest.len(), |i: int| Some(rest[i])));
        assert(rest.push(texts.last()) =~= texts);
    } else {
        assert(present(all) =~= texts);
    }
}

// ---------------------------------------------------------------------------------------------
// Rarer inputs and results
// ---------------------------------------------------------------------------------------------
/// What the client asks for of rules and suggestions, and inputs that are not known.
pub proof fn lemma_rarer_inputs_are_told(
    request: RequestView,
    system_prompt: Seq<char>,
    input: InputView,
    inputs: Seq<Option<UserInputView>>,
    i: int,
)
    requires
        request.input == Some(input),
    ensures
        input.input_type == Some(InputTypeView::InitProjectRules) ==> chat_messages(
            request,
            system_prompt,
        ).contains(
            plain(
                "user"@,
                "Generate or update local project rules for this repository. Use apply_file_diffs to create or edit WARP.md/AGENTS.md rather than only describing the rule text."@,
            ),
        ),
        input.input_type == Some(
            InputTypeView::GeneratePassiveSuggestions
        ) ==> exists|text: Seq<char>|
            #[trigger] chat_messages(request, system_prompt).contains(plain("user"@, text))
                && passive_suggestion_is_asked_for(request, text),
        input.input_type == Some(InputTypeView::UserInputs(inputs)) && 0 <= i < inputs.len()
            && inputs[i] == Some(UserInputView::Other) ==> chat_messages(
            request,
            system_prompt,
        ).contains(
            plain(
                "system"@,
                "Received a Warp input type that this BYOB proxy does not yet translate explicitly."@,
            ),
        ),
{
    if input.input_type == Some(InputTypeView::UserInputs(inputs)) && 0 <= i < inputs.len()
        && inputs[i] == Some(UserInputView::Other) {
        lemma_input_is_told(request, system_prompt, input, input.input_type->0, i);
    }
    if input.input_type == Some(InputTypeView::InitProjectRules) {
        lemma_input_is_told(request, system_prompt, input, input.input_type->0, i);
    }
    if input.input_type == Some(InputTypeView::GeneratePassiveSuggestions) {
        lemma_input_is_told(request, system_prompt, input, input.input_type->0, i);
        let text = passive_instruction(request);
        let start =
            "Warp is asking for a passive suggestion based on recent terminal context. If no suggestion is genuinely useful, return no text and call no tools."@;
        let end = " Do not answer with explanatory prose for passive suggestions."@;
        assert(text =~= start + text.subrange(
            start.len() as int,
            text.len() - end.len(),
        ) + end);
        assert(chat_messages(request, system_prompt).contains(plain("user"@, text)));
        let prompt =
            " If a follow-up Agent Mode prompt would help, call suggest_prompt exactly once. Prefer prompt_chip mode with a concise label."@;
        let edits =
            " If a small code-edit banner would be clearly useful, call apply_file_diffs exactly once."@;
        let middle = text.subrange(start.len() as int, text.len() - end.len());
        let asks = usable(request, ToolType::SuggestPrompt);
        let edited = usable(request, ToolType::ApplyFileDiffs);
        if asks && edited {
            assert(middle =~= prompt + edits);
        } else if asks {
            assert(middle =~= prompt);
        } else if edited {
            assert(middle =~= edits);
        } else {
            assert(middle =~= Seq::empty());
        }
    }
}

/// Whether a text asks for a passive suggestion, and names only those tools that the client can
/// use.
pub open spec fn passive_suggestion_is_asked_for(request: RequestView, text: Seq<char>) -> bool {
    let prompt =
        " If a follow-up Agent Mode prompt would help, call suggest_prompt exactly once. Prefer prompt_chip mode with a concise label."@;
    let edits =
        " If a small code-edit banner would be clearly useful, call apply_file_diffs exactly once."@;
    exists|middle: Seq<char>|
        text
           
               
                   
                       
                           
                               
                                   
                                       
                                           
                                               
                                                   
                                                       
                                                           
                                                               
                                                                   
                                                                       
                                                                           
                                                                               
                                                                                   
                                                                                       
                                                                                           
                                                                                               
                                                                                                   
                                                                                                        == "Warp is asking for a passive suggestion based on recent terminal context. If no suggestion is genuinely useful, return no text and call no tools."@
            + middle + " Do not answer with explanatory prose for passive suggestions."@ && {
            &&& usable(request, ToolType::SuggestPrompt) && usable(
                request,
                ToolType::ApplyFileDiffs,
            )
                ==> middle == prompt + edits
            &&& usable(request, ToolType::SuggestPrompt) && !usable(
                request,
                ToolType::ApplyFileDiffs,
            ) ==> middle == prompt
            &&& !usable(request, ToolType::SuggestPrompt) && usable(
                request,
                ToolType::ApplyFileDiffs,
            ) ==> middle == edits
            &&& !usable(request, ToolType::SuggestPrompt) && !usable(
                request,
                ToolType::ApplyFileDiffs,
            ) ==> middle.len() == 0
        }
}

/// A query to a running command without words, or without a command.
pub proof fn lemma_bare_queries_to_commands(query: CliAgentUserQueryView)
    ensures
        query.user_query is None && query.running_command is None ==> cli_query_text(query)
            == "\n\nActive command context:\n"@,
        query.running_command is None ==> (query.user_query matches Some(asked) ==> cli_query_text(
            query,
        ) == asked + "\n\nActive command context:\n"@),
        query.user_query is None ==> (query.running_command matches Some(running) ==> (
        running.snapshot is None ==> cli_query_text(query) == "\n\nActive command context:\n"@ + (
        "command: "@ + running.command + "\n"@))),
{
    let head = "\n\nActive command context:\n"@;
    assert(Seq::<char>::empty() + head =~= head);
    assert(head + Seq::<char>::empty() =~= head);
    if query.running_command is Some && query.running_command->0.snapshot is None {
        let line = "command: "@ + query.running_command->0.command + "\n"@;
        assert(line + Seq::<char>::empty() =~= line);
    }
    if query.user_query is Some {
        let both = query.user_query->0 + head;
        assert(both + Seq::<char>::empty() =~= both);
    }
}

/// Messages of several agents are told one below another, in their order.
pub proof fn lemma_agents_are_told_in_order(
    messages: Seq<AgentMessageView>,
    last: AgentMessageView,
)
    requires
        messages.len() > 0,
    ensures
        user_input_message(
            UserInputView::MessagesReceivedFromAgents(messages.push(last)),
        ).content->0 == user_input_message(
            UserInputView::MessagesReceivedFromAgents(messages),
        ).content->0 + "\n"@ + ("- from "@ + last.sender_agent_id + " to "@ + debug_texts(
            last.addresses,
        ) + ": "@ + last.subject + "\n"@ + last.message_body),
{
    let line = "- from "@ + last.sender_agent_id + " to "@ + debug_texts(last.addresses) + ": "@
        + last.subject + "\n"@ + last.message_body;
    let before = agent_message_lines(messages);
    let after = agent_message_lines(messages.push(last));
    assert(after =~= before.push(line));
    assert(before.push(line).drop_last() =~= before);
    assert("Messages received from agents:\n"@ + (joined(before, "\n"@) + "\n"@ + line)
        =~= "Messages received from agents:\n"@ + joined(before, "\n"@) + "\n"@ + line);
}

/// System queries without words of their own, and summaries without a text.
pub proof fn lemma_rarer_history_is_told(
    request: RequestView,
    system_prompt: Seq<char>,
    tasks: Seq<TaskView>,
    t: int,
    i: int,
)
    requires
        request.task_context == Some(tasks),
        0 <= t < tasks.len(),
        0 <= i < tasks[t].messages.len(),
    ensures
        ({
            let all = chat_messages(request, system_prompt);
            let content = tasks[t].messages[i].message;
            &&& content == Some(
                MessageContentView::SystemQuery(Some(SystemQueryView::GeneratePassiveSuggestions)),
            ) ==> all.contains(plain("system"@, "Generate passive suggestions."@))
            &&& content == Some(MessageContentView::SystemQuery(None)) || content == Some(
                MessageContentView::SystemQuery(Some(SystemQueryView::Other)),
            ) ==> all.contains(plain("system"@, "System query."@))
            &&& content == Some(
                MessageContentView::Summarization(Some(SummarizationView::ToolCallResultSummary)),
            ) ==> all.contains(
                plain(
                    "system"@,
                    "Conversation summary: "@ + "A prior tool call result was summarized."@,
                ),
            )
            &&& content == Some(MessageContentView::Summarization(None)) ==> all.contains(
                plain("system"@, "Conversation summary: "@),
            )
            &&& content matches Some(MessageContentView::UserQuery(query)) ==> query.context is Some
                && context_text(query.context->0).len() > 0 ==> all.contains(
                plain(
                    "user"@,
                    query.query + "\n\nContext:\n"@ + context_text(query.context->0),
                ),
            )
        }),
{
    lemma_history_is_told(request, system_prompt, tasks, t, i);
    assert("Conversation summary: "@ + Seq::<char>::empty() =~= "Conversation summary: "@);
}

/// The tasks are told one after another, each with its own history.
pub proof fn lemma_tasks_are_told_in_order(
    messages: Seq<OpenAIChatMessageView>,
    tasks: Seq<TaskView>,
    last: TaskView,
)
    ensures
        with_tasks(messages, Seq::empty()) == messages,
        with_tasks(messages, tasks.push(last)) == with_history(
            with_tasks(messages, tasks),
            last.messages,
        ),
        with_tasks(messages, seq![last]) == with_history(messages, last.messages),
{
    assert(tasks.push(last).drop_last() =~= tasks);
    assert(seq![last].drop_last() =~= Seq::empty());
    reveal_with_fuel(with_tasks, 2);
}

/// Nothing is told of a context that holds nothing.
pub proof fn lemma_empty_context(context: InputContextView)
    requires
        context.directory is None,
        context.operating_system is None,
        context.shell is None,
        context.git is None,
        context.codebases.len() == 0,
        context.executed_shell_commands.len() == 0,
        context.selected_text.len() == 0,
        context.files.len() == 0,
        context.project_rules.len() == 0,
    ensures
        context_text(context).len() == 0,
        context_lines(context).len() == 0,
{
}

/// Where the user is comes first, then the system, the shell and the repository; what is not known
/// is left out.
pub proof fn lemma_order_of_context(context: InputContextView)
    ensures
        ({
            let lines = context_lines(context);
            let pwd = context.directory is Some && context.directory->0.pwd.len() > 0;
            let home = context.directory is Some && context.directory->0.home.len() > 0;
            let os = context.operating_system is Some && (
            context.operating_system->0.platform.len() > 0
                || context.operating_system->0.distribution.len() > 0);
            let shell = context.shell is Some && context.shell->0.name.len() > 0;
            let git = context.git is Some && (context.git->0.head.len() > 0
                || context.git->0.branch.len() > 0);
            let at_home: int = if pwd { 1 } else { 0 };
            let at_os: int = at_home + if home { 1int } else { 0 };
            let at_shell: int = at_os + if os { 1int } else { 0 };
            let at_git: int = at_shell + if shell { 1int } else { 0 };
            let at_codebases: int = at_git + if git { 1int } else { 0 };
            &&& pwd ==> lines[0] == "pwd: "@ + context.directory->0.pwd
            &&& home ==> lines[at_home] == "home: "@ + context.directory->0.home
            &&& os ==> lines[at_os] == trimmed(
                "os: "@ + context.operating_system->0.platform + " "@
                    + context.operating_system->0.distribution,
            )
            &&& shell ==> lines[at_shell] == trimmed(
                "shell: "@ + context.shell->0.name + " "@ + context.shell->0.version,
            )
            &&& git ==> lines[at_git] == "git: head="@ + context.git->0.head + " branch="@
                + context.git->0.branch
            &&& context.codebases.len() > 0 ==> lines[at_codebases] == "codebase: "@
                + context.codebases[0].name + " ("@ + context.codebases[0].path + ")"@
        }),
{
}

/// What is told of a tool that gave nothing.
pub proof fn lemma_results_without_a_result(result: ToolCallResultView)
    ensures
        result.result == Some(ToolResultView::ReadFiles(None)) ==> tool_result_text(result)
            == "read_files returned no result."@,
        result.result == Some(ToolResultView::SearchCodebase(None)) ==> tool_result_text(result)
            == "search_codebase returned no result."@,
        result.result == Some(ToolResultView::Grep(None)) ==> tool_result_text(result)
            == "grep returned no result."@,
        result.result == Some(ToolResultView::FileGlob(None)) ==> tool_result_text(result)
            == "file_glob returned no result."@,
        result.result == Some(ToolResultView::FileGlobV2(None)) ==> tool_result_text(result)
            == "file_glob_v2 returned no result."@,
        result.result == Some(ToolResultView::ReadSkill(None)) ==> tool_result_text(result)
            == "read_skill returned no result."@,
        result.result == Some(ToolResultView::ReadSkill(Some(ReadSkillOutcomeView::Success(None))))
            ==> tool_result_text(result) == "read_skill returned success without content."@,
        result.result == Some(ToolResultView::AskUserQuestion(None)) ==> tool_result_text(result)
            == "ask_user_question returned no result."@,
        result.result == Some(
            ToolResultView::AskUserQuestion(
                Some(AskUserQuestionOutcomeView::Success(Seq::empty())),
            ),
        ) ==> tool_result_text(result) == "ask_user_question completed with no answers."@,
        result.result == Some(ToolResultView::ApplyFileDiffs(None)) ==> tool_result_text(result)
            == "file edit result was empty"@,
        result.result matches Some(
            ToolResultView::FileGlobV2(Some(FileGlobV2OutcomeView::Success(found))),
        ) ==> found.matched_files.len() == 0 ==> (blank(found.warnings) ==> tool_result_text(result)
            =~= "file_glob_v2 found no matches."@) && (!blank(found.warnings) ==> tool_result_text(
            result,
        ) == "file_glob_v2 found no matches."@ + ("\nwarnings:\n"@ + found.warnings)),
        result.result matches Some(ToolResultView::ReadShellCommandOutput(read)) ==> (
        read.result matches Some(ShellOutcomeView::LongRunningCommandSnapshot(shot))
            ==> tool_result_text(result) == "command: "@ + read.command + "\n"@ + tool_result_text(
            ToolCallResultView {
                tool_call_id: result.tool_call_id,
                result: Some(
                    ToolResultView::WriteToLongRunningShellCommand(
                        Some(ShellOutcomeView::LongRunningCommandSnapshot(shot)),
                    ),
                ),
            },
        )),
        result.result matches Some(ToolResultView::TransferShellCommandControlToUser(outcome)) ==> (
        outcome matches Some(ShellOutcomeView::LongRunningCommandSnapshot(shot))
            ==> tool_result_text(result) == tool_result_text(
            ToolCallResultView {
                tool_call_id: result.tool_call_id,
                result: Some(
                    ToolResultView::WriteToLongRunningShellCommand(
                        Some(ShellOutcomeView::LongRunningCommandSnapshot(shot)),
                    ),
                ),
            },
        )),
{
}

/// Files, matches and answers are told one after another, in their order.
pub proof fn lemma_results_are_told_in_order(
    files: Seq<AnyFileContentView>,
    file: AnyFileContentView,
    matched: Seq<GrepFileView>,
    one: GrepFileView,
    answers: Seq<AnswerItemView>,
    answer: AnswerItemView,
    id: Seq<char>,
)
    requires
        files.len() > 0,
        matched.len() > 0,
        answers.len() > 0,
    ensures
        of_files(id, files.push(file)) == of_files(id, files) + "\n\n"@ + of_files(
            id,
            seq![file],
        ).skip(("read_files"@ + " result:\n"@).len() as int),
        of_matches(id, matched.push(one)) == of_matches(id, matched) + "\n"@ + of_matches(
            id,
            seq![one],
        ).skip("grep matches:\n"@.len() as int),
        of_answers(id, answers.push(answer)) == of_answers(id, answers) + "\n"@ + of_answers(
            id,
            seq![answer],
        ).skip("ask_user_question answers:\n"@.len() as int),
{
    reveal_strlit("file: ");
    reveal_strlit("binary file: ");
    reveal_strlit("empty file content");
    reveal_strlit("]");
    reveal_strlit(": ");
    reveal_strlit(": skipped");
    reveal_strlit(": no answer");
    let head = "read_files"@ + " result:\n"@;
    let texts = any_file_texts(files);
    let text = any_file_text(file);
    lemma_joined_goes_on(texts, text, "\n\n"@);
    assert(any_file_texts(files.push(file)) =~= texts.push(text));
    assert(any_file_texts(seq![file]) =~= seq![text]);
    assert(texts[0].len() > 0);
    assert(text.len() > 0);
    assert((head + text).skip(head.len() as int) =~= text);
    assert(head + (joined(texts, "\n\n"@) + "\n\n"@ + text) =~= head + joined(texts, "\n\n"@)
        + "\n\n"@ + text);
    let head = "grep matches:\n"@;
    let texts = grep_file_texts(matched);
    let text = grep_file_text(one);
    lemma_joined_goes_on(texts, text, "\n"@);
    assert(grep_file_texts(matched.push(one)) =~= texts.push(text));
    assert(grep_file_texts(seq![one]) =~= seq![text]);
    assert(texts[0].len() > 0);
    assert(text.len() > 0);
    assert((head + text).skip(head.len() as int) =~= text);
    assert(head + (joined(texts, "\n"@) + "\n"@ + text) =~= head + joined(texts, "\n"@) + "\n"@
        + text);
    let head = "ask_user_question answers:\n"@;
    let texts = answer_texts(answers);
    let text = answer_text(answer);
    lemma_joined_goes_on(texts, text, "\n"@);
    assert(answer_texts(answers.push(answer)) =~= texts.push(text));
    assert(answer_texts(seq![answer]) =~= seq![text]);
    assert(texts[0].len() > 0);
    assert(text.len() > 0);
    assert((head + text).skip(head.len() as int) =~= text);
    assert(head + (joined(texts, "\n"@) + "\n"@ + text) =~= head + joined(texts, "\n"@) + "\n"@
        + text);
}

/// What is told of files of any kind that were read.
pub open spec fn of_files(id: Seq<char>, files: Seq<AnyFileContentView>) -> Seq<char> {
    tool_result_text(
        ToolCallResultView {
            tool_call_id: id,
            result: Some(
                ToolResultView::ReadFiles(Some(ReadFilesOutcomeView::AnyFilesSuccess(files))),
            ),
        },
    )
}

/// What is told of the files in which something was found.
pub open spec fn of_matches(id: Seq<char>, files: Seq<GrepFileView>) -> Seq<char> {
    tool_result_text(
        ToolCallResultView {
            tool_call_id: id,
            result: Some(ToolResultView::Grep(Some(GrepOutcomeView::Success(files)))),
        },
    )
}

/// What is told of the answers of the user.
pub open spec fn of_answers(id: Seq<char>, answers: Seq<AnswerItemView>) -> Seq<char> {
    tool_result_text(
        ToolCallResultView {
            tool_call_id: id,
            result: Some(
                ToolResultView::AskUserQuestion(Some(AskUserQuestionOutcomeView::Success(answers))),
            ),
        },
    )
}

proof fn lemma_joined_goes_on(parts: Seq<Seq<char>>, last: Seq<char>, separator: Seq<char>)
    requires
        parts.len() > 0,
    ensures
        joined(parts.push(last), separator) == joined(parts, separator) + separator + last,
        joined(seq![last], separator) == last,
        joined(parts, separator).len() >= parts[0].len(),
        joined(parts.push(last), separator).len() >= parts[0].len(),
{
    lemma_joined_is_longer(parts, separator);
    assert(parts.push(last).drop_last() =~= parts);
}

/// A tool is offered in the form of responses with the same name, words and fields.
pub proof fn lemma_tools_keep_their_fields(tools: Seq<OpenAIToolView>, i: int)
    ensures
        responses_tools(tools).len() == tools.len(),
        0 <= i < tools.len() ==> {
            &&& responses_tools(tools)[i].kind == "function"@
            &&& responses_tools(tools)[i].name == tools[i].function.name
            &&& responses_tools(tools)[i].description == tools[i].function.description
            &&& responses_tools(tools)[i].parameters == tools[i].function.parameters
        },
{
}

/// Of the commands that were run, only the last five are told.
pub proof fn lemma_older_commands_are_not_told(
    context: InputContextView,
    older: Seq<ExecutedShellCommandView>,
    commands: Seq<ExecutedShellCommandView>,
)
    requires
        commands.len() == 5,
    ensures
        context_lines(
            InputContextView { executed_shell_commands: older + commands, ..context },
        ) == context_lines(InputContextView { executed_shell_commands: commands, ..context }),
{
    lemma_last_items(older, commands, 5);
    lemma_last_items(Seq::empty(), commands, 5);
}

/// A call is sent only with its result, and a result only with its call: both name the same call.
pub proof fn lemma_calls_and_results_go_together(items: Seq<JsonView>, k: int)
    requires
        0 <= k < paired_items(items).len(),
    ensures
        ({
            let sent = paired_items(items);
            let id = sent[k].get_str("call_id"@);
            &&& sent[k].get("type"@) == Some(JsonView::Str("function_call"@)) ==> id is Some
                && exists|j: int|
                0 <= j < sent.len() && (#[trigger] sent[j]).get("type"@) == Some(
                    JsonView::Str("function_call_output"@),
                ) && sent[j].get_str("call_id"@) == id
            &&& sent[k].get("type"@) == Some(JsonView::Str("function_call_output"@)) ==> id is Some
                && exists|j: int|
                0 <= j < sent.len() && (#[trigger] sent[j]).get("type"@) == Some(
                    JsonView::Str("function_call"@),
                ) && sent[j].get_str("call_id"@) == id
        }),
{
    reveal_strlit("function_call");
    reveal_strlit("function_call_output");
    assert("function_call"@.len() != "function_call_output"@.len());
    let sent = paired_items(items);
    lemma_kept_items_are_paired(items, k);
    let id = sent[k].get_str("call_id"@);
    if sent[k].get("type"@) == Some(JsonView::Str("function_call"@)) {
        let j = choose|j: int|
            0 <= j < sent.len() && speaks_of(
                #[trigger] sent[j],
                "function_call_output"@,
                id->0,
            );
        assert(speaks_of(sent[j], "function_call_output"@, id->0));
        assert(sent[j].get("type"@) == Some(JsonView::Str("function_call_output"@)));
    }
    if sent[k].get("type"@) == Some(JsonView::Str("function_call_output"@)) {
        let j = choose|j: int|
            0 <= j < sent.len() && speaks_of(#[trigger] sent[j], "function_call"@, id->0);
        assert(speaks_of(sent[j], "function_call"@, id->0));
        assert(sent[j].get("type"@) == Some(JsonView::Str("function_call"@)));
    }
}

/// Texts are all sent, in their order.
pub proof fn lemma_texts_are_all_sent(items: Seq<JsonView>)
    requires
        forall|i: int| 0 <= i < items.len() ==> (#[trigger] items[i]).get("type"@) is None,
    ensures
        paired_items(items) == items,
{
    lemma_all_sent(items, items.len() as int);
    assert(items.take(items.len() as int) =~= items);
}

proof fn lemma_all_sent(items: Seq<JsonView>, n: int)
    requires
        0 <= n <= items.len(),
        forall|i: int| 0 <= i < items.len() ==> (#[trigger] items[i]).get("type"@) is None,
    ensures
        paired_among(items, n) == items.take(n),
    decreases n,
{
    if n > 0 {
        lemma_all_sent(items, n - 1);
        assert(items[n - 1].get("type"@) is None);
        assert(items.take(n - 1).push(items[n - 1]) =~= items.take(n));
    } else {
        assert(items.take(0) =~= Seq::empty());
    }
}

} // verus!
