//! Telling a backend what a request is about: its context, the history of the conversation, and
//! what it asks for.
use crate::chat::{
    named_result, assistant_message, system_message, tool_call_message, tool_message, user_message,
    OpenAIChatMessage, OpenAIChatMessageView, OpenAIChatRequest, OpenAIChatRequestView,
};
use crate::config::{Config, ConfigView};
use crate::lists::{borrowed, last_of, or_empty};
use crate::past_calls::{openai_tool_call, warp_tool_call_to_openai};
use crate::results::{format_request_tool_call_result, format_tool_call_result, tool_result_text};
use crate::text::{
    decimal, decimal_of, digits_of, join, joined, opt_view, opt_views, text_or_empty, trim, trimmed,
    truncate, truncated, views,
};
use crate::tools::{build_tool_definitions, supports, supports_tool, tool_definitions};
use crate::warp::{
    AgentMessage, AgentMessageView, CliAgentUserQuery, CliAgentUserQueryView, Codebase,
    CodebaseView, DirectoryView, Directory, ExecutedShellCommand, ExecutedShellCommandView,
    FileContent, FileContentView, Git, GitView, Input, InputContext, InputContextView, InputType,
    InputTypeView, InputView, Message, MessageContent, MessageContentView, MessageView,
    OperatingSystem, OperatingSystemView, ProjectRules, ProjectRulesView, Request, RequestView,
    RunningShellCommand, RunningShellCommandView, Shell, ShellView, Summarization,
    SummarizationView, SystemQuery, SystemQueryView, Task, TaskView, ToolType, UserInput,
    UserInputView,
};
use vstd::prelude::*;

verus! {

// ---------------------------------------------------------------------------------------------
// The context of a request
// ---------------------------------------------------------------------------------------------
/// Where the user is.
pub open spec fn directory_lines(directory: Option<DirectoryView>) -> Seq<Seq<char>> {
    match directory {
        Some(directory) => {
            let pwd = if directory.pwd.len() > 0 {
                seq!["pwd: "@ + directory.pwd]
            } else {
                Seq::empty()
            };
            let home = if directory.home.len() > 0 {
                seq!["home: "@ + directory.home]
            } else {
                Seq::empty()
            };
            pwd + home
        },
        None => Seq::empty(),
    }
}

/// Where the user is.
fn push_directory(lines: &mut Vec<String>, directory: &Option<Directory>)
    ensures
        views(final(lines)@) == views(old(lines)@) + directory_lines(opt_view(*directory)),
{
    let ghost before = views(lines@);
    match directory {
        Some(directory) => {
            if !directory.pwd.as_str().is_empty() {
                let mut text = "pwd: ".to_owned();
                text.append(directory.pwd.as_str());
                lines.push(text);
            }
            if !directory.home.as_str().is_empty() {
                let mut text = "home: ".to_owned();
                text.append(directory.home.as_str());
                lines.push(text);
            }
        },
        None => {},
    }
    assert(views(lines@) =~= before + directory_lines(opt_view(*directory)));
}

/// The operating system.
pub open spec fn os_lines(os: Option<OperatingSystemView>) -> Seq<Seq<char>> {
    match os {
        Some(os) => {
            if os.platform.len() > 0 || os.distribution.len() > 0 {
                seq![trimmed("os: "@ + os.platform + " "@ + os.distribution)]
            } else {
                Seq::empty()
            }
        },
        None => Seq::empty(),
    }
}

/// The operating system.
fn push_os(lines: &mut Vec<String>, os: &Option<OperatingSystem>)
    ensures
        views(final(lines)@) == views(old(lines)@) + os_lines(opt_view(*os)),
{
    let ghost before = views(lines@);
    match os {
        Some(os) => {
            if !os.platform.as_str().is_empty() || !os.distribution.as_str().is_empty() {
                let mut text = "os: ".to_owned();
                text.append(os.platform.as_str());
                text.append(" ");
                text.append(os.distribution.as_str());
                let line = trim(text.as_str()).to_owned();
                lines.push(line);
            }
        },
        None => {},
    }
    assert(views(lines@) =~= before + os_lines(opt_view(*os)));
}

/// The shell.
pub open spec fn shell_lines(shell: Option<ShellView>) -> Seq<Seq<char>> {
    match shell {
        Some(shell) => {
            if shell.name.len() > 0 {
                seq![trimmed("shell: "@ + shell.name + " "@ + shell.version)]
            } else {
                Seq::empty()
            }
        },
        None => Seq::empty(),
    }
}

/// The shell.
fn push_shell(lines: &mut Vec<String>, shell: &Option<Shell>)
    ensures
        views(final(lines)@) == views(old(lines)@) + shell_lines(opt_view(*shell)),
{
    let ghost before = views(lines@);
    match shell {
        Some(shell) => {
            if !shell.name.as_str().is_empty() {
                let mut text = "shell: ".to_owned();
                text.append(shell.name.as_str());
                text.append(" ");
                text.append(shell.version.as_str());
                let line = trim(text.as_str()).to_owned();
                lines.push(line);
            }
        },
        None => {},
    }
    assert(views(lines@) =~= before + shell_lines(opt_view(*shell)));
}

/// The state of the repository.
pub open spec fn git_lines(git: Option<GitView>) -> Seq<Seq<char>> {
    match git {
        Some(git) => {
            if git.head.len() > 0 || git.branch.len() > 0 {
                seq!["git: head="@ + git.head + " branch="@ + git.branch]
            } else {
                Seq::empty()
            }
        },
        None => Seq::empty(),
    }
}

/// The state of the repository.
fn push_git(lines: &mut Vec<String>, git: &Option<Git>)
    ensures
        views(final(lines)@) == views(old(lines)@) + git_lines(opt_view(*git)),
{
    let ghost before = views(lines@);
    match git {
        Some(git) => {
            if !git.head.as_str().is_empty() || !git.branch.as_str().is_empty() {
                let mut text = "git: head=".to_owned();
                text.append(git.head.as_str());
                text.append(" branch=");
                text.append(git.branch.as_str());
                lines.push(text);
            }
        },
        None => {},
    }
    assert(views(lines@) =~= before + git_lines(opt_view(*git)));
}

/// A codebase.
pub open spec fn codebase_line(codebase: CodebaseView) -> Seq<char> {
    "codebase: "@ + codebase.name + " ("@ + codebase.path + ")"@
}

fn show_codebase(codebase: &Codebase) -> (r: String)
    ensures
        r@ == codebase_line(codebase@),
{
    let mut text = "codebase: ".to_owned();
    text.append(codebase.name.as_str());
    text.append(" (");
    text.append(codebase.path.as_str());
    text.append(")");
    text
}

/// Codebases.
pub open spec fn codebase_lines(items: Seq<CodebaseView>) -> Seq<Seq<char>> {
    Seq::new(items.len(), |i: int| codebase_line(items[i]))
}

/// Codebases.
fn push_codebases(lines: &mut Vec<String>, items: &Vec<Codebase>, from: usize)
    requires
        from <= items@.len(),
    ensures
        views(final(lines)@) == views(old(lines)@) + codebase_lines(
            views(items@).skip(from as int)
        ),
{
    let ghost before = views(lines@);
    let mut i: usize = from;
    while i < items.len()
        invariant
            from <= i <= items.len(),
            lines.len() == before.len() + i - from,
            forall|k: int| 0 <= k < before.len() ==> (#[trigger] lines@[k])@ == before[k],
            forall|k: int|
                before.len() <= k < lines.len() ==> (#[trigger] lines@[k])@ == codebase_line(
                    items@[k - before.len() + from]@,
                ),
        decreases items.len() - i,
    {
        let line = show_codebase(&items[i]);
        lines.push(line);
        i += 1;
    }
    assert(views(lines@) =~= before + codebase_lines(views(items@).skip(from as int)));
}

/// A command that was run before.
pub open spec fn command_line(command: ExecutedShellCommandView) -> Seq<char> {
    "recent command ["@ + command.command_id + "]: "@ + command.command + "\nexit: "@
        + decimal(command.exit_code as int) + "\n"@ + truncated(command.output, 4000)
}

fn show_command(command: &ExecutedShellCommand) -> (r: String)
    ensures
        r@ == command_line(command@),
{
    let mut text = "recent command [".to_owned();
    text.append(command.command_id.as_str());
    text.append("]: ");
    text.append(command.command.as_str());
    text.append("\nexit: ");
    let part0 = decimal_of(command.exit_code as i64);
    text.append(part0.as_str());
    text.append("\n");
    let part1 = truncate(command.output.as_str(), 4000);
    text.append(part1.as_str());
    text
}

/// Commands that were run before.
pub open spec fn command_lines(items: Seq<ExecutedShellCommandView>) -> Seq<Seq<char>> {
    Seq::new(items.len(), |i: int| command_line(items[i]))
}

/// Commands that were run before.
fn push_commands(lines: &mut Vec<String>, items: &Vec<ExecutedShellCommand>, from: usize)
    requires
        from <= items@.len(),
    ensures
        views(final(lines)@) == views(old(lines)@) + command_lines(views(items@).skip(from as int)),
{
    let ghost before = views(lines@);
    let mut i: usize = from;
    while i < items.len()
        invariant
            from <= i <= items.len(),
            lines.len() == before.len() + i - from,
            forall|k: int| 0 <= k < before.len() ==> (#[trigger] lines@[k])@ == before[k],
            forall|k: int|
                before.len() <= k < lines.len() ==> (#[trigger] lines@[k])@ == command_line(
                    items@[k - before.len() + from]@,
                ),
        decreases items.len() - i,
    {
        let line = show_command(&items[i]);
        lines.push(line);
        i += 1;
    }
    assert(views(lines@) =~= before + command_lines(views(items@).skip(from as int)));
}

/// Selected text.
pub open spec fn selection_line(selected: Seq<char>) -> Seq<char> {
    "selected text:\n"@ + truncated(selected, 2000)
}

fn show_selection(selected: &String) -> (r: String)
    ensures
        r@ == selection_line(selected@),
{
    let mut text = "selected text:\n".to_owned();
    let part0 = truncate(selected.as_str(), 2000);
    text.append(part0.as_str());
    text
}

/// Selected texts.
pub open spec fn selection_lines(items: Seq<Seq<char>>) -> Seq<Seq<char>> {
    Seq::new(items.len(), |i: int| selection_line(items[i]))
}

/// Selected texts.
fn push_selections(lines: &mut Vec<String>, items: &Vec<String>, from: usize)
    requires
        from <= items@.len(),
    ensures
        views(final(lines)@) == views(old(lines)@) + selection_lines(
            views(items@).skip(from as int)
        ),
{
    let ghost before = views(lines@);
    let mut i: usize = from;
    while i < items.len()
        invariant
            from <= i <= items.len(),
            lines.len() == before.len() + i - from,
            forall|k: int| 0 <= k < before.len() ==> (#[trigger] lines@[k])@ == before[k],
            forall|k: int|
                before.len() <= k < lines.len() ==> (#[trigger] lines@[k])@ == selection_line(
                    items@[k - before.len() + from]@,
                ),
        decreases items.len() - i,
    {
        let line = show_selection(&items[i]);
        lines.push(line);
        i += 1;
    }
    assert(views(lines@) =~= before + selection_lines(views(items@).skip(from as int)));
}

/// A file of the context.
pub open spec fn context_file_line(file: FileContentView) -> Seq<char> {
    "file: "@ + file.file_path + "\n"@ + truncated(file.content, 6000)
}

fn show_context_file(file: &FileContent) -> (r: String)
    ensures
        r@ == context_file_line(file@),
{
    let mut text = "file: ".to_owned();
    text.append(file.file_path.as_str());
    text.append("\n");
    let part0 = truncate(file.content.as_str(), 6000);
    text.append(part0.as_str());
    text
}

/// The files of the context that have content.
pub open spec fn context_file_lines(files: Seq<Option<FileContentView>>) -> Seq<Seq<char>>
    decreases files.len(),
{
    if files.len() == 0 {
        Seq::empty()
    } else {
        match files.last() {
            Some(file) => context_file_lines(files.drop_last()).push(context_file_line(file)),
            None => context_file_lines(files.drop_last()),
        }
    }
}

/// The files of the context that have content.
fn push_context_files(lines: &mut Vec<String>, files: &Vec<Option<FileContent>>)
    ensures
        views(final(lines)@) == views(old(lines)@) + context_file_lines(opt_views(files@)),
{
    let ghost before = views(lines@);
    let ghost all = opt_views(files@);
    let mut i: usize = 0;
    assert(all.take(0) == Seq::<Option<FileContentView>>::empty());
    assert(before + context_file_lines(all.take(0)) =~= before);
    while i < files.len()
        invariant
            i <= files.len(),
            all == opt_views(files@),
            views(lines@) == before + context_file_lines(all.take(i as int)),
        decreases files.len() - i,
    {
        assert(all.take(i + 1).drop_last() == all.take(i as int));
        let ghost shown = views(lines@);
        match &files[i] {
            Some(file) => {
                let line = show_context_file(file);
                lines.push(line);
                assert(views(lines@) =~= shown.push(line@));
                assert(shown.push(line@) =~= before + context_file_lines(all.take(i as int)).push(
                    line@,
                ));
            },
            None => {},
        }
        i += 1;
    }
    assert(all.take(all.len() as int) == all);
}

/// A file of rules.
pub open spec fn rule_line(file: FileContentView) -> Seq<char> {
    "project rule "@ + file.file_path + ":\n"@ + truncated(file.content, 4000)
}

fn show_rule(file: &FileContent) -> (r: String)
    ensures
        r@ == rule_line(file@),
{
    let mut text = "project rule ".to_owned();
    text.append(file.file_path.as_str());
    text.append(":\n");
    let part0 = truncate(file.content.as_str(), 4000);
    text.append(part0.as_str());
    text
}

/// Files of rules.
pub open spec fn rule_lines(items: Seq<FileContentView>) -> Seq<Seq<char>> {
    Seq::new(items.len(), |i: int| rule_line(items[i]))
}

/// Files of rules.
fn push_rules(lines: &mut Vec<String>, items: &Vec<FileContent>, from: usize)
    requires
        from <= items@.len(),
    ensures
        views(final(lines)@) == views(old(lines)@) + rule_lines(views(items@).skip(from as int)),
{
    let ghost before = views(lines@);
    let mut i: usize = from;
    while i < items.len()
        invariant
            from <= i <= items.len(),
            lines.len() == before.len() + i - from,
            forall|k: int| 0 <= k < before.len() ==> (#[trigger] lines@[k])@ == before[k],
            forall|k: int|
                before.len() <= k < lines.len() ==> (#[trigger] lines@[k])@ == rule_line(
                    items@[k - before.len() + from]@,
                ),
        decreases items.len() - i,
    {
        let line = show_rule(&items[i]);
        lines.push(line);
        i += 1;
    }
    assert(views(lines@) =~= before + rule_lines(views(items@).skip(from as int)));
}

/// The rules of projects.
pub open spec fn project_rule_lines(rules: Seq<ProjectRulesView>) -> Seq<Seq<char>>
    decreases rules.len(),
{
    if rules.len() == 0 {
        Seq::empty()
    } else {
        project_rule_lines(rules.drop_last()) + rule_lines(rules.last().active_rule_files)
    }
}

/// The rules of projects.
fn push_project_rules(lines: &mut Vec<String>, rules: &Vec<ProjectRules>)
    ensures
        views(final(lines)@) == views(old(lines)@) + project_rule_lines(views(rules@)),
{
    let ghost before = views(lines@);
    let ghost all = views(rules@);
    let mut i: usize = 0;
    assert(all.take(0) == Seq::<ProjectRulesView>::empty());
    assert(before + project_rule_lines(all.take(0)) =~= before);
    while i < rules.len()
        invariant
            i <= rules.len(),
            all == views(rules@),
            views(lines@) == before + project_rule_lines(all.take(i as int)),
        decreases rules.len() - i,
    {
        assert(all.take(i + 1).drop_last() == all.take(i as int));
        let ghost shown = views(lines@);
        let files = &rules[i].active_rule_files;
        push_rules(lines, files, 0);
        assert(views(files@).skip(0) =~= all[i as int].active_rule_files);
        assert(shown + rule_lines(all[i as int].active_rule_files) =~= before + (project_rule_lines(
            all.take(i as int),
        ) + rule_lines(all[i as int].active_rule_files)));
        i += 1;
    }
    assert(all.take(all.len() as int) == all);
}

/// What is told of a context, line by line.
pub open spec fn context_lines(context: InputContextView) -> Seq<Seq<char>> {
    directory_lines(context.directory) + os_lines(context.operating_system) + shell_lines(
        context.shell,
    ) + git_lines(context.git) + codebase_lines(context.codebases) + command_lines(
        last_of(context.executed_shell_commands, 5),
    ) + selection_lines(context.selected_text) + context_file_lines(context.files)
        + project_rule_lines(context.project_rules)
}

/// What is told of a context.
pub open spec fn context_text(context: InputContextView) -> Seq<char> {
    joined(context_lines(context), "\n\n"@)
}

/// What is told of a context: where the user is, the system, the shell, the repository, the
/// codebases, the last commands, what is selected, the files and the rules.
pub fn format_input_context(context: &InputContext) -> (r: String)
    ensures
        r@ == context_text(context@),
{
    let mut lines: Vec<String> = Vec::new();
    push_directory(&mut lines, &context.directory);
    assert(views(lines@) =~= directory_lines(context@.directory));
    push_os(&mut lines, &context.operating_system);
    push_shell(&mut lines, &context.shell);
    push_git(&mut lines, &context.git);
    assert(views(context.codebases@).skip(0) =~= context@.codebases);
    push_codebases(&mut lines, &context.codebases, 0);
    let count = context.executed_shell_commands.len();
    let from: usize = if count > 5 {
        count - 5
    } else {
        0
    };
    assert(views(context.executed_shell_commands@).skip(from as int) =~= last_of(
        context@.executed_shell_commands,
        5,
    ));
    push_commands(&mut lines, &context.executed_shell_commands, from);
    assert(views(context.selected_text@).skip(0) =~= context@.selected_text);
    push_selections(&mut lines, &context.selected_text, 0);
    push_context_files(&mut lines, &context.files);
    push_project_rules(&mut lines, &context.project_rules);
    join(&lines, "\n\n")
}

/// A query of the user, with its context where there is any.
pub open spec fn user_query_text(query: Seq<char>, context: Option<InputContextView>) -> Seq<char> {
    let context = match context {
        Some(context) => context_text(context),
        None => Seq::empty(),
    };
    if context.len() == 0 {
        query
    } else {
        query + "\n\nContext:\n"@ + context
    }
}

/// A query of the user, with its context where there is any.
pub fn format_user_query(query: &str, context: Option<&InputContext>) -> (r: String)
    ensures
        r@ == user_query_text(query@, opt_view(context)),
{
    let context = match context {
        Some(context) => format_input_context(context),
        None => String::new(),
    };
    if context.as_str().is_empty() {
        query.to_owned()
    } else {
        let mut text = query.to_owned();
        text.append("\n\nContext:\n");
        text.append(context.as_str());
        text
    }
}

// ---------------------------------------------------------------------------------------------
// The history of a conversation
// ---------------------------------------------------------------------------------------------
/// A query that the client made by itself.
pub open spec fn system_query_text(query: Option<SystemQueryView>) -> Seq<char> {
    match query {
        Some(SystemQueryView::AutoCodeDiff(query)) => query,
        Some(SystemQueryView::ResumeConversation) => "Resume the conversation."@,
        Some(SystemQueryView::GeneratePassiveSuggestions) => "Generate passive suggestions."@,
        Some(SystemQueryView::CreateNewProject(query)) => query,
        Some(SystemQueryView::CloneRepository(url)) => "Clone repository: "@ + url,
        Some(SystemQueryView::SummarizeConversation(prompt)) => {
            "Summarize conversation: "@ + prompt
        },
        Some(SystemQueryView::FetchReviewComments(path)) => "Fetch review comments: "@ + path,
        Some(SystemQueryView::Other) => "System query."@,
        None => "System query."@,
    }
}

/// A label and a text behind it.
fn labelled(label: &str, text: &str) -> (r: String)
    ensures
        r@ == label@ + text@,
{
    let mut r = label.to_owned();
    r.append(text);
    r
}

/// A query that the client made by itself.
pub fn format_system_query(query: &Option<SystemQuery>) -> (r: String)
    ensures
        r@ == system_query_text(opt_view(*query)),
{
    match query {
        Some(SystemQuery::AutoCodeDiff(query)) => query.clone(),
        Some(SystemQuery::ResumeConversation) => "Resume the conversation.".to_owned(),
        Some(SystemQuery::GeneratePassiveSuggestions) => "Generate passive suggestions.".to_owned(),
        Some(SystemQuery::CreateNewProject(query)) => query.clone(),
        Some(SystemQuery::CloneRepository(url)) => labelled("Clone repository: ", url.as_str()),
        Some(SystemQuery::SummarizeConversation(prompt)) => labelled(
            "Summarize conversation: ",
            prompt.as_str(),
        ),
        Some(SystemQuery::FetchReviewComments(path)) => labelled(
            "Fetch review comments: ",
            path.as_str(),
        ),
        Some(SystemQuery::Other) => "System query.".to_owned(),
        None => "System query.".to_owned(),
    }
}

/// A summary of what came before.
pub open spec fn summarization_text(summary: Option<SummarizationView>) -> Seq<char> {
    match summary {
        Some(SummarizationView::ConversationSummary(text)) => text,
        Some(
            SummarizationView::ToolCallResultSummary,
        ) => "A prior tool call result was summarized."@,
        None => Seq::empty(),
    }
}

/// A summary of what came before.
pub fn format_summarization(summary: &Option<Summarization>) -> (r: String)
    ensures
        r@ == summarization_text(opt_view(*summary)),
{
    match summary {
        Some(Summarization::ConversationSummary(text)) => text.clone(),
        Some(
            Summarization::ToolCallResultSummary,
        ) => "A prior tool call result was summarized.".to_owned(),
        None => String::new(),
    }
}

/// What a message of the history becomes: a message of a chat, or nothing.
pub open spec fn history_message(message: MessageView) -> Option<OpenAIChatMessageView> {
    match message.message {
        Some(MessageContentView::UserQuery(query)) => Some(
            user_message(user_query_text(query.query, query.context)),
        ),
        Some(MessageContentView::SystemQuery(query)) => Some(
            system_message(system_query_text(query)),
        ),
        Some(MessageContentView::AgentOutput(text)) => if text.len() == 0 {
            None
        } else {
            Some(assistant_message(text))
        },
        Some(MessageContentView::AgentReasoning(reasoning)) => if reasoning.len() == 0 {
            None
        } else {
            Some(assistant_message("[reasoning]\n"@ + reasoning))
        },
        Some(MessageContentView::ToolCall(call)) => match openai_tool_call(call) {
            Some(call) => Some(tool_call_message(call)),
            None => None,
        },
        Some(MessageContentView::ToolCallResult(result)) => Some(
            tool_message(result.tool_call_id, tool_result_text(result)),
        ),
        Some(MessageContentView::Summarization(summary)) => Some(
            system_message("Conversation summary: "@ + summarization_text(summary)),
        ),
        Some(MessageContentView::Other) => None,
        None => None,
    }
}

/// The messages with one more, where there is one.
pub open spec fn with_message(
    messages: Seq<OpenAIChatMessageView>,
    message: Option<OpenAIChatMessageView>,
) -> Seq<OpenAIChatMessageView> {
    match message {
        Some(m) => messages.push(m),
        None => messages,
    }
}

/// What a message of the history becomes.
fn to_history_message(message: &Message) -> (r: Option<OpenAIChatMessage>)
    ensures
        opt_view(r) == history_message(message@),
{
    match &message.message {
        Some(MessageContent::UserQuery(query)) => {
            let context = match &query.context {
                Some(context) => Some(context),
                None => None,
            };
            Some(OpenAIChatMessage::user(format_user_query(query.query.as_str(), context)))
        },
        Some(MessageContent::SystemQuery(query)) => Some(
            OpenAIChatMessage::system(format_system_query(query)),
        ),
        Some(MessageContent::AgentOutput(text)) => if text.as_str().is_empty() {
            None
        } else {
            Some(OpenAIChatMessage::assistant(text.clone()))
        },
        Some(MessageContent::AgentReasoning(reasoning)) => if reasoning.as_str().is_empty() {
            None
        } else {
            Some(OpenAIChatMessage::assistant(labelled("[reasoning]\n", reasoning.as_str())))
        },
        Some(MessageContent::ToolCall(call)) => match warp_tool_call_to_openai(call) {
            Some(call) => Some(OpenAIChatMessage::assistant_tool_call(call)),
            None => None,
        },
        Some(MessageContent::ToolCallResult(result)) => Some(
            OpenAIChatMessage::tool(result.tool_call_id.clone(), format_tool_call_result(result)),
        ),
        Some(MessageContent::Summarization(summary)) => {
            let summary = format_summarization(summary);
            Some(OpenAIChatMessage::system(labelled("Conversation summary: ", summary.as_str())))
        },
        Some(MessageContent::Other) => None,
        None => None,
    }
}

/// Adds what a message of the history becomes.
pub fn append_history_message(messages: &mut Vec<OpenAIChatMessage>, message: &Message)
    ensures
        views(final(messages)@) == with_message(views(old(messages)@), history_message(message@)),
{
    let ghost before = views(messages@);
    match to_history_message(message) {
        Some(m) => {
            messages.push(m);
            assert(views(messages@) =~= before.push(m@));
        },
        None => {},
    }
}

/// The messages with those of the history of a task.
pub open spec fn with_history(
    messages: Seq<OpenAIChatMessageView>,
    history: Seq<MessageView>,
) -> Seq<OpenAIChatMessageView>
    decreases history.len(),
{
    if history.len() == 0 {
        messages
    } else {
        with_message(with_history(messages, history.drop_last()), history_message(history.last()))
    }
}

/// The messages with those of the history of tasks.
pub open spec fn with_tasks(
    messages: Seq<OpenAIChatMessageView>,
    tasks: Seq<TaskView>,
) -> Seq<OpenAIChatMessageView>
    decreases tasks.len(),
{
    if tasks.len() == 0 {
        messages
    } else {
        with_history(with_tasks(messages, tasks.drop_last()), tasks.last().messages)
    }
}

/// Adds the history of a task.
fn append_history(messages: &mut Vec<OpenAIChatMessage>, history: &Vec<Message>)
    ensures
        views(final(messages)@) == with_history(views(old(messages)@), views(history@)),
{
    let ghost start = views(messages@);
    let ghost all = views(history@);
    let mut i: usize = 0;
    while i < history.len()
        invariant
            i <= history.len(),
            all == views(history@),
            views(messages@) == with_history(start, all.take(i as int)),
        decreases history.len() - i,
    {
        assert(all.take(i + 1).drop_last() == all.take(i as int));
        append_history_message(messages, &history[i]);
        i += 1;
    }
    assert(all.take(all.len() as int) == all);
}

/// Adds the history of tasks.
fn append_tasks(messages: &mut Vec<OpenAIChatMessage>, tasks: &Vec<Task>)
    ensures
        views(final(messages)@) == with_tasks(views(old(messages)@), views(tasks@)),
{
    let ghost start = views(messages@);
    let ghost all = views(tasks@);
    let mut i: usize = 0;
    while i < tasks.len()
        invariant
            i <= tasks.len(),
            all == views(tasks@),
            views(messages@) == with_tasks(start, all.take(i as int)),
        decreases tasks.len() - i,
    {
        assert(all.take(i + 1).drop_last() == all.take(i as int));
        append_history(messages, &tasks[i].messages);
        i += 1;
    }
    assert(all.take(all.len() as int) == all);
}

// ---------------------------------------------------------------------------------------------
// What a request asks for
// ---------------------------------------------------------------------------------------------
/// A command that is running while the user asks.
pub open spec fn running_command_text(command: RunningShellCommandView) -> Seq<char> {
    let snapshot = match command.snapshot {
        Some(snapshot) => {
            "command_id: "@ + snapshot.command_id + "\noutput:\n"@
                + truncated(snapshot.output, 4000)
        },
        None => Seq::empty(),
    };
    "command: "@ + command.command + "\n"@ + snapshot
}

/// A command that is running while the user asks.
pub fn format_running_command(command: &RunningShellCommand) -> (r: String)
    ensures
        r@ == running_command_text(command@),
{
    let snapshot = match &command.snapshot {
        Some(snapshot) => {
            let mut text = "command_id: ".to_owned();
            text.append(snapshot.command_id.as_str());
            text.append("\noutput:\n");
            let part0 = truncate(snapshot.output.as_str(), 4000);
            text.append(part0.as_str());
            text
        },
        None => String::new(),
    };
    let mut text = "command: ".to_owned();
    text.append(command.command.as_str());
    text.append("\n");
    text.append(snapshot.as_str());
    text
}

/// The text that Rust's `Debug` gives a list of texts.
pub uninterp spec fn debug_texts(texts: Seq<Seq<char>>) -> Seq<char>;

/// The text that the `Debug` of `Vec<String>` gives. It is a function of the texts alone; how it
/// quotes and escapes them is not stated.
#[verifier::external_body]
fn show_texts(texts: &Vec<String>) -> (r: String)
    ensures
        r@ == debug_texts(views(texts@)),
{
    format!("{:?}", texts)
}

/// A message of another agent.
pub open spec fn agent_message_line(message: AgentMessageView) -> Seq<char> {
    "- from "@ + message.sender_agent_id + " to "@ + debug_texts(message.addresses) + ": "@
        + message.subject + "\n"@ + message.message_body
}

fn show_agent_message(message: &AgentMessage) -> (r: String)
    ensures
        r@ == agent_message_line(message@),
{
    let mut text = "- from ".to_owned();
    text.append(message.sender_agent_id.as_str());
    text.append(" to ");
    let part0 = show_texts(&message.addresses);
    text.append(part0.as_str());
    text.append(": ");
    text.append(message.subject.as_str());
    text.append("\n");
    text.append(message.message_body.as_str());
    text
}

/// Messages of other agents.
pub open spec fn agent_message_lines(items: Seq<AgentMessageView>) -> Seq<Seq<char>> {
    Seq::new(items.len(), |i: int| agent_message_line(items[i]))
}

/// Messages of other agents.
fn push_agent_messages(lines: &mut Vec<String>, items: &Vec<AgentMessage>, from: usize)
    requires
        from <= items@.len(),
    ensures
        views(final(lines)@) == views(old(lines)@) + agent_message_lines(
            views(items@).skip(from as int)
        ),
{
    let ghost before = views(lines@);
    let mut i: usize = from;
    while i < items.len()
        invariant
            from <= i <= items.len(),
            lines.len() == before.len() + i - from,
            forall|k: int| 0 <= k < before.len() ==> (#[trigger] lines@[k])@ == before[k],
            forall|k: int|
                before.len() <= k < lines.len() ==> (#[trigger] lines@[k])@ == agent_message_line(
                    items@[k - before.len() + from]@,
                ),
        decreases items.len() - i,
    {
        let line = show_agent_message(&items[i]);
        lines.push(line);
        i += 1;
    }
    assert(views(lines@) =~= before + agent_message_lines(views(items@).skip(from as int)));
}

/// A query of the user about a running command.
pub open spec fn cli_query_text(query: CliAgentUserQueryView) -> Seq<char> {
    let user_query = text_or_empty(query.user_query);
    let running = match query.running_command {
        Some(command) => running_command_text(command),
        None => Seq::empty(),
    };
    user_query + "\n\nActive command context:\n"@ + running
}

/// A query of the user about a running command.
fn format_cli_query(query: &CliAgentUserQuery) -> (r: String)
    ensures
        r@ == cli_query_text(query@),
{
    let user_query = or_empty(borrowed(&query.user_query));
    let running = match &query.running_command {
        Some(command) => format_running_command(command),
        None => String::new(),
    };
    let mut text = user_query.to_owned();
    text.append("\n\nActive command context:\n");
    text.append(running.as_str());
    text
}

/// What one of several inputs becomes.
pub open spec fn user_input_message(input: UserInputView) -> OpenAIChatMessageView {
    match input {
        UserInputView::UserQuery(query) => user_message(query),
        UserInputView::CliAgentUserQuery(query) => user_message(cli_query_text(query)),
        UserInputView::ToolCallResult(result) => tool_message(
            result.tool_call_id,
            tool_result_text(result),
        ),
        UserInputView::MessagesReceivedFromAgents(received) => system_message(
            "Messages received from agents:\n"@ + joined(agent_message_lines(received), "\n"@),
        ),
        UserInputView::EventsFromAgents(count) => {
            system_message("Received "@ + decimal(count as int) + " agent lifecycle event(s)."@)
        },
        UserInputView::PassiveSuggestionResult => system_message(
            "The user accepted or rejected a passive suggestion."@,
        ),
        UserInputView::Other => system_message(
            "Received a Warp input type that this BYOB proxy does not yet translate explicitly."@,
        ),
    }
}

/// What one of several inputs becomes.
fn to_user_input_message(input: &UserInput) -> (r: OpenAIChatMessage)
    ensures
        r@ == user_input_message(input@),
{
    match input {
        UserInput::UserQuery(query) => OpenAIChatMessage::user(
            format_user_query(query.as_str(), None),
        ),
        UserInput::CliAgentUserQuery(query) => OpenAIChatMessage::user(format_cli_query(query)),
        UserInput::ToolCallResult(result) => OpenAIChatMessage::tool(
            result.tool_call_id.clone(),
            format_request_tool_call_result(result),
        ),
        UserInput::MessagesReceivedFromAgents(received) => {
            let mut lines: Vec<String> = Vec::new();
            push_agent_messages(&mut lines, received, 0);
            assert(views(received@).skip(0) =~= views(received@));
            assert(views(lines@) =~= agent_message_lines(views(received@)));
            let lines = join(&lines, "\n");
            OpenAIChatMessage::system(labelled("Messages received from agents:\n", lines.as_str()))
        },
        UserInput::EventsFromAgents(count) => {
            let mut text = "Received ".to_owned();
            let part0 = digits_of(*count);
            text.append(part0.as_str());
            text.append(" agent lifecycle event(s).");
            OpenAIChatMessage::system(text)
        },
        UserInput::PassiveSuggestionResult => OpenAIChatMessage::system(
            "The user accepted or rejected a passive suggestion.".to_owned(),
        ),
        UserInput::Other => OpenAIChatMessage::system(
            "Received a Warp input type that this BYOB proxy does not yet translate explicitly.".to_owned(),
        ),
    }
}

/// The messages with what several inputs become.
pub open spec fn with_user_inputs(
    messages: Seq<OpenAIChatMessageView>,
    inputs: Seq<Option<UserInputView>>,
) -> Seq<OpenAIChatMessageView>
    decreases inputs.len(),
{
    if inputs.len() == 0 {
        messages
    } else {
        let before = with_user_inputs(messages, inputs.drop_last());
        match inputs.last() {
            Some(input) => before.push(user_input_message(input)),
            None => before,
        }
    }
}

/// Adds what several inputs become.
fn append_user_inputs(messages: &mut Vec<OpenAIChatMessage>, inputs: &Vec<Option<UserInput>>)
    ensures
        views(final(messages)@) == with_user_inputs(views(old(messages)@), opt_views(inputs@)),
{
    let ghost start = views(messages@);
    let ghost all = opt_views(inputs@);
    let mut i: usize = 0;
    while i < inputs.len()
        invariant
            i <= inputs.len(),
            all == opt_views(inputs@),
            views(messages@) == with_user_inputs(start, all.take(i as int)),
        decreases inputs.len() - i,
    {
        assert(all.take(i + 1).drop_last() == all.take(i as int));
        let ghost before = views(messages@);
        match &inputs[i] {
            Some(input) => {
                let message = to_user_input_message(input);
                messages.push(message);
                assert(views(messages@) =~= before.push(message@));
            },
            None => {},
        }
        i += 1;
    }
    assert(all.take(all.len() as int) == all);
}

/// The instruction for passive suggestions, by the tools that the client offers.
pub open spec fn passive_instruction(request: RequestView) -> Seq<char> {
    let prompt = if supports(request, ToolType::SuggestPrompt) {
        " If a follow-up Agent Mode prompt would help, call suggest_prompt exactly once. Prefer prompt_chip mode with a concise label."@
    } else {
        Seq::empty()
    };
    let edits = if supports(request, ToolType::ApplyFileDiffs) {
        " If a small code-edit banner would be clearly useful, call apply_file_diffs exactly once."@
    } else {
        Seq::empty()
    };
    "Warp is asking for a passive suggestion based on recent terminal context. If no suggestion is genuinely useful, return no text and call no tools."@
        + prompt + edits + " Do not answer with explanatory prose for passive suggestions."@
}

/// The instruction for passive suggestions.
fn format_passive_instruction(request: &Request) -> (r: String)
    ensures
        r@ == passive_instruction(request@),
{
    let mut instruction =
        "Warp is asking for a passive suggestion based on recent terminal context. If no suggestion is genuinely useful, return no text and call no tools.".to_owned();
    let ghost start = instruction@;
    if supports_tool(request, ToolType::SuggestPrompt) {
        instruction.append(
            " If a follow-up Agent Mode prompt would help, call suggest_prompt exactly once. Prefer prompt_chip mode with a concise label.",
        );
    } else {
        assert(start + Seq::<char>::empty() =~= start);
    }
    let ghost shown = instruction@;
    if supports_tool(request, ToolType::ApplyFileDiffs) {
        instruction.append(
            " If a small code-edit banner would be clearly useful, call apply_file_diffs exactly once.",
        );
    } else {
        assert(shown + Seq::<char>::empty() =~= shown);
    }
    instruction.append(" Do not answer with explanatory prose for passive suggestions.");
    instruction
}

/// What an input that asks for one thing becomes.
pub open spec fn single_input_message(
    input_type: InputTypeView,
    request: RequestView,
) -> OpenAIChatMessageView {
    match input_type {
        InputTypeView::UserInputs(_) => user_message(Seq::empty()),
        InputTypeView::QueryWithCannedResponse(query) => user_message(query),
        InputTypeView::AutoCodeDiffQuery(query) => user_message(query),
        InputTypeView::ResumeConversation => user_message("Resume the conversation."@),
        InputTypeView::InitProjectRules => user_message(
            "Generate or update local project rules for this repository. Use apply_file_diffs to create or edit WARP.md/AGENTS.md rather than only describing the rule text."@,
        ),
        InputTypeView::GeneratePassiveSuggestions => user_message(passive_instruction(request)),
        InputTypeView::CreateNewProject(query) => user_message("Create a new project: "@ + query),
        InputTypeView::CloneRepository(url) => user_message(
            "Clone and set up this repository: "@ + url,
        ),
        InputTypeView::CodeReview => user_message("Review the provided code changes."@),
        InputTypeView::SummarizeConversation(prompt) => user_message(
            "Summarize this conversation. "@ + prompt,
        ),
        InputTypeView::CreateEnvironment(paths) => user_message(
            "Create a development environment for: "@ + joined(paths, ", "@),
        ),
        InputTypeView::FetchReviewComments(path) => user_message(
            "Fetch review comments for "@ + path + "."@,
        ),
        InputTypeView::StartFromAmbientRunPrompt(id) => user_message(
            "Start ambient run "@ + id + "."@,
        ),
        InputTypeView::InvokeSkill(query) => user_message(
            match query {
                Some(query) => query,
                None => "Invoke the provided skill."@,
            },
        ),
        InputTypeView::UserQuery(query) => user_message(query),
        InputTypeView::ToolCallResult(result) => tool_message(
            result.tool_call_id,
            tool_result_text(result),
        ),
    }
}

/// The messages with what the input of a request becomes.
pub open spec fn with_input(
    messages: Seq<OpenAIChatMessageView>,
    input: InputView,
    request: RequestView,
) -> Seq<OpenAIChatMessageView> {
    match input.input_type {
        Some(InputTypeView::UserInputs(inputs)) => with_user_inputs(messages, inputs),
        Some(input_type) => messages.push(single_input_message(input_type, request)),
        None => messages,
    }
}

/// Adds what the input of a request becomes.
pub fn append_request_input_messages(
    messages: &mut Vec<OpenAIChatMessage>,
    input: &Input,
    request: &Request,
)
    ensures
        views(final(messages)@) == with_input(views(old(messages)@), input@, request@),
{
    let ghost before = views(messages@);
    let input_type = match &input.input_type {
        Some(input_type) => input_type,
        None => {
            return;
        },
    };
    let message = match input_type {
        InputType::UserInputs(inputs) => {
            append_user_inputs(messages, inputs);
            return;
        },
        InputType::QueryWithCannedResponse(query) => OpenAIChatMessage::user(query.clone()),
        InputType::AutoCodeDiffQuery(query) => OpenAIChatMessage::user(query.clone()),
        InputType::ResumeConversation => OpenAIChatMessage::user(
            "Resume the conversation.".to_owned(),
        ),
        InputType::InitProjectRules => OpenAIChatMessage::user(
            "Generate or update local project rules for this repository. Use apply_file_diffs to create or edit WARP.md/AGENTS.md rather than only describing the rule text.".to_owned(),
        ),
        InputType::GeneratePassiveSuggestions => OpenAIChatMessage::user(
            format_passive_instruction(request),
        ),
        InputType::CreateNewProject(query) => OpenAIChatMessage::user(
            labelled("Create a new project: ", query.as_str()),
        ),
        InputType::CloneRepository(url) => OpenAIChatMessage::user(
            labelled("Clone and set up this repository: ", url.as_str()),
        ),
        InputType::CodeReview => OpenAIChatMessage::user(
            "Review the provided code changes.".to_owned(),
        ),
        InputType::SummarizeConversation(prompt) => OpenAIChatMessage::user(
            labelled("Summarize this conversation. ", prompt.as_str()),
        ),
        InputType::CreateEnvironment(paths) => {
            let paths = join(paths, ", ");
            OpenAIChatMessage::user(
                labelled("Create a development environment for: ", paths.as_str()),
            )
        },
        InputType::FetchReviewComments(path) => {
            let mut text = labelled("Fetch review comments for ", path.as_str());
            text.append(".");
            OpenAIChatMessage::user(text)
        },
        InputType::StartFromAmbientRunPrompt(id) => {
            let mut text = labelled("Start ambient run ", id.as_str());
            text.append(".");
            OpenAIChatMessage::user(text)
        },
        InputType::InvokeSkill(query) => OpenAIChatMessage::user(
            match query {
                Some(query) => query.clone(),
                None => "Invoke the provided skill.".to_owned(),
            },
        ),
        InputType::UserQuery(query) => OpenAIChatMessage::user(query.clone()),
        InputType::ToolCallResult(result) => OpenAIChatMessage::tool(
            result.tool_call_id.clone(),
            format_request_tool_call_result(result),
        ),
    };
    messages.push(message);
    assert(views(messages@) =~= before.push(message@));
}

// ---------------------------------------------------------------------------------------------
// The request to the backend
// ---------------------------------------------------------------------------------------------
/// How the model is to use the tools of Warp.
pub const WARP_TOOL_INSTRUCTIONS: &'static str =
    "Tool mapping:\n- Use run_shell_command for terminal commands. Prefer read-only commands unless mutation is required.\n- When run_shell_command returns a long-running snapshot, use read_shell_command_output with the returned command_id to monitor it. Use delay_seconds for periodic checks and wait_until_complete when you need the final result.\n- Use write_to_lrc only when a running command needs terminal input. Use transfer_shell_command_control when the command requires secret, interactive, or human-only input.\n- Use read_files, grep, file_glob_v2, and search_codebase to gather local project context through Warp's native file/search UI.\n- Use read_skill when the request references a Warp/Codex skill and Warp advertises that tool.\n- Use ask_user_question when progress depends on a user choice. Keep questions concrete and options short.\n- Use apply_file_diffs for file edits. Prefer v4a_updates when possible; otherwise use exact search/replace diffs.\n- Use suggest_prompt for passive prompt chips or inline query banners when Warp asks for passive suggestions.\n- Use suggest_rule only for durable rules the user may want to save for future agent runs.\n- For SSH checks, prefer absolute key paths when the working directory is known, IdentitiesOnly=yes, BatchMode=yes, StrictHostKeyChecking=accept-new, and a short ConnectTimeout. If SSH says to log in as another user, retry once with that user and summarize both attempts.\n- Do not claim a command ran or a file changed until Warp returns the tool result.";

/// How the model is to use the tools of Warp.
pub fn warp_tool_instructions() -> (r: &'static str)
    ensures
        r@ == WARP_TOOL_INSTRUCTIONS@,
{
    WARP_TOOL_INSTRUCTIONS
}

/// The model that the user picked: the first of the four settings that is not empty.
pub open spec fn model_of(request: RequestView) -> Option<Seq<char>> {
    match request.settings {
        Some(settings) => match settings.model_config {
            Some(models) => if models.coding.len() > 0 {
                Some(models.coding)
            } else if models.base.len() > 0 {
                Some(models.base)
            } else if models.cli_agent.len() > 0 {
                Some(models.cli_agent)
            } else if models.computer_use_agent.len() > 0 {
                Some(models.computer_use_agent)
            } else {
                None
            },
            None => None,
        },
        None => None,
    }
}

/// The model that the user picked.
pub fn selected_model(request: &Request) -> (r: Option<String>)
    ensures
        opt_view(r) == model_of(request@),
{
    match &request.settings {
        Some(settings) => match &settings.model_config {
            Some(models) => if !models.coding.as_str().is_empty() {
                Some(models.coding.clone())
            } else if !models.base.as_str().is_empty() {
                Some(models.base.clone())
            } else if !models.cli_agent.as_str().is_empty() {
                Some(models.cli_agent.clone())
            } else if !models.computer_use_agent.as_str().is_empty() {
                Some(models.computer_use_agent.clone())
            } else {
                None
            },
            None => None,
        },
        None => None,
    }
}

/// The messages with which a request to the backend starts: the instructions, and the context where
/// there is any.
pub open spec fn opening_messages(request: RequestView, system_prompt: Seq<char>) -> Seq<
    OpenAIChatMessageView,
> {
    let instructions = seq![
        system_message(system_prompt + "\n\n"@ + WARP_TOOL_INSTRUCTIONS@),
    ];
    match request.input {
        Some(input) => match input.context {
            Some(context) => if context_text(context).len() == 0 {
                instructions
            } else {
                instructions.push(system_message(context_text(context)))
            },
            None => instructions,
        },
        None => instructions,
    }
}

/// The messages of a request to the backend before its input: the opening and the history.
pub open spec fn messages_before_input(request: RequestView, system_prompt: Seq<char>) -> Seq<
    OpenAIChatMessageView,
> {
    match request.task_context {
        Some(tasks) => with_tasks(opening_messages(request, system_prompt), tasks),
        None => opening_messages(request, system_prompt),
    }
}

/// The messages of a request to the backend: the opening, the history and what is asked for; where
/// there would be nothing but the instructions, the user says to continue.
pub open spec fn chat_messages(request: RequestView, system_prompt: Seq<char>) -> Seq<
    OpenAIChatMessageView,
> {
    let before = messages_before_input(request, system_prompt);
    let messages = match request.input {
        Some(input) => with_input(before, input, request),
        None => before,
    };
    if messages.len() == 1 {
        messages.push(user_message("Continue."@))
    } else {
        messages
    }
}

/// The request to the backend.
pub open spec fn chat_request(request: RequestView, config: ConfigView) -> OpenAIChatRequestView {
    OpenAIChatRequestView {
        model: match (model_of(request), config.model_override) {
            (Some(model), _) => model,
            (None, Some(model)) => model,
            (None, None) => "local-model"@,
        },
        messages: chat_messages(request, config.system_prompt),
        tools: tool_definitions(request),
        stream: true,
    }
}

/// The request to the backend that a request of the client becomes.
pub fn build_chat_request(request: &Request, config: &Config) -> (r: OpenAIChatRequest)
    ensures
        r@ == chat_request(request@, config@),
{
    let model = match selected_model(request) {
        Some(model) => model,
        None => match &config.model_override {
            Some(model) => model.clone(),
            None => "local-model".to_owned(),
        },
    };
    let mut instructions = config.system_prompt.clone();
    instructions.append("\n\n");
    instructions.append(warp_tool_instructions());
    let mut messages: Vec<OpenAIChatMessage> = Vec::new();
    let message = OpenAIChatMessage::system(instructions);
    messages.push(message);
    assert(views(messages@) =~= seq![message@]);
    let ghost first = views(messages@);
    match &request.input {
        Some(input) => match &input.context {
            Some(context) => {
                let summary = format_input_context(context);
                if !summary.as_str().is_empty() {
                    let message = OpenAIChatMessage::system(summary);
                    messages.push(message);
                    assert(views(messages@) =~= first.push(message@));
                }
            },
            None => {},
        },
        None => {},
    }
    match &request.task_context {
        Some(tasks) => {
            append_tasks(&mut messages, tasks);
        },
        None => {},
    }
    match &request.input {
        Some(input) => {
            append_request_input_messages(&mut messages, input, request);
        },
        None => {},
    }
    let ghost before = views(messages@);
    assert(before.len() == messages@.len());
    if messages.len() == 1 {
        let message = OpenAIChatMessage::user("Continue.".to_owned());
        messages.push(message);
        assert(views(messages@) =~= before.push(message@));
    }
    OpenAIChatRequest { model, messages, tools: build_tool_definitions(request), stream: true }
}

// ---------------------------------------------------------------------------------------------
// Laws
// ---------------------------------------------------------------------------------------------
proof fn lemma_history_of_task(
    messages: Seq<OpenAIChatMessageView>,
    history: Seq<MessageView>,
    i: int,
)
    ensures
        messages.is_prefix_of(with_history(messages, history)),
        0 <= i < history.len() && history_message(history[i]) is Some ==> with_history(
            messages,
            history,
        ).contains(history_message(history[i])->0),
    decreases history.len(),
{
    if history.len() > 0 {
        lemma_history_of_task(messages, history.drop_last(), i);
        let before = with_history(messages, history.drop_last());
        let after = with_history(messages, history);
        assert(before.is_prefix_of(after));
        if 0 <= i < history.len() && history_message(history[i]) is Some {
            let told = history_message(history[i])->0;
            if i == history.len() - 1 {
                assert(after.last() == told);
            } else {
                assert(history.drop_last()[i] == history[i]);
                lemma_prefix_contains(before, after, told);
            }
        }
    }
}

proof fn lemma_prefix_contains<T>(before: Seq<T>, after: Seq<T>, item: T)
    requires
        before.is_prefix_of(after),
        before.contains(item),
    ensures
        after.contains(item),
{
    let k = choose|k: int| 0 <= k < before.len() && before[k] == item;
    assert(after[k] == item);
}

proof fn lemma_history_of_tasks(
    messages: Seq<OpenAIChatMessageView>,
    tasks: Seq<TaskView>,
    t: int,
    i: int,
)
    ensures
        messages.is_prefix_of(with_tasks(messages, tasks)),
        0 <= t < tasks.len() && 0 <= i < tasks[t].messages.len() && history_message(
            tasks[t].messages[i],
        ) is Some ==> with_tasks(messages, tasks).contains(
            history_message(tasks[t].messages[i])->0,
        ),
    decreases tasks.len(),
{
    if tasks.len() > 0 {
        let before = with_tasks(messages, tasks.drop_last());
        let after = with_tasks(messages, tasks);
        lemma_history_of_tasks(messages, tasks.drop_last(), t, i);
        lemma_history_of_task(before, tasks.last().messages, i);
        if 0 <= t < tasks.len() - 1 {
            assert(tasks.drop_last()[t] == tasks[t]);
            if 0 <= i < tasks[t].messages.len() && history_message(tasks[t].messages[i]) is Some {
                lemma_prefix_contains(before, after, history_message(tasks[t].messages[i])->0);
            }
        }
    }
}

proof fn lemma_inputs(
    messages: Seq<OpenAIChatMessageView>,
    inputs: Seq<Option<UserInputView>>,
    i: int,
)
    ensures
        messages.is_prefix_of(with_user_inputs(messages, inputs)),
        0 <= i < inputs.len() && inputs[i] is Some ==> with_user_inputs(messages, inputs).contains(
            user_input_message(inputs[i]->0),
        ),
    decreases inputs.len(),
{
    if inputs.len() > 0 {
        lemma_inputs(messages, inputs.drop_last(), i);
        let before = with_user_inputs(messages, inputs.drop_last());
        let after = with_user_inputs(messages, inputs);
        assert(before.is_prefix_of(after));
        if 0 <= i < inputs.len() && inputs[i] is Some {
            let told = user_input_message(inputs[i]->0);
            if i == inputs.len() - 1 {
                assert(after.last() == told);
            } else {
                assert(inputs.drop_last()[i] == inputs[i]);
                lemma_prefix_contains(before, after, told);
            }
        }
    }
}

proof fn lemma_messages_go_on(request: RequestView, system_prompt: Seq<char>)
    ensures
        messages_before_input(request, system_prompt).is_prefix_of(
            chat_messages(request, system_prompt),
        ),
{
    match request.input {
        Some(input) => match input.input_type {
            Some(InputTypeView::UserInputs(inputs)) => {
                lemma_inputs(messages_before_input(request, system_prompt), inputs, 0);
            },
            _ => {},
        },
        None => {},
    }
}

/// Each message of the history of a request that says something is told to the backend; so is each
/// tool call, and each result of one.
pub proof fn lemma_history_is_told(
    request: RequestView,
    system_prompt: Seq<char>,
    tasks: Seq<TaskView>,
    t: int,
    i: int,
)
    requires
        request.task_context == Some(tasks),
        0 <= t < tasks.len(),
        0 <= i < tasks[t].messages.len(),
    ensures
        history_message(tasks[t].messages[i]) matches Some(told) ==> chat_messages(
            request,
            system_prompt,
        ).contains(told),
        tasks[t].messages[i].message matches Some(MessageContentView::ToolCallResult(result))
            ==> chat_messages(request, system_prompt).contains(
            tool_message(result.tool_call_id, tool_result_text(result)),
        ),
{
    let before = messages_before_input(request, system_prompt);
    let opening = opening_messages(request, system_prompt);
    lemma_history_of_tasks(opening, tasks, t, i);
    lemma_messages_go_on(request, system_prompt);
    if history_message(tasks[t].messages[i]) is Some {
        lemma_prefix_contains(
            before,
            chat_messages(request, system_prompt),
            history_message(tasks[t].messages[i])->0,
        );
    }
}

/// What the user and the client put into a request is told to the backend; so is each result of a
/// tool call.
pub proof fn lemma_input_is_told(
    request: RequestView,
    system_prompt: Seq<char>,
    input: InputView,
    input_type: InputTypeView,
    i: int,
)
    requires
        request.input == Some(input),
        input.input_type == Some(input_type),
        input_type matches InputTypeView::UserInputs(inputs) ==> 0 <= i < inputs.len() && inputs[i]
            is Some,
    ensures
        chat_messages(request, system_prompt).contains(
            match input_type {
                InputTypeView::UserInputs(inputs) => user_input_message(inputs[i]->0),
                _ => single_input_message(input_type, request),
            },
        ),
{
    let before = messages_before_input(request, system_prompt);
    let messages = chat_messages(request, system_prompt);
    match input_type {
        InputTypeView::UserInputs(inputs) => {
            lemma_inputs(before, inputs, i);
            assert(with_user_inputs(before, inputs).is_prefix_of(messages));
            lemma_prefix_contains(
                with_user_inputs(before, inputs),
                messages,
                user_input_message(inputs[i]->0),
            );
        },
        _ => {
            let all = before.push(single_input_message(input_type, request));
            assert(all.last() == single_input_message(input_type, request));
            assert(all.is_prefix_of(messages));
            lemma_prefix_contains(all, messages, single_input_message(input_type, request));
        },
    }
}

/// A request to the backend starts with the instructions and asks for something: it has a second
/// message.
pub proof fn lemma_request_asks_for_something(request: RequestView, system_prompt: Seq<char>)
    ensures
        chat_messages(request, system_prompt).len() >= 2,
        chat_messages(request, system_prompt)[0] == system_message(
            system_prompt + "\n\n"@ + WARP_TOOL_INSTRUCTIONS@,
        ),
{
    let before = messages_before_input(request, system_prompt);
    lemma_messages_go_on(request, system_prompt);
    let opening = opening_messages(request, system_prompt);
    match request.task_context {
        Some(tasks) => {
            lemma_history_of_tasks(opening, tasks, 0, 0);
        },
        None => {},
    }
    assert(opening.is_prefix_of(before));
    assert(before[0] == opening[0]);
    assert(chat_messages(request, system_prompt)[0] == before[0]);
}

proof fn lemma_roles_differ()
    ensures
        "tool"@ != "system"@,
        "tool"@ != "user"@,
        "tool"@ != "assistant"@,
{
    reveal_strlit("system");
    reveal_strlit("user");
    reveal_strlit("assistant");
    reveal_strlit("tool");
    assert("tool"@[0] != "user"@[0]);
    assert("tool"@.len() != "system"@.len());
    assert("tool"@.len() != "assistant"@.len());
}

/// Whether every result of a tool call among some messages has its identifier.
pub open spec fn all_named(messages: Seq<OpenAIChatMessageView>) -> bool {
    forall|i: int| 0 <= i < messages.len() ==> named_result(#[trigger] messages[i])
}

proof fn lemma_history_is_named(messages: Seq<OpenAIChatMessageView>, history: Seq<MessageView>)
    requires
        all_named(messages),
    ensures
        all_named(with_history(messages, history)),
    decreases history.len(),
{
    if history.len() > 0 {
        lemma_roles_differ();
        lemma_history_is_named(messages, history.drop_last());
    }
}

proof fn lemma_tasks_are_named(messages: Seq<OpenAIChatMessageView>, tasks: Seq<TaskView>)
    requires
        all_named(messages),
    ensures
        all_named(with_tasks(messages, tasks)),
    decreases tasks.len(),
{
    if tasks.len() > 0 {
        lemma_tasks_are_named(messages, tasks.drop_last());
        lemma_history_is_named(with_tasks(messages, tasks.drop_last()), tasks.last().messages);
    }
}

proof fn lemma_inputs_are_named(
    messages: Seq<OpenAIChatMessageView>,
    inputs: Seq<Option<UserInputView>>,
)
    requires
        all_named(messages),
    ensures
        all_named(with_user_inputs(messages, inputs)),
    decreases inputs.len(),
{
    if inputs.len() > 0 {
        lemma_roles_differ();
        lemma_inputs_are_named(messages, inputs.drop_last());
    }
}

/// Every result of a tool call is told to the backend under the identifier of its call: no message
/// needs a fresh one.
pub proof fn lemma_results_are_named(request: RequestView, system_prompt: Seq<char>)
    ensures
        all_named(chat_messages(request, system_prompt)),
{
    lemma_roles_differ();
    let opening = opening_messages(request, system_prompt);
    let before = messages_before_input(request, system_prompt);
    assert(all_named(opening));
    match request.task_context {
        Some(tasks) => {
            lemma_tasks_are_named(opening, tasks);
        },
        None => {},
    }
    match request.input {
        Some(input) => match input.input_type {
            Some(InputTypeView::UserInputs(inputs)) => {
                lemma_inputs_are_named(before, inputs);
            },
            _ => {},
        },
        None => {},
    }
}

/// A request to the backend starts with its opening.
pub proof fn lemma_opening_comes_first(request: RequestView, system_prompt: Seq<char>)
    ensures
        opening_messages(request, system_prompt).is_prefix_of(
            messages_before_input(request, system_prompt),
        ),
        opening_messages(request, system_prompt).is_prefix_of(
            chat_messages(request, system_prompt),
        ),
{
    let before = messages_before_input(request, system_prompt);
    lemma_messages_go_on(request, system_prompt);
    let opening = opening_messages(request, system_prompt);
    match request.task_context {
        Some(tasks) => {
            lemma_history_of_tasks(opening, tasks, 0, 0);
        },
        None => {},
    }
    let all = chat_messages(request, system_prompt);
    assert(opening.is_prefix_of(before));
    assert forall|i: int| 0 <= i < opening.len() implies opening[i] == all[i] by {
        assert(opening[i] == before[i]);
    }
}

} // verus!
