//! What a backend asks for, said of its own words: the fields of the arguments of a call are the
//! fields of the tool that the client is asked to use.
use crate::json::JsonView;
use crate::outputs::{completes, fresh_for, output_of, tool_of, WarpClientOutputView};
use crate::calls::ToolCallAccumulatorView;
use crate::args::{
    ask_user_question_arg, deleted_file_args, file_diff_args, line_range_arg, new_file_args,
    read_file_arg, v4a_hunk_args, v4a_update_args,
};
use crate::json::json_reading;
use crate::text::{blank, lowered};
use crate::warp::{DelayView, DisplayModeView, SkillReferenceView, ToolView, WriteMode};
use crate::record::texts_value;
use crate::ids::fresh_id;
use vstd::prelude::*;
use vstd::utf8::encode_utf8;

verus! {

/// Whether a member is a text, or is not there, or is null.
pub open spec fn text_if_any(json: JsonView, name: Seq<char>) -> bool {
    match json.get(name) {
        Some(value) => value is Str || value is Null,
        None => true,
    }
}

/// The text of a member, empty where there is none.
pub open spec fn said(json: JsonView, name: Seq<char>) -> Seq<char> {
    match json.get(name) {
        Some(JsonView::Str(text)) => text,
        _ => Seq::empty(),
    }
}

/// Whether a member is a boolean, or is not there.
pub open spec fn flag_if_any(json: JsonView, name: Seq<char>) -> bool {
    match json.get(name) {
        Some(value) => value is Bool,
        None => true,
    }
}

/// Whether a member is true.
pub open spec fn agreed(json: JsonView, name: Seq<char>) -> bool {
    json.get(name) == Some(JsonView::Bool(true))
}

/// Whether texts are those of a list.
pub open spec fn lists_texts(value: Option<JsonView>, texts: Seq<Seq<char>>) -> bool {
    match value {
        Some(JsonView::Array(items)) => items.len() == texts.len() && forall|i: int|
            0 <= i < texts.len() ==> items[i] == JsonView::Str(#[trigger] texts[i]),
        None => texts.len() == 0,
        _ => false,
    }
}

/// Whether a number is that of a member, or 0 where there is none.
pub open spec fn counts(json: JsonView, name: Seq<char>, number: int) -> bool {
    match json.get(name) {
        Some(JsonView::Number(n)) => n.signed is Some && n.signed->0 == number,
        Some(JsonView::Null) => number == 0,
        None => number == 0,
        _ => false,
    }
}

/// The items of a list, none where there is no list.
pub open spec fn listed(json: JsonView, name: Seq<char>) -> Seq<JsonView> {
    match json.get(name) {
        Some(JsonView::Array(items)) => items,
        _ => Seq::empty(),
    }
}

/// The names of the tools are all different.
pub proof fn lemma_names_differ()
    ensures
        "run_shell_command"@ != "suggest_rule"@,
        "read_shell_command_output"@ != "suggest_rule"@,
        "read_shell_command_output"@ != "run_shell_command"@,
        "write_to_lrc"@ != "suggest_rule"@,
        "write_to_lrc"@ != "run_shell_command"@,
        "write_to_lrc"@ != "read_shell_command_output"@,
        "write_to_long_running_shell_command"@ != "suggest_rule"@,
        "write_to_long_running_shell_command"@ != "run_shell_command"@,
        "write_to_long_running_shell_command"@ != "read_shell_command_output"@,
        "write_to_long_running_shell_command"@ != "write_to_lrc"@,
        "transfer_shell_command_control"@ != "suggest_rule"@,
        "transfer_shell_command_control"@ != "run_shell_command"@,
        "transfer_shell_command_control"@ != "read_shell_command_output"@,
        "transfer_shell_command_control"@ != "write_to_lrc"@,
        "transfer_shell_command_control"@ != "write_to_long_running_shell_command"@,
        "transfer_shell_command_control_to_user"@ != "suggest_rule"@,
        "transfer_shell_command_control_to_user"@ != "run_shell_command"@,
        "transfer_shell_command_control_to_user"@ != "read_shell_command_output"@,
        "transfer_shell_command_control_to_user"@ != "write_to_lrc"@,
        "transfer_shell_command_control_to_user"@ != "write_to_long_running_shell_command"@,
        "transfer_shell_command_control_to_user"@ != "transfer_shell_command_control"@,
        "read_files"@ != "suggest_rule"@,
        "read_files"@ != "run_shell_command"@,
        "read_files"@ != "read_shell_command_output"@,
        "read_files"@ != "write_to_lrc"@,
        "read_files"@ != "write_to_long_running_shell_command"@,
        "read_files"@ != "transfer_shell_command_control"@,
        "read_files"@ != "transfer_shell_command_control_to_user"@,
        "search_codebase"@ != "suggest_rule"@,
        "search_codebase"@ != "run_shell_command"@,
        "search_codebase"@ != "read_shell_command_output"@,
        "search_codebase"@ != "write_to_lrc"@,
        "search_codebase"@ != "write_to_long_running_shell_command"@,
        "search_codebase"@ != "transfer_shell_command_control"@,
        "search_codebase"@ != "transfer_shell_command_control_to_user"@,
        "search_codebase"@ != "read_files"@,
        "grep"@ != "suggest_rule"@,
        "grep"@ != "run_shell_command"@,
        "grep"@ != "read_shell_command_output"@,
        "grep"@ != "write_to_lrc"@,
        "grep"@ != "write_to_long_running_shell_command"@,
        "grep"@ != "transfer_shell_command_control"@,
        "grep"@ != "transfer_shell_command_control_to_user"@,
        "grep"@ != "read_files"@,
        "grep"@ != "search_codebase"@,
        "file_glob"@ != "suggest_rule"@,
        "file_glob"@ != "run_shell_command"@,
        "file_glob"@ != "read_shell_command_output"@,
        "file_glob"@ != "write_to_lrc"@,
        "file_glob"@ != "write_to_long_running_shell_command"@,
        "file_glob"@ != "transfer_shell_command_control"@,
        "file_glob"@ != "transfer_shell_command_control_to_user"@,
        "file_glob"@ != "read_files"@,
        "file_glob"@ != "search_codebase"@,
        "file_glob"@ != "grep"@,
        "file_glob_v2"@ != "suggest_rule"@,
        "file_glob_v2"@ != "run_shell_command"@,
        "file_glob_v2"@ != "read_shell_command_output"@,
        "file_glob_v2"@ != "write_to_lrc"@,
        "file_glob_v2"@ != "write_to_long_running_shell_command"@,
        "file_glob_v2"@ != "transfer_shell_command_control"@,
        "file_glob_v2"@ != "transfer_shell_command_control_to_user"@,
        "file_glob_v2"@ != "read_files"@,
        "file_glob_v2"@ != "search_codebase"@,
        "file_glob_v2"@ != "grep"@,
        "file_glob_v2"@ != "file_glob"@,
        "ask_user_question"@ != "suggest_rule"@,
        "ask_user_question"@ != "run_shell_command"@,
        "ask_user_question"@ != "read_shell_command_output"@,
        "ask_user_question"@ != "write_to_lrc"@,
        "ask_user_question"@ != "write_to_long_running_shell_command"@,
        "ask_user_question"@ != "transfer_shell_command_control"@,
        "ask_user_question"@ != "transfer_shell_command_control_to_user"@,
        "ask_user_question"@ != "read_files"@,
        "ask_user_question"@ != "search_codebase"@,
        "ask_user_question"@ != "grep"@,
        "ask_user_question"@ != "file_glob"@,
        "ask_user_question"@ != "file_glob_v2"@,
        "apply_file_diffs"@ != "suggest_rule"@,
        "apply_file_diffs"@ != "run_shell_command"@,
        "apply_file_diffs"@ != "read_shell_command_output"@,
        "apply_file_diffs"@ != "write_to_lrc"@,
        "apply_file_diffs"@ != "write_to_long_running_shell_command"@,
        "apply_file_diffs"@ != "transfer_shell_command_control"@,
        "apply_file_diffs"@ != "transfer_shell_command_control_to_user"@,
        "apply_file_diffs"@ != "read_files"@,
        "apply_file_diffs"@ != "search_codebase"@,
        "apply_file_diffs"@ != "grep"@,
        "apply_file_diffs"@ != "file_glob"@,
        "apply_file_diffs"@ != "file_glob_v2"@,
        "apply_file_diffs"@ != "ask_user_question"@,
        "suggest_prompt"@ != "suggest_rule"@,
        "suggest_prompt"@ != "run_shell_command"@,
        "suggest_prompt"@ != "read_shell_command_output"@,
        "suggest_prompt"@ != "write_to_lrc"@,
        "suggest_prompt"@ != "write_to_long_running_shell_command"@,
        "suggest_prompt"@ != "transfer_shell_command_control"@,
        "suggest_prompt"@ != "transfer_shell_command_control_to_user"@,
        "suggest_prompt"@ != "read_files"@,
        "suggest_prompt"@ != "search_codebase"@,
        "suggest_prompt"@ != "grep"@,
        "suggest_prompt"@ != "file_glob"@,
        "suggest_prompt"@ != "file_glob_v2"@,
        "suggest_prompt"@ != "ask_user_question"@,
        "suggest_prompt"@ != "apply_file_diffs"@,
        "read_skill"@ != "suggest_rule"@,
        "read_skill"@ != "run_shell_command"@,
        "read_skill"@ != "read_shell_command_output"@,
        "read_skill"@ != "write_to_lrc"@,
        "read_skill"@ != "write_to_long_running_shell_command"@,
        "read_skill"@ != "transfer_shell_command_control"@,
        "read_skill"@ != "transfer_shell_command_control_to_user"@,
        "read_skill"@ != "read_files"@,
        "read_skill"@ != "search_codebase"@,
        "read_skill"@ != "grep"@,
        "read_skill"@ != "file_glob"@,
        "read_skill"@ != "file_glob_v2"@,
        "read_skill"@ != "ask_user_question"@,
        "read_skill"@ != "apply_file_diffs"@,
        "read_skill"@ != "suggest_prompt"@,
{
    reveal_strlit("suggest_rule");
    reveal_strlit("run_shell_command");
    reveal_strlit("read_shell_command_output");
    reveal_strlit("write_to_lrc");
    reveal_strlit("write_to_long_running_shell_command");
    reveal_strlit("transfer_shell_command_control");
    reveal_strlit("transfer_shell_command_control_to_user");
    reveal_strlit("read_files");
    reveal_strlit("search_codebase");
    reveal_strlit("grep");
    reveal_strlit("file_glob");
    reveal_strlit("file_glob_v2");
    reveal_strlit("ask_user_question");
    reveal_strlit("apply_file_diffs");
    reveal_strlit("suggest_prompt");
    reveal_strlit("read_skill");
    assert("run_shell_command"@.len() != "suggest_rule"@.len());
    assert("read_shell_command_output"@.len() != "suggest_rule"@.len());
    assert("read_shell_command_output"@.len() != "run_shell_command"@.len());
    assert("write_to_lrc"@[0] != "suggest_rule"@[0]);
    assert("write_to_lrc"@.len() != "run_shell_command"@.len());
    assert("write_to_lrc"@.len() != "read_shell_command_output"@.len());
    assert("write_to_long_running_shell_command"@.len() != "suggest_rule"@.len());
    assert("write_to_long_running_shell_command"@.len() != "run_shell_command"@.len());
    assert("write_to_long_running_shell_command"@.len() != "read_shell_command_output"@.len());
    assert("write_to_long_running_shell_command"@.len() != "write_to_lrc"@.len());
    assert("transfer_shell_command_control"@.len() != "suggest_rule"@.len());
    assert("transfer_shell_command_control"@.len() != "run_shell_command"@.len());
    assert("transfer_shell_command_control"@.len() != "read_shell_command_output"@.len());
    assert("transfer_shell_command_control"@.len() != "write_to_lrc"@.len());
    assert("transfer_shell_command_control"@.len() != "write_to_long_running_shell_command"@.len());
    assert("transfer_shell_command_control_to_user"@.len() != "suggest_rule"@.len());
    assert("transfer_shell_command_control_to_user"@.len() != "run_shell_command"@.len());
    assert("transfer_shell_command_control_to_user"@.len() != "read_shell_command_output"@.len());
    assert("transfer_shell_command_control_to_user"@.len() != "write_to_lrc"@.len());
    assert(
        "transfer_shell_command_control_to_user"@.len() != "write_to_long_running_shell_command"@.len()
    );
    assert(
        "transfer_shell_command_control_to_user"@.len() != "transfer_shell_command_control"@.len()
    );
    assert("read_files"@.len() != "suggest_rule"@.len());
    assert("read_files"@.len() != "run_shell_command"@.len());
    assert("read_files"@.len() != "read_shell_command_output"@.len());
    assert("read_files"@.len() != "write_to_lrc"@.len());
    assert("read_files"@.len() != "write_to_long_running_shell_command"@.len());
    assert("read_files"@.len() != "transfer_shell_command_control"@.len());
    assert("read_files"@.len() != "transfer_shell_command_control_to_user"@.len());
    assert("search_codebase"@.len() != "suggest_rule"@.len());
    assert("search_codebase"@.len() != "run_shell_command"@.len());
    assert("search_codebase"@.len() != "read_shell_command_output"@.len());
    assert("search_codebase"@.len() != "write_to_lrc"@.len());
    assert("search_codebase"@.len() != "write_to_long_running_shell_command"@.len());
    assert("search_codebase"@.len() != "transfer_shell_command_control"@.len());
    assert("search_codebase"@.len() != "transfer_shell_command_control_to_user"@.len());
    assert("search_codebase"@.len() != "read_files"@.len());
    assert("grep"@.len() != "suggest_rule"@.len());
    assert("grep"@.len() != "run_shell_command"@.len());
    assert("grep"@.len() != "read_shell_command_output"@.len());
    assert("grep"@.len() != "write_to_lrc"@.len());
    assert("grep"@.len() != "write_to_long_running_shell_command"@.len());
    assert("grep"@.len() != "transfer_shell_command_control"@.len());
    assert("grep"@.len() != "transfer_shell_command_control_to_user"@.len());
    assert("grep"@.len() != "read_files"@.len());
    assert("grep"@.len() != "search_codebase"@.len());
    assert("file_glob"@.len() != "suggest_rule"@.len());
    assert("file_glob"@.len() != "run_shell_command"@.len());
    assert("file_glob"@.len() != "read_shell_command_output"@.len());
    assert("file_glob"@.len() != "write_to_lrc"@.len());
    assert("file_glob"@.len() != "write_to_long_running_shell_command"@.len());
    assert("file_glob"@.len() != "transfer_shell_command_control"@.len());
    assert("file_glob"@.len() != "transfer_shell_command_control_to_user"@.len());
    assert("file_glob"@.len() != "read_files"@.len());
    assert("file_glob"@.len() != "search_codebase"@.len());
    assert("file_glob"@.len() != "grep"@.len());
    assert("file_glob_v2"@[0] != "suggest_rule"@[0]);
    assert("file_glob_v2"@.len() != "run_shell_command"@.len());
    assert("file_glob_v2"@.len() != "read_shell_command_output"@.len());
    assert("file_glob_v2"@[0] != "write_to_lrc"@[0]);
    assert("file_glob_v2"@.len() != "write_to_long_running_shell_command"@.len());
    assert("file_glob_v2"@.len() != "transfer_shell_command_control"@.len());
    assert("file_glob_v2"@.len() != "transfer_shell_command_control_to_user"@.len());
    assert("file_glob_v2"@.len() != "read_files"@.len());
    assert("file_glob_v2"@.len() != "search_codebase"@.len());
    assert("file_glob_v2"@.len() != "grep"@.len());
    assert("file_glob_v2"@.len() != "file_glob"@.len());
    assert("ask_user_question"@.len() != "suggest_rule"@.len());
    assert("ask_user_question"@[0] != "run_shell_command"@[0]);
    assert("ask_user_question"@.len() != "read_shell_command_output"@.len());
    assert("ask_user_question"@.len() != "write_to_lrc"@.len());
    assert("ask_user_question"@.len() != "write_to_long_running_shell_command"@.len());
    assert("ask_user_question"@.len() != "transfer_shell_command_control"@.len());
    assert("ask_user_question"@.len() != "transfer_shell_command_control_to_user"@.len());
    assert("ask_user_question"@.len() != "read_files"@.len());
    assert("ask_user_question"@.len() != "search_codebase"@.len());
    assert("ask_user_question"@.len() != "grep"@.len());
    assert("ask_user_question"@.len() != "file_glob"@.len());
    assert("ask_user_question"@.len() != "file_glob_v2"@.len());
    assert("apply_file_diffs"@.len() != "suggest_rule"@.len());
    assert("apply_file_diffs"@.len() != "run_shell_command"@.len());
    assert("apply_file_diffs"@.len() != "read_shell_command_output"@.len());
    assert("apply_file_diffs"@.len() != "write_to_lrc"@.len());
    assert("apply_file_diffs"@.len() != "write_to_long_running_shell_command"@.len());
    assert("apply_file_diffs"@.len() != "transfer_shell_command_control"@.len());
    assert("apply_file_diffs"@.len() != "transfer_shell_command_control_to_user"@.len());
    assert("apply_file_diffs"@.len() != "read_files"@.len());
    assert("apply_file_diffs"@.len() != "search_codebase"@.len());
    assert("apply_file_diffs"@.len() != "grep"@.len());
    assert("apply_file_diffs"@.len() != "file_glob"@.len());
    assert("apply_file_diffs"@.len() != "file_glob_v2"@.len());
    assert("apply_file_diffs"@.len() != "ask_user_question"@.len());
    assert("suggest_prompt"@.len() != "suggest_rule"@.len());
    assert("suggest_prompt"@.len() != "run_shell_command"@.len());
    assert("suggest_prompt"@.len() != "read_shell_command_output"@.len());
    assert("suggest_prompt"@.len() != "write_to_lrc"@.len());
    assert("suggest_prompt"@.len() != "write_to_long_running_shell_command"@.len());
    assert("suggest_prompt"@.len() != "transfer_shell_command_control"@.len());
    assert("suggest_prompt"@.len() != "transfer_shell_command_control_to_user"@.len());
    assert("suggest_prompt"@.len() != "read_files"@.len());
    assert("suggest_prompt"@.len() != "search_codebase"@.len());
    assert("suggest_prompt"@.len() != "grep"@.len());
    assert("suggest_prompt"@.len() != "file_glob"@.len());
    assert("suggest_prompt"@.len() != "file_glob_v2"@.len());
    assert("suggest_prompt"@.len() != "ask_user_question"@.len());
    assert("suggest_prompt"@.len() != "apply_file_diffs"@.len());
    assert("read_skill"@.len() != "suggest_rule"@.len());
    assert("read_skill"@.len() != "run_shell_command"@.len());
    assert("read_skill"@.len() != "read_shell_command_output"@.len());
    assert("read_skill"@.len() != "write_to_lrc"@.len());
    assert("read_skill"@.len() != "write_to_long_running_shell_command"@.len());
    assert("read_skill"@.len() != "transfer_shell_command_control"@.len());
    assert("read_skill"@.len() != "transfer_shell_command_control_to_user"@.len());
    assert("read_skill"@[5] != "read_files"@[5]);
    assert("read_skill"@.len() != "search_codebase"@.len());
    assert("read_skill"@.len() != "grep"@.len());
    assert("read_skill"@.len() != "file_glob"@.len());
    assert("read_skill"@.len() != "file_glob_v2"@.len());
    assert("read_skill"@.len() != "ask_user_question"@.len());
    assert("read_skill"@.len() != "apply_file_diffs"@.len());
    assert("read_skill"@.len() != "suggest_prompt"@.len());
}

/// A call of an unknown tool is refused by its name.
pub proof fn lemma_unknown_tool_is_refused(name: Seq<char>, parsed: Result<JsonView, Seq<char>>)
    requires
        name != "run_shell_command"@,
        name != "read_shell_command_output"@,
        name != "write_to_lrc"@,
        name != "write_to_long_running_shell_command"@,
        name != "transfer_shell_command_control"@,
        name != "transfer_shell_command_control_to_user"@,
        name != "read_files"@,
        name != "search_codebase"@,
        name != "grep"@,
        name != "file_glob"@,
        name != "file_glob_v2"@,
        name != "ask_user_question"@,
        name != "apply_file_diffs"@,
        name != "suggest_prompt"@,
        name != "read_skill"@,
    ensures
        tool_of(name, parsed) == Err::<ToolView, Seq<char>>("unknown tool `"@ + name + "`"@),
{
}

/// Arguments that are not JSON are refused with the reader's own message.
pub proof fn lemma_unreadable_arguments_are_refused(
    name: Seq<char>,
    id: Option<Seq<char>>,
    message: Seq<char>,
)
    requires
        name == "run_shell_command"@
            || name == "apply_file_diffs"@ || name == "suggest_rule"@ || name
            == "read_files"@ || name == "grep"@ || name == "write_to_lrc"@ || name
            == "ask_user_question"@ || name == "search_codebase"@ || name == "file_glob"@ || name
            == "file_glob_v2"@ || name == "read_skill"@ || name == "suggest_prompt"@ || name
            == "read_shell_command_output"@ || name == "transfer_shell_command_control"@,
    ensures
        output_of(Some(name), id, Err(message)) == Err::<WarpClientOutputView, Seq<char>>(message),
{
    lemma_names_differ();
}

/// A call of a tool has the identifier of the call and the tool that its name and its arguments ask
/// for; where the tool is refused, so is the call, and so is a call without a name.
pub proof fn lemma_call_is_passed_on(
    name: Seq<char>,
    id: Option<Seq<char>>,
    parsed: Result<JsonView, Seq<char>>,
)
    requires
        name != "suggest_rule"@,
    ensures
        tool_of(name, parsed) matches Ok(tool) ==> (output_of(Some(name), id, parsed) matches Ok(
            WarpClientOutputView::ToolCall(call),
        ) && call.tool == Some(tool) && (id matches Some(given) ==> call.tool_call_id == given) && (
        id is None ==> call.tool_call_id.len() == 0)),
        tool_of(name, parsed) matches Err(message) ==> output_of(Some(name), id, parsed) == Err::<
            WarpClientOutputView,
            Seq<char>,
        >(message),
        output_of(None, id, parsed) is Err,
{
}

/// What a tool call becomes keeps the identifier that the backend gave, and the tool, which gets
/// identifiers only for questions that have none.
pub proof fn lemma_identifiers_are_kept(
    call: ToolCallAccumulatorView,
    name: Seq<char>,
    result: Result<WarpClientOutputView, Seq<char>>,
    tool: ToolView,
)
    requires
        completes(call, result),
        call.name == Some(name),
        name != "suggest_rule"@,
        tool_of(name, json_reading(call.arguments)) == Ok::<ToolView, Seq<char>>(tool),
    ensures
        result matches Ok(WarpClientOutputView::ToolCall(made)) && (call.id matches Some(id) ==> (
        id.len() > 0 ==> made.tool_call_id == id)) && made.tool_call_id.len() > 0 && (
        !(tool is AskUserQuestion) ==> made.tool == Some(tool)) && (tool matches
            ToolView::AskUserQuestion(ask) ==> (made.tool matches Some(
            ToolView::AskUserQuestion(asked),
        ) && asked.questions.len() == ask.questions.len() && forall|i: int|
            0 <= i < ask.questions.len() ==> (#[trigger] asked.questions[i]).question
                == ask.questions[i].question && asked.questions[i].question_type
                == ask.questions[i].question_type && (ask.questions[i].question_id.len() > 0
                ==> asked.questions[i].question_id == ask.questions[i].question_id))),
{
    reveal_strlit("tool_");
}

/// A failed call stays failed, with the same message.
pub proof fn lemma_refusals_are_told(
    call: ToolCallAccumulatorView,
    result: Result<WarpClientOutputView, Seq<char>>,
    message: Seq<char>,
)
    requires
        completes(call, result),
    ensures
        output_of(call.name, call.id, json_reading(call.arguments)) == Err::<
            WarpClientOutputView,
            Seq<char>,
        >(message) ==> result == Err::<WarpClientOutputView, Seq<char>>(message),
{
}

/// `run_shell_command`: the command, what is said of it, and whether it is waited for, which it is
/// unless that is denied.
pub proof fn lemma_command_is_as_asked(json: JsonView)
    requires
        json is Object,
    ensures
        json.get_str("command"@) is Some && flag_if_any(json, "is_read_only"@) && flag_if_any(
            json,
            "uses_pager"@,
        ) && flag_if_any(json, "is_risky"@) && flag_if_any(json, "wait_until_complete"@)
            ==> tool_of("run_shell_command"@, Ok(json)) is Ok,
        json.get_str("command"@) is None ==> tool_of("run_shell_command"@, Ok(json)) is Err,
        tool_of("run_shell_command"@, Ok(json)) matches Ok(tool) ==> (tool matches
            ToolView::RunShellCommand(command) && json.get("command"@) == Some(
            JsonView::Str(command.command),
        ) && command.is_read_only == agreed(json, "is_read_only"@) && command.uses_pager == agreed(
            json,
            "uses_pager"@,
        ) && command.is_risky == agreed(json, "is_risky"@) && command.wait_until_complete == Some(
            json.get("wait_until_complete"@) != Some(JsonView::Bool(false)),
        )),
{
    lemma_names_differ();
}

/// `read_shell_command_output`: the command, and when it is read: at its end where that is asked
/// for, else after the seconds that are given, none of them negative.
pub proof fn lemma_output_is_read_as_asked(json: JsonView)
    requires
        json is Object,
    ensures
        json.get_str("command_id"@) is None ==> tool_of(
            "read_shell_command_output"@,
            Ok(json),
        ) is Err,
        json.get_str("command_id"@) is Some && flag_if_any(json, "wait_until_complete"@)
            && json.get("delay_seconds"@) is None ==> tool_of(
            "read_shell_command_output"@,
            Ok(json),
        ) is Ok,
        tool_of("read_shell_command_output"@, Ok(json)) matches Ok(tool) ==> (tool matches
            ToolView::ReadShellCommandOutput(command) && json.get("command_id"@) == Some(
            JsonView::Str(command.command_id),
        ) && (agreed(json, "wait_until_complete"@) ==> command.delay == Some(
            DelayView::OnCompletion,
        )) && (!agreed(json, "wait_until_complete"@) && json.get("delay_seconds"@) is None
            ==> command.delay is None) && (!agreed(json, "wait_until_complete"@)
            && json.get("delay_seconds"@) is Some && !(json.get("delay_seconds"@)->0 is Null) ==> (
        command.delay matches Some(DelayView::Seconds(seconds)) && seconds >= 0 && (
        json.get("delay_seconds"@) matches Some(JsonView::Number(n)) && n.signed is Some && (
        n.signed->0 >= 0 ==> seconds == n.signed->0) && (n.signed->0 < 0 ==> seconds == 0))))),
{
    lemma_names_differ();
}

/// `write_to_lrc`: the command, the bytes of the input, and the mode of that name.
pub proof fn lemma_input_is_written_as_asked(name: Seq<char>, json: JsonView)
    requires
        json is Object,
        name == "write_to_lrc"@ || name == "write_to_long_running_shell_command"@,
    ensures
        json.get_str("command_id"@) is Some && json.get_str("input"@) is Some && text_if_any(
            json,
            "mode"@,
        ) ==> tool_of(name, Ok(json)) is Ok,
        json.get_str("command_id"@) is None || json.get_str("input"@) is None ==> tool_of(
            name,
            Ok(json),
        ) is Err,
        tool_of(name, Ok(json)) matches Ok(tool) ==> (tool matches
            ToolView::WriteToLongRunningShellCommand(command) && json.get("command_id"@) == Some(
            JsonView::Str(command.command_id),
        ) && command.input == encode_utf8(said(json, "input"@)) && command.mode is Some && (
        json.get("mode"@) is None ==> command.mode == Some(WriteMode::Raw)) && (command.mode
            == Some(WriteMode::Line) <==> lowered(said(json, "mode"@)) == "line"@) && (command.mode
            == Some(WriteMode::Block) <==> lowered(said(json, "mode"@)) == "block"@)),
{
    lemma_names_differ();
    reveal_strlit("line");
    reveal_strlit("block");
    assert("line"@.len() != "block"@.len());
    assert(lowered(Seq::empty()).len() == 0);
}

/// `transfer_shell_command_control`: the reason.
pub proof fn lemma_control_is_handed_over_as_asked(name: Seq<char>, json: JsonView)
    requires
        json is Object,
        name == "transfer_shell_command_control"@ || name
            == "transfer_shell_command_control_to_user"@,
    ensures
        json.get_str("reason"@) is Some <==> tool_of(name, Ok(json)) is Ok,
        tool_of(name, Ok(json)) matches Ok(tool) ==> (tool matches
            ToolView::TransferShellCommandControlToUser(transfer) && json.get("reason"@) == Some(
            JsonView::Str(transfer.reason),
        )),
{
    lemma_names_differ();
}

/// `read_files`: each file by its name, with each of its ranges of lines.
pub proof fn lemma_files_are_read_as_asked(json: JsonView, i: int, k: int)
    requires
        json is Object,
    ensures
        json.get("files"@) is None ==> tool_of("read_files"@, Ok(json)) is Err,
        tool_of("read_files"@, Ok(json)) matches Ok(tool) ==> (tool matches ToolView::ReadFiles(
            read,
        ) && json.get("files"@) == Some(JsonView::Array(listed(json, "files"@))) && read.files.len()
            == listed(json, "files"@).len() && ({
            let item = listed(json, "files"@)[i];
            0 <= i < read.files.len() && item is Object ==> ({
                &&& item.get_str("name"@) is Some ==> item.get_str("name"@) == Some(
                    read.files[i].name,
                )
                &&& item.get_str("path"@) is Some ==> item.get_str("path"@) == Some(
                    read.files[i].name,
                )
                &&& item.get_str("file_path"@) is Some ==> item.get_str("file_path"@) == Some(
                    read.files[i].name,
                )
                &&& read.files[i].line_ranges.len() == listed(item, "line_ranges"@).len()
                &&& 0 <= k < read.files[i].line_ranges.len() && listed(
                    item,
                    "line_ranges"@,
                )[k] is Object ==> ({
                    let range = listed(item, "line_ranges"@)[k];
                    &&& range.get("start"@) matches Some(JsonView::Number(n)) && n.unsigned == Some(
                        read.files[i].line_ranges[k].start as u64,
                    )
                    &&& range.get("end"@) matches Some(JsonView::Number(m)) && m.unsigned == Some(
                        read.files[i].line_ranges[k].end as u64,
                    )
                })
            })
        })),
{
    lemma_names_differ();
    if tool_of("read_files"@, Ok(json)) is Ok && 0 <= i < listed(json, "files"@).len() {
        let item = listed(json, "files"@)[i];
        let decode = |v: JsonView| read_file_arg(v);
        assert(decode(item) is Some);
        if item is Object && 0 <= k < listed(item, "line_ranges"@).len() {
            let inner = |v: JsonView| line_range_arg(v);
            assert(inner(listed(item, "line_ranges"@)[k]) is Some);
        }
    }
}

/// `search_codebase`: the query, the filters and the place.
pub proof fn lemma_search_is_as_asked(json: JsonView)
    requires
        json is Object,
    ensures
        json.get_str("query"@) is None ==> tool_of("search_codebase"@, Ok(json)) is Err,
        json.get_str("query"@) is Some && json.get("path_filters"@) is None && text_if_any(
            json,
            "codebase_path"@,
        ) ==> tool_of("search_codebase"@, Ok(json)) is Ok,
        tool_of("search_codebase"@, Ok(json)) matches Ok(tool) ==> (tool matches
            ToolView::SearchCodebase(search) && json.get("query"@) == Some(
            JsonView::Str(search.query),
        ) && lists_texts(json.get("path_filters"@), search.path_filters) && search.codebase_path
            == said(json, "codebase_path"@)),
{
    lemma_names_differ();
    lemma_texts_are_listed(json.get("path_filters"@));
}

/// `grep`: the patterns of the list, then the single one unless it is blank, and the place.
pub proof fn lemma_grep_is_as_asked(json: JsonView)
    requires
        json is Object,
    ensures
        text_if_any(json, "query"@) && json.get("queries"@) is None && text_if_any(json, "path"@)
            ==> tool_of("grep"@, Ok(json)) is Ok,
        tool_of("grep"@, Ok(json)) matches Ok(tool) ==> (tool matches ToolView::Grep(grep)
            && grep.path == said(json, "path"@) && (blank(said(json, "query"@)) ==> lists_texts(
            json.get("queries"@),
            grep.queries,
        )) && (!blank(said(json, "query"@)) ==> grep.queries.len() > 0 && grep.queries.last()
            == said(json, "query"@) && lists_texts(
            json.get("queries"@),
            grep.queries.drop_last(),
        ))),
{
    lemma_names_differ();
    lemma_texts_are_listed(json.get("queries"@));
    assert(forall|s: Seq<Seq<char>>, x: Seq<char>| #[trigger] s.push(x).drop_last() =~= s);
    assert(blank(Seq::<char>::empty()));
}

/// What is decoded from a list of texts is that list.
proof fn lemma_texts_are_listed(value: Option<JsonView>)
    ensures
        value matches Some(json) ==> (texts_value(json) matches Some(texts)
            ==> lists_texts(value, texts)),
        value matches Some(json) ==> (texts_value(json) is Some ==> json is Array),
{
    match value {
        Some(JsonView::Array(items)) => {
            let decode = |item: JsonView| item.as_str();
            if texts_value(value->0) is Some {
                let texts = texts_value(value->0)->0;
                assert forall|i: int| 0 <= i < texts.len() implies items[i] == JsonView::Str(
                    #[trigger] texts[i],
                ) by {
                    assert(decode(items[i]) is Some);
                }
            }
        },
        _ => {},
    }
}

/// `file_glob`: the patterns and the place.
pub proof fn lemma_glob_is_as_asked(json: JsonView)
    requires
        json is Object,
    ensures
        tool_of("file_glob"@, Ok(json)) matches Ok(tool) ==> (tool matches ToolView::FileGlob(glob)
            && json.get("patterns"@) is Some && lists_texts(json.get("patterns"@), glob.patterns)
            && glob.path == said(json, "path"@)),
{
    lemma_names_differ();
    lemma_texts_are_listed(json.get("patterns"@));
}

/// `file_glob_v2`: the patterns, the place and the limits, which are 0 where they are not given.
pub proof fn lemma_glob_v2_is_as_asked(json: JsonView)
    requires
        json is Object,
    ensures
        tool_of("file_glob_v2"@, Ok(json)) matches Ok(tool) ==> (tool matches ToolView::FileGlobV2(
            glob,
        ) && json.get("patterns"@) is Some && lists_texts(json.get("patterns"@), glob.patterns)
            && glob.search_dir == said(json, "search_dir"@) && counts(
            json,
            "max_matches"@,
            glob.max_matches as int,
        ) && counts(json, "max_depth"@, glob.max_depth as int) && counts(
            json,
            "min_depth"@,
            glob.min_depth as int,
        )),
{
    lemma_names_differ();
    lemma_texts_are_listed(json.get("patterns"@));
}

/// `read_skill`: the name, and the skill by its path or else by its identifier, whichever is not
/// blank; one of them has to be there.
pub proof fn lemma_skill_is_as_asked(json: JsonView)
    requires
        json is Object,
    ensures
        blank(said(json, "skill_path"@)) && blank(said(json, "bundled_skill_id"@)) ==> tool_of(
            "read_skill"@,
            Ok(json),
        ) is Err,
        text_if_any(json, "skill_path"@) && text_if_any(json, "bundled_skill_id"@) && text_if_any(
            json,
            "name"@,
        ) && !(blank(said(json, "skill_path"@)) && blank(said(json, "bundled_skill_id"@)))
            ==> tool_of("read_skill"@, Ok(json)) is Ok,
        tool_of("read_skill"@, Ok(json)) matches Ok(tool) ==> (tool matches ToolView::ReadSkill(
            skill,
        ) && skill.name == said(json, "name"@) && (!blank(said(json, "skill_path"@))
            ==> skill.skill_reference == Some(
            SkillReferenceView::SkillPath(said(json, "skill_path"@)),
        )) && (blank(said(json, "skill_path"@)) ==> skill.skill_reference == Some(
            SkillReferenceView::BundledSkillId(said(json, "bundled_skill_id"@)),
        ))),
{
    lemma_names_differ();
    assert(blank(Seq::<char>::empty()));
}

/// `ask_user_question`: each question with its options in their order, and what is said of it.
pub proof fn lemma_questions_are_as_asked(json: JsonView, i: int)
    requires
        json is Object,
    ensures
        json.get("questions"@) is None ==> tool_of("ask_user_question"@, Ok(json)) is Err,
        tool_of("ask_user_question"@, Ok(json)) matches Ok(tool) ==> (tool matches
            ToolView::AskUserQuestion(ask) && ask.questions.len() == listed(
            json,
            "questions"@,
        ).len() && ({
            let item = listed(json, "questions"@)[i];
            0 <= i < ask.questions.len() && item is Object ==> ({
                &&& item.get("question"@) == Some(JsonView::Str(ask.questions[i].question))
                &&& !blank(said(item, "question_id"@)) ==> ask.questions[i].question_id == said(
                    item,
                    "question_id"@,
                )
                &&& blank(said(item, "question_id"@)) ==> ask.questions[i].question_id.len() == 0
                &&& ask.questions[i].question_type is Some
                &&& lists_texts(item.get("options"@), ask.questions[i].question_type->0.options)
                &&& ask.questions[i].question_type->0.is_multiselect == agreed(
                    item,
                    "is_multiselect"@,
                )
                &&& ask.questions[i].question_type->0.supports_other == agreed(
                    item,
                    "supports_other"@,
                )
                &&& item.get("recommended_option_index"@) is None
                    ==> ask.questions[i].question_type->0.recommended_option_index == -1
                &&& item.get("recommended_option_index"@) is Some && !(item.get(
                    "recommended_option_index"@,
                )->0 is Null) ==> counts(
                    item,
                    "recommended_option_index"@,
                    ask.questions[i].question_type->0.recommended_option_index as int,
                )
            })
        })),
{
    lemma_names_differ();
    assert(blank(Seq::<char>::empty()));
    if tool_of("ask_user_question"@, Ok(json)) is Ok && 0 <= i < listed(json, "questions"@).len() {
        let item = listed(json, "questions"@)[i];
        let decode = |v: JsonView| ask_user_question_arg(v);
        assert(decode(item) is Some);
        lemma_texts_are_listed(item.get("options"@));
    }
}

/// `apply_file_diffs`: what is replaced, what is created, what is deleted, each as it is asked for.
pub proof fn lemma_edits_are_as_asked(json: JsonView, i: int)
    requires
        json is Object,
    ensures
        tool_of("apply_file_diffs"@, Ok(json)) matches Ok(tool) ==> (tool matches
            ToolView::ApplyFileDiffs(edits) && (json.get_str("summary"@) is Some ==> json.get_str(
            "summary"@,
        ) == Some(edits.summary)) && (json.get("summary"@) is None ==> edits.summary
            == "Apply file edits"@) && edits.diffs.len() == listed(json, "diffs"@).len()
            && edits.new_files.len() == listed(json, "new_files"@).len()
            && edits.deleted_files.len() == listed(json, "deleted_files"@).len()
            && edits.v4a_updates.len() == listed(json, "v4a_updates"@).len() && (0 <= i
            < edits.diffs.len() && listed(json, "diffs"@)[i] is Object ==> ({
            let item = listed(json, "diffs"@)[i];
            &&& item.get("file_path"@) == Some(JsonView::Str(edits.diffs[i].file_path))
            &&& item.get("search"@) == Some(JsonView::Str(edits.diffs[i].search))
            &&& item.get("replace"@) == Some(JsonView::Str(edits.diffs[i].replace))
        })) && (0 <= i < edits.new_files.len() && listed(json, "new_files"@)[i] is Object ==> ({
            let item = listed(json, "new_files"@)[i];
            &&& item.get("file_path"@) == Some(JsonView::Str(edits.new_files[i].file_path))
            &&& item.get("content"@) == Some(JsonView::Str(edits.new_files[i].content))
        })) && (0 <= i < edits.deleted_files.len() && listed(json, "deleted_files"@)[i] is Object
            ==> listed(json, "deleted_files"@)[i].get("file_path"@) == Some(
            JsonView::Str(edits.deleted_files[i].file_path),
        ))),
{
    lemma_names_differ();
    if tool_of("apply_file_diffs"@, Ok(json)) is Ok {
        if 0 <= i < listed(json, "diffs"@).len() {
            let decode = |v: JsonView| file_diff_args(v);
            assert(decode(listed(json, "diffs"@)[i]) is Some);
        }
        if 0 <= i < listed(json, "new_files"@).len() {
            let decode = |v: JsonView| new_file_args(v);
            assert(decode(listed(json, "new_files"@)[i]) is Some);
        }
        if 0 <= i < listed(json, "deleted_files"@).len() {
            let decode = |v: JsonView| deleted_file_args(v);
            assert(decode(listed(json, "deleted_files"@)[i]) is Some);
        }
    }
}

/// `apply_file_diffs`, in the form of patches: each file with each of its changes as they are asked
/// for: what was there is the old text, and what is put there is the new one.
pub proof fn lemma_patches_are_as_asked(json: JsonView, i: int, k: int)
    requires
        json is Object,
    ensures
        tool_of("apply_file_diffs"@, Ok(json)) matches Ok(tool) ==> (tool matches
            ToolView::ApplyFileDiffs(edits) && edits.v4a_updates.len() == listed(
            json,
            "v4a_updates"@,
        ).len() && ({
            let item = listed(json, "v4a_updates"@)[i];
            let update = edits.v4a_updates[i];
            0 <= i < edits.v4a_updates.len() && item is Object ==> ({
                &&& item.get("file_path"@) == Some(JsonView::Str(update.file_path))
                &&& update.move_to == said(item, "move_to"@)
                &&& update.hunks.len() == listed(item, "hunks"@).len()
                &&& 0 <= k < update.hunks.len() && listed(item, "hunks"@)[k] is Object ==> ({
                    let change = listed(item, "hunks"@)[k];
                    &&& update.hunks[k].old == said(change, "old"@)
                    &&& update.hunks[k].new == said(change, "new"@)
                    &&& update.hunks[k].pre_context == said(change, "pre_context"@)
                    &&& update.hunks[k].post_context == said(change, "post_context"@)
                    &&& lists_texts(change.get("change_context"@), update.hunks[k].change_context)
                })
            })
        })),
{
    lemma_names_differ();
    if tool_of("apply_file_diffs"@, Ok(json)) is Ok && 0 <= i < listed(json, "v4a_updates"@).len() {
        let item = listed(json, "v4a_updates"@)[i];
        let decode = |v: JsonView| v4a_update_args(v);
        assert(decode(item) is Some);
        if item is Object && 0 <= k < listed(item, "hunks"@).len() {
            let change = listed(item, "hunks"@)[k];
            let inner = |v: JsonView| v4a_hunk_args(v);
            assert(inner(change) is Some);
            lemma_texts_are_listed(change.get("change_context"@));
        }
    }
}

/// Edits that are given in any of the forms are accepted where each of the forms has what it needs.
pub proof fn lemma_patches_are_accepted(json: JsonView)
    requires
        json is Object,
        text_if_any(json, "summary"@),
        json.get("diffs"@) is None,
        json.get("new_files"@) is None,
        json.get("deleted_files"@) is None,
        json.get("v4a_updates"@) matches Some(JsonView::Array(items)) && forall|i: int|
            0 <= i < items.len() ==> (#[trigger] items[i]) is Object && items[i].get_str(
                "file_path"@,
            ) is Some && text_if_any(items[i], "move_to"@) && (items[i].get("hunks"@) matches Some(
                JsonView::Array(changes),
            ) && forall|k: int|
                0 <= k < changes.len() ==> (#[trigger] changes[k]) is Object && changes[k].get(
                    "change_context"@,
                ) is None && text_if_any(changes[k], "pre_context"@) && text_if_any(
                    changes[k],
                    "old"@,
                ) && text_if_any(changes[k], "new"@) && text_if_any(changes[k], "post_context"@)),
    ensures
        tool_of("apply_file_diffs"@, Ok(json)) is Ok,
{
    lemma_names_differ();
    let items = listed(json, "v4a_updates"@);
    let decode = |v: JsonView| v4a_update_args(v);
    assert forall|i: int| 0 <= i < items.len() implies (#[trigger] decode(items[i])) is Some by {
        let changes = listed(items[i], "hunks"@);
        let inner = |v: JsonView| v4a_hunk_args(v);
        assert forall|k: int| 0 <= k < changes.len() implies (#[trigger] inner(
            changes[k],
        )) is Some by {
            assert(changes[k] is Object);
        }
    }
}

/// `suggest_prompt`: the prompt, shown as a banner where that mode, a title or a description asks
/// for one, and else as a chip.
pub proof fn lemma_prompt_is_as_asked(json: JsonView)
    requires
        json is Object,
    ensures
        json.get_str("prompt"@) is None ==> tool_of("suggest_prompt"@, Ok(json)) is Err,
        tool_of("suggest_prompt"@, Ok(json)) matches Ok(tool) ==> (tool matches
            ToolView::SuggestPrompt(prompt) && prompt.is_trigger_irrelevant == agreed(
            json,
            "is_trigger_irrelevant"@,
        ) && ({
            let banner = lowered(said(json, "mode"@)) == "inline_query_banner"@ || !blank(
                said(json, "title"@),
            ) || !blank(said(json, "description"@));
            &&& !banner ==> (prompt.display_mode matches Some(DisplayModeView::PromptChip(chip))
                && json.get("prompt"@) == Some(JsonView::Str(chip.prompt)) && chip.label == said(
                json,
                "label"@,
            ))
            &&& banner ==> (prompt.display_mode matches Some(
                DisplayModeView::InlineQueryBanner(shown),
            ) && json.get("prompt"@) == Some(JsonView::Str(shown.query)) && shown.description
                == said(json, "description"@) && (json.get_str("title"@) is Some ==> json.get_str(
                "title"@,
            ) == Some(shown.title)) && (json.get("title"@) is None && json.get_str("label"@) is Some
                ==> json.get_str("label"@) == Some(shown.title)) && (json.get("title"@) is None
                && json.get("label"@) is None ==> shown.title == "Suggested prompt"@))
        })),
{
    lemma_names_differ();
    reveal_strlit("inline_query_banner");
    assert(blank(Seq::<char>::empty()));
    assert(lowered(Seq::empty()).len() == 0);
}

/// `suggest_rule`: one rule with its name, its content and its identifier.
pub proof fn lemma_rule_is_as_asked(json: JsonView, id: Option<Seq<char>>)
    requires
        json is Object,
    ensures
        json.get_str("name"@) is Some && json.get_str("content"@) is Some && text_if_any(
            json,
            "logging_id"@,
        ) <==> output_of(Some("suggest_rule"@), id, Ok(json)) is Ok,
        output_of(Some("suggest_rule"@), id, Ok(json)) matches Ok(output) ==> (output matches
            WarpClientOutputView::Suggestions(shown) && shown.rules.len() == 1 && json.get("name"@)
            == Some(JsonView::Str(shown.rules[0].name)) && json.get("content"@) == Some(
            JsonView::Str(shown.rules[0].content),
        ) && (!blank(said(json, "logging_id"@)) ==> shown.rules[0].logging_id == said(
            json,
            "logging_id"@,
        )) && (blank(said(json, "logging_id"@)) ==> shown.rules[0].logging_id.len() == 0)),
{
    assert(blank(Seq::<char>::empty()));
}

/// What cannot be done is refused in these words.
pub proof fn lemma_words_of_refusals(
    id: Option<Seq<char>>,
    parsed: Result<JsonView, Seq<char>>,
    json: JsonView,
)
    ensures
        output_of(None, id, parsed) == Err::<WarpClientOutputView, Seq<char>>(
            "missing function name"@,
        ),
        json is Object && text_if_any(json, "name"@) && text_if_any(json, "skill_path"@)
            && text_if_any(json, "bundled_skill_id"@) && blank(said(json, "skill_path"@)) && blank(
            said(json, "bundled_skill_id"@),
        ) ==> tool_of("read_skill"@, Ok(json)) is Err,
        !(json is Object) && !(json is Array) ==> tool_of("grep"@, Ok(json)) == Err::<
            ToolView,
            Seq<char>,
        >("arguments do not fit the schema of `"@ + "grep"@ + "`"@),
{
    lemma_names_differ();
}

/// New identifiers have the form of their kind.
pub proof fn lemma_forms_of_identifiers(
    output: WarpClientOutputView,
    call_id: Seq<char>,
    question_ids: Seq<Seq<char>>,
    rule_id: Seq<char>,
    i: int,
)
    requires
        fresh_for(output, call_id, question_ids, rule_id),
    ensures
        fresh_id("tool_"@, call_id),
        fresh_id("byob-rule-"@, rule_id),
        0 <= i < question_ids.len() ==> fresh_id("question_"@, question_ids[i]),
        output matches WarpClientOutputView::ToolCall(call) ==> (call.tool matches Some(
            ToolView::AskUserQuestion(asked),
        ) ==> question_ids.len() == asked.questions.len()),
{
}

} // verus!
