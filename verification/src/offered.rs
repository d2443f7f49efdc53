//! What a backend is offered: which tools, under which names and with which fields, for which
//! client.
use crate::asked::{lemma_names_differ, lists_texts};
use crate::chat::OpenAIToolView;
use crate::json::{int_json, lemma_last_member_counts, lemma_no_such_member, texts_json, JsonView};
use crate::tools::{
    apply_file_diffs_schema, apply_file_diffs_tool, ask_user_question_schema,
    ask_user_question_tool, choice_schema, deleted_file_schema, described_any_integer,
    described_flag, described_integer, described_text, file_diff_schema, file_glob_schema,
    file_glob_tool, file_glob_v2_schema, file_glob_v2_tool, file_to_read_schema, file_update_schema,
    flag_schema, grep_schema, grep_tool, hunk_schema, if_offered, integer_schema, line_range_schema,
    list_schema, new_file_schema, offers_rule, question_schema, read_files_schema, read_files_tool,
    read_shell_command_output_schema, read_shell_command_output_tool, read_skill_schema,
    read_skill_tool, record_schema, run_shell_command_schema, run_shell_command_tool,
    search_codebase_schema, search_codebase_tool, suggest_prompt_schema, suggest_prompt_tool,
    suggest_rule_schema, suggest_rule_tool, supports, text_schema, tool_definitions,
    transfer_shell_command_control_schema, transfer_shell_command_control_tool, write_to_lrc_schema,
    write_to_lrc_tool,
};
use crate::warp::{InputTypeView, RequestView, ToolType};
use vstd::prelude::*;

verus! {

/// Whether a client can use a tool: it does not say which ones it can use, or names the tool.
pub open spec fn usable(request: RequestView, tool: ToolType) -> bool {
    request.settings matches Some(settings) ==> settings.supported_tools.len() == 0
        || settings.supported_tools.contains(tool)
}

/// Whether a tool of that name is offered.
pub open spec fn offers(request: RequestView, name: Seq<char>) -> bool {
    exists|tool: OpenAIToolView| #[trigger]
        tool_definitions(request).contains(tool) && tool.function.name == name
}

/// Whether a schema is one of objects that have a field of that type.
pub open spec fn declares(schema: JsonView, name: Seq<char>, kind: Seq<char>) -> bool {
    &&& schema.get_str("type"@) == Some("object"@)
    &&& schema.get("additionalProperties"@) == Some(JsonView::Bool(false))
    &&& schema.get("properties"@) matches Some(fields)
    &&& fields.get(name) matches Some(field)
    &&& field.get_str("type"@) == Some(kind)
}

/// The schema of the items of a list.
pub open spec fn items_of(schema: JsonView, name: Seq<char>) -> JsonView {
    schema.get("properties"@)->0.get(name)->0.get("items"@)->0
}

/// The default of a field.
pub open spec fn default_of(schema: JsonView, name: Seq<char>) -> Option<JsonView> {
    schema.get("properties"@)->0.get(name)->0.get("default"@)
}

/// The least value of a field.
pub open spec fn least_of(schema: JsonView, name: Seq<char>) -> Option<JsonView> {
    schema.get("properties"@)->0.get(name)->0.get("minimum"@)
}

/// The choices of a field.
pub open spec fn choices_of(schema: JsonView, name: Seq<char>) -> Option<JsonView> {
    schema.get("properties"@)->0.get(name)->0.get("enum"@)
}

/// Whether a tool is among some.
#[verifier::opaque]
spec fn among(tools: Seq<OpenAIToolView>, x: OpenAIToolView) -> bool {
    tools.contains(x)
}

proof fn lemma_one_more(
    tools: Seq<OpenAIToolView>,
    offered: bool,
    tool: OpenAIToolView,
    x: OpenAIToolView,
)
    ensures
        among(tools + if_offered(offered, tool), x) <==> among(tools, x) || (offered && x == tool),
{
    reveal(among);
    let all = tools + if_offered(offered, tool);
    if tools.contains(x) {
        let i = choose|i: int| 0 <= i < tools.len() && tools[i] == x;
        assert(all[i] == x);
    }
    if offered && x == tool {
        assert(all[tools.len() as int] == x);
    }
    if all.contains(x) {
        let i = choose|i: int| 0 <= i < all.len() && all[i] == x;
        if i < tools.len() {
            assert(tools[i] == x);
        }
    }
}

proof fn lemma_among_shell(tools: Seq<OpenAIToolView>, request: RequestView, x: OpenAIToolView)
    ensures
        among(
            tools
                + if_offered(supports(request, ToolType::RunShellCommand), run_shell_command_tool())
                + if_offered(
                    supports(request, ToolType::ReadShellCommandOutput),
                    read_shell_command_output_tool(),
                )
                + if_offered(
                    supports(request, ToolType::WriteToLongRunningShellCommand),
                    write_to_lrc_tool(),
                )
                + if_offered(
                    supports(request, ToolType::TransferShellCommandControlToUser),
                    transfer_shell_command_control_tool(),
                ),
            x,
        ) <==> {
            ||| among(tools, x)
            ||| (supports(request, ToolType::RunShellCommand)) && x == run_shell_command_tool()
            ||| (
                supports(request, ToolType::ReadShellCommandOutput)
            ) && x == read_shell_command_output_tool()
            ||| (
                supports(request, ToolType::WriteToLongRunningShellCommand)
            ) && x == write_to_lrc_tool()
            ||| (
                supports(request, ToolType::TransferShellCommandControlToUser)
            ) && x == transfer_shell_command_control_tool()
        },
{
    lemma_one_more(
        tools,
        supports(request, ToolType::RunShellCommand),
        run_shell_command_tool(),
        x,
    );
    let tools = tools + if_offered(
        supports(request, ToolType::RunShellCommand),
        run_shell_command_tool(),
    );
    lemma_one_more(
        tools,
        supports(request, ToolType::ReadShellCommandOutput),
        read_shell_command_output_tool(),
        x,
    );
    let tools = tools + if_offered(
        supports(request, ToolType::ReadShellCommandOutput),
        read_shell_command_output_tool(),
    );
    lemma_one_more(
        tools,
        supports(request, ToolType::WriteToLongRunningShellCommand),
        write_to_lrc_tool(),
        x,
    );
    let tools = tools + if_offered(
        supports(request, ToolType::WriteToLongRunningShellCommand),
        write_to_lrc_tool(),
    );
    lemma_one_more(
        tools,
        supports(request, ToolType::TransferShellCommandControlToUser),
        transfer_shell_command_control_tool(),
        x,
    );
    let tools = tools + if_offered(
        supports(request, ToolType::TransferShellCommandControlToUser),
        transfer_shell_command_control_tool(),
    );
}

proof fn lemma_among_reading(tools: Seq<OpenAIToolView>, request: RequestView, x: OpenAIToolView)
    ensures
        among(
            tools + if_offered(supports(request, ToolType::ReadFiles), read_files_tool())
                + if_offered(supports(request, ToolType::SearchCodebase), search_codebase_tool())
                + if_offered(supports(request, ToolType::Grep), grep_tool())
                + if_offered(supports(request, ToolType::FileGlobV2), file_glob_v2_tool()),
            x,
        ) <==> {
            ||| among(tools, x)
            ||| (supports(request, ToolType::ReadFiles)) && x == read_files_tool()
            ||| (supports(request, ToolType::SearchCodebase)) && x == search_codebase_tool()
            ||| (supports(request, ToolType::Grep)) && x == grep_tool()
            ||| (supports(request, ToolType::FileGlobV2)) && x == file_glob_v2_tool()
        },
{
    lemma_one_more(tools, supports(request, ToolType::ReadFiles), read_files_tool(), x);
    let tools = tools + if_offered(supports(request, ToolType::ReadFiles), read_files_tool());
    lemma_one_more(tools, supports(request, ToolType::SearchCodebase), search_codebase_tool(), x);
    let tools = tools + if_offered(
        supports(request, ToolType::SearchCodebase),
        search_codebase_tool(),
    );
    lemma_one_more(tools, supports(request, ToolType::Grep), grep_tool(), x);
    let tools = tools + if_offered(supports(request, ToolType::Grep), grep_tool());
    lemma_one_more(tools, supports(request, ToolType::FileGlobV2), file_glob_v2_tool(), x);
    let tools = tools + if_offered(supports(request, ToolType::FileGlobV2), file_glob_v2_tool());
}

proof fn lemma_among_finding(tools: Seq<OpenAIToolView>, request: RequestView, x: OpenAIToolView)
    ensures
        among(
            tools
                + if_offered(
                    !supports(
                        request,
                        ToolType::FileGlobV2,
                    ) && supports(request, ToolType::FileGlob),
                    file_glob_tool(),
                )
                + if_offered(supports(request, ToolType::ReadSkill), read_skill_tool())
                + if_offered(
                    supports(request, ToolType::AskUserQuestion),
                    ask_user_question_tool(),
                ),
            x,
        ) <==> {
            ||| among(tools, x)
            ||| (
                !supports(request, ToolType::FileGlobV2) && supports(request, ToolType::FileGlob)
            ) && x == file_glob_tool()
            ||| (supports(request, ToolType::ReadSkill)) && x == read_skill_tool()
            ||| (supports(request, ToolType::AskUserQuestion)) && x == ask_user_question_tool()
        },
{
    lemma_one_more(
        tools,
        !supports(request, ToolType::FileGlobV2) && supports(request, ToolType::FileGlob),
        file_glob_tool(),
        x,
    );
    let tools = tools + if_offered(
        !supports(request, ToolType::FileGlobV2) && supports(request, ToolType::FileGlob),
        file_glob_tool(),
    );
    lemma_one_more(tools, supports(request, ToolType::ReadSkill), read_skill_tool(), x);
    let tools = tools + if_offered(supports(request, ToolType::ReadSkill), read_skill_tool());
    lemma_one_more(
        tools,
        supports(request, ToolType::AskUserQuestion),
        ask_user_question_tool(),
        x,
    );
    let tools = tools + if_offered(
        supports(request, ToolType::AskUserQuestion),
        ask_user_question_tool(),
    );
}

proof fn lemma_among_writing(tools: Seq<OpenAIToolView>, request: RequestView, x: OpenAIToolView)
    ensures
        among(
            tools + if_offered(supports(request, ToolType::ApplyFileDiffs), apply_file_diffs_tool())
                + if_offered(supports(request, ToolType::SuggestPrompt), suggest_prompt_tool())
                + if_offered(offers_rule(request), suggest_rule_tool()),
            x,
        ) <==> {
            ||| among(tools, x)
            ||| (supports(request, ToolType::ApplyFileDiffs)) && x == apply_file_diffs_tool()
            ||| (supports(request, ToolType::SuggestPrompt)) && x == suggest_prompt_tool()
            ||| (offers_rule(request)) && x == suggest_rule_tool()
        },
{
    lemma_one_more(tools, supports(request, ToolType::ApplyFileDiffs), apply_file_diffs_tool(), x);
    let tools = tools + if_offered(
        supports(request, ToolType::ApplyFileDiffs),
        apply_file_diffs_tool(),
    );
    lemma_one_more(tools, supports(request, ToolType::SuggestPrompt), suggest_prompt_tool(), x);
    let tools = tools + if_offered(
        supports(request, ToolType::SuggestPrompt),
        suggest_prompt_tool(),
    );
    lemma_one_more(tools, offers_rule(request), suggest_rule_tool(), x);
    let tools = tools + if_offered(offers_rule(request), suggest_rule_tool());
}

proof fn lemma_among(request: RequestView, x: OpenAIToolView)
    ensures
        among(tool_definitions(request), x) <==> {
            ||| (supports(request, ToolType::RunShellCommand)) && x == run_shell_command_tool()
            ||| (
                supports(request, ToolType::ReadShellCommandOutput)
            ) && x == read_shell_command_output_tool()
            ||| (
                supports(request, ToolType::WriteToLongRunningShellCommand)
            ) && x == write_to_lrc_tool()
            ||| (
                supports(request, ToolType::TransferShellCommandControlToUser)
            ) && x == transfer_shell_command_control_tool()
            ||| (supports(request, ToolType::ReadFiles)) && x == read_files_tool()
            ||| (supports(request, ToolType::SearchCodebase)) && x == search_codebase_tool()
            ||| (supports(request, ToolType::Grep)) && x == grep_tool()
            ||| (supports(request, ToolType::FileGlobV2)) && x == file_glob_v2_tool()
            ||| (
                !supports(request, ToolType::FileGlobV2) && supports(request, ToolType::FileGlob)
            ) && x == file_glob_tool()
            ||| (supports(request, ToolType::ReadSkill)) && x == read_skill_tool()
            ||| (supports(request, ToolType::AskUserQuestion)) && x == ask_user_question_tool()
            ||| (supports(request, ToolType::ApplyFileDiffs)) && x == apply_file_diffs_tool()
            ||| (supports(request, ToolType::SuggestPrompt)) && x == suggest_prompt_tool()
            ||| (offers_rule(request)) && x == suggest_rule_tool()
        },
{
    let none = Seq::<OpenAIToolView>::empty();
    assert(!among(none, x)) by {
        reveal(among);
    }
    let tools = none;
    lemma_among_shell(tools, request, x);
    let tools = tools
        + if_offered(supports(request, ToolType::RunShellCommand), run_shell_command_tool())
        + if_offered(
            supports(request, ToolType::ReadShellCommandOutput),
            read_shell_command_output_tool(),
        )
        + if_offered(
            supports(request, ToolType::WriteToLongRunningShellCommand),
            write_to_lrc_tool(),
        )
        + if_offered(
            supports(request, ToolType::TransferShellCommandControlToUser),
            transfer_shell_command_control_tool(),
        );
    lemma_among_reading(tools, request, x);
    let tools = tools + if_offered(supports(request, ToolType::ReadFiles), read_files_tool())
        + if_offered(supports(request, ToolType::SearchCodebase), search_codebase_tool())
        + if_offered(supports(request, ToolType::Grep), grep_tool())
        + if_offered(supports(request, ToolType::FileGlobV2), file_glob_v2_tool());
    lemma_among_finding(tools, request, x);
    let tools = tools
        + if_offered(
            !supports(request, ToolType::FileGlobV2) && supports(request, ToolType::FileGlob),
            file_glob_tool(),
        )
        + if_offered(supports(request, ToolType::ReadSkill), read_skill_tool())
        + if_offered(supports(request, ToolType::AskUserQuestion), ask_user_question_tool());
    lemma_among_writing(tools, request, x);
    let tools = tools
        + if_offered(supports(request, ToolType::ApplyFileDiffs), apply_file_diffs_tool())
        + if_offered(supports(request, ToolType::SuggestPrompt), suggest_prompt_tool())
        + if_offered(offers_rule(request), suggest_rule_tool());
    assert(
        none + if_offered(
            supports(request, ToolType::RunShellCommand),
            run_shell_command_tool(),
        ) =~= if_offered(supports(request, ToolType::RunShellCommand), run_shell_command_tool())
    );
}

/// Which tools are among those that are offered.
proof fn lemma_contents(request: RequestView, x: OpenAIToolView)
    ensures
        tool_definitions(request).contains(x) <==> {
            ||| (supports(request, ToolType::RunShellCommand)) && x == run_shell_command_tool()
            ||| (
                supports(request, ToolType::ReadShellCommandOutput)
            ) && x == read_shell_command_output_tool()
            ||| (
                supports(request, ToolType::WriteToLongRunningShellCommand)
            ) && x == write_to_lrc_tool()
            ||| (
                supports(request, ToolType::TransferShellCommandControlToUser)
            ) && x == transfer_shell_command_control_tool()
            ||| (supports(request, ToolType::ReadFiles)) && x == read_files_tool()
            ||| (supports(request, ToolType::SearchCodebase)) && x == search_codebase_tool()
            ||| (supports(request, ToolType::Grep)) && x == grep_tool()
            ||| (supports(request, ToolType::FileGlobV2)) && x == file_glob_v2_tool()
            ||| (
                !supports(request, ToolType::FileGlobV2) && supports(request, ToolType::FileGlob)
            ) && x == file_glob_tool()
            ||| (supports(request, ToolType::ReadSkill)) && x == read_skill_tool()
            ||| (supports(request, ToolType::AskUserQuestion)) && x == ask_user_question_tool()
            ||| (supports(request, ToolType::ApplyFileDiffs)) && x == apply_file_diffs_tool()
            ||| (supports(request, ToolType::SuggestPrompt)) && x == suggest_prompt_tool()
            ||| (offers_rule(request)) && x == suggest_rule_tool()
        },
{
    lemma_among(request, x);
    reveal(among);
}

/// Every tool that is offered is a function with one of the known names.
proof fn lemma_named(request: RequestView, x: OpenAIToolView)
    requires
        tool_definitions(request).contains(x),
    ensures
        x.kind == "function"@,
        x.function.name == "run_shell_command"@ ==> (
            supports(request, ToolType::RunShellCommand)
        ) && x == run_shell_command_tool(),
        x.function.name == "read_shell_command_output"@ ==> (
            supports(request, ToolType::ReadShellCommandOutput)
        ) && x == read_shell_command_output_tool(),
        x.function.name == "write_to_lrc"@ ==> (
            supports(request, ToolType::WriteToLongRunningShellCommand)
        ) && x == write_to_lrc_tool(),
        x.function.name == "transfer_shell_command_control"@ ==> (
            supports(request, ToolType::TransferShellCommandControlToUser)
        ) && x == transfer_shell_command_control_tool(),
        x.function.name == "read_files"@ ==> (
            supports(request, ToolType::ReadFiles)
        ) && x == read_files_tool(),
        x.function.name == "search_codebase"@ ==> (
            supports(request, ToolType::SearchCodebase)
        ) && x == search_codebase_tool(),
        x.function.name == "grep"@ ==> (supports(request, ToolType::Grep)) && x == grep_tool(),
        x.function.name == "file_glob_v2"@ ==> (
            supports(request, ToolType::FileGlobV2)
        ) && x == file_glob_v2_tool(),
        x.function.name == "file_glob"@ ==> (
            !supports(request, ToolType::FileGlobV2) && supports(request, ToolType::FileGlob)
        ) && x == file_glob_tool(),
        x.function.name == "read_skill"@ ==> (
            supports(request, ToolType::ReadSkill)
        ) && x == read_skill_tool(),
        x.function.name == "ask_user_question"@ ==> (
            supports(request, ToolType::AskUserQuestion)
        ) && x == ask_user_question_tool(),
        x.function.name == "apply_file_diffs"@ ==> (
            supports(request, ToolType::ApplyFileDiffs)
        ) && x == apply_file_diffs_tool(),
        x.function.name == "suggest_prompt"@ ==> (
            supports(request, ToolType::SuggestPrompt)
        ) && x == suggest_prompt_tool(),
        x.function.name == "suggest_rule"@ ==> (offers_rule(request)) && x == suggest_rule_tool(),
{
    lemma_contents(request, x);
    lemma_names_differ();
}

/// A tool is offered where the client can use it. The older search for files is offered only where
/// the newer one is not, and rules are not suggested where a passive suggestion is asked for.
pub proof fn lemma_which_tools_are_offered(request: RequestView)
    ensures
        offers(request, "run_shell_command"@) <==> usable(request, ToolType::RunShellCommand),
        offers(request, "read_shell_command_output"@) <==> usable(
            request,
            ToolType::ReadShellCommandOutput,
        ),
        offers(request, "write_to_lrc"@) <==> usable(
            request,
            ToolType::WriteToLongRunningShellCommand,
        ),
        offers(request, "transfer_shell_command_control"@) <==> usable(
            request,
            ToolType::TransferShellCommandControlToUser,
        ),
        offers(request, "read_files"@) <==> usable(request, ToolType::ReadFiles),
        offers(request, "search_codebase"@) <==> usable(request, ToolType::SearchCodebase),
        offers(request, "grep"@) <==> usable(request, ToolType::Grep),
        offers(request, "file_glob_v2"@) <==> usable(request, ToolType::FileGlobV2),
        offers(request, "file_glob"@) <==> usable(request, ToolType::FileGlob) && !usable(
            request,
            ToolType::FileGlobV2,
        ),
        offers(request, "read_skill"@) <==> usable(request, ToolType::ReadSkill),
        offers(request, "ask_user_question"@) <==> usable(request, ToolType::AskUserQuestion),
        offers(request, "apply_file_diffs"@) <==> usable(request, ToolType::ApplyFileDiffs),
        offers(request, "suggest_prompt"@) <==> usable(request, ToolType::SuggestPrompt),
        offers(request, "suggest_rule"@) <==> !(request.input is Some && request.input->0.input_type
            == Some(InputTypeView::GeneratePassiveSuggestions)),
{
    lemma_contents(request, run_shell_command_tool());
    if offers(request, "run_shell_command"@) {
        let tool = choose|tool: OpenAIToolView| #[trigger]
            tool_definitions(request).contains(tool) && tool.function.name == "run_shell_command"@;
        lemma_named(request, tool);
    }
    lemma_contents(request, read_shell_command_output_tool());
    if offers(request, "read_shell_command_output"@) {
        let tool = choose|tool: OpenAIToolView| #[trigger]
            tool_definitions(request).contains(tool)
                && tool.function.name == "read_shell_command_output"@;
        lemma_named(request, tool);
    }
    lemma_contents(request, write_to_lrc_tool());
    if offers(request, "write_to_lrc"@) {
        let tool = choose|tool: OpenAIToolView| #[trigger]
            tool_definitions(request).contains(tool) && tool.function.name == "write_to_lrc"@;
        lemma_named(request, tool);
    }
    lemma_contents(request, transfer_shell_command_control_tool());
    if offers(request, "transfer_shell_command_control"@) {
        let tool = choose|tool: OpenAIToolView| #[trigger]
            tool_definitions(request).contains(tool)
                && tool.function.name == "transfer_shell_command_control"@;
        lemma_named(request, tool);
    }
    lemma_contents(request, read_files_tool());
    if offers(request, "read_files"@) {
        let tool = choose|tool: OpenAIToolView| #[trigger]
            tool_definitions(request).contains(tool) && tool.function.name == "read_files"@;
        lemma_named(request, tool);
    }
    lemma_contents(request, search_codebase_tool());
    if offers(request, "search_codebase"@) {
        let tool = choose|tool: OpenAIToolView| #[trigger]
            tool_definitions(request).contains(tool) && tool.function.name == "search_codebase"@;
        lemma_named(request, tool);
    }
    lemma_contents(request, grep_tool());
    if offers(request, "grep"@) {
        let tool = choose|tool: OpenAIToolView| #[trigger]
            tool_definitions(request).contains(tool) && tool.function.name == "grep"@;
        lemma_named(request, tool);
    }
    lemma_contents(request, file_glob_v2_tool());
    if offers(request, "file_glob_v2"@) {
        let tool = choose|tool: OpenAIToolView| #[trigger]
            tool_definitions(request).contains(tool) && tool.function.name == "file_glob_v2"@;
        lemma_named(request, tool);
    }
    lemma_contents(request, file_glob_tool());
    if offers(request, "file_glob"@) {
        let tool = choose|tool: OpenAIToolView| #[trigger]
            tool_definitions(request).contains(tool) && tool.function.name == "file_glob"@;
        lemma_named(request, tool);
    }
    lemma_contents(request, read_skill_tool());
    if offers(request, "read_skill"@) {
        let tool = choose|tool: OpenAIToolView| #[trigger]
            tool_definitions(request).contains(tool) && tool.function.name == "read_skill"@;
        lemma_named(request, tool);
    }
    lemma_contents(request, ask_user_question_tool());
    if offers(request, "ask_user_question"@) {
        let tool = choose|tool: OpenAIToolView| #[trigger]
            tool_definitions(request).contains(tool) && tool.function.name == "ask_user_question"@;
        lemma_named(request, tool);
    }
    lemma_contents(request, apply_file_diffs_tool());
    if offers(request, "apply_file_diffs"@) {
        let tool = choose|tool: OpenAIToolView| #[trigger]
            tool_definitions(request).contains(tool) && tool.function.name == "apply_file_diffs"@;
        lemma_named(request, tool);
    }
    lemma_contents(request, suggest_prompt_tool());
    if offers(request, "suggest_prompt"@) {
        let tool = choose|tool: OpenAIToolView| #[trigger]
            tool_definitions(request).contains(tool) && tool.function.name == "suggest_prompt"@;
        lemma_named(request, tool);
    }
    lemma_contents(request, suggest_rule_tool());
    if offers(request, "suggest_rule"@) {
        let tool = choose|tool: OpenAIToolView| #[trigger]
            tool_definitions(request).contains(tool) && tool.function.name == "suggest_rule"@;
        lemma_named(request, tool);
    }
}

/// A client that says nothing of its tools is offered all of them, in this order; the older search
/// for files is left out.
pub proof fn lemma_order_of_tools(request: RequestView)
    requires
        request.settings is None,
    ensures
        ({
            let names = tool_definitions(request).map_values(
                |tool: OpenAIToolView| tool.function.name
            );
            &&& request.input is None ==> names == seq![
                "run_shell_command"@,
                "read_shell_command_output"@,
                "write_to_lrc"@,
                "transfer_shell_command_control"@,
                "read_files"@,
                "search_codebase"@,
                "grep"@,
                "file_glob_v2"@,
                "read_skill"@,
                "ask_user_question"@,
                "apply_file_diffs"@,
                "suggest_prompt"@,
                "suggest_rule"@,
                    ]
            &&& names.len() >= 12
        }),
{
    let names = tool_definitions(request).map_values(|tool: OpenAIToolView| tool.function.name);
    if request.input is None {
        assert(names =~= seq![
            "run_shell_command"@,
            "read_shell_command_output"@,
            "write_to_lrc"@,
            "transfer_shell_command_control"@,
            "read_files"@,
            "search_codebase"@,
            "grep"@,
            "file_glob_v2"@,
            "read_skill"@,
            "ask_user_question"@,
            "apply_file_diffs"@,
            "suggest_prompt"@,
            "suggest_rule"@,
        ]);
    }
}

proof fn lemma_of_text_schema()
    ensures
        text_schema().get("type"@) == Some(text_schema()->Object_0[0].1),
{
    reveal_strlit("type");

    let members = text_schema()->Object_0;
    assert(members[0].0 == "type"@);
    lemma_last_member_counts(members, 0);
}

proof fn lemma_of_described_text(description: Seq<char>)
    ensures
        described_text(description).get("description"@) == Some(
            described_text(description)->Object_0[0].1
        ),
        described_text(description).get("type"@) == Some(
            described_text(description)->Object_0[1].1
        ),
{
    reveal_strlit("description");
    reveal_strlit("type");
    assert("description"@.len() != "type"@.len());
    let members = described_text(description)->Object_0;
    assert(members[0].0 == "description"@);
    assert(members[1].0 == "type"@);
    lemma_last_member_counts(members, 0);
    lemma_last_member_counts(members, 1);
}

proof fn lemma_of_choice_schema(choices: Seq<Seq<char>>, default: Seq<char>)
    ensures
        choice_schema(choices, default).get("default"@) == Some(
            choice_schema(choices, default)->Object_0[0].1
        ),
        choice_schema(choices, default).get("enum"@) == Some(
            choice_schema(choices, default)->Object_0[1].1
        ),
        choice_schema(choices, default).get("type"@) == Some(
            choice_schema(choices, default)->Object_0[2].1
        ),
{
    reveal_strlit("default");
    reveal_strlit("enum");
    reveal_strlit("type");
    assert("default"@.len() != "enum"@.len());
    assert("default"@.len() != "type"@.len());
    assert("enum"@[0] != "type"@[0]);
    let members = choice_schema(choices, default)->Object_0;
    assert(members[0].0 == "default"@);
    assert(members[1].0 == "enum"@);
    assert(members[2].0 == "type"@);
    lemma_last_member_counts(members, 0);
    lemma_last_member_counts(members, 1);
    lemma_last_member_counts(members, 2);
}

proof fn lemma_of_flag_schema(default: bool)
    ensures
        flag_schema(default).get("default"@) == Some(flag_schema(default)->Object_0[0].1),
        flag_schema(default).get("type"@) == Some(flag_schema(default)->Object_0[1].1),
{
    reveal_strlit("default");
    reveal_strlit("type");
    assert("default"@.len() != "type"@.len());
    let members = flag_schema(default)->Object_0;
    assert(members[0].0 == "default"@);
    assert(members[1].0 == "type"@);
    lemma_last_member_counts(members, 0);
    lemma_last_member_counts(members, 1);
}

proof fn lemma_of_described_flag(default: bool, description: Seq<char>)
    ensures
        described_flag(default, description).get("default"@) == Some(
            described_flag(default, description)->Object_0[0].1
        ),
        described_flag(default, description).get("description"@) == Some(
            described_flag(default, description)->Object_0[1].1
        ),
        described_flag(default, description).get("type"@) == Some(
            described_flag(default, description)->Object_0[2].1
        ),
{
    reveal_strlit("default");
    reveal_strlit("description");
    reveal_strlit("type");
    assert("default"@.len() != "description"@.len());
    assert("default"@.len() != "type"@.len());
    assert("description"@.len() != "type"@.len());
    let members = described_flag(default, description)->Object_0;
    assert(members[0].0 == "default"@);
    assert(members[1].0 == "description"@);
    assert(members[2].0 == "type"@);
    lemma_last_member_counts(members, 0);
    lemma_last_member_counts(members, 1);
    lemma_last_member_counts(members, 2);
}

proof fn lemma_of_integer_schema(minimum: i64)
    ensures
        integer_schema(minimum).get("minimum"@) == Some(integer_schema(minimum)->Object_0[0].1),
        integer_schema(minimum).get("type"@) == Some(integer_schema(minimum)->Object_0[1].1),
{
    reveal_strlit("minimum");
    reveal_strlit("type");
    assert("minimum"@.len() != "type"@.len());
    let members = integer_schema(minimum)->Object_0;
    assert(members[0].0 == "minimum"@);
    assert(members[1].0 == "type"@);
    lemma_last_member_counts(members, 0);
    lemma_last_member_counts(members, 1);
}

proof fn lemma_of_described_integer(minimum: i64, description: Seq<char>)
    ensures
        described_integer(minimum, description).get("description"@) == Some(
            described_integer(minimum, description)->Object_0[0].1
        ),
        described_integer(minimum, description).get("minimum"@) == Some(
            described_integer(minimum, description)->Object_0[1].1
        ),
        described_integer(minimum, description).get("type"@) == Some(
            described_integer(minimum, description)->Object_0[2].1
        ),
{
    reveal_strlit("description");
    reveal_strlit("minimum");
    reveal_strlit("type");
    assert("description"@.len() != "minimum"@.len());
    assert("description"@.len() != "type"@.len());
    assert("minimum"@.len() != "type"@.len());
    let members = described_integer(minimum, description)->Object_0;
    assert(members[0].0 == "description"@);
    assert(members[1].0 == "minimum"@);
    assert(members[2].0 == "type"@);
    lemma_last_member_counts(members, 0);
    lemma_last_member_counts(members, 1);
    lemma_last_member_counts(members, 2);
}

proof fn lemma_of_described_any_integer(description: Seq<char>)
    ensures
        described_any_integer(description).get("description"@) == Some(
            described_any_integer(description)->Object_0[0].1
        ),
        described_any_integer(description).get("type"@) == Some(
            described_any_integer(description)->Object_0[1].1
        ),
{
    reveal_strlit("description");
    reveal_strlit("type");
    assert("description"@.len() != "type"@.len());
    let members = described_any_integer(description)->Object_0;
    assert(members[0].0 == "description"@);
    assert(members[1].0 == "type"@);
    lemma_last_member_counts(members, 0);
    lemma_last_member_counts(members, 1);
}

proof fn lemma_of_list_schema(items: JsonView)
    ensures
        list_schema(items).get("items"@) == Some(list_schema(items)->Object_0[0].1),
        list_schema(items).get("type"@) == Some(list_schema(items)->Object_0[1].1),
{
    reveal_strlit("items");
    reveal_strlit("type");
    assert("items"@.len() != "type"@.len());
    let members = list_schema(items)->Object_0;
    assert(members[0].0 == "items"@);
    assert(members[1].0 == "type"@);
    lemma_last_member_counts(members, 0);
    lemma_last_member_counts(members, 1);
}

proof fn lemma_of_record_schema(required: Seq<Seq<char>>, properties: Seq<(Seq<char>, JsonView)>)
    ensures
        record_schema(required, properties).get("type"@) == Some(JsonView::Str("object"@)),
        record_schema(required, properties).get("additionalProperties"@) == Some(
            JsonView::Bool(false),
        ),
        record_schema(required, properties).get("properties"@) == Some(
            JsonView::Object(properties),
        ),
        required.len() > 0 ==> record_schema(required, properties).get("required"@) == Some(
            texts_json(required),
        ),
        required.len() == 0 ==> record_schema(required, properties).get("required"@) is None,
{
    reveal_strlit("additionalProperties");
    reveal_strlit("properties");
    reveal_strlit("required");
    reveal_strlit("type");
    assert("additionalProperties"@.len() != "properties"@.len());
    assert("additionalProperties"@.len() != "required"@.len());
    assert("additionalProperties"@.len() != "type"@.len());
    assert("properties"@.len() != "required"@.len());
    assert("properties"@.len() != "type"@.len());
    assert("required"@.len() != "type"@.len());
    let members = record_schema(required, properties)->Object_0;
    assert(members[0].0 == "additionalProperties"@);
    assert(members[1].0 == "properties"@);
    if required.len() == 0 {
        assert(members[2].0 == "type"@);
        lemma_last_member_counts(members, 2);
        lemma_no_such_member(members, "required"@);
    } else {
        assert(members[2].0 == "required"@);
        assert(members[3].0 == "type"@);
        lemma_last_member_counts(members, 2);
        lemma_last_member_counts(members, 3);
    }
    lemma_last_member_counts(members, 0);
    lemma_last_member_counts(members, 1);
}

proof fn lemma_of_run_shell_command_schema()
    ensures
        declares(run_shell_command_schema(), "command"@, "string"@),
        declares(run_shell_command_schema(), "is_read_only"@, "boolean"@),
        default_of(run_shell_command_schema(), "is_read_only"@) == Some(JsonView::Bool(false)),
        declares(run_shell_command_schema(), "is_risky"@, "boolean"@),
        default_of(run_shell_command_schema(), "is_risky"@) == Some(JsonView::Bool(false)),
        declares(run_shell_command_schema(), "uses_pager"@, "boolean"@),
        default_of(run_shell_command_schema(), "uses_pager"@) == Some(JsonView::Bool(false)),
        declares(run_shell_command_schema(), "wait_until_complete"@, "boolean"@),
        default_of(
            run_shell_command_schema(),
            "wait_until_complete"@,
        ) == Some(JsonView::Bool(true)),
        run_shell_command_schema().get("required"@) is Some,
        lists_texts(run_shell_command_schema().get("required"@), seq!["command"@]),
{
    reveal(run_shell_command_schema);
    reveal_strlit("command");
    reveal_strlit("is_read_only");
    reveal_strlit("is_risky");
    reveal_strlit("uses_pager");
    reveal_strlit("wait_until_complete");
    assert("command"@.len() != "is_read_only"@.len());
    assert("command"@.len() != "is_risky"@.len());
    assert("command"@.len() != "uses_pager"@.len());
    assert("command"@.len() != "wait_until_complete"@.len());
    assert("is_read_only"@.len() != "is_risky"@.len());
    assert("is_read_only"@.len() != "uses_pager"@.len());
    assert("is_read_only"@.len() != "wait_until_complete"@.len());
    assert("is_risky"@.len() != "uses_pager"@.len());
    assert("is_risky"@.len() != "wait_until_complete"@.len());
    assert("uses_pager"@.len() != "wait_until_complete"@.len());
    let required = seq!["command"@];
    let members = seq![
        ("command"@, text_schema()),
        ("is_read_only"@, flag_schema(false)),
        ("is_risky"@, flag_schema(false)),
        ("uses_pager"@, flag_schema(false)),
        ("wait_until_complete"@, flag_schema(true)),
    ];
    lemma_of_record_schema(required, members);
    lemma_last_member_counts(members, 0);
    lemma_of_text_schema();
    lemma_last_member_counts(members, 1);
    lemma_of_flag_schema(false);
    lemma_last_member_counts(members, 2);
    lemma_of_flag_schema(false);
    lemma_last_member_counts(members, 3);
    lemma_of_flag_schema(false);
    lemma_last_member_counts(members, 4);
    lemma_of_flag_schema(true);
}

proof fn lemma_of_read_shell_command_output_schema()
    ensures
        declares(read_shell_command_output_schema(), "command_id"@, "string"@),
        declares(read_shell_command_output_schema(), "delay_seconds"@, "integer"@),
        least_of(read_shell_command_output_schema(), "delay_seconds"@) == Some(int_json(0)),
        declares(read_shell_command_output_schema(), "wait_until_complete"@, "boolean"@),
        default_of(
            read_shell_command_output_schema(),
            "wait_until_complete"@,
        ) == Some(JsonView::Bool(false)),
        read_shell_command_output_schema().get("required"@) is Some,
        lists_texts(read_shell_command_output_schema().get("required"@), seq!["command_id"@]),
{
    reveal(read_shell_command_output_schema);
    reveal_strlit("command_id");
    reveal_strlit("delay_seconds");
    reveal_strlit("wait_until_complete");
    assert("command_id"@.len() != "delay_seconds"@.len());
    assert("command_id"@.len() != "wait_until_complete"@.len());
    assert("delay_seconds"@.len() != "wait_until_complete"@.len());
    let required = seq!["command_id"@];
    let members = seq![
        (
            "command_id"@,
            described_text("The command_id returned by a long-running command snapshot."@),
        ),
        (
            "delay_seconds"@,
            described_integer(0, "Optional delay before reading another snapshot."@),
        ),
        (
            "wait_until_complete"@,
            described_flag(
                false,
                "Wait for command completion instead of taking a timed snapshot."@,
            ),
        ),
    ];
    lemma_of_record_schema(required, members);
    lemma_last_member_counts(members, 0);
    lemma_of_described_text("The command_id returned by a long-running command snapshot."@);
    lemma_last_member_counts(members, 1);
    lemma_of_described_integer(0, "Optional delay before reading another snapshot."@);
    lemma_last_member_counts(members, 2);
    lemma_of_described_flag(
        false,
        "Wait for command completion instead of taking a timed snapshot."@,
    );
}

proof fn lemma_of_write_to_lrc_schema()
    ensures
        declares(write_to_lrc_schema(), "command_id"@, "string"@),
        declares(write_to_lrc_schema(), "input"@, "string"@),
        declares(write_to_lrc_schema(), "mode"@, "string"@),
        default_of(write_to_lrc_schema(), "mode"@) == Some(JsonView::Str("raw"@)),
        lists_texts(choices_of(write_to_lrc_schema(), "mode"@), seq!["raw"@, "line"@, "block"@]),
        write_to_lrc_schema().get("required"@) is Some,
        lists_texts(write_to_lrc_schema().get("required"@), seq!["command_id"@, "input"@]),
{
    reveal(write_to_lrc_schema);
    reveal_strlit("command_id");
    reveal_strlit("input");
    reveal_strlit("mode");
    assert("command_id"@.len() != "input"@.len());
    assert("command_id"@.len() != "mode"@.len());
    assert("input"@.len() != "mode"@.len());
    let required = seq!["command_id"@, "input"@];
    let members = seq![
        (
            "command_id"@,
            described_text("The command_id returned by a long-running command snapshot."@),
        ),
        ("input"@, described_text("The exact text or bytes to send to the terminal command."@)),
        ("mode"@, choice_schema(seq!["raw"@, "line"@, "block"@], "raw"@)),
    ];
    lemma_of_record_schema(required, members);
    lemma_last_member_counts(members, 0);
    lemma_of_described_text("The command_id returned by a long-running command snapshot."@);
    lemma_last_member_counts(members, 1);
    lemma_of_described_text("The exact text or bytes to send to the terminal command."@);
    lemma_last_member_counts(members, 2);
    lemma_of_choice_schema(seq!["raw"@, "line"@, "block"@], "raw"@);
}

proof fn lemma_of_transfer_shell_command_control_schema()
    ensures
        declares(transfer_shell_command_control_schema(), "reason"@, "string"@),
        transfer_shell_command_control_schema().get("required"@) is Some,
        lists_texts(transfer_shell_command_control_schema().get("required"@), seq!["reason"@]),
{
    reveal(transfer_shell_command_control_schema);
    reveal_strlit("reason");

    let required = seq!["reason"@];
    let members = seq![
        ("reason"@, described_text("A concise explanation of why the user must take over."@))
    ];
    lemma_of_record_schema(required, members);
    lemma_last_member_counts(members, 0);
    lemma_of_described_text("A concise explanation of why the user must take over."@);
}

proof fn lemma_of_line_range_schema()
    ensures
        declares(line_range_schema(), "end"@, "integer"@),
        least_of(line_range_schema(), "end"@) == Some(int_json(1)),
        declares(line_range_schema(), "start"@, "integer"@),
        least_of(line_range_schema(), "start"@) == Some(int_json(1)),
        line_range_schema().get("required"@) is Some,
        lists_texts(line_range_schema().get("required"@), seq!["start"@, "end"@]),
{
    reveal(line_range_schema);
    reveal_strlit("end");
    reveal_strlit("start");
    assert("end"@.len() != "start"@.len());
    let required = seq!["start"@, "end"@];
    let members = seq![("end"@, integer_schema(1)), ("start"@, integer_schema(1))];
    lemma_of_record_schema(required, members);
    lemma_last_member_counts(members, 0);
    lemma_of_integer_schema(1);
    lemma_last_member_counts(members, 1);
    lemma_of_integer_schema(1);
}

proof fn lemma_of_file_to_read_schema()
    ensures
        declares(file_to_read_schema(), "line_ranges"@, "array"@),
        items_of(file_to_read_schema(), "line_ranges"@) == line_range_schema(),
        declares(file_to_read_schema(), "path"@, "string"@),
        file_to_read_schema().get("required"@) is Some,
        lists_texts(file_to_read_schema().get("required"@), seq!["path"@]),
{
    reveal(file_to_read_schema);
    reveal_strlit("line_ranges");
    reveal_strlit("path");
    assert("line_ranges"@.len() != "path"@.len());
    let required = seq!["path"@];
    let members = seq![
        ("line_ranges"@, list_schema(line_range_schema())),
        ("path"@, text_schema()),
    ];
    lemma_of_record_schema(required, members);
    lemma_last_member_counts(members, 0);
    lemma_of_list_schema(line_range_schema());
    lemma_last_member_counts(members, 1);
    lemma_of_text_schema();
}

proof fn lemma_of_read_files_schema()
    ensures
        declares(read_files_schema(), "files"@, "array"@),
        items_of(read_files_schema(), "files"@) == file_to_read_schema(),
        read_files_schema().get("required"@) is Some,
        lists_texts(read_files_schema().get("required"@), seq!["files"@]),
{
    reveal(read_files_schema);
    reveal_strlit("files");

    let required = seq!["files"@];
    let members = seq![("files"@, list_schema(file_to_read_schema()))];
    lemma_of_record_schema(required, members);
    lemma_last_member_counts(members, 0);
    lemma_of_list_schema(file_to_read_schema());
}

proof fn lemma_of_search_codebase_schema()
    ensures
        declares(search_codebase_schema(), "codebase_path"@, "string"@),
        declares(search_codebase_schema(), "path_filters"@, "array"@),
        items_of(search_codebase_schema(), "path_filters"@) == text_schema(),
        declares(search_codebase_schema(), "query"@, "string"@),
        search_codebase_schema().get("required"@) is Some,
        lists_texts(search_codebase_schema().get("required"@), seq!["query"@]),
{
    reveal(search_codebase_schema);
    reveal_strlit("codebase_path");
    reveal_strlit("path_filters");
    reveal_strlit("query");
    assert("codebase_path"@.len() != "path_filters"@.len());
    assert("codebase_path"@.len() != "query"@.len());
    assert("path_filters"@.len() != "query"@.len());
    let required = seq!["query"@];
    let members = seq![
        ("codebase_path"@, described_text("Optional absolute path to the codebase to search."@)),
        ("path_filters"@, list_schema(text_schema())),
        ("query"@, text_schema()),
    ];
    lemma_of_record_schema(required, members);
    lemma_last_member_counts(members, 0);
    lemma_of_described_text("Optional absolute path to the codebase to search."@);
    lemma_last_member_counts(members, 1);
    lemma_of_list_schema(text_schema());
    lemma_last_member_counts(members, 2);
    lemma_of_text_schema();
}

proof fn lemma_of_grep_schema()
    ensures
        declares(grep_schema(), "path"@, "string"@),
        declares(grep_schema(), "queries"@, "array"@),
        items_of(grep_schema(), "queries"@) == text_schema(),
        declares(grep_schema(), "query"@, "string"@),
        grep_schema().get("required"@) is None,
{
    reveal(grep_schema);
    reveal_strlit("path");
    reveal_strlit("queries");
    reveal_strlit("query");
    assert("path"@.len() != "queries"@.len());
    assert("path"@.len() != "query"@.len());
    assert("queries"@.len() != "query"@.len());
    let required = Seq::<Seq<char>>::empty();
    let members = seq![
        (
            "path"@,
            described_text("Relative file or directory to search. Empty means current project."@),
        ),
        ("queries"@, list_schema(text_schema())),
        ("query"@, text_schema()),
    ];
    lemma_of_record_schema(required, members);
    lemma_last_member_counts(members, 0);
    lemma_of_described_text("Relative file or directory to search. Empty means current project."@);
    lemma_last_member_counts(members, 1);
    lemma_of_list_schema(text_schema());
    lemma_last_member_counts(members, 2);
    lemma_of_text_schema();
}

proof fn lemma_of_file_glob_v2_schema()
    ensures
        declares(file_glob_v2_schema(), "max_depth"@, "integer"@),
        least_of(file_glob_v2_schema(), "max_depth"@) == Some(int_json(0)),
        declares(file_glob_v2_schema(), "max_matches"@, "integer"@),
        least_of(file_glob_v2_schema(), "max_matches"@) == Some(int_json(0)),
        declares(file_glob_v2_schema(), "min_depth"@, "integer"@),
        least_of(file_glob_v2_schema(), "min_depth"@) == Some(int_json(0)),
        declares(file_glob_v2_schema(), "patterns"@, "array"@),
        items_of(file_glob_v2_schema(), "patterns"@) == text_schema(),
        declares(file_glob_v2_schema(), "search_dir"@, "string"@),
        file_glob_v2_schema().get("required"@) is Some,
        lists_texts(file_glob_v2_schema().get("required"@), seq!["patterns"@]),
{
    reveal(file_glob_v2_schema);
    reveal_strlit("max_depth");
    reveal_strlit("max_matches");
    reveal_strlit("min_depth");
    reveal_strlit("patterns");
    reveal_strlit("search_dir");
    assert("max_depth"@.len() != "max_matches"@.len());
    assert("max_depth"@[1] != "min_depth"@[1]);
    assert("max_depth"@.len() != "patterns"@.len());
    assert("max_depth"@.len() != "search_dir"@.len());
    assert("max_matches"@.len() != "min_depth"@.len());
    assert("max_matches"@.len() != "patterns"@.len());
    assert("max_matches"@.len() != "search_dir"@.len());
    assert("min_depth"@.len() != "patterns"@.len());
    assert("min_depth"@.len() != "search_dir"@.len());
    assert("patterns"@.len() != "search_dir"@.len());
    let required = seq!["patterns"@];
    let members = seq![
        ("max_depth"@, integer_schema(0)),
        ("max_matches"@, integer_schema(0)),
        ("min_depth"@, integer_schema(0)),
        ("patterns"@, list_schema(text_schema())),
        (
            "search_dir"@,
            described_text("Relative directory to search. Empty means current project."@),
        ),
    ];
    lemma_of_record_schema(required, members);
    lemma_last_member_counts(members, 0);
    lemma_of_integer_schema(0);
    lemma_last_member_counts(members, 1);
    lemma_of_integer_schema(0);
    lemma_last_member_counts(members, 2);
    lemma_of_integer_schema(0);
    lemma_last_member_counts(members, 3);
    lemma_of_list_schema(text_schema());
    lemma_last_member_counts(members, 4);
    lemma_of_described_text("Relative directory to search. Empty means current project."@);
}

proof fn lemma_of_file_glob_schema()
    ensures
        declares(file_glob_schema(), "path"@, "string"@),
        declares(file_glob_schema(), "patterns"@, "array"@),
        items_of(file_glob_schema(), "patterns"@) == text_schema(),
        file_glob_schema().get("required"@) is Some,
        lists_texts(file_glob_schema().get("required"@), seq!["patterns"@]),
{
    reveal(file_glob_schema);
    reveal_strlit("path");
    reveal_strlit("patterns");
    assert("path"@.len() != "patterns"@.len());
    let required = seq!["patterns"@];
    let members = seq![
        ("path"@, described_text("Relative directory to search. Empty means current project."@)),
        ("patterns"@, list_schema(text_schema())),
    ];
    lemma_of_record_schema(required, members);
    lemma_last_member_counts(members, 0);
    lemma_of_described_text("Relative directory to search. Empty means current project."@);
    lemma_last_member_counts(members, 1);
    lemma_of_list_schema(text_schema());
}

proof fn lemma_of_read_skill_schema()
    ensures
        declares(read_skill_schema(), "bundled_skill_id"@, "string"@),
        declares(read_skill_schema(), "name"@, "string"@),
        declares(read_skill_schema(), "skill_path"@, "string"@),
        read_skill_schema().get("required"@) is None,
{
    reveal(read_skill_schema);
    reveal_strlit("bundled_skill_id");
    reveal_strlit("name");
    reveal_strlit("skill_path");
    assert("bundled_skill_id"@.len() != "name"@.len());
    assert("bundled_skill_id"@.len() != "skill_path"@.len());
    assert("name"@.len() != "skill_path"@.len());
    let required = Seq::<Seq<char>>::empty();
    let members = seq![
        ("bundled_skill_id"@, text_schema()),
        ("name"@, text_schema()),
        ("skill_path"@, text_schema()),
    ];
    lemma_of_record_schema(required, members);
    lemma_last_member_counts(members, 0);
    lemma_of_text_schema();
    lemma_last_member_counts(members, 1);
    lemma_of_text_schema();
    lemma_last_member_counts(members, 2);
    lemma_of_text_schema();
}

proof fn lemma_of_question_schema()
    ensures
        declares(question_schema(), "is_multiselect"@, "boolean"@),
        default_of(question_schema(), "is_multiselect"@) == Some(JsonView::Bool(false)),
        declares(question_schema(), "options"@, "array"@),
        items_of(question_schema(), "options"@) == text_schema(),
        declares(question_schema(), "question"@, "string"@),
        declares(question_schema(), "question_id"@, "string"@),
        declares(question_schema(), "recommended_option_index"@, "integer"@),
        declares(question_schema(), "supports_other"@, "boolean"@),
        default_of(question_schema(), "supports_other"@) == Some(JsonView::Bool(false)),
        question_schema().get("required"@) is Some,
        lists_texts(question_schema().get("required"@), seq!["question"@, "options"@]),
{
    reveal(question_schema);
    reveal_strlit("is_multiselect");
    reveal_strlit("options");
    reveal_strlit("question");
    reveal_strlit("question_id");
    reveal_strlit("recommended_option_index");
    reveal_strlit("supports_other");
    assert("is_multiselect"@.len() != "options"@.len());
    assert("is_multiselect"@.len() != "question"@.len());
    assert("is_multiselect"@.len() != "question_id"@.len());
    assert("is_multiselect"@.len() != "recommended_option_index"@.len());
    assert("is_multiselect"@[0] != "supports_other"@[0]);
    assert("options"@.len() != "question"@.len());
    assert("options"@.len() != "question_id"@.len());
    assert("options"@.len() != "recommended_option_index"@.len());
    assert("options"@.len() != "supports_other"@.len());
    assert("question"@.len() != "question_id"@.len());
    assert("question"@.len() != "recommended_option_index"@.len());
    assert("question"@.len() != "supports_other"@.len());
    assert("question_id"@.len() != "recommended_option_index"@.len());
    assert("question_id"@.len() != "supports_other"@.len());
    assert("recommended_option_index"@.len() != "supports_other"@.len());
    let required = seq!["question"@, "options"@];
    let members = seq![
        ("is_multiselect"@, flag_schema(false)),
        ("options"@, list_schema(text_schema())),
        ("question"@, text_schema()),
        ("question_id"@, text_schema()),
        (
            "recommended_option_index"@,
            described_any_integer("Zero-based index. Use -1 for no recommendation."@),
        ),
        ("supports_other"@, flag_schema(false)),
    ];
    lemma_of_record_schema(required, members);
    lemma_last_member_counts(members, 0);
    lemma_of_flag_schema(false);
    lemma_last_member_counts(members, 1);
    lemma_of_list_schema(text_schema());
    lemma_last_member_counts(members, 2);
    lemma_of_text_schema();
    lemma_last_member_counts(members, 3);
    lemma_of_text_schema();
    lemma_last_member_counts(members, 4);
    lemma_of_described_any_integer("Zero-based index. Use -1 for no recommendation."@);
    lemma_last_member_counts(members, 5);
    lemma_of_flag_schema(false);
}

proof fn lemma_of_ask_user_question_schema()
    ensures
        declares(ask_user_question_schema(), "questions"@, "array"@),
        items_of(ask_user_question_schema(), "questions"@) == question_schema(),
        ask_user_question_schema().get("required"@) is Some,
        lists_texts(ask_user_question_schema().get("required"@), seq!["questions"@]),
{
    reveal(ask_user_question_schema);
    reveal_strlit("questions");

    let required = seq!["questions"@];
    let members = seq![("questions"@, list_schema(question_schema()))];
    lemma_of_record_schema(required, members);
    lemma_last_member_counts(members, 0);
    lemma_of_list_schema(question_schema());
}

proof fn lemma_of_deleted_file_schema()
    ensures
        declares(deleted_file_schema(), "file_path"@, "string"@),
        deleted_file_schema().get("required"@) is Some,
        lists_texts(deleted_file_schema().get("required"@), seq!["file_path"@]),
{
    reveal(deleted_file_schema);
    reveal_strlit("file_path");

    let required = seq!["file_path"@];
    let members = seq![("file_path"@, text_schema())];
    lemma_of_record_schema(required, members);
    lemma_last_member_counts(members, 0);
    lemma_of_text_schema();
}

proof fn lemma_of_file_diff_schema()
    ensures
        declares(file_diff_schema(), "file_path"@, "string"@),
        declares(file_diff_schema(), "replace"@, "string"@),
        declares(file_diff_schema(), "search"@, "string"@),
        file_diff_schema().get("required"@) is Some,
        lists_texts(file_diff_schema().get("required"@), seq!["file_path"@, "search"@, "replace"@]),
{
    reveal(file_diff_schema);
    reveal_strlit("file_path");
    reveal_strlit("replace");
    reveal_strlit("search");
    assert("file_path"@.len() != "replace"@.len());
    assert("file_path"@.len() != "search"@.len());
    assert("replace"@.len() != "search"@.len());
    let required = seq!["file_path"@, "search"@, "replace"@];
    let members = seq![
        ("file_path"@, text_schema()),
        ("replace"@, text_schema()),
        ("search"@, text_schema()),
    ];
    lemma_of_record_schema(required, members);
    lemma_last_member_counts(members, 0);
    lemma_of_text_schema();
    lemma_last_member_counts(members, 1);
    lemma_of_text_schema();
    lemma_last_member_counts(members, 2);
    lemma_of_text_schema();
}

proof fn lemma_of_new_file_schema()
    ensures
        declares(new_file_schema(), "content"@, "string"@),
        declares(new_file_schema(), "file_path"@, "string"@),
        new_file_schema().get("required"@) is Some,
        lists_texts(new_file_schema().get("required"@), seq!["file_path"@, "content"@]),
{
    reveal(new_file_schema);
    reveal_strlit("content");
    reveal_strlit("file_path");
    assert("content"@.len() != "file_path"@.len());
    let required = seq!["file_path"@, "content"@];
    let members = seq![("content"@, text_schema()), ("file_path"@, text_schema())];
    lemma_of_record_schema(required, members);
    lemma_last_member_counts(members, 0);
    lemma_of_text_schema();
    lemma_last_member_counts(members, 1);
    lemma_of_text_schema();
}

proof fn lemma_of_hunk_schema()
    ensures
        declares(hunk_schema(), "change_context"@, "array"@),
        items_of(hunk_schema(), "change_context"@) == text_schema(),
        declares(hunk_schema(), "new"@, "string"@),
        declares(hunk_schema(), "old"@, "string"@),
        declares(hunk_schema(), "post_context"@, "string"@),
        declares(hunk_schema(), "pre_context"@, "string"@),
        hunk_schema().get("required"@) is None,
{
    reveal(hunk_schema);
    reveal_strlit("change_context");
    reveal_strlit("new");
    reveal_strlit("old");
    reveal_strlit("post_context");
    reveal_strlit("pre_context");
    assert("change_context"@.len() != "new"@.len());
    assert("change_context"@.len() != "old"@.len());
    assert("change_context"@.len() != "post_context"@.len());
    assert("change_context"@.len() != "pre_context"@.len());
    assert("new"@[0] != "old"@[0]);
    assert("new"@.len() != "post_context"@.len());
    assert("new"@.len() != "pre_context"@.len());
    assert("old"@.len() != "post_context"@.len());
    assert("old"@.len() != "pre_context"@.len());
    assert("post_context"@.len() != "pre_context"@.len());
    let required = Seq::<Seq<char>>::empty();
    let members = seq![
        ("change_context"@, list_schema(text_schema())),
        ("new"@, text_schema()),
        ("old"@, text_schema()),
        ("post_context"@, text_schema()),
        ("pre_context"@, text_schema()),
    ];
    lemma_of_record_schema(required, members);
    lemma_last_member_counts(members, 0);
    lemma_of_list_schema(text_schema());
    lemma_last_member_counts(members, 1);
    lemma_of_text_schema();
    lemma_last_member_counts(members, 2);
    lemma_of_text_schema();
    lemma_last_member_counts(members, 3);
    lemma_of_text_schema();
    lemma_last_member_counts(members, 4);
    lemma_of_text_schema();
}

proof fn lemma_of_file_update_schema()
    ensures
        declares(file_update_schema(), "file_path"@, "string"@),
        declares(file_update_schema(), "hunks"@, "array"@),
        items_of(file_update_schema(), "hunks"@) == hunk_schema(),
        declares(file_update_schema(), "move_to"@, "string"@),
        file_update_schema().get("required"@) is Some,
        lists_texts(file_update_schema().get("required"@), seq!["file_path"@, "hunks"@]),
{
    reveal(file_update_schema);
    reveal_strlit("file_path");
    reveal_strlit("hunks");
    reveal_strlit("move_to");
    assert("file_path"@.len() != "hunks"@.len());
    assert("file_path"@.len() != "move_to"@.len());
    assert("hunks"@.len() != "move_to"@.len());
    let required = seq!["file_path"@, "hunks"@];
    let members = seq![
        ("file_path"@, text_schema()),
        ("hunks"@, list_schema(hunk_schema())),
        ("move_to"@, text_schema()),
    ];
    lemma_of_record_schema(required, members);
    lemma_last_member_counts(members, 0);
    lemma_of_text_schema();
    lemma_last_member_counts(members, 1);
    lemma_of_list_schema(hunk_schema());
    lemma_last_member_counts(members, 2);
    lemma_of_text_schema();
}

proof fn lemma_of_apply_file_diffs_schema()
    ensures
        declares(apply_file_diffs_schema(), "deleted_files"@, "array"@),
        items_of(apply_file_diffs_schema(), "deleted_files"@) == deleted_file_schema(),
        declares(apply_file_diffs_schema(), "diffs"@, "array"@),
        items_of(apply_file_diffs_schema(), "diffs"@) == file_diff_schema(),
        declares(apply_file_diffs_schema(), "new_files"@, "array"@),
        items_of(apply_file_diffs_schema(), "new_files"@) == new_file_schema(),
        declares(apply_file_diffs_schema(), "summary"@, "string"@),
        declares(apply_file_diffs_schema(), "v4a_updates"@, "array"@),
        items_of(apply_file_diffs_schema(), "v4a_updates"@) == file_update_schema(),
        apply_file_diffs_schema().get("required"@) is None,
{
    reveal(apply_file_diffs_schema);
    reveal_strlit("deleted_files");
    reveal_strlit("diffs");
    reveal_strlit("new_files");
    reveal_strlit("summary");
    reveal_strlit("v4a_updates");
    assert("deleted_files"@.len() != "diffs"@.len());
    assert("deleted_files"@.len() != "new_files"@.len());
    assert("deleted_files"@.len() != "summary"@.len());
    assert("deleted_files"@.len() != "v4a_updates"@.len());
    assert("diffs"@.len() != "new_files"@.len());
    assert("diffs"@.len() != "summary"@.len());
    assert("diffs"@.len() != "v4a_updates"@.len());
    assert("new_files"@.len() != "summary"@.len());
    assert("new_files"@.len() != "v4a_updates"@.len());
    assert("summary"@.len() != "v4a_updates"@.len());
    let required = Seq::<Seq<char>>::empty();
    let members = seq![
        ("deleted_files"@, list_schema(deleted_file_schema())),
        ("diffs"@, list_schema(file_diff_schema())),
        ("new_files"@, list_schema(new_file_schema())),
        ("summary"@, text_schema()),
        ("v4a_updates"@, list_schema(file_update_schema())),
    ];
    lemma_of_record_schema(required, members);
    lemma_last_member_counts(members, 0);
    lemma_of_list_schema(deleted_file_schema());
    lemma_last_member_counts(members, 1);
    lemma_of_list_schema(file_diff_schema());
    lemma_last_member_counts(members, 2);
    lemma_of_list_schema(new_file_schema());
    lemma_last_member_counts(members, 3);
    lemma_of_text_schema();
    lemma_last_member_counts(members, 4);
    lemma_of_list_schema(file_update_schema());
}

proof fn lemma_of_suggest_prompt_schema()
    ensures
        declares(suggest_prompt_schema(), "description"@, "string"@),
        declares(suggest_prompt_schema(), "is_trigger_irrelevant"@, "boolean"@),
        default_of(
            suggest_prompt_schema(),
            "is_trigger_irrelevant"@,
        ) == Some(JsonView::Bool(false)),
        declares(suggest_prompt_schema(), "label"@, "string"@),
        declares(suggest_prompt_schema(), "mode"@, "string"@),
        default_of(suggest_prompt_schema(), "mode"@) == Some(JsonView::Str("prompt_chip"@)),
        lists_texts(
            choices_of(suggest_prompt_schema(), "mode"@),
            seq!["prompt_chip"@, "inline_query_banner"@],
        ),
        declares(suggest_prompt_schema(), "prompt"@, "string"@),
        declares(suggest_prompt_schema(), "title"@, "string"@),
        suggest_prompt_schema().get("required"@) is Some,
        lists_texts(suggest_prompt_schema().get("required"@), seq!["prompt"@]),
{
    reveal(suggest_prompt_schema);
    reveal_strlit("description");
    reveal_strlit("is_trigger_irrelevant");
    reveal_strlit("label");
    reveal_strlit("mode");
    reveal_strlit("prompt");
    reveal_strlit("title");
    assert("description"@.len() != "is_trigger_irrelevant"@.len());
    assert("description"@.len() != "label"@.len());
    assert("description"@.len() != "mode"@.len());
    assert("description"@.len() != "prompt"@.len());
    assert("description"@.len() != "title"@.len());
    assert("is_trigger_irrelevant"@.len() != "label"@.len());
    assert("is_trigger_irrelevant"@.len() != "mode"@.len());
    assert("is_trigger_irrelevant"@.len() != "prompt"@.len());
    assert("is_trigger_irrelevant"@.len() != "title"@.len());
    assert("label"@.len() != "mode"@.len());
    assert("label"@.len() != "prompt"@.len());
    assert("label"@[0] != "title"@[0]);
    assert("mode"@.len() != "prompt"@.len());
    assert("mode"@.len() != "title"@.len());
    assert("prompt"@.len() != "title"@.len());
    let required = seq!["prompt"@];
    let members = seq![
        (
            "description"@,
            described_text("Inline banner description. Only used for inline_query_banner mode."@),
        ),
        ("is_trigger_irrelevant"@, flag_schema(false)),
        ("label"@, described_text("Short optional chip label shown to the user."@)),
        ("mode"@, choice_schema(seq!["prompt_chip"@, "inline_query_banner"@], "prompt_chip"@)),
        (
            "prompt"@,
            described_text("The Agent Mode query to run if the user accepts the suggestion."@),
        ),
        ("title"@, described_text("Inline banner title. Only used for inline_query_banner mode."@)),
    ];
    lemma_of_record_schema(required, members);
    lemma_last_member_counts(members, 0);
    lemma_of_described_text("Inline banner description. Only used for inline_query_banner mode."@);
    lemma_last_member_counts(members, 1);
    lemma_of_flag_schema(false);
    lemma_last_member_counts(members, 2);
    lemma_of_described_text("Short optional chip label shown to the user."@);
    lemma_last_member_counts(members, 3);
    lemma_of_choice_schema(seq!["prompt_chip"@, "inline_query_banner"@], "prompt_chip"@);
    lemma_last_member_counts(members, 4);
    lemma_of_described_text("The Agent Mode query to run if the user accepts the suggestion."@);
    lemma_last_member_counts(members, 5);
    lemma_of_described_text("Inline banner title. Only used for inline_query_banner mode."@);
}

proof fn lemma_of_suggest_rule_schema()
    ensures
        declares(suggest_rule_schema(), "content"@, "string"@),
        declares(suggest_rule_schema(), "logging_id"@, "string"@),
        declares(suggest_rule_schema(), "name"@, "string"@),
        suggest_rule_schema().get("required"@) is Some,
        lists_texts(suggest_rule_schema().get("required"@), seq!["name"@, "content"@]),
{
    reveal(suggest_rule_schema);
    reveal_strlit("content");
    reveal_strlit("logging_id");
    reveal_strlit("name");
    assert("content"@.len() != "logging_id"@.len());
    assert("content"@.len() != "name"@.len());
    assert("logging_id"@.len() != "name"@.len());
    let required = seq!["name"@, "content"@];
    let members = seq![
        ("content"@, text_schema()),
        ("logging_id"@, described_text("Optional stable unique id for this suggestion."@)),
        ("name"@, text_schema()),
    ];
    lemma_of_record_schema(required, members);
    lemma_last_member_counts(members, 0);
    lemma_of_text_schema();
    lemma_last_member_counts(members, 1);
    lemma_of_described_text("Optional stable unique id for this suggestion."@);
    lemma_last_member_counts(members, 2);
    lemma_of_text_schema();
}

/// The fields of `run_shell_command`.
pub proof fn lemma_fields_of_run_shell_command(request: RequestView, tool: OpenAIToolView)
    requires
        tool_definitions(request).contains(tool),
        tool.function.name == "run_shell_command"@,
    ensures
        ({
            let fields = tool.function.parameters;
            &&& tool.kind == "function"@
            &&& declares(fields, "command"@, "string"@)
            &&& declares(fields, "is_read_only"@, "boolean"@)
            &&& default_of(fields, "is_read_only"@) == Some(JsonView::Bool(false))
            &&& declares(fields, "is_risky"@, "boolean"@)
            &&& default_of(fields, "is_risky"@) == Some(JsonView::Bool(false))
            &&& declares(fields, "uses_pager"@, "boolean"@)
            &&& default_of(fields, "uses_pager"@) == Some(JsonView::Bool(false))
            &&& declares(fields, "wait_until_complete"@, "boolean"@)
            &&& default_of(fields, "wait_until_complete"@) == Some(JsonView::Bool(true))
            &&& fields.get("required"@) is Some
            &&& lists_texts(fields.get("required"@), seq!["command"@])
        }),
{
    lemma_named(request, tool);
    lemma_of_run_shell_command_schema();
}

/// The fields of `read_shell_command_output`.
pub proof fn lemma_fields_of_read_shell_command_output(request: RequestView, tool: OpenAIToolView)
    requires
        tool_definitions(request).contains(tool),
        tool.function.name == "read_shell_command_output"@,
    ensures
        ({
            let fields = tool.function.parameters;
            &&& tool.kind == "function"@
            &&& declares(fields, "command_id"@, "string"@)
            &&& declares(fields, "delay_seconds"@, "integer"@)
            &&& least_of(fields, "delay_seconds"@) == Some(int_json(0))
            &&& declares(fields, "wait_until_complete"@, "boolean"@)
            &&& default_of(fields, "wait_until_complete"@) == Some(JsonView::Bool(false))
            &&& fields.get("required"@) is Some
            &&& lists_texts(fields.get("required"@), seq!["command_id"@])
        }),
{
    lemma_named(request, tool);
    lemma_of_read_shell_command_output_schema();
}

/// The fields of `write_to_lrc`.
pub proof fn lemma_fields_of_write_to_lrc(request: RequestView, tool: OpenAIToolView)
    requires
        tool_definitions(request).contains(tool),
        tool.function.name == "write_to_lrc"@,
    ensures
        ({
            let fields = tool.function.parameters;
            &&& tool.kind == "function"@
            &&& declares(fields, "command_id"@, "string"@)
            &&& declares(fields, "input"@, "string"@)
            &&& declares(fields, "mode"@, "string"@)
            &&& default_of(fields, "mode"@) == Some(JsonView::Str("raw"@))
            &&& choices_of(fields, "mode"@) is Some
            &&& lists_texts(choices_of(fields, "mode"@), seq!["raw"@, "line"@, "block"@])
            &&& fields.get("required"@) is Some
            &&& lists_texts(fields.get("required"@), seq!["command_id"@, "input"@])
        }),
{
    lemma_named(request, tool);
    lemma_of_write_to_lrc_schema();
}

/// The fields of `transfer_shell_command_control`.
pub proof fn lemma_fields_of_transfer_shell_command_control(
    request: RequestView,
    tool: OpenAIToolView,
)
    requires
        tool_definitions(request).contains(tool),
        tool.function.name == "transfer_shell_command_control"@,
    ensures
        ({
            let fields = tool.function.parameters;
            &&& tool.kind == "function"@
            &&& declares(fields, "reason"@, "string"@)
            &&& fields.get("required"@) is Some
            &&& lists_texts(fields.get("required"@), seq!["reason"@])
        }),
{
    lemma_named(request, tool);
    lemma_of_transfer_shell_command_control_schema();
}

/// The fields of `read_files`.
pub proof fn lemma_fields_of_read_files(request: RequestView, tool: OpenAIToolView)
    requires
        tool_definitions(request).contains(tool),
        tool.function.name == "read_files"@,
    ensures
        ({
            let fields = tool.function.parameters;
            &&& tool.kind == "function"@
            &&& declares(fields, "files"@, "array"@)
            &&& declares(items_of(fields, "files"@), "line_ranges"@, "array"@)
            &&& declares(items_of(items_of(fields, "files"@), "line_ranges"@), "end"@, "integer"@)
            &&& least_of(
                items_of(items_of(fields, "files"@), "line_ranges"@),
                "end"@,
            ) == Some(int_json(1))
            &&& declares(items_of(items_of(fields, "files"@), "line_ranges"@), "start"@, "integer"@)
            &&& least_of(
                items_of(items_of(fields, "files"@), "line_ranges"@),
                "start"@,
            ) == Some(int_json(1))
            &&& items_of(items_of(fields, "files"@), "line_ranges"@).get("required"@) is Some
            &&& lists_texts(
                items_of(items_of(fields, "files"@), "line_ranges"@).get("required"@),
                seq!["start"@, "end"@],
            )
            &&& declares(items_of(fields, "files"@), "path"@, "string"@)
            &&& items_of(fields, "files"@).get("required"@) is Some
            &&& lists_texts(items_of(fields, "files"@).get("required"@), seq!["path"@])
            &&& fields.get("required"@) is Some
            &&& lists_texts(fields.get("required"@), seq!["files"@])
        }),
{
    lemma_named(request, tool);
    lemma_of_read_files_schema();
    lemma_of_file_to_read_schema();
    lemma_of_line_range_schema();
}

/// The fields of `search_codebase`.
pub proof fn lemma_fields_of_search_codebase(request: RequestView, tool: OpenAIToolView)
    requires
        tool_definitions(request).contains(tool),
        tool.function.name == "search_codebase"@,
    ensures
        ({
            let fields = tool.function.parameters;
            &&& tool.kind == "function"@
            &&& declares(fields, "codebase_path"@, "string"@)
            &&& declares(fields, "path_filters"@, "array"@)
            &&& items_of(fields, "path_filters"@).get_str("type"@) == Some("string"@)
            &&& declares(fields, "query"@, "string"@)
            &&& fields.get("required"@) is Some
            &&& lists_texts(fields.get("required"@), seq!["query"@])
        }),
{
    lemma_named(request, tool);
    lemma_of_search_codebase_schema();
    lemma_of_text_schema();
}

/// The fields of `grep`.
pub proof fn lemma_fields_of_grep(request: RequestView, tool: OpenAIToolView)
    requires
        tool_definitions(request).contains(tool),
        tool.function.name == "grep"@,
    ensures
        ({
            let fields = tool.function.parameters;
            &&& tool.kind == "function"@
            &&& declares(fields, "path"@, "string"@)
            &&& declares(fields, "queries"@, "array"@)
            &&& items_of(fields, "queries"@).get_str("type"@) == Some("string"@)
            &&& declares(fields, "query"@, "string"@)
            &&& fields.get("required"@) is None
        }),
{
    lemma_named(request, tool);
    lemma_of_grep_schema();
    lemma_of_text_schema();
}

/// The fields of `file_glob_v2`.
pub proof fn lemma_fields_of_file_glob_v2(request: RequestView, tool: OpenAIToolView)
    requires
        tool_definitions(request).contains(tool),
        tool.function.name == "file_glob_v2"@,
    ensures
        ({
            let fields = tool.function.parameters;
            &&& tool.kind == "function"@
            &&& declares(fields, "max_depth"@, "integer"@)
            &&& least_of(fields, "max_depth"@) == Some(int_json(0))
            &&& declares(fields, "max_matches"@, "integer"@)
            &&& least_of(fields, "max_matches"@) == Some(int_json(0))
            &&& declares(fields, "min_depth"@, "integer"@)
            &&& least_of(fields, "min_depth"@) == Some(int_json(0))
            &&& declares(fields, "patterns"@, "array"@)
            &&& items_of(fields, "patterns"@).get_str("type"@) == Some("string"@)
            &&& declares(fields, "search_dir"@, "string"@)
            &&& fields.get("required"@) is Some
            &&& lists_texts(fields.get("required"@), seq!["patterns"@])
        }),
{
    lemma_named(request, tool);
    lemma_of_file_glob_v2_schema();
    lemma_of_text_schema();
}

/// The fields of `file_glob`.
pub proof fn lemma_fields_of_file_glob(request: RequestView, tool: OpenAIToolView)
    requires
        tool_definitions(request).contains(tool),
        tool.function.name == "file_glob"@,
    ensures
        ({
            let fields = tool.function.parameters;
            &&& tool.kind == "function"@
            &&& declares(fields, "path"@, "string"@)
            &&& declares(fields, "patterns"@, "array"@)
            &&& items_of(fields, "patterns"@).get_str("type"@) == Some("string"@)
            &&& fields.get("required"@) is Some
            &&& lists_texts(fields.get("required"@), seq!["patterns"@])
        }),
{
    lemma_named(request, tool);
    lemma_of_file_glob_schema();
    lemma_of_text_schema();
}

/// The fields of `read_skill`.
pub proof fn lemma_fields_of_read_skill(request: RequestView, tool: OpenAIToolView)
    requires
        tool_definitions(request).contains(tool),
        tool.function.name == "read_skill"@,
    ensures
        ({
            let fields = tool.function.parameters;
            &&& tool.kind == "function"@
            &&& declares(fields, "bundled_skill_id"@, "string"@)
            &&& declares(fields, "name"@, "string"@)
            &&& declares(fields, "skill_path"@, "string"@)
            &&& fields.get("required"@) is None
        }),
{
    lemma_named(request, tool);
    lemma_of_read_skill_schema();
}

/// The fields of `ask_user_question`.
pub proof fn lemma_fields_of_ask_user_question(request: RequestView, tool: OpenAIToolView)
    requires
        tool_definitions(request).contains(tool),
        tool.function.name == "ask_user_question"@,
    ensures
        ({
            let fields = tool.function.parameters;
            &&& tool.kind == "function"@
            &&& declares(fields, "questions"@, "array"@)
            &&& declares(items_of(fields, "questions"@), "is_multiselect"@, "boolean"@)
            &&& default_of(
                items_of(fields, "questions"@),
                "is_multiselect"@,
            ) == Some(JsonView::Bool(false))
            &&& declares(items_of(fields, "questions"@), "options"@, "array"@)
            &&& items_of(
                items_of(fields, "questions"@),
                "options"@,
            ).get_str("type"@) == Some("string"@)
            &&& declares(items_of(fields, "questions"@), "question"@, "string"@)
            &&& declares(items_of(fields, "questions"@), "question_id"@, "string"@)
            &&& declares(items_of(fields, "questions"@), "recommended_option_index"@, "integer"@)
            &&& declares(items_of(fields, "questions"@), "supports_other"@, "boolean"@)
            &&& default_of(
                items_of(fields, "questions"@),
                "supports_other"@,
            ) == Some(JsonView::Bool(false))
            &&& items_of(fields, "questions"@).get("required"@) is Some
            &&& lists_texts(
                items_of(fields, "questions"@).get("required"@),
                seq!["question"@, "options"@],
            )
            &&& fields.get("required"@) is Some
            &&& lists_texts(fields.get("required"@), seq!["questions"@])
        }),
{
    lemma_named(request, tool);
    lemma_of_ask_user_question_schema();
    lemma_of_question_schema();
    lemma_of_text_schema();
}

/// The fields of `apply_file_diffs`.
pub proof fn lemma_fields_of_apply_file_diffs(request: RequestView, tool: OpenAIToolView)
    requires
        tool_definitions(request).contains(tool),
        tool.function.name == "apply_file_diffs"@,
    ensures
        ({
            let fields = tool.function.parameters;
            &&& tool.kind == "function"@
            &&& declares(fields, "deleted_files"@, "array"@)
            &&& declares(items_of(fields, "deleted_files"@), "file_path"@, "string"@)
            &&& items_of(fields, "deleted_files"@).get("required"@) is Some
            &&& lists_texts(items_of(fields, "deleted_files"@).get("required"@), seq!["file_path"@])
            &&& declares(fields, "diffs"@, "array"@)
            &&& declares(items_of(fields, "diffs"@), "file_path"@, "string"@)
            &&& declares(items_of(fields, "diffs"@), "replace"@, "string"@)
            &&& declares(items_of(fields, "diffs"@), "search"@, "string"@)
            &&& items_of(fields, "diffs"@).get("required"@) is Some
            &&& lists_texts(
                items_of(fields, "diffs"@).get("required"@),
                seq!["file_path"@, "search"@, "replace"@],
            )
            &&& declares(fields, "new_files"@, "array"@)
            &&& declares(items_of(fields, "new_files"@), "content"@, "string"@)
            &&& declares(items_of(fields, "new_files"@), "file_path"@, "string"@)
            &&& items_of(fields, "new_files"@).get("required"@) is Some
            &&& lists_texts(
                items_of(fields, "new_files"@).get("required"@),
                seq!["file_path"@, "content"@],
            )
            &&& declares(fields, "summary"@, "string"@)
            &&& declares(fields, "v4a_updates"@, "array"@)
            &&& declares(items_of(fields, "v4a_updates"@), "file_path"@, "string"@)
            &&& declares(items_of(fields, "v4a_updates"@), "hunks"@, "array"@)
            &&& declares(
                items_of(items_of(fields, "v4a_updates"@), "hunks"@),
                "change_context"@,
                "array"@,
            )
            &&& items_of(
                items_of(items_of(fields, "v4a_updates"@), "hunks"@),
                "change_context"@,
            ).get_str("type"@) == Some("string"@)
            &&& declares(items_of(items_of(fields, "v4a_updates"@), "hunks"@), "new"@, "string"@)
            &&& declares(items_of(items_of(fields, "v4a_updates"@), "hunks"@), "old"@, "string"@)
            &&& declares(
                items_of(items_of(fields, "v4a_updates"@), "hunks"@),
                "post_context"@,
                "string"@,
            )
            &&& declares(
                items_of(items_of(fields, "v4a_updates"@), "hunks"@),
                "pre_context"@,
                "string"@,
            )
            &&& items_of(items_of(fields, "v4a_updates"@), "hunks"@).get("required"@) is None
            &&& declares(items_of(fields, "v4a_updates"@), "move_to"@, "string"@)
            &&& items_of(fields, "v4a_updates"@).get("required"@) is Some
            &&& lists_texts(
                items_of(fields, "v4a_updates"@).get("required"@),
                seq!["file_path"@, "hunks"@],
            )
            &&& fields.get("required"@) is None
        }),
{
    lemma_named(request, tool);
    lemma_of_apply_file_diffs_schema();
    lemma_of_deleted_file_schema();
    lemma_of_file_diff_schema();
    lemma_of_new_file_schema();
    lemma_of_file_update_schema();
    lemma_of_hunk_schema();
    lemma_of_text_schema();
}

/// The fields of `suggest_prompt`.
pub proof fn lemma_fields_of_suggest_prompt(request: RequestView, tool: OpenAIToolView)
    requires
        tool_definitions(request).contains(tool),
        tool.function.name == "suggest_prompt"@,
    ensures
        ({
            let fields = tool.function.parameters;
            &&& tool.kind == "function"@
            &&& declares(fields, "description"@, "string"@)
            &&& declares(fields, "is_trigger_irrelevant"@, "boolean"@)
            &&& default_of(fields, "is_trigger_irrelevant"@) == Some(JsonView::Bool(false))
            &&& declares(fields, "label"@, "string"@)
            &&& declares(fields, "mode"@, "string"@)
            &&& default_of(fields, "mode"@) == Some(JsonView::Str("prompt_chip"@))
            &&& choices_of(fields, "mode"@) is Some
            &&& lists_texts(
                choices_of(fields, "mode"@),
                seq!["prompt_chip"@, "inline_query_banner"@],
            )
            &&& declares(fields, "prompt"@, "string"@)
            &&& declares(fields, "title"@, "string"@)
            &&& fields.get("required"@) is Some
            &&& lists_texts(fields.get("required"@), seq!["prompt"@])
        }),
{
    lemma_named(request, tool);
    lemma_of_suggest_prompt_schema();
}

/// The fields of `suggest_rule`.
pub proof fn lemma_fields_of_suggest_rule(request: RequestView, tool: OpenAIToolView)
    requires
        tool_definitions(request).contains(tool),
        tool.function.name == "suggest_rule"@,
    ensures
        ({
            let fields = tool.function.parameters;
            &&& tool.kind == "function"@
            &&& declares(fields, "content"@, "string"@)
            &&& declares(fields, "logging_id"@, "string"@)
            &&& declares(fields, "name"@, "string"@)
            &&& fields.get("required"@) is Some
            &&& lists_texts(fields.get("required"@), seq!["name"@, "content"@])
        }),
{
    lemma_named(request, tool);
    lemma_of_suggest_rule_schema();
}

/// What is said of each tool.
pub proof fn lemma_words_of_tools(request: RequestView, tool: OpenAIToolView)
    requires
        tool_definitions(request).contains(tool),
    ensures
        tool.function.name == "run_shell_command"@ ==> tool.function.description
            == "Ask Warp to run a shell command in the user's terminal."@,
        tool.function.name == "read_shell_command_output"@ ==> tool.function.description
            == "Read output from a long-running shell command that Warp is monitoring."@,
        tool.function.name == "write_to_lrc"@ ==> tool.function.description
            == "Write input to a long-running foreground command in Warp's terminal."@,
        tool.function.name == "transfer_shell_command_control"@ ==> tool.function.description
            == "Transfer control of a running terminal command back to the user."@,
        tool.function.name == "read_files"@ ==> tool.function.description
            == "Ask Warp to read one or more local files, optionally limited to line ranges."@,
        tool.function.name == "search_codebase"@ ==> tool.function.description
            == "Ask Warp to search the current indexed codebase for relevant file snippets."@,
        tool.function.name == "grep"@ ==> tool.function.description
            == "Ask Warp to grep local files for one or more literal strings or regex patterns."@,
        tool.function.name == "file_glob_v2"@ ==> tool.function.description
            == "Ask Warp to find files by filename glob patterns."@,
        tool.function.name == "file_glob"@ ==> tool.function.description
            == "Ask Warp to find files by filename glob patterns."@,
        tool.function.name == "read_skill"@ ==> tool.function.description
            == "Ask Warp to read a skill by local SKILL.md path or bundled skill id."@,
        tool.function.name == "ask_user_question"@ ==> tool.function.description
            == "Ask Warp to show one or more multiple-choice questions to the user."@,
        tool.function.name == "apply_file_diffs"@ ==> tool.function.description
            == "Ask Warp to apply file edits, creates, deletes, or V4A hunks."@,
        tool.function.name == "suggest_prompt"@ ==> tool.function.description
            == "Ask Warp to show a passive Agent Mode prompt suggestion."@,
        tool.function.name == "suggest_rule"@ ==> tool.function.description
           
               
                   
                       
                           
                               
                                   
                                       
                                           
                                               
                                                   
                                                       
                                                           
                                                               
                                                                   
                                                                       
                                                                           
                                                                               
                                                                                   
                                                                                       
                                                                                           
                                                                                               
                                                                                                   
                                                                                                        == "Suggest a durable local WarpOCA rule for future agent runs. Use sparingly, only when a stable preference or project guideline was learned."@,
{
    lemma_named(request, tool);
}

} // verus!
