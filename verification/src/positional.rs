//! A record may come as the list of its values, in the order of its fields: it then says what the
//! object with these values under their names says.
use crate::args::{
    apply_file_diffs_args, ask_user_question_arg, ask_user_question_args, deleted_file_args,
    file_diff_args, file_glob_args, file_glob_v2_args, grep_args, line_range_arg, new_file_args,
    read_files_args, read_shell_command_output_args, read_skill_args, run_shell_command_args,
    search_codebase_args, suggest_prompt_args, suggest_rule_args,
    transfer_shell_command_control_args, v4a_hunk_args, v4a_update_args,
    write_to_long_running_shell_command_args,
};
use crate::requests::{
    am_query_suggestions_request, block_title_request, input_suggestions_request,
    predict_am_queries_request, relevant_file_context, relevant_files_request,
};
use crate::suggest::{suggestion_context_message};
use crate::wire::{
    chat_chunk, chat_delta, chat_response, chunk_choice, function_call, function_delta,
    message_tool_call, response_choice, response_message, tool_call_delta,
};
use crate::json::{lemma_last_member_counts, JsonView};
use crate::record::field;
use vstd::prelude::*;

verus! {

/// `run_shell_command_args`: `command`, `is_read_only`, `uses_pager`, `is_risky`,
/// `wait_until_complete`.
pub proof fn lemma_run_shell_command_args_comes_as_list(
    v0: JsonView,
    v1: JsonView,
    v2: JsonView,
    v3: JsonView,
    v4: JsonView,
)
    ensures
        run_shell_command_args(JsonView::Array(seq![v0, v1, v2, v3, v4])) == run_shell_command_args(
            JsonView::Object(
                seq![
                    ("command"@, v0),
                    ("is_read_only"@, v1),
                    ("uses_pager"@, v2),
                    ("is_risky"@, v3),
                    ("wait_until_complete"@, v4),
                ]
            ),
        ),
{
    reveal_strlit("command");
    reveal_strlit("is_read_only");
    reveal_strlit("uses_pager");
    reveal_strlit("is_risky");
    reveal_strlit("wait_until_complete");
    assert("command"@.len() != "is_read_only"@.len());
    assert("command"@.len() != "uses_pager"@.len());
    assert("command"@.len() != "is_risky"@.len());
    assert("command"@.len() != "wait_until_complete"@.len());
    assert("is_read_only"@.len() != "uses_pager"@.len());
    assert("is_read_only"@.len() != "is_risky"@.len());
    assert("is_read_only"@.len() != "wait_until_complete"@.len());
    assert("uses_pager"@.len() != "is_risky"@.len());
    assert("uses_pager"@.len() != "wait_until_complete"@.len());
    assert("is_risky"@.len() != "wait_until_complete"@.len());
    let members = seq![
        ("command"@, v0),
        ("is_read_only"@, v1),
        ("uses_pager"@, v2),
        ("is_risky"@, v3),
        ("wait_until_complete"@, v4),
    ];
    let list = JsonView::Array(seq![v0, v1, v2, v3, v4]);
    lemma_last_member_counts(members, 0);
    assert(field(list, 0, "command"@) == field(JsonView::Object(members), 0, "command"@));
    lemma_last_member_counts(members, 1);
    assert(field(list, 1, "is_read_only"@) == field(JsonView::Object(members), 1, "is_read_only"@));
    lemma_last_member_counts(members, 2);
    assert(field(list, 2, "uses_pager"@) == field(JsonView::Object(members), 2, "uses_pager"@));
    lemma_last_member_counts(members, 3);
    assert(field(list, 3, "is_risky"@) == field(JsonView::Object(members), 3, "is_risky"@));
    lemma_last_member_counts(members, 4);
    assert(
        field(list, 4, "wait_until_complete"@) == field(
            JsonView::Object(members),
            4,
            "wait_until_complete"@,
        )
    );
}

/// `read_shell_command_output_args`: `command_id`, `delay_seconds`, `wait_until_complete`.
pub proof fn lemma_read_shell_command_output_args_comes_as_list(
    v0: JsonView,
    v1: JsonView,
    v2: JsonView,
)
    ensures
        read_shell_command_output_args(
            JsonView::Array(seq![v0, v1, v2])
        ) == read_shell_command_output_args(
            JsonView::Object(
                seq![("command_id"@, v0), ("delay_seconds"@, v1), ("wait_until_complete"@, v2)]
            ),
        ),
{
    reveal_strlit("command_id");
    reveal_strlit("delay_seconds");
    reveal_strlit("wait_until_complete");
    assert("command_id"@.len() != "delay_seconds"@.len());
    assert("command_id"@.len() != "wait_until_complete"@.len());
    assert("delay_seconds"@.len() != "wait_until_complete"@.len());
    let members = seq![("command_id"@, v0), ("delay_seconds"@, v1), ("wait_until_complete"@, v2)];
    let list = JsonView::Array(seq![v0, v1, v2]);
    lemma_last_member_counts(members, 0);
    assert(field(list, 0, "command_id"@) == field(JsonView::Object(members), 0, "command_id"@));
    lemma_last_member_counts(members, 1);
    assert(
        field(list, 1, "delay_seconds"@) == field(JsonView::Object(members), 1, "delay_seconds"@)
    );
    lemma_last_member_counts(members, 2);
    assert(
        field(list, 2, "wait_until_complete"@) == field(
            JsonView::Object(members),
            2,
            "wait_until_complete"@,
        )
    );
}

/// `write_to_long_running_shell_command_args`: `command_id`, `input`, `mode`.
pub proof fn lemma_write_to_long_running_shell_command_args_comes_as_list(
    v0: JsonView,
    v1: JsonView,
    v2: JsonView,
)
    ensures
        write_to_long_running_shell_command_args(
            JsonView::Array(seq![v0, v1, v2])
        ) == write_to_long_running_shell_command_args(
            JsonView::Object(seq![("command_id"@, v0), ("input"@, v1), ("mode"@, v2)]),
        ),
{
    reveal_strlit("command_id");
    reveal_strlit("input");
    reveal_strlit("mode");
    assert("command_id"@.len() != "input"@.len());
    assert("command_id"@.len() != "mode"@.len());
    assert("input"@.len() != "mode"@.len());
    let members = seq![("command_id"@, v0), ("input"@, v1), ("mode"@, v2)];
    let list = JsonView::Array(seq![v0, v1, v2]);
    lemma_last_member_counts(members, 0);
    assert(field(list, 0, "command_id"@) == field(JsonView::Object(members), 0, "command_id"@));
    lemma_last_member_counts(members, 1);
    assert(field(list, 1, "input"@) == field(JsonView::Object(members), 1, "input"@));
    lemma_last_member_counts(members, 2);
    assert(field(list, 2, "mode"@) == field(JsonView::Object(members), 2, "mode"@));
}

/// `transfer_shell_command_control_args`: `reason`.
pub proof fn lemma_transfer_shell_command_control_args_comes_as_list(v0: JsonView)
    ensures
        transfer_shell_command_control_args(
            JsonView::Array(seq![v0])
        ) == transfer_shell_command_control_args(
            JsonView::Object(seq![("reason"@, v0)]),
        ),
{
    reveal_strlit("reason");
    let members = seq![("reason"@, v0)];
    let list = JsonView::Array(seq![v0]);
    lemma_last_member_counts(members, 0);
    assert(field(list, 0, "reason"@) == field(JsonView::Object(members), 0, "reason"@));
}

/// `line_range_arg`: `start`, `end`.
pub proof fn lemma_line_range_arg_comes_as_list(v0: JsonView, v1: JsonView)
    ensures
        line_range_arg(JsonView::Array(seq![v0, v1])) == line_range_arg(
            JsonView::Object(seq![("start"@, v0), ("end"@, v1)]),
        ),
{
    reveal_strlit("start");
    reveal_strlit("end");
    assert("start"@.len() != "end"@.len());
    let members = seq![("start"@, v0), ("end"@, v1)];
    let list = JsonView::Array(seq![v0, v1]);
    lemma_last_member_counts(members, 0);
    assert(field(list, 0, "start"@) == field(JsonView::Object(members), 0, "start"@));
    lemma_last_member_counts(members, 1);
    assert(field(list, 1, "end"@) == field(JsonView::Object(members), 1, "end"@));
}

/// `read_files_args`: `files`.
pub proof fn lemma_read_files_args_comes_as_list(v0: JsonView)
    ensures
        read_files_args(JsonView::Array(seq![v0])) == read_files_args(
            JsonView::Object(seq![("files"@, v0)]),
        ),
{
    reveal_strlit("files");
    let members = seq![("files"@, v0)];
    let list = JsonView::Array(seq![v0]);
    lemma_last_member_counts(members, 0);
    assert(field(list, 0, "files"@) == field(JsonView::Object(members), 0, "files"@));
}

/// `search_codebase_args`: `query`, `path_filters`, `codebase_path`.
pub proof fn lemma_search_codebase_args_comes_as_list(v0: JsonView, v1: JsonView, v2: JsonView)
    ensures
        search_codebase_args(JsonView::Array(seq![v0, v1, v2])) == search_codebase_args(
            JsonView::Object(seq![("query"@, v0), ("path_filters"@, v1), ("codebase_path"@, v2)]),
        ),
{
    reveal_strlit("query");
    reveal_strlit("path_filters");
    reveal_strlit("codebase_path");
    assert("query"@.len() != "path_filters"@.len());
    assert("query"@.len() != "codebase_path"@.len());
    assert("path_filters"@.len() != "codebase_path"@.len());
    let members = seq![("query"@, v0), ("path_filters"@, v1), ("codebase_path"@, v2)];
    let list = JsonView::Array(seq![v0, v1, v2]);
    lemma_last_member_counts(members, 0);
    assert(field(list, 0, "query"@) == field(JsonView::Object(members), 0, "query"@));
    lemma_last_member_counts(members, 1);
    assert(field(list, 1, "path_filters"@) == field(JsonView::Object(members), 1, "path_filters"@));
    lemma_last_member_counts(members, 2);
    assert(
        field(list, 2, "codebase_path"@) == field(JsonView::Object(members), 2, "codebase_path"@)
    );
}

/// `grep_args`: `query`, `queries`, `path`.
pub proof fn lemma_grep_args_comes_as_list(v0: JsonView, v1: JsonView, v2: JsonView)
    ensures
        grep_args(JsonView::Array(seq![v0, v1, v2])) == grep_args(
            JsonView::Object(seq![("query"@, v0), ("queries"@, v1), ("path"@, v2)]),
        ),
{
    reveal_strlit("query");
    reveal_strlit("queries");
    reveal_strlit("path");
    assert("query"@.len() != "queries"@.len());
    assert("query"@.len() != "path"@.len());
    assert("queries"@.len() != "path"@.len());
    let members = seq![("query"@, v0), ("queries"@, v1), ("path"@, v2)];
    let list = JsonView::Array(seq![v0, v1, v2]);
    lemma_last_member_counts(members, 0);
    assert(field(list, 0, "query"@) == field(JsonView::Object(members), 0, "query"@));
    lemma_last_member_counts(members, 1);
    assert(field(list, 1, "queries"@) == field(JsonView::Object(members), 1, "queries"@));
    lemma_last_member_counts(members, 2);
    assert(field(list, 2, "path"@) == field(JsonView::Object(members), 2, "path"@));
}

/// `file_glob_args`: `patterns`, `path`.
pub proof fn lemma_file_glob_args_comes_as_list(v0: JsonView, v1: JsonView)
    ensures
        file_glob_args(JsonView::Array(seq![v0, v1])) == file_glob_args(
            JsonView::Object(seq![("patterns"@, v0), ("path"@, v1)]),
        ),
{
    reveal_strlit("patterns");
    reveal_strlit("path");
    assert("patterns"@.len() != "path"@.len());
    let members = seq![("patterns"@, v0), ("path"@, v1)];
    let list = JsonView::Array(seq![v0, v1]);
    lemma_last_member_counts(members, 0);
    assert(field(list, 0, "patterns"@) == field(JsonView::Object(members), 0, "patterns"@));
    lemma_last_member_counts(members, 1);
    assert(field(list, 1, "path"@) == field(JsonView::Object(members), 1, "path"@));
}

/// `file_glob_v2_args`: `patterns`, `search_dir`, `max_matches`, `max_depth`, `min_depth`.
pub proof fn lemma_file_glob_v2_args_comes_as_list(
    v0: JsonView,
    v1: JsonView,
    v2: JsonView,
    v3: JsonView,
    v4: JsonView,
)
    ensures
        file_glob_v2_args(JsonView::Array(seq![v0, v1, v2, v3, v4])) == file_glob_v2_args(
            JsonView::Object(
                seq![
                    ("patterns"@, v0),
                    ("search_dir"@, v1),
                    ("max_matches"@, v2),
                    ("max_depth"@, v3),
                    ("min_depth"@, v4),
                ]
            ),
        ),
{
    reveal_strlit("patterns");
    reveal_strlit("search_dir");
    reveal_strlit("max_matches");
    reveal_strlit("max_depth");
    reveal_strlit("min_depth");
    assert("patterns"@.len() != "search_dir"@.len());
    assert("patterns"@.len() != "max_matches"@.len());
    assert("patterns"@.len() != "max_depth"@.len());
    assert("patterns"@.len() != "min_depth"@.len());
    assert("search_dir"@.len() != "max_matches"@.len());
    assert("search_dir"@.len() != "max_depth"@.len());
    assert("search_dir"@.len() != "min_depth"@.len());
    assert("max_matches"@.len() != "max_depth"@.len());
    assert("max_matches"@.len() != "min_depth"@.len());
    assert("max_depth"@[1] != "min_depth"@[1]);
    let members = seq![
        ("patterns"@, v0),
        ("search_dir"@, v1),
        ("max_matches"@, v2),
        ("max_depth"@, v3),
        ("min_depth"@, v4),
    ];
    let list = JsonView::Array(seq![v0, v1, v2, v3, v4]);
    lemma_last_member_counts(members, 0);
    assert(field(list, 0, "patterns"@) == field(JsonView::Object(members), 0, "patterns"@));
    lemma_last_member_counts(members, 1);
    assert(field(list, 1, "search_dir"@) == field(JsonView::Object(members), 1, "search_dir"@));
    lemma_last_member_counts(members, 2);
    assert(field(list, 2, "max_matches"@) == field(JsonView::Object(members), 2, "max_matches"@));
    lemma_last_member_counts(members, 3);
    assert(field(list, 3, "max_depth"@) == field(JsonView::Object(members), 3, "max_depth"@));
    lemma_last_member_counts(members, 4);
    assert(field(list, 4, "min_depth"@) == field(JsonView::Object(members), 4, "min_depth"@));
}

/// `read_skill_args`: `skill_path`, `bundled_skill_id`, `name`.
pub proof fn lemma_read_skill_args_comes_as_list(v0: JsonView, v1: JsonView, v2: JsonView)
    ensures
        read_skill_args(JsonView::Array(seq![v0, v1, v2])) == read_skill_args(
            JsonView::Object(seq![("skill_path"@, v0), ("bundled_skill_id"@, v1), ("name"@, v2)]),
        ),
{
    reveal_strlit("skill_path");
    reveal_strlit("bundled_skill_id");
    reveal_strlit("name");
    assert("skill_path"@.len() != "bundled_skill_id"@.len());
    assert("skill_path"@.len() != "name"@.len());
    assert("bundled_skill_id"@.len() != "name"@.len());
    let members = seq![("skill_path"@, v0), ("bundled_skill_id"@, v1), ("name"@, v2)];
    let list = JsonView::Array(seq![v0, v1, v2]);
    lemma_last_member_counts(members, 0);
    assert(field(list, 0, "skill_path"@) == field(JsonView::Object(members), 0, "skill_path"@));
    lemma_last_member_counts(members, 1);
    assert(
        field(list, 1, "bundled_skill_id"@) == field(
            JsonView::Object(members),
            1,
            "bundled_skill_id"@,
        )
    );
    lemma_last_member_counts(members, 2);
    assert(field(list, 2, "name"@) == field(JsonView::Object(members), 2, "name"@));
}

/// `ask_user_question_arg`: `question_id`, `question`, `options`, `recommended_option_index`,
/// `is_multiselect`, `supports_other`.
pub proof fn lemma_ask_user_question_arg_comes_as_list(
    v0: JsonView,
    v1: JsonView,
    v2: JsonView,
    v3: JsonView,
    v4: JsonView,
    v5: JsonView,
)
    ensures
        ask_user_question_arg(
            JsonView::Array(seq![v0, v1, v2, v3, v4, v5])
        ) == ask_user_question_arg(
            JsonView::Object(
                seq![
                    ("question_id"@, v0),
                    ("question"@, v1),
                    ("options"@, v2),
                    ("recommended_option_index"@, v3),
                    ("is_multiselect"@, v4),
                    ("supports_other"@, v5),
                ]
            ),
        ),
{
    reveal_strlit("question_id");
    reveal_strlit("question");
    reveal_strlit("options");
    reveal_strlit("recommended_option_index");
    reveal_strlit("is_multiselect");
    reveal_strlit("supports_other");
    assert("question_id"@.len() != "question"@.len());
    assert("question_id"@.len() != "options"@.len());
    assert("question_id"@.len() != "recommended_option_index"@.len());
    assert("question_id"@.len() != "is_multiselect"@.len());
    assert("question_id"@.len() != "supports_other"@.len());
    assert("question"@.len() != "options"@.len());
    assert("question"@.len() != "recommended_option_index"@.len());
    assert("question"@.len() != "is_multiselect"@.len());
    assert("question"@.len() != "supports_other"@.len());
    assert("options"@.len() != "recommended_option_index"@.len());
    assert("options"@.len() != "is_multiselect"@.len());
    assert("options"@.len() != "supports_other"@.len());
    assert("recommended_option_index"@.len() != "is_multiselect"@.len());
    assert("recommended_option_index"@.len() != "supports_other"@.len());
    assert("is_multiselect"@[0] != "supports_other"@[0]);
    let members = seq![
        ("question_id"@, v0),
        ("question"@, v1),
        ("options"@, v2),
        ("recommended_option_index"@, v3),
        ("is_multiselect"@, v4),
        ("supports_other"@, v5),
    ];
    let list = JsonView::Array(seq![v0, v1, v2, v3, v4, v5]);
    lemma_last_member_counts(members, 0);
    assert(field(list, 0, "question_id"@) == field(JsonView::Object(members), 0, "question_id"@));
    lemma_last_member_counts(members, 1);
    assert(field(list, 1, "question"@) == field(JsonView::Object(members), 1, "question"@));
    lemma_last_member_counts(members, 2);
    assert(field(list, 2, "options"@) == field(JsonView::Object(members), 2, "options"@));
    lemma_last_member_counts(members, 3);
    assert(
        field(list, 3, "recommended_option_index"@) == field(
            JsonView::Object(members),
            3,
            "recommended_option_index"@,
        )
    );
    lemma_last_member_counts(members, 4);
    assert(
        field(list, 4, "is_multiselect"@) == field(JsonView::Object(members), 4, "is_multiselect"@)
    );
    lemma_last_member_counts(members, 5);
    assert(
        field(list, 5, "supports_other"@) == field(JsonView::Object(members), 5, "supports_other"@)
    );
}

/// `ask_user_question_args`: `questions`.
pub proof fn lemma_ask_user_question_args_comes_as_list(v0: JsonView)
    ensures
        ask_user_question_args(JsonView::Array(seq![v0])) == ask_user_question_args(
            JsonView::Object(seq![("questions"@, v0)]),
        ),
{
    reveal_strlit("questions");
    let members = seq![("questions"@, v0)];
    let list = JsonView::Array(seq![v0]);
    lemma_last_member_counts(members, 0);
    assert(field(list, 0, "questions"@) == field(JsonView::Object(members), 0, "questions"@));
}

/// `file_diff_args`: `file_path`, `search`, `replace`.
pub proof fn lemma_file_diff_args_comes_as_list(v0: JsonView, v1: JsonView, v2: JsonView)
    ensures
        file_diff_args(JsonView::Array(seq![v0, v1, v2])) == file_diff_args(
            JsonView::Object(seq![("file_path"@, v0), ("search"@, v1), ("replace"@, v2)]),
        ),
{
    reveal_strlit("file_path");
    reveal_strlit("search");
    reveal_strlit("replace");
    assert("file_path"@.len() != "search"@.len());
    assert("file_path"@.len() != "replace"@.len());
    assert("search"@.len() != "replace"@.len());
    let members = seq![("file_path"@, v0), ("search"@, v1), ("replace"@, v2)];
    let list = JsonView::Array(seq![v0, v1, v2]);
    lemma_last_member_counts(members, 0);
    assert(field(list, 0, "file_path"@) == field(JsonView::Object(members), 0, "file_path"@));
    lemma_last_member_counts(members, 1);
    assert(field(list, 1, "search"@) == field(JsonView::Object(members), 1, "search"@));
    lemma_last_member_counts(members, 2);
    assert(field(list, 2, "replace"@) == field(JsonView::Object(members), 2, "replace"@));
}

/// `new_file_args`: `file_path`, `content`.
pub proof fn lemma_new_file_args_comes_as_list(v0: JsonView, v1: JsonView)
    ensures
        new_file_args(JsonView::Array(seq![v0, v1])) == new_file_args(
            JsonView::Object(seq![("file_path"@, v0), ("content"@, v1)]),
        ),
{
    reveal_strlit("file_path");
    reveal_strlit("content");
    assert("file_path"@.len() != "content"@.len());
    let members = seq![("file_path"@, v0), ("content"@, v1)];
    let list = JsonView::Array(seq![v0, v1]);
    lemma_last_member_counts(members, 0);
    assert(field(list, 0, "file_path"@) == field(JsonView::Object(members), 0, "file_path"@));
    lemma_last_member_counts(members, 1);
    assert(field(list, 1, "content"@) == field(JsonView::Object(members), 1, "content"@));
}

/// `deleted_file_args`: `file_path`.
pub proof fn lemma_deleted_file_args_comes_as_list(v0: JsonView)
    ensures
        deleted_file_args(JsonView::Array(seq![v0])) == deleted_file_args(
            JsonView::Object(seq![("file_path"@, v0)]),
        ),
{
    reveal_strlit("file_path");
    let members = seq![("file_path"@, v0)];
    let list = JsonView::Array(seq![v0]);
    lemma_last_member_counts(members, 0);
    assert(field(list, 0, "file_path"@) == field(JsonView::Object(members), 0, "file_path"@));
}

/// `v4a_hunk_args`: `change_context`, `pre_context`, `old`, `new`, `post_context`.
pub proof fn lemma_v4a_hunk_args_comes_as_list(
    v0: JsonView,
    v1: JsonView,
    v2: JsonView,
    v3: JsonView,
    v4: JsonView,
)
    ensures
        v4a_hunk_args(JsonView::Array(seq![v0, v1, v2, v3, v4])) == v4a_hunk_args(
            JsonView::Object(
                seq![
                    ("change_context"@, v0),
                    ("pre_context"@, v1),
                    ("old"@, v2),
                    ("new"@, v3),
                    ("post_context"@, v4),
                ]
            ),
        ),
{
    reveal_strlit("change_context");
    reveal_strlit("pre_context");
    reveal_strlit("old");
    reveal_strlit("new");
    reveal_strlit("post_context");
    assert("change_context"@.len() != "pre_context"@.len());
    assert("change_context"@.len() != "old"@.len());
    assert("change_context"@.len() != "new"@.len());
    assert("change_context"@.len() != "post_context"@.len());
    assert("pre_context"@.len() != "old"@.len());
    assert("pre_context"@.len() != "new"@.len());
    assert("pre_context"@.len() != "post_context"@.len());
    assert("old"@[0] != "new"@[0]);
    assert("old"@.len() != "post_context"@.len());
    assert("new"@.len() != "post_context"@.len());
    let members = seq![
        ("change_context"@, v0),
        ("pre_context"@, v1),
        ("old"@, v2),
        ("new"@, v3),
        ("post_context"@, v4),
    ];
    let list = JsonView::Array(seq![v0, v1, v2, v3, v4]);
    lemma_last_member_counts(members, 0);
    assert(
        field(list, 0, "change_context"@) == field(JsonView::Object(members), 0, "change_context"@)
    );
    lemma_last_member_counts(members, 1);
    assert(field(list, 1, "pre_context"@) == field(JsonView::Object(members), 1, "pre_context"@));
    lemma_last_member_counts(members, 2);
    assert(field(list, 2, "old"@) == field(JsonView::Object(members), 2, "old"@));
    lemma_last_member_counts(members, 3);
    assert(field(list, 3, "new"@) == field(JsonView::Object(members), 3, "new"@));
    lemma_last_member_counts(members, 4);
    assert(field(list, 4, "post_context"@) == field(JsonView::Object(members), 4, "post_context"@));
}

/// `v4a_update_args`: `file_path`, `move_to`, `hunks`.
pub proof fn lemma_v4a_update_args_comes_as_list(v0: JsonView, v1: JsonView, v2: JsonView)
    ensures
        v4a_update_args(JsonView::Array(seq![v0, v1, v2])) == v4a_update_args(
            JsonView::Object(seq![("file_path"@, v0), ("move_to"@, v1), ("hunks"@, v2)]),
        ),
{
    reveal_strlit("file_path");
    reveal_strlit("move_to");
    reveal_strlit("hunks");
    assert("file_path"@.len() != "move_to"@.len());
    assert("file_path"@.len() != "hunks"@.len());
    assert("move_to"@.len() != "hunks"@.len());
    let members = seq![("file_path"@, v0), ("move_to"@, v1), ("hunks"@, v2)];
    let list = JsonView::Array(seq![v0, v1, v2]);
    lemma_last_member_counts(members, 0);
    assert(field(list, 0, "file_path"@) == field(JsonView::Object(members), 0, "file_path"@));
    lemma_last_member_counts(members, 1);
    assert(field(list, 1, "move_to"@) == field(JsonView::Object(members), 1, "move_to"@));
    lemma_last_member_counts(members, 2);
    assert(field(list, 2, "hunks"@) == field(JsonView::Object(members), 2, "hunks"@));
}

/// `apply_file_diffs_args`: `summary`, `diffs`, `new_files`, `deleted_files`, `v4a_updates`.
pub proof fn lemma_apply_file_diffs_args_comes_as_list(
    v0: JsonView,
    v1: JsonView,
    v2: JsonView,
    v3: JsonView,
    v4: JsonView,
)
    ensures
        apply_file_diffs_args(JsonView::Array(seq![v0, v1, v2, v3, v4])) == apply_file_diffs_args(
            JsonView::Object(
                seq![
                    ("summary"@, v0),
                    ("diffs"@, v1),
                    ("new_files"@, v2),
                    ("deleted_files"@, v3),
                    ("v4a_updates"@, v4),
                ]
            ),
        ),
{
    reveal_strlit("summary");
    reveal_strlit("diffs");
    reveal_strlit("new_files");
    reveal_strlit("deleted_files");
    reveal_strlit("v4a_updates");
    assert("summary"@.len() != "diffs"@.len());
    assert("summary"@.len() != "new_files"@.len());
    assert("summary"@.len() != "deleted_files"@.len());
    assert("summary"@.len() != "v4a_updates"@.len());
    assert("diffs"@.len() != "new_files"@.len());
    assert("diffs"@.len() != "deleted_files"@.len());
    assert("diffs"@.len() != "v4a_updates"@.len());
    assert("new_files"@.len() != "deleted_files"@.len());
    assert("new_files"@.len() != "v4a_updates"@.len());
    assert("deleted_files"@.len() != "v4a_updates"@.len());
    let members = seq![
        ("summary"@, v0),
        ("diffs"@, v1),
        ("new_files"@, v2),
        ("deleted_files"@, v3),
        ("v4a_updates"@, v4),
    ];
    let list = JsonView::Array(seq![v0, v1, v2, v3, v4]);
    lemma_last_member_counts(members, 0);
    assert(field(list, 0, "summary"@) == field(JsonView::Object(members), 0, "summary"@));
    lemma_last_member_counts(members, 1);
    assert(field(list, 1, "diffs"@) == field(JsonView::Object(members), 1, "diffs"@));
    lemma_last_member_counts(members, 2);
    assert(field(list, 2, "new_files"@) == field(JsonView::Object(members), 2, "new_files"@));
    lemma_last_member_counts(members, 3);
    assert(
        field(list, 3, "deleted_files"@) == field(JsonView::Object(members), 3, "deleted_files"@)
    );
    lemma_last_member_counts(members, 4);
    assert(field(list, 4, "v4a_updates"@) == field(JsonView::Object(members), 4, "v4a_updates"@));
}

/// `suggest_prompt_args`: `prompt`, `label`, `mode`, `title`, `description`,
/// `is_trigger_irrelevant`.
pub proof fn lemma_suggest_prompt_args_comes_as_list(
    v0: JsonView,
    v1: JsonView,
    v2: JsonView,
    v3: JsonView,
    v4: JsonView,
    v5: JsonView,
)
    ensures
        suggest_prompt_args(JsonView::Array(seq![v0, v1, v2, v3, v4, v5])) == suggest_prompt_args(
            JsonView::Object(
                seq![
                    ("prompt"@, v0),
                    ("label"@, v1),
                    ("mode"@, v2),
                    ("title"@, v3),
                    ("description"@, v4),
                    ("is_trigger_irrelevant"@, v5),
                ]
            ),
        ),
{
    reveal_strlit("prompt");
    reveal_strlit("label");
    reveal_strlit("mode");
    reveal_strlit("title");
    reveal_strlit("description");
    reveal_strlit("is_trigger_irrelevant");
    assert("prompt"@.len() != "label"@.len());
    assert("prompt"@.len() != "mode"@.len());
    assert("prompt"@.len() != "title"@.len());
    assert("prompt"@.len() != "description"@.len());
    assert("prompt"@.len() != "is_trigger_irrelevant"@.len());
    assert("label"@.len() != "mode"@.len());
    assert("label"@[0] != "title"@[0]);
    assert("label"@.len() != "description"@.len());
    assert("label"@.len() != "is_trigger_irrelevant"@.len());
    assert("mode"@.len() != "title"@.len());
    assert("mode"@.len() != "description"@.len());
    assert("mode"@.len() != "is_trigger_irrelevant"@.len());
    assert("title"@.len() != "description"@.len());
    assert("title"@.len() != "is_trigger_irrelevant"@.len());
    assert("description"@.len() != "is_trigger_irrelevant"@.len());
    let members = seq![
        ("prompt"@, v0),
        ("label"@, v1),
        ("mode"@, v2),
        ("title"@, v3),
        ("description"@, v4),
        ("is_trigger_irrelevant"@, v5),
    ];
    let list = JsonView::Array(seq![v0, v1, v2, v3, v4, v5]);
    lemma_last_member_counts(members, 0);
    assert(field(list, 0, "prompt"@) == field(JsonView::Object(members), 0, "prompt"@));
    lemma_last_member_counts(members, 1);
    assert(field(list, 1, "label"@) == field(JsonView::Object(members), 1, "label"@));
    lemma_last_member_counts(members, 2);
    assert(field(list, 2, "mode"@) == field(JsonView::Object(members), 2, "mode"@));
    lemma_last_member_counts(members, 3);
    assert(field(list, 3, "title"@) == field(JsonView::Object(members), 3, "title"@));
    lemma_last_member_counts(members, 4);
    assert(field(list, 4, "description"@) == field(JsonView::Object(members), 4, "description"@));
    lemma_last_member_counts(members, 5);
    assert(
        field(list, 5, "is_trigger_irrelevant"@) == field(
            JsonView::Object(members),
            5,
            "is_trigger_irrelevant"@,
        )
    );
}

/// `suggest_rule_args`: `name`, `content`, `logging_id`.
pub proof fn lemma_suggest_rule_args_comes_as_list(v0: JsonView, v1: JsonView, v2: JsonView)
    ensures
        suggest_rule_args(JsonView::Array(seq![v0, v1, v2])) == suggest_rule_args(
            JsonView::Object(seq![("name"@, v0), ("content"@, v1), ("logging_id"@, v2)]),
        ),
{
    reveal_strlit("name");
    reveal_strlit("content");
    reveal_strlit("logging_id");
    assert("name"@.len() != "content"@.len());
    assert("name"@.len() != "logging_id"@.len());
    assert("content"@.len() != "logging_id"@.len());
    let members = seq![("name"@, v0), ("content"@, v1), ("logging_id"@, v2)];
    let list = JsonView::Array(seq![v0, v1, v2]);
    lemma_last_member_counts(members, 0);
    assert(field(list, 0, "name"@) == field(JsonView::Object(members), 0, "name"@));
    lemma_last_member_counts(members, 1);
    assert(field(list, 1, "content"@) == field(JsonView::Object(members), 1, "content"@));
    lemma_last_member_counts(members, 2);
    assert(field(list, 2, "logging_id"@) == field(JsonView::Object(members), 2, "logging_id"@));
}

/// `function_delta`: `name`, `arguments`.
pub proof fn lemma_function_delta_comes_as_list(v0: JsonView, v1: JsonView)
    ensures
        function_delta(JsonView::Array(seq![v0, v1])) == function_delta(
            JsonView::Object(seq![("name"@, v0), ("arguments"@, v1)]),
        ),
{
    reveal_strlit("name");
    reveal_strlit("arguments");
    assert("name"@.len() != "arguments"@.len());
    let members = seq![("name"@, v0), ("arguments"@, v1)];
    let list = JsonView::Array(seq![v0, v1]);
    lemma_last_member_counts(members, 0);
    assert(field(list, 0, "name"@) == field(JsonView::Object(members), 0, "name"@));
    lemma_last_member_counts(members, 1);
    assert(field(list, 1, "arguments"@) == field(JsonView::Object(members), 1, "arguments"@));
}

/// `tool_call_delta`: `index`, `id`, `type`, `function`.
pub proof fn lemma_tool_call_delta_comes_as_list(
    v0: JsonView,
    v1: JsonView,
    v2: JsonView,
    v3: JsonView,
)
    ensures
        tool_call_delta(JsonView::Array(seq![v0, v1, v2, v3])) == tool_call_delta(
            JsonView::Object(seq![("index"@, v0), ("id"@, v1), ("type"@, v2), ("function"@, v3)]),
        ),
{
    reveal_strlit("index");
    reveal_strlit("id");
    reveal_strlit("type");
    reveal_strlit("function");
    assert("index"@.len() != "id"@.len());
    assert("index"@.len() != "type"@.len());
    assert("index"@.len() != "function"@.len());
    assert("id"@.len() != "type"@.len());
    assert("id"@.len() != "function"@.len());
    assert("type"@.len() != "function"@.len());
    let members = seq![("index"@, v0), ("id"@, v1), ("type"@, v2), ("function"@, v3)];
    let list = JsonView::Array(seq![v0, v1, v2, v3]);
    lemma_last_member_counts(members, 0);
    assert(field(list, 0, "index"@) == field(JsonView::Object(members), 0, "index"@));
    lemma_last_member_counts(members, 1);
    assert(field(list, 1, "id"@) == field(JsonView::Object(members), 1, "id"@));
    lemma_last_member_counts(members, 2);
    assert(field(list, 2, "type"@) == field(JsonView::Object(members), 2, "type"@));
    lemma_last_member_counts(members, 3);
    assert(field(list, 3, "function"@) == field(JsonView::Object(members), 3, "function"@));
}

/// `chat_delta`: `content`, `reasoning_content`, `tool_calls`.
pub proof fn lemma_chat_delta_comes_as_list(v0: JsonView, v1: JsonView, v2: JsonView)
    ensures
        chat_delta(JsonView::Array(seq![v0, v1, v2])) == chat_delta(
            JsonView::Object(
                seq![("content"@, v0), ("reasoning_content"@, v1), ("tool_calls"@, v2)]
            ),
        ),
{
    reveal_strlit("content");
    reveal_strlit("reasoning_content");
    reveal_strlit("tool_calls");
    assert("content"@.len() != "reasoning_content"@.len());
    assert("content"@.len() != "tool_calls"@.len());
    assert("reasoning_content"@.len() != "tool_calls"@.len());
    let members = seq![("content"@, v0), ("reasoning_content"@, v1), ("tool_calls"@, v2)];
    let list = JsonView::Array(seq![v0, v1, v2]);
    lemma_last_member_counts(members, 0);
    assert(field(list, 0, "content"@) == field(JsonView::Object(members), 0, "content"@));
    lemma_last_member_counts(members, 1);
    assert(
        field(list, 1, "reasoning_content"@) == field(
            JsonView::Object(members),
            1,
            "reasoning_content"@,
        )
    );
    lemma_last_member_counts(members, 2);
    assert(field(list, 2, "tool_calls"@) == field(JsonView::Object(members), 2, "tool_calls"@));
}

/// `chunk_choice`: `delta`.
pub proof fn lemma_chunk_choice_comes_as_list(v0: JsonView)
    ensures
        chunk_choice(JsonView::Array(seq![v0])) == chunk_choice(
            JsonView::Object(seq![("delta"@, v0)]),
        ),
{
    reveal_strlit("delta");
    let members = seq![("delta"@, v0)];
    let list = JsonView::Array(seq![v0]);
    lemma_last_member_counts(members, 0);
    assert(field(list, 0, "delta"@) == field(JsonView::Object(members), 0, "delta"@));
}

/// `chat_chunk`: `choices`.
pub proof fn lemma_chat_chunk_comes_as_list(v0: JsonView)
    ensures
        chat_chunk(JsonView::Array(seq![v0])) == chat_chunk(
            JsonView::Object(seq![("choices"@, v0)]),
        ),
{
    reveal_strlit("choices");
    let members = seq![("choices"@, v0)];
    let list = JsonView::Array(seq![v0]);
    lemma_last_member_counts(members, 0);
    assert(field(list, 0, "choices"@) == field(JsonView::Object(members), 0, "choices"@));
}

/// `function_call`: `name`, `arguments`.
pub proof fn lemma_function_call_comes_as_list(v0: JsonView, v1: JsonView)
    ensures
        function_call(JsonView::Array(seq![v0, v1])) == function_call(
            JsonView::Object(seq![("name"@, v0), ("arguments"@, v1)]),
        ),
{
    reveal_strlit("name");
    reveal_strlit("arguments");
    assert("name"@.len() != "arguments"@.len());
    let members = seq![("name"@, v0), ("arguments"@, v1)];
    let list = JsonView::Array(seq![v0, v1]);
    lemma_last_member_counts(members, 0);
    assert(field(list, 0, "name"@) == field(JsonView::Object(members), 0, "name"@));
    lemma_last_member_counts(members, 1);
    assert(field(list, 1, "arguments"@) == field(JsonView::Object(members), 1, "arguments"@));
}

/// `message_tool_call`: `id`, `type`, `function`.
pub proof fn lemma_message_tool_call_comes_as_list(v0: JsonView, v1: JsonView, v2: JsonView)
    ensures
        message_tool_call(JsonView::Array(seq![v0, v1, v2])) == message_tool_call(
            JsonView::Object(seq![("id"@, v0), ("type"@, v1), ("function"@, v2)]),
        ),
{
    reveal_strlit("id");
    reveal_strlit("type");
    reveal_strlit("function");
    assert("id"@.len() != "type"@.len());
    assert("id"@.len() != "function"@.len());
    assert("type"@.len() != "function"@.len());
    let members = seq![("id"@, v0), ("type"@, v1), ("function"@, v2)];
    let list = JsonView::Array(seq![v0, v1, v2]);
    lemma_last_member_counts(members, 0);
    assert(field(list, 0, "id"@) == field(JsonView::Object(members), 0, "id"@));
    lemma_last_member_counts(members, 1);
    assert(field(list, 1, "type"@) == field(JsonView::Object(members), 1, "type"@));
    lemma_last_member_counts(members, 2);
    assert(field(list, 2, "function"@) == field(JsonView::Object(members), 2, "function"@));
}

/// `response_message`: `content`, `tool_calls`.
pub proof fn lemma_response_message_comes_as_list(v0: JsonView, v1: JsonView)
    ensures
        response_message(JsonView::Array(seq![v0, v1])) == response_message(
            JsonView::Object(seq![("content"@, v0), ("tool_calls"@, v1)]),
        ),
{
    reveal_strlit("content");
    reveal_strlit("tool_calls");
    assert("content"@.len() != "tool_calls"@.len());
    let members = seq![("content"@, v0), ("tool_calls"@, v1)];
    let list = JsonView::Array(seq![v0, v1]);
    lemma_last_member_counts(members, 0);
    assert(field(list, 0, "content"@) == field(JsonView::Object(members), 0, "content"@));
    lemma_last_member_counts(members, 1);
    assert(field(list, 1, "tool_calls"@) == field(JsonView::Object(members), 1, "tool_calls"@));
}

/// `response_choice`: `message`.
pub proof fn lemma_response_choice_comes_as_list(v0: JsonView)
    ensures
        response_choice(JsonView::Array(seq![v0])) == response_choice(
            JsonView::Object(seq![("message"@, v0)]),
        ),
{
    reveal_strlit("message");
    let members = seq![("message"@, v0)];
    let list = JsonView::Array(seq![v0]);
    lemma_last_member_counts(members, 0);
    assert(field(list, 0, "message"@) == field(JsonView::Object(members), 0, "message"@));
}

/// `chat_response`: `choices`.
pub proof fn lemma_chat_response_comes_as_list(v0: JsonView)
    ensures
        chat_response(JsonView::Array(seq![v0])) == chat_response(
            JsonView::Object(seq![("choices"@, v0)]),
        ),
{
    reveal_strlit("choices");
    let members = seq![("choices"@, v0)];
    let list = JsonView::Array(seq![v0]);
    lemma_last_member_counts(members, 0);
    assert(field(list, 0, "choices"@) == field(JsonView::Object(members), 0, "choices"@));
}

/// `input_suggestions_request`: `context_messages`, `history_context`, `system_context`,
/// `rejected_suggestions`, `prefix`, `block_context`, `previous_result`.
pub proof fn lemma_input_suggestions_request_comes_as_list(
    v0: JsonView,
    v1: JsonView,
    v2: JsonView,
    v3: JsonView,
    v4: JsonView,
    v5: JsonView,
    v6: JsonView,
)
    ensures
        input_suggestions_request(
            JsonView::Array(seq![v0, v1, v2, v3, v4, v5, v6])
        ) == input_suggestions_request(
            JsonView::Object(
                seq![
                    ("context_messages"@, v0),
                    ("history_context"@, v1),
                    ("system_context"@, v2),
                    ("rejected_suggestions"@, v3),
                    ("prefix"@, v4),
                    ("block_context"@, v5),
                    ("previous_result"@, v6),
                ]
            ),
        ),
{
    reveal_strlit("context_messages");
    reveal_strlit("history_context");
    reveal_strlit("system_context");
    reveal_strlit("rejected_suggestions");
    reveal_strlit("prefix");
    reveal_strlit("block_context");
    reveal_strlit("previous_result");
    assert("context_messages"@.len() != "history_context"@.len());
    assert("context_messages"@.len() != "system_context"@.len());
    assert("context_messages"@.len() != "rejected_suggestions"@.len());
    assert("context_messages"@.len() != "prefix"@.len());
    assert("context_messages"@.len() != "block_context"@.len());
    assert("context_messages"@.len() != "previous_result"@.len());
    assert("history_context"@.len() != "system_context"@.len());
    assert("history_context"@.len() != "rejected_suggestions"@.len());
    assert("history_context"@.len() != "prefix"@.len());
    assert("history_context"@.len() != "block_context"@.len());
    assert("history_context"@[0] != "previous_result"@[0]);
    assert("system_context"@.len() != "rejected_suggestions"@.len());
    assert("system_context"@.len() != "prefix"@.len());
    assert("system_context"@.len() != "block_context"@.len());
    assert("system_context"@.len() != "previous_result"@.len());
    assert("rejected_suggestions"@.len() != "prefix"@.len());
    assert("rejected_suggestions"@.len() != "block_context"@.len());
    assert("rejected_suggestions"@.len() != "previous_result"@.len());
    assert("prefix"@.len() != "block_context"@.len());
    assert("prefix"@.len() != "previous_result"@.len());
    assert("block_context"@.len() != "previous_result"@.len());
    let members = seq![
        ("context_messages"@, v0),
        ("history_context"@, v1),
        ("system_context"@, v2),
        ("rejected_suggestions"@, v3),
        ("prefix"@, v4),
        ("block_context"@, v5),
        ("previous_result"@, v6),
    ];
    let list = JsonView::Array(seq![v0, v1, v2, v3, v4, v5, v6]);
    lemma_last_member_counts(members, 0);
    assert(
        field(list, 0, "context_messages"@) == field(
            JsonView::Object(members),
            0,
            "context_messages"@,
        )
    );
    lemma_last_member_counts(members, 1);
    assert(
        field(list, 1, "history_context"@) == field(
            JsonView::Object(members),
            1,
            "history_context"@,
        )
    );
    lemma_last_member_counts(members, 2);
    assert(
        field(list, 2, "system_context"@) == field(JsonView::Object(members), 2, "system_context"@)
    );
    lemma_last_member_counts(members, 3);
    assert(
        field(list, 3, "rejected_suggestions"@) == field(
            JsonView::Object(members),
            3,
            "rejected_suggestions"@,
        )
    );
    lemma_last_member_counts(members, 4);
    assert(field(list, 4, "prefix"@) == field(JsonView::Object(members), 4, "prefix"@));
    lemma_last_member_counts(members, 5);
    assert(
        field(list, 5, "block_context"@) == field(JsonView::Object(members), 5, "block_context"@)
    );
    lemma_last_member_counts(members, 6);
    assert(
        field(list, 6, "previous_result"@) == field(
            JsonView::Object(members),
            6,
            "previous_result"@,
        )
    );
}

/// `am_query_suggestions_request`: `context_messages`, `system_context`, `exit_code`.
pub proof fn lemma_am_query_suggestions_request_comes_as_list(
    v0: JsonView,
    v1: JsonView,
    v2: JsonView,
)
    ensures
        am_query_suggestions_request(
            JsonView::Array(seq![v0, v1, v2])
        ) == am_query_suggestions_request(
            JsonView::Object(
                seq![("context_messages"@, v0), ("system_context"@, v1), ("exit_code"@, v2)]
            ),
        ),
{
    reveal_strlit("context_messages");
    reveal_strlit("system_context");
    reveal_strlit("exit_code");
    assert("context_messages"@.len() != "system_context"@.len());
    assert("context_messages"@.len() != "exit_code"@.len());
    assert("system_context"@.len() != "exit_code"@.len());
    let members = seq![("context_messages"@, v0), ("system_context"@, v1), ("exit_code"@, v2)];
    let list = JsonView::Array(seq![v0, v1, v2]);
    lemma_last_member_counts(members, 0);
    assert(
        field(list, 0, "context_messages"@) == field(
            JsonView::Object(members),
            0,
            "context_messages"@,
        )
    );
    lemma_last_member_counts(members, 1);
    assert(
        field(list, 1, "system_context"@) == field(JsonView::Object(members), 1, "system_context"@)
    );
    lemma_last_member_counts(members, 2);
    assert(field(list, 2, "exit_code"@) == field(JsonView::Object(members), 2, "exit_code"@));
}

/// `predict_am_queries_request`: `context_messages`, `partial_query`, `system_context`.
pub proof fn lemma_predict_am_queries_request_comes_as_list(
    v0: JsonView,
    v1: JsonView,
    v2: JsonView,
)
    ensures
        predict_am_queries_request(JsonView::Array(seq![v0, v1, v2])) == predict_am_queries_request(
            JsonView::Object(
                seq![("context_messages"@, v0), ("partial_query"@, v1), ("system_context"@, v2)]
            ),
        ),
{
    reveal_strlit("context_messages");
    reveal_strlit("partial_query");
    reveal_strlit("system_context");
    assert("context_messages"@.len() != "partial_query"@.len());
    assert("context_messages"@.len() != "system_context"@.len());
    assert("partial_query"@.len() != "system_context"@.len());
    let members = seq![("context_messages"@, v0), ("partial_query"@, v1), ("system_context"@, v2)];
    let list = JsonView::Array(seq![v0, v1, v2]);
    lemma_last_member_counts(members, 0);
    assert(
        field(list, 0, "context_messages"@) == field(
            JsonView::Object(members),
            0,
            "context_messages"@,
        )
    );
    lemma_last_member_counts(members, 1);
    assert(
        field(list, 1, "partial_query"@) == field(JsonView::Object(members), 1, "partial_query"@)
    );
    lemma_last_member_counts(members, 2);
    assert(
        field(list, 2, "system_context"@) == field(JsonView::Object(members), 2, "system_context"@)
    );
}

/// `relevant_file_context`: `path`, `symbols`.
pub proof fn lemma_relevant_file_context_comes_as_list(v0: JsonView, v1: JsonView)
    ensures
        relevant_file_context(JsonView::Array(seq![v0, v1])) == relevant_file_context(
            JsonView::Object(seq![("path"@, v0), ("symbols"@, v1)]),
        ),
{
    reveal_strlit("path");
    reveal_strlit("symbols");
    assert("path"@.len() != "symbols"@.len());
    let members = seq![("path"@, v0), ("symbols"@, v1)];
    let list = JsonView::Array(seq![v0, v1]);
    lemma_last_member_counts(members, 0);
    assert(field(list, 0, "path"@) == field(JsonView::Object(members), 0, "path"@));
    lemma_last_member_counts(members, 1);
    assert(field(list, 1, "symbols"@) == field(JsonView::Object(members), 1, "symbols"@));
}

/// `relevant_files_request`: `query`, `files`.
pub proof fn lemma_relevant_files_request_comes_as_list(v0: JsonView, v1: JsonView)
    ensures
        relevant_files_request(JsonView::Array(seq![v0, v1])) == relevant_files_request(
            JsonView::Object(seq![("query"@, v0), ("files"@, v1)]),
        ),
{
    reveal_strlit("query");
    reveal_strlit("files");
    assert("query"@[0] != "files"@[0]);
    let members = seq![("query"@, v0), ("files"@, v1)];
    let list = JsonView::Array(seq![v0, v1]);
    lemma_last_member_counts(members, 0);
    assert(field(list, 0, "query"@) == field(JsonView::Object(members), 0, "query"@));
    lemma_last_member_counts(members, 1);
    assert(field(list, 1, "files"@) == field(JsonView::Object(members), 1, "files"@));
}

/// `block_title_request`: `command`, `output`.
pub proof fn lemma_block_title_request_comes_as_list(v0: JsonView, v1: JsonView)
    ensures
        block_title_request(JsonView::Array(seq![v0, v1])) == block_title_request(
            JsonView::Object(seq![("command"@, v0), ("output"@, v1)]),
        ),
{
    reveal_strlit("command");
    reveal_strlit("output");
    assert("command"@.len() != "output"@.len());
    let members = seq![("command"@, v0), ("output"@, v1)];
    let list = JsonView::Array(seq![v0, v1]);
    lemma_last_member_counts(members, 0);
    assert(field(list, 0, "command"@) == field(JsonView::Object(members), 0, "command"@));
    lemma_last_member_counts(members, 1);
    assert(field(list, 1, "output"@) == field(JsonView::Object(members), 1, "output"@));
}

/// `suggestion_context_message`: `input`, `output`.
pub proof fn lemma_suggestion_context_message_comes_as_list(v0: JsonView, v1: JsonView)
    ensures
        suggestion_context_message(JsonView::Array(seq![v0, v1])) == suggestion_context_message(
            JsonView::Object(seq![("input"@, v0), ("output"@, v1)]),
        ),
{
    reveal_strlit("input");
    reveal_strlit("output");
    assert("input"@.len() != "output"@.len());
    let members = seq![("input"@, v0), ("output"@, v1)];
    let list = JsonView::Array(seq![v0, v1]);
    lemma_last_member_counts(members, 0);
    assert(field(list, 0, "input"@) == field(JsonView::Object(members), 0, "input"@));
    lemma_last_member_counts(members, 1);
    assert(field(list, 1, "output"@) == field(JsonView::Object(members), 1, "output"@));
}

} // verus!
