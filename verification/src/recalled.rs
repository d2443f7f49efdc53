//! What a backend is told of the calls that it made before: under the name of the tool, and with
//! the words of its fields.
use crate::asked::{counts, lists_texts, said};
use crate::bytes::text_in;
use crate::json::{lemma_last_member_counts, JsonView};
use crate::past_calls::{
    apply_file_diffs_json, deleted_file_json, file_diff_json, file_glob_json, file_glob_v2_json,
    grep_json, line_range_json, new_file_json, question_json, questions_json, read_file_json,
    read_files_json, read_output_json, read_skill_json, run_shell_json, search_json, single_member,
    tool_arguments, write_input_json,
};
use crate::warp::{
    ApplyFileDiffsView, AskUserQuestionView, DelayView, DeleteFileView, FileDiffView,
    FileGlobV2View, FileGlobView, GrepView, LineRangeView, NewFileView, QuestionView, ReadFileView,
    ReadFilesView, ReadShellCommandOutputView, ReadSkillView, RunShellCommandView,
    SearchCodebaseView, SkillReferenceView, ToolView, TransferShellCommandControlToUserView,
    WriteMode, WriteToLongRunningShellCommandView,
};
use vstd::prelude::*;

verus! {

proof fn lemma_members_of_run_shell(x: RunShellCommandView)
    ensures
        run_shell_json(x) is Object,
        run_shell_json(x)->Object_0.len() == 5,
        run_shell_json(x)->Object_0[0].0 == "command"@,
        run_shell_json(x).get("command"@) == Some(run_shell_json(x)->Object_0[0].1),
        run_shell_json(x)->Object_0[1].0 == "is_read_only"@,
        run_shell_json(x).get("is_read_only"@) == Some(run_shell_json(x)->Object_0[1].1),
        run_shell_json(x)->Object_0[2].0 == "is_risky"@,
        run_shell_json(x).get("is_risky"@) == Some(run_shell_json(x)->Object_0[2].1),
        run_shell_json(x)->Object_0[3].0 == "uses_pager"@,
        run_shell_json(x).get("uses_pager"@) == Some(run_shell_json(x)->Object_0[3].1),
        run_shell_json(x)->Object_0[4].0 == "wait_until_complete"@,
        run_shell_json(x).get("wait_until_complete"@) == Some(run_shell_json(x)->Object_0[4].1),
{
    reveal_strlit("command");
    reveal_strlit("is_read_only");
    reveal_strlit("is_risky");
    reveal_strlit("uses_pager");
    reveal_strlit("wait_until_complete");
    assert("command"@.len() != "is_read_only"@.len());
    assert("command"@.len() != "is_risky"@.len());
    assert("command"@.len() != "uses_pager"@.len());
    assert("command"@.len() != "wait_until_complete"@.len());
    assert("is_read_only"@.len() != "is_risky"@.len());
    assert("is_read_only"@.len() != "uses_pager"@.len());
    assert("is_read_only"@.len() != "wait_until_complete"@.len());
    assert("is_risky"@.len() != "uses_pager"@.len());
    assert("is_risky"@.len() != "wait_until_complete"@.len());
    assert("uses_pager"@.len() != "wait_until_complete"@.len());
    let members = run_shell_json(x)->Object_0;
    assert(members[0].0 == "command"@);
    assert(members[1].0 == "is_read_only"@);
    assert(members[2].0 == "is_risky"@);
    assert(members[3].0 == "uses_pager"@);
    assert(members[4].0 == "wait_until_complete"@);
    lemma_last_member_counts(members, 0);
    lemma_last_member_counts(members, 1);
    lemma_last_member_counts(members, 2);
    lemma_last_member_counts(members, 3);
    lemma_last_member_counts(members, 4);
}

proof fn lemma_members_of_read_output(x: ReadShellCommandOutputView)
    ensures
        read_output_json(x) is Object,
        read_output_json(x)->Object_0.len() == 3,
        read_output_json(x)->Object_0[0].0 == "command_id"@,
        read_output_json(x).get("command_id"@) == Some(read_output_json(x)->Object_0[0].1),
        read_output_json(x)->Object_0[1].0 == "delay_seconds"@,
        read_output_json(x).get("delay_seconds"@) == Some(read_output_json(x)->Object_0[1].1),
        read_output_json(x)->Object_0[2].0 == "wait_until_complete"@,
        read_output_json(x).get("wait_until_complete"@) == Some(read_output_json(x)->Object_0[2].1),
{
    reveal_strlit("command_id");
    reveal_strlit("delay_seconds");
    reveal_strlit("wait_until_complete");
    assert("command_id"@.len() != "delay_seconds"@.len());
    assert("command_id"@.len() != "wait_until_complete"@.len());
    assert("delay_seconds"@.len() != "wait_until_complete"@.len());
    let members = read_output_json(x)->Object_0;
    assert(members[0].0 == "command_id"@);
    assert(members[1].0 == "delay_seconds"@);
    assert(members[2].0 == "wait_until_complete"@);
    lemma_last_member_counts(members, 0);
    lemma_last_member_counts(members, 1);
    lemma_last_member_counts(members, 2);
}

proof fn lemma_members_of_write_input(x: WriteToLongRunningShellCommandView)
    ensures
        write_input_json(x) is Object,
        write_input_json(x)->Object_0.len() == 3,
        write_input_json(x)->Object_0[0].0 == "command_id"@,
        write_input_json(x).get("command_id"@) == Some(write_input_json(x)->Object_0[0].1),
        write_input_json(x)->Object_0[1].0 == "input"@,
        write_input_json(x).get("input"@) == Some(write_input_json(x)->Object_0[1].1),
        write_input_json(x)->Object_0[2].0 == "mode"@,
        write_input_json(x).get("mode"@) == Some(write_input_json(x)->Object_0[2].1),
{
    reveal_strlit("command_id");
    reveal_strlit("input");
    reveal_strlit("mode");
    assert("command_id"@.len() != "input"@.len());
    assert("command_id"@.len() != "mode"@.len());
    assert("input"@.len() != "mode"@.len());
    let members = write_input_json(x)->Object_0;
    assert(members[0].0 == "command_id"@);
    assert(members[1].0 == "input"@);
    assert(members[2].0 == "mode"@);
    lemma_last_member_counts(members, 0);
    lemma_last_member_counts(members, 1);
    lemma_last_member_counts(members, 2);
}

proof fn lemma_members_of_line_range(x: LineRangeView)
    ensures
        line_range_json(x) is Object,
        line_range_json(x)->Object_0.len() == 2,
        line_range_json(x)->Object_0[0].0 == "end"@,
        line_range_json(x).get("end"@) == Some(line_range_json(x)->Object_0[0].1),
        line_range_json(x)->Object_0[1].0 == "start"@,
        line_range_json(x).get("start"@) == Some(line_range_json(x)->Object_0[1].1),
{
    reveal_strlit("end");
    reveal_strlit("start");
    assert("end"@.len() != "start"@.len());
    let members = line_range_json(x)->Object_0;
    assert(members[0].0 == "end"@);
    assert(members[1].0 == "start"@);
    lemma_last_member_counts(members, 0);
    lemma_last_member_counts(members, 1);
}

proof fn lemma_members_of_read_file(x: ReadFileView)
    ensures
        read_file_json(x) is Object,
        read_file_json(x)->Object_0.len() == 2,
        read_file_json(x)->Object_0[0].0 == "line_ranges"@,
        read_file_json(x).get("line_ranges"@) == Some(read_file_json(x)->Object_0[0].1),
        read_file_json(x)->Object_0[1].0 == "path"@,
        read_file_json(x).get("path"@) == Some(read_file_json(x)->Object_0[1].1),
{
    reveal_strlit("line_ranges");
    reveal_strlit("path");
    assert("line_ranges"@.len() != "path"@.len());
    let members = read_file_json(x)->Object_0;
    assert(members[0].0 == "line_ranges"@);
    assert(members[1].0 == "path"@);
    lemma_last_member_counts(members, 0);
    lemma_last_member_counts(members, 1);
}

proof fn lemma_members_of_search(x: SearchCodebaseView)
    ensures
        search_json(x) is Object,
        search_json(x)->Object_0.len() == 3,
        search_json(x)->Object_0[0].0 == "codebase_path"@,
        search_json(x).get("codebase_path"@) == Some(search_json(x)->Object_0[0].1),
        search_json(x)->Object_0[1].0 == "path_filters"@,
        search_json(x).get("path_filters"@) == Some(search_json(x)->Object_0[1].1),
        search_json(x)->Object_0[2].0 == "query"@,
        search_json(x).get("query"@) == Some(search_json(x)->Object_0[2].1),
{
    reveal_strlit("codebase_path");
    reveal_strlit("path_filters");
    reveal_strlit("query");
    assert("codebase_path"@.len() != "path_filters"@.len());
    assert("codebase_path"@.len() != "query"@.len());
    assert("path_filters"@.len() != "query"@.len());
    let members = search_json(x)->Object_0;
    assert(members[0].0 == "codebase_path"@);
    assert(members[1].0 == "path_filters"@);
    assert(members[2].0 == "query"@);
    lemma_last_member_counts(members, 0);
    lemma_last_member_counts(members, 1);
    lemma_last_member_counts(members, 2);
}

proof fn lemma_members_of_grep(x: GrepView)
    ensures
        grep_json(x) is Object,
        grep_json(x)->Object_0.len() == 2,
        grep_json(x)->Object_0[0].0 == "path"@,
        grep_json(x).get("path"@) == Some(grep_json(x)->Object_0[0].1),
        grep_json(x)->Object_0[1].0 == "queries"@,
        grep_json(x).get("queries"@) == Some(grep_json(x)->Object_0[1].1),
{
    reveal_strlit("path");
    reveal_strlit("queries");
    assert("path"@.len() != "queries"@.len());
    let members = grep_json(x)->Object_0;
    assert(members[0].0 == "path"@);
    assert(members[1].0 == "queries"@);
    lemma_last_member_counts(members, 0);
    lemma_last_member_counts(members, 1);
}

proof fn lemma_members_of_file_glob(x: FileGlobView)
    ensures
        file_glob_json(x) is Object,
        file_glob_json(x)->Object_0.len() == 2,
        file_glob_json(x)->Object_0[0].0 == "path"@,
        file_glob_json(x).get("path"@) == Some(file_glob_json(x)->Object_0[0].1),
        file_glob_json(x)->Object_0[1].0 == "patterns"@,
        file_glob_json(x).get("patterns"@) == Some(file_glob_json(x)->Object_0[1].1),
{
    reveal_strlit("path");
    reveal_strlit("patterns");
    assert("path"@.len() != "patterns"@.len());
    let members = file_glob_json(x)->Object_0;
    assert(members[0].0 == "path"@);
    assert(members[1].0 == "patterns"@);
    lemma_last_member_counts(members, 0);
    lemma_last_member_counts(members, 1);
}

proof fn lemma_members_of_file_glob_v2(x: FileGlobV2View)
    ensures
        file_glob_v2_json(x) is Object,
        file_glob_v2_json(x)->Object_0.len() == 5,
        file_glob_v2_json(x)->Object_0[0].0 == "max_depth"@,
        file_glob_v2_json(x).get("max_depth"@) == Some(file_glob_v2_json(x)->Object_0[0].1),
        file_glob_v2_json(x)->Object_0[1].0 == "max_matches"@,
        file_glob_v2_json(x).get("max_matches"@) == Some(file_glob_v2_json(x)->Object_0[1].1),
        file_glob_v2_json(x)->Object_0[2].0 == "min_depth"@,
        file_glob_v2_json(x).get("min_depth"@) == Some(file_glob_v2_json(x)->Object_0[2].1),
        file_glob_v2_json(x)->Object_0[3].0 == "patterns"@,
        file_glob_v2_json(x).get("patterns"@) == Some(file_glob_v2_json(x)->Object_0[3].1),
        file_glob_v2_json(x)->Object_0[4].0 == "search_dir"@,
        file_glob_v2_json(x).get("search_dir"@) == Some(file_glob_v2_json(x)->Object_0[4].1),
{
    reveal_strlit("max_depth");
    reveal_strlit("max_matches");
    reveal_strlit("min_depth");
    reveal_strlit("patterns");
    reveal_strlit("search_dir");
    assert("max_depth"@.len() != "max_matches"@.len());
    assert("max_depth"@[1] != "min_depth"@[1]);
    assert("max_depth"@.len() != "patterns"@.len());
    assert("max_depth"@.len() != "search_dir"@.len());
    assert("max_matches"@.len() != "min_depth"@.len());
    assert("max_matches"@.len() != "patterns"@.len());
    assert("max_matches"@.len() != "search_dir"@.len());
    assert("min_depth"@.len() != "patterns"@.len());
    assert("min_depth"@.len() != "search_dir"@.len());
    assert("patterns"@.len() != "search_dir"@.len());
    let members = file_glob_v2_json(x)->Object_0;
    assert(members[0].0 == "max_depth"@);
    assert(members[1].0 == "max_matches"@);
    assert(members[2].0 == "min_depth"@);
    assert(members[3].0 == "patterns"@);
    assert(members[4].0 == "search_dir"@);
    lemma_last_member_counts(members, 0);
    lemma_last_member_counts(members, 1);
    lemma_last_member_counts(members, 2);
    lemma_last_member_counts(members, 3);
    lemma_last_member_counts(members, 4);
}

proof fn lemma_members_of_read_skill(x: ReadSkillView)
    ensures
        read_skill_json(x) is Object,
        read_skill_json(x)->Object_0.len() == 3,
        read_skill_json(x)->Object_0[0].0 == "bundled_skill_id"@,
        read_skill_json(x).get("bundled_skill_id"@) == Some(read_skill_json(x)->Object_0[0].1),
        read_skill_json(x)->Object_0[1].0 == "name"@,
        read_skill_json(x).get("name"@) == Some(read_skill_json(x)->Object_0[1].1),
        read_skill_json(x)->Object_0[2].0 == "skill_path"@,
        read_skill_json(x).get("skill_path"@) == Some(read_skill_json(x)->Object_0[2].1),
{
    reveal_strlit("bundled_skill_id");
    reveal_strlit("name");
    reveal_strlit("skill_path");
    assert("bundled_skill_id"@.len() != "name"@.len());
    assert("bundled_skill_id"@.len() != "skill_path"@.len());
    assert("name"@.len() != "skill_path"@.len());
    let members = read_skill_json(x)->Object_0;
    assert(members[0].0 == "bundled_skill_id"@);
    assert(members[1].0 == "name"@);
    assert(members[2].0 == "skill_path"@);
    lemma_last_member_counts(members, 0);
    lemma_last_member_counts(members, 1);
    lemma_last_member_counts(members, 2);
}

proof fn lemma_members_of_question(x: QuestionView)
    ensures
        question_json(x) is Object,
        question_json(x)->Object_0.len() == 6,
        question_json(x)->Object_0[0].0 == "is_multiselect"@,
        question_json(x).get("is_multiselect"@) == Some(question_json(x)->Object_0[0].1),
        question_json(x)->Object_0[1].0 == "options"@,
        question_json(x).get("options"@) == Some(question_json(x)->Object_0[1].1),
        question_json(x)->Object_0[2].0 == "question"@,
        question_json(x).get("question"@) == Some(question_json(x)->Object_0[2].1),
        question_json(x)->Object_0[3].0 == "question_id"@,
        question_json(x).get("question_id"@) == Some(question_json(x)->Object_0[3].1),
        question_json(x)->Object_0[4].0 == "recommended_option_index"@,
        question_json(x).get("recommended_option_index"@) == Some(question_json(x)->Object_0[4].1),
        question_json(x)->Object_0[5].0 == "supports_other"@,
        question_json(x).get("supports_other"@) == Some(question_json(x)->Object_0[5].1),
{
    reveal_strlit("is_multiselect");
    reveal_strlit("options");
    reveal_strlit("question");
    reveal_strlit("question_id");
    reveal_strlit("recommended_option_index");
    reveal_strlit("supports_other");
    assert("is_multiselect"@.len() != "options"@.len());
    assert("is_multiselect"@.len() != "question"@.len());
    assert("is_multiselect"@.len() != "question_id"@.len());
    assert("is_multiselect"@.len() != "recommended_option_index"@.len());
    assert("is_multiselect"@[0] != "supports_other"@[0]);
    assert("options"@.len() != "question"@.len());
    assert("options"@.len() != "question_id"@.len());
    assert("options"@.len() != "recommended_option_index"@.len());
    assert("options"@.len() != "supports_other"@.len());
    assert("question"@.len() != "question_id"@.len());
    assert("question"@.len() != "recommended_option_index"@.len());
    assert("question"@.len() != "supports_other"@.len());
    assert("question_id"@.len() != "recommended_option_index"@.len());
    assert("question_id"@.len() != "supports_other"@.len());
    assert("recommended_option_index"@.len() != "supports_other"@.len());
    let members = question_json(x)->Object_0;
    assert(members[0].0 == "is_multiselect"@);
    assert(members[1].0 == "options"@);
    assert(members[2].0 == "question"@);
    assert(members[3].0 == "question_id"@);
    assert(members[4].0 == "recommended_option_index"@);
    assert(members[5].0 == "supports_other"@);
    lemma_last_member_counts(members, 0);
    lemma_last_member_counts(members, 1);
    lemma_last_member_counts(members, 2);
    lemma_last_member_counts(members, 3);
    lemma_last_member_counts(members, 4);
    lemma_last_member_counts(members, 5);
}

proof fn lemma_members_of_file_diff(x: FileDiffView)
    ensures
        file_diff_json(x) is Object,
        file_diff_json(x)->Object_0.len() == 3,
        file_diff_json(x)->Object_0[0].0 == "file_path"@,
        file_diff_json(x).get("file_path"@) == Some(file_diff_json(x)->Object_0[0].1),
        file_diff_json(x)->Object_0[1].0 == "replace"@,
        file_diff_json(x).get("replace"@) == Some(file_diff_json(x)->Object_0[1].1),
        file_diff_json(x)->Object_0[2].0 == "search"@,
        file_diff_json(x).get("search"@) == Some(file_diff_json(x)->Object_0[2].1),
{
    reveal_strlit("file_path");
    reveal_strlit("replace");
    reveal_strlit("search");
    assert("file_path"@.len() != "replace"@.len());
    assert("file_path"@.len() != "search"@.len());
    assert("replace"@.len() != "search"@.len());
    let members = file_diff_json(x)->Object_0;
    assert(members[0].0 == "file_path"@);
    assert(members[1].0 == "replace"@);
    assert(members[2].0 == "search"@);
    lemma_last_member_counts(members, 0);
    lemma_last_member_counts(members, 1);
    lemma_last_member_counts(members, 2);
}

proof fn lemma_members_of_new_file(x: NewFileView)
    ensures
        new_file_json(x) is Object,
        new_file_json(x)->Object_0.len() == 2,
        new_file_json(x)->Object_0[0].0 == "content"@,
        new_file_json(x).get("content"@) == Some(new_file_json(x)->Object_0[0].1),
        new_file_json(x)->Object_0[1].0 == "file_path"@,
        new_file_json(x).get("file_path"@) == Some(new_file_json(x)->Object_0[1].1),
{
    reveal_strlit("content");
    reveal_strlit("file_path");
    assert("content"@.len() != "file_path"@.len());
    let members = new_file_json(x)->Object_0;
    assert(members[0].0 == "content"@);
    assert(members[1].0 == "file_path"@);
    lemma_last_member_counts(members, 0);
    lemma_last_member_counts(members, 1);
}

proof fn lemma_members_of_deleted_file(x: DeleteFileView)
    ensures
        deleted_file_json(x) is Object,
        deleted_file_json(x)->Object_0.len() == 1,
        deleted_file_json(x)->Object_0[0].0 == "file_path"@,
        deleted_file_json(x).get("file_path"@) == Some(deleted_file_json(x)->Object_0[0].1),
{
    reveal_strlit("file_path");

    let members = deleted_file_json(x)->Object_0;
    assert(members[0].0 == "file_path"@);
    lemma_last_member_counts(members, 0);
}

proof fn lemma_members_of_apply_file_diffs(x: ApplyFileDiffsView)
    ensures
        apply_file_diffs_json(x) is Object,
        apply_file_diffs_json(x)->Object_0.len() == 4,
        apply_file_diffs_json(x)->Object_0[0].0 == "deleted_files"@,
        apply_file_diffs_json(x).get("deleted_files"@) == Some(
            apply_file_diffs_json(x)->Object_0[0].1
        ),
        apply_file_diffs_json(x)->Object_0[1].0 == "diffs"@,
        apply_file_diffs_json(x).get("diffs"@) == Some(apply_file_diffs_json(x)->Object_0[1].1),
        apply_file_diffs_json(x)->Object_0[2].0 == "new_files"@,
        apply_file_diffs_json(x).get("new_files"@) == Some(apply_file_diffs_json(x)->Object_0[2].1),
        apply_file_diffs_json(x)->Object_0[3].0 == "summary"@,
        apply_file_diffs_json(x).get("summary"@) == Some(apply_file_diffs_json(x)->Object_0[3].1),
{
    reveal_strlit("deleted_files");
    reveal_strlit("diffs");
    reveal_strlit("new_files");
    reveal_strlit("summary");
    assert("deleted_files"@.len() != "diffs"@.len());
    assert("deleted_files"@.len() != "new_files"@.len());
    assert("deleted_files"@.len() != "summary"@.len());
    assert("diffs"@.len() != "new_files"@.len());
    assert("diffs"@.len() != "summary"@.len());
    assert("new_files"@.len() != "summary"@.len());
    let members = apply_file_diffs_json(x)->Object_0;
    assert(members[0].0 == "deleted_files"@);
    assert(members[1].0 == "diffs"@);
    assert(members[2].0 == "new_files"@);
    assert(members[3].0 == "summary"@);
    lemma_last_member_counts(members, 0);
    lemma_last_member_counts(members, 1);
    lemma_last_member_counts(members, 2);
    lemma_last_member_counts(members, 3);
}

/// A shell command that was run.
pub proof fn lemma_command_is_recalled(command: RunShellCommandView)
    ensures
        tool_arguments(ToolView::RunShellCommand(command)) matches Some((name, arguments)) && {
            &&& name == "run_shell_command"@
            &&& arguments.get("command"@) == Some(JsonView::Str(command.command))
            &&& arguments.get("is_read_only"@) == Some(JsonView::Bool(command.is_read_only))
            &&& arguments.get("is_risky"@) == Some(JsonView::Bool(command.is_risky))
            &&& arguments.get("uses_pager"@) == Some(JsonView::Bool(command.uses_pager))
            &&& command.wait_until_complete is None ==> arguments.get("wait_until_complete"@)
                == Some(JsonView::Bool(true))
            &&& command.wait_until_complete matches Some(wait) ==> arguments.get(
                "wait_until_complete"@,
            ) == Some(JsonView::Bool(wait))
        },
{
    lemma_members_of_run_shell(command);
}

/// Output of a command that was read.
pub proof fn lemma_reading_of_output_is_recalled(command: ReadShellCommandOutputView)
    ensures
        tool_arguments(ToolView::ReadShellCommandOutput(command)) matches Some((name, arguments))
            && {
            &&& name == "read_shell_command_output"@
            &&& arguments.get("command_id"@) == Some(JsonView::Str(command.command_id))
            &&& command.delay is None ==> arguments.get("delay_seconds"@) == Some(JsonView::Null)
                && arguments.get("wait_until_complete"@) == Some(JsonView::Bool(false))
            &&& command.delay == Some(DelayView::OnCompletion) ==> arguments.get("delay_seconds"@)
                == Some(JsonView::Null) && arguments.get("wait_until_complete"@) == Some(
                JsonView::Bool(true),
            )
            &&& command.delay matches Some(DelayView::Seconds(seconds)) ==> counts(
                arguments,
                "delay_seconds"@,
                seconds as int,
            ) && arguments.get("wait_until_complete"@) == Some(JsonView::Bool(false))
        },
{
    lemma_members_of_read_output(command);
}

/// Input that was written to a command.
pub proof fn lemma_writing_of_input_is_recalled(command: WriteToLongRunningShellCommandView)
    ensures
        tool_arguments(ToolView::WriteToLongRunningShellCommand(command)) matches Some(
            (name, arguments),
        ) && {
            &&& name == "write_to_lrc"@
            &&& arguments.get("command_id"@) == Some(JsonView::Str(command.command_id))
            &&& arguments.get("input"@) == Some(JsonView::Str(text_in(command.input)))
            &&& command.mode == Some(WriteMode::Line) ==> said(arguments, "mode"@) == "line"@
            &&& command.mode == Some(WriteMode::Block) ==> said(arguments, "mode"@) == "block"@
            &&& command.mode == Some(WriteMode::Raw) || command.mode is None ==> said(
                arguments,
                "mode"@,
            ) == "raw"@
        },
{
    lemma_members_of_write_input(command);
}

/// A command that was handed over.
pub proof fn lemma_handing_over_is_recalled(command: TransferShellCommandControlToUserView)
    ensures
        tool_arguments(ToolView::TransferShellCommandControlToUser(command)) matches Some(
            (name, arguments),
        ) && {
            &&& name == "transfer_shell_command_control"@
            &&& arguments.get("reason"@) == Some(JsonView::Str(command.reason))
        },
{
    let members = single_member("reason"@, JsonView::Str(command.reason))->Object_0;
    lemma_last_member_counts(members, 0);
}

/// Files that were read, with the ranges of their lines.
pub proof fn lemma_reading_of_files_is_recalled(read: ReadFilesView, i: int, k: int)
    ensures
        tool_arguments(ToolView::ReadFiles(read)) matches Some((name, arguments)) && {
            &&& name == "read_files"@
            &&& arguments.get_array("files"@) matches Some(files)
            &&& files.len() == read.files.len()
            &&& 0 <= i < files.len() ==> {
                &&& files[i].get("path"@) == Some(JsonView::Str(read.files[i].name))
                &&& files[i].get_array("line_ranges"@) matches Some(ranges)
                &&& ranges.len() == read.files[i].line_ranges.len()
                &&& 0 <= k < ranges.len() ==> counts(
                    ranges[k],
                    "start"@,
                    read.files[i].line_ranges[k].start as int,
                ) && counts(ranges[k], "end"@, read.files[i].line_ranges[k].end as int)
            }
        },
{
    let files = read_files_json(read.files);
    lemma_last_member_counts(single_member("files"@, files)->Object_0, 0);
    if 0 <= i < read.files.len() {
        lemma_members_of_read_file(read.files[i]);
        if 0 <= k < read.files[i].line_ranges.len() {
            lemma_members_of_line_range(read.files[i].line_ranges[k]);
        }
    }
}

/// Searches that were made.
pub proof fn lemma_searches_are_recalled(
    search: SearchCodebaseView,
    grep: GrepView,
    glob: FileGlobView,
    glob_v2: FileGlobV2View,
)
    ensures
        tool_arguments(ToolView::SearchCodebase(search)) matches Some((name, arguments)) && {
            &&& name == "search_codebase"@
            &&& arguments.get("query"@) == Some(JsonView::Str(search.query))
            &&& arguments.get("codebase_path"@) == Some(JsonView::Str(search.codebase_path))
            &&& arguments.get("path_filters"@) is Some
            &&& lists_texts(arguments.get("path_filters"@), search.path_filters)
        },
        tool_arguments(ToolView::Grep(grep)) matches Some((name, arguments)) && {
            &&& name == "grep"@
            &&& arguments.get("path"@) == Some(JsonView::Str(grep.path))
            &&& arguments.get("queries"@) is Some
            &&& lists_texts(arguments.get("queries"@), grep.queries)
        },
        tool_arguments(ToolView::FileGlob(glob)) matches Some((name, arguments)) && {
            &&& name == "file_glob"@
            &&& arguments.get("path"@) == Some(JsonView::Str(glob.path))
            &&& arguments.get("patterns"@) is Some
            &&& lists_texts(arguments.get("patterns"@), glob.patterns)
        },
        tool_arguments(ToolView::FileGlobV2(glob_v2)) matches Some((name, arguments)) && {
            &&& name == "file_glob_v2"@
            &&& arguments.get("search_dir"@) == Some(JsonView::Str(glob_v2.search_dir))
            &&& arguments.get("patterns"@) is Some
            &&& lists_texts(arguments.get("patterns"@), glob_v2.patterns)
            &&& counts(arguments, "max_depth"@, glob_v2.max_depth as int)
            &&& counts(arguments, "max_matches"@, glob_v2.max_matches as int)
            &&& counts(arguments, "min_depth"@, glob_v2.min_depth as int)
        },
{
    lemma_members_of_search(search);
    lemma_members_of_grep(grep);
    lemma_members_of_file_glob(glob);
    lemma_members_of_file_glob_v2(glob_v2);
}

/// A skill that was read.
pub proof fn lemma_reading_of_skill_is_recalled(skill: ReadSkillView)
    ensures
        tool_arguments(ToolView::ReadSkill(skill)) matches Some((name, arguments)) && {
            &&& name == "read_skill"@
            &&& arguments.get("name"@) == Some(JsonView::Str(skill.name))
            &&& skill.skill_reference matches Some(SkillReferenceView::SkillPath(path))
                ==> arguments.get("skill_path"@) == Some(JsonView::Str(path)) && said(
                arguments,
                "bundled_skill_id"@,
            ).len() == 0
            &&& skill.skill_reference matches Some(SkillReferenceView::BundledSkillId(id))
                ==> arguments.get("bundled_skill_id"@) == Some(JsonView::Str(id)) && said(
                arguments,
                "skill_path"@,
            ).len() == 0
            &&& skill.skill_reference is None ==> said(arguments, "skill_path"@).len() == 0
                && said(arguments, "bundled_skill_id"@).len() == 0
        },
{
    lemma_members_of_read_skill(skill);
}

/// Questions that were asked.
pub proof fn lemma_questions_are_recalled(asked: AskUserQuestionView, i: int)
    ensures
        tool_arguments(ToolView::AskUserQuestion(asked)) matches Some((name, arguments)) && {
            &&& name == "ask_user_question"@
            &&& arguments.get_array("questions"@) matches Some(questions)
            &&& questions.len() == asked.questions.len()
            &&& 0 <= i < questions.len() ==> {
                let question = asked.questions[i];
                &&& questions[i].get("question_id"@) == Some(JsonView::Str(question.question_id))
                &&& questions[i].get("question"@) == Some(JsonView::Str(question.question))
                &&& question.question_type matches Some(choice) ==> {
                    &&& questions[i].get("is_multiselect"@) == Some(
                        JsonView::Bool(choice.is_multiselect),
                    )
                    &&& questions[i].get("supports_other"@) == Some(
                        JsonView::Bool(choice.supports_other),
                    )
                    &&& lists_texts(questions[i].get("options"@), choice.options)
                    &&& counts(
                        questions[i],
                        "recommended_option_index"@,
                        choice.recommended_option_index as int,
                    )
                }
                &&& question.question_type is None ==> {
                    &&& questions[i].get("is_multiselect"@) == Some(JsonView::Bool(false))
                    &&& questions[i].get("supports_other"@) == Some(JsonView::Bool(false))
                    &&& lists_texts(questions[i].get("options"@), Seq::empty())
                    &&& counts(questions[i], "recommended_option_index"@, -1)
                }
            }
        },
{
    let questions = questions_json(asked.questions);
    lemma_last_member_counts(single_member("questions"@, questions)->Object_0, 0);
    if 0 <= i < asked.questions.len() {
        lemma_members_of_question(asked.questions[i]);
    }
}

/// Edits that were made.
pub proof fn lemma_edits_are_recalled(edits: ApplyFileDiffsView, i: int)
    ensures
        tool_arguments(ToolView::ApplyFileDiffs(edits)) matches Some((name, arguments)) && {
            &&& name == "apply_file_diffs"@
            &&& arguments.get("summary"@) == Some(JsonView::Str(edits.summary))
            &&& arguments.get_array("diffs"@) matches Some(diffs)
            &&& diffs.len() == edits.diffs.len()
            &&& 0 <= i < diffs.len() ==> {
                &&& diffs[i].get("file_path"@) == Some(JsonView::Str(edits.diffs[i].file_path))
                &&& diffs[i].get("search"@) == Some(JsonView::Str(edits.diffs[i].search))
                &&& diffs[i].get("replace"@) == Some(JsonView::Str(edits.diffs[i].replace))
            }
            &&& arguments.get_array("new_files"@) matches Some(files)
            &&& files.len() == edits.new_files.len()
            &&& 0 <= i < files.len() ==> {
                &&& files[i].get("file_path"@) == Some(JsonView::Str(edits.new_files[i].file_path))
                &&& files[i].get("content"@) == Some(JsonView::Str(edits.new_files[i].content))
            }
            &&& arguments.get_array("deleted_files"@) matches Some(deleted)
            &&& deleted.len() == edits.deleted_files.len()
            &&& 0 <= i < deleted.len() ==> deleted[i].get("file_path"@) == Some(
                JsonView::Str(edits.deleted_files[i].file_path),
            )
        },
{
    lemma_members_of_apply_file_diffs(edits);
    if 0 <= i < edits.diffs.len() {
        lemma_members_of_file_diff(edits.diffs[i]);
    }
    if 0 <= i < edits.new_files.len() {
        lemma_members_of_new_file(edits.new_files[i]);
    }
    if 0 <= i < edits.deleted_files.len() {
        lemma_members_of_deleted_file(edits.deleted_files[i]);
    }
}

/// Suggestions and tools that are not known are not told.
pub proof fn lemma_what_is_not_recalled(tool: ToolView)
    ensures
        tool_arguments(tool) is None <==> tool is SuggestPrompt || tool is Other,
{
}

} // verus!
