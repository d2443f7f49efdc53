//! A backend is told of the calls that it made as it made them: what is written of a tool reads
//! back as the same tool.
use crate::args::{
    apply_file_diffs_args, ask_user_question_arg, ask_user_question_arg_list,
    ask_user_question_args, deleted_file_args, deleted_file_args_list, file_diff_args,
    file_diff_args_list, file_glob_args, file_glob_v2_args, grep_args, line_range_arg,
    line_range_arg_list, new_file_args, new_file_args_list, read_file_arg, read_file_arg_list,
    read_files_args, read_shell_command_output_args, read_skill_args, run_shell_command_args,
    search_codebase_args, transfer_shell_command_control_args,
    write_to_long_running_shell_command_args, ApplyFileDiffsArgsView, AskUserQuestionArgView,
    AskUserQuestionArgsView, DeletedFileArgsView, FileDiffArgsView, FileGlobArgsView,
    FileGlobV2ArgsView, GrepArgsView, LineRangeArgView, NewFileArgsView, ReadFileArgView,
    ReadFilesArgsView, ReadShellCommandOutputArgsView, ReadSkillArgsView, RunShellCommandArgsView,
    SearchCodebaseArgsView, TransferShellCommandControlArgsView,
    WriteToLongRunningShellCommandArgsView,
};
use crate::bytes::text_in;
use crate::json::{member_named, texts_json, JsonView};
use crate::outputs::{
    apply_file_diffs, deleted_files, file_diffs, line_ranges, new_files, question, questions,
    read_file, read_files, tool_of, write_mode,
};
use crate::past_calls::{
    apply_file_diffs_json, deleted_file_json, deleted_files_json, delay_seconds, file_diff_json,
    file_diffs_json, file_glob_json, file_glob_v2_json, grep_json, line_range_json,
    line_ranges_json, mode_name, new_file_json, new_files_json, question_json, questions_json,
    read_file_json, read_files_json, read_output_json, read_skill_json, run_shell_json, search_json,
    single_member, skill_names, tool_arguments, waits_until_complete, write_input_json,
};
use crate::record::{decoded, texts_value};
use crate::text::{blank, lowered};
use crate::warp::{
    ApplyFileDiffsView, DelayView, DeleteFileView, FileDiffView, FileGlobV2View, FileGlobView,
    GrepView, LineRangeView, NewFileView, QuestionView, ReadFileView, ReadShellCommandOutputView,
    ReadSkillView, RunShellCommandView, SearchCodebaseView, SkillReferenceView, ToolView,
    WriteToLongRunningShellCommandView,
};
use vstd::prelude::*;
use vstd::utf8::{decode_utf8_encode_utf8, encode_utf8_valid_utf8, valid_utf8};

verus! {

// ---------------------------------------------------------------------------------------------
// Arguments that were written read back
// ---------------------------------------------------------------------------------------------
proof fn lemma_texts_are_read_back(texts: Seq<Seq<char>>)
    ensures
        texts_value(texts_json(texts)) == Some(texts),
{
    let items = texts_json(texts)->Array_0;
    let decode = |item: JsonView| item.as_str();
    assert forall|i: int| 0 <= i < items.len() implies (#[trigger] decode(items[i])) is Some by {}
    assert(decoded(items, decode)->0 =~= texts);
}

proof fn lemma_run_shell_is_read_back(value: RunShellCommandView)
    ensures
        run_shell_command_args(run_shell_json(value)) == Some(
            RunShellCommandArgsView {
                command: value.command,
                is_read_only: value.is_read_only,
                uses_pager: value.uses_pager,
                is_risky: value.is_risky,
                wait_until_complete: Some(
                    match value.wait_until_complete { Some(wait) => wait, None => true }
                ),
            }
        ),
{
    reveal_with_fuel(member_named, 6);
    reveal_strlit("command");
    reveal_strlit("is_read_only");
    reveal_strlit("is_risky");
    reveal_strlit("uses_pager");
    reveal_strlit("wait_until_complete");
    assert("command"@.len() != "is_read_only"@.len());
    assert("command"@.len() != "is_risky"@.len());
    assert("command"@.len() != "uses_pager"@.len());
    assert("command"@.len() != "wait_until_complete"@.len());
    assert("is_read_only"@.len() != "is_risky"@.len());
    assert("is_read_only"@.len() != "uses_pager"@.len());
    assert("is_read_only"@.len() != "wait_until_complete"@.len());
    assert("is_risky"@.len() != "uses_pager"@.len());
    assert("is_risky"@.len() != "wait_until_complete"@.len());
    assert("uses_pager"@.len() != "wait_until_complete"@.len());
    let json = run_shell_json(value);
    assert(json.get("command"@) is Some);
    assert(json.get("is_read_only"@) is Some);
    assert(json.get("is_risky"@) is Some);
    assert(json.get("uses_pager"@) is Some);
    assert(json.get("wait_until_complete"@) is Some);
}

proof fn lemma_read_output_is_read_back(value: ReadShellCommandOutputView)
    ensures
        read_shell_command_output_args(read_output_json(value)) == Some(
            ReadShellCommandOutputArgsView {
                command_id: value.command_id,
                delay_seconds: delay_seconds(value),
                wait_until_complete: waits_until_complete(value),
            }
        ),
{
    reveal_with_fuel(member_named, 4);
    reveal_strlit("command_id");
    reveal_strlit("delay_seconds");
    reveal_strlit("wait_until_complete");
    assert("command_id"@.len() != "delay_seconds"@.len());
    assert("command_id"@.len() != "wait_until_complete"@.len());
    assert("delay_seconds"@.len() != "wait_until_complete"@.len());
    let json = read_output_json(value);
    assert(json.get("command_id"@) is Some);
    assert(json.get("delay_seconds"@) is Some);
    assert(json.get("wait_until_complete"@) is Some);
}

proof fn lemma_write_input_is_read_back(value: WriteToLongRunningShellCommandView)
    ensures
        write_to_long_running_shell_command_args(write_input_json(value)) == Some(
            WriteToLongRunningShellCommandArgsView {
                command_id: value.command_id,
                input: text_in(value.input),
                mode: Some(mode_name(value.mode)),
            }
        ),
{
    reveal_with_fuel(member_named, 4);
    reveal_strlit("command_id");
    reveal_strlit("input");
    reveal_strlit("mode");
    assert("command_id"@.len() != "input"@.len());
    assert("command_id"@.len() != "mode"@.len());
    assert("input"@.len() != "mode"@.len());
    let json = write_input_json(value);
    assert(json.get("command_id"@) is Some);
    assert(json.get("input"@) is Some);
    assert(json.get("mode"@) is Some);
}

proof fn lemma_line_range_is_read_back(value: LineRangeView)
    ensures
        line_range_arg(line_range_json(value)) == Some(
            LineRangeArgView { start: value.start, end: value.end }
        ),
{
    reveal_with_fuel(member_named, 3);
    reveal_strlit("end");
    reveal_strlit("start");
    assert("end"@.len() != "start"@.len());
    let json = line_range_json(value);
    assert(json.get("end"@) is Some);
    assert(json.get("start"@) is Some);
}

proof fn lemma_search_is_read_back(value: SearchCodebaseView)
    ensures
        search_codebase_args(search_json(value)) == Some(
            SearchCodebaseArgsView {
                query: value.query,
                path_filters: value.path_filters,
                codebase_path: Some(value.codebase_path),
            }
        ),
{
    reveal_with_fuel(member_named, 4);
    reveal_strlit("codebase_path");
    reveal_strlit("path_filters");
    reveal_strlit("query");
    assert("codebase_path"@.len() != "path_filters"@.len());
    assert("codebase_path"@.len() != "query"@.len());
    assert("path_filters"@.len() != "query"@.len());
    let json = search_json(value);
    assert(json.get("codebase_path"@) is Some);
    assert(json.get("path_filters"@) is Some);
    assert(json.get("query"@) is Some);
    lemma_texts_are_read_back(value.path_filters);
}

proof fn lemma_grep_is_read_back(value: GrepView)
    ensures
        grep_args(grep_json(value)) == Some(
            GrepArgsView { query: None, queries: value.queries, path: Some(value.path) }
        ),
{
    reveal_with_fuel(member_named, 3);
    reveal_strlit("path");
    reveal_strlit("queries");
    reveal_strlit("query");
    assert("path"@.len() != "queries"@.len());
    assert("path"@.len() != "query"@.len());
    assert("queries"@.len() != "query"@.len());
    let json = grep_json(value);
    assert(json.get("path"@) is Some);
    assert(json.get("queries"@) is Some);
    assert(json.get("query"@) is None);
    lemma_texts_are_read_back(value.queries);
}

proof fn lemma_file_glob_is_read_back(value: FileGlobView)
    ensures
        file_glob_args(file_glob_json(value)) == Some(
            FileGlobArgsView { patterns: value.patterns, path: Some(value.path) }
        ),
{
    reveal_with_fuel(member_named, 3);
    reveal_strlit("path");
    reveal_strlit("patterns");
    assert("path"@.len() != "patterns"@.len());
    let json = file_glob_json(value);
    assert(json.get("path"@) is Some);
    assert(json.get("patterns"@) is Some);
    lemma_texts_are_read_back(value.patterns);
}

proof fn lemma_file_glob_v2_is_read_back(value: FileGlobV2View)
    ensures
        file_glob_v2_args(file_glob_v2_json(value)) == Some(
            FileGlobV2ArgsView {
                patterns: value.patterns,
                search_dir: Some(value.search_dir),
                max_matches: Some(value.max_matches),
                max_depth: Some(value.max_depth),
                min_depth: Some(value.min_depth),
            }
        ),
{
    reveal_with_fuel(member_named, 6);
    reveal_strlit("max_depth");
    reveal_strlit("max_matches");
    reveal_strlit("min_depth");
    reveal_strlit("patterns");
    reveal_strlit("search_dir");
    assert("max_depth"@.len() != "max_matches"@.len());
    assert("max_depth"@[1] != "min_depth"@[1]);
    assert("max_depth"@.len() != "patterns"@.len());
    assert("max_depth"@.len() != "search_dir"@.len());
    assert("max_matches"@.len() != "min_depth"@.len());
    assert("max_matches"@.len() != "patterns"@.len());
    assert("max_matches"@.len() != "search_dir"@.len());
    assert("min_depth"@.len() != "patterns"@.len());
    assert("min_depth"@.len() != "search_dir"@.len());
    assert("patterns"@.len() != "search_dir"@.len());
    let json = file_glob_v2_json(value);
    assert(json.get("max_depth"@) is Some);
    assert(json.get("max_matches"@) is Some);
    assert(json.get("min_depth"@) is Some);
    assert(json.get("patterns"@) is Some);
    assert(json.get("search_dir"@) is Some);
    lemma_texts_are_read_back(value.patterns);
}

proof fn lemma_read_skill_is_read_back(value: ReadSkillView)
    ensures
        read_skill_args(read_skill_json(value)) == Some(
            ReadSkillArgsView {
                skill_path: Some(skill_names(value.skill_reference).0),
                bundled_skill_id: Some(skill_names(value.skill_reference).1),
                name: Some(value.name),
            }
        ),
{
    reveal_with_fuel(member_named, 4);
    reveal_strlit("bundled_skill_id");
    reveal_strlit("name");
    reveal_strlit("skill_path");
    assert("bundled_skill_id"@.len() != "name"@.len());
    assert("bundled_skill_id"@.len() != "skill_path"@.len());
    assert("name"@.len() != "skill_path"@.len());
    let json = read_skill_json(value);
    assert(json.get("bundled_skill_id"@) is Some);
    assert(json.get("name"@) is Some);
    assert(json.get("skill_path"@) is Some);
}

proof fn lemma_file_diff_is_read_back(value: FileDiffView)
    ensures
        file_diff_args(file_diff_json(value)) == Some(
            FileDiffArgsView {
                file_path: value.file_path,
                search: value.search,
                replace: value.replace,
            }
        ),
{
    reveal_with_fuel(member_named, 4);
    reveal_strlit("file_path");
    reveal_strlit("replace");
    reveal_strlit("search");
    assert("file_path"@.len() != "replace"@.len());
    assert("file_path"@.len() != "search"@.len());
    assert("replace"@.len() != "search"@.len());
    let json = file_diff_json(value);
    assert(json.get("file_path"@) is Some);
    assert(json.get("replace"@) is Some);
    assert(json.get("search"@) is Some);
}

proof fn lemma_new_file_is_read_back(value: NewFileView)
    ensures
        new_file_args(new_file_json(value)) == Some(
            NewFileArgsView { file_path: value.file_path, content: value.content }
        ),
{
    reveal_with_fuel(member_named, 3);
    reveal_strlit("content");
    reveal_strlit("file_path");
    assert("content"@.len() != "file_path"@.len());
    let json = new_file_json(value);
    assert(json.get("content"@) is Some);
    assert(json.get("file_path"@) is Some);
}

proof fn lemma_deleted_file_is_read_back(value: DeleteFileView)
    ensures
        deleted_file_args(deleted_file_json(value)) == Some(
            DeletedFileArgsView { file_path: value.file_path }
        ),
{
    reveal_with_fuel(member_named, 2);
    reveal_strlit("file_path");
    let json = deleted_file_json(value);
    assert(json.get("file_path"@) is Some);
}

proof fn lemma_line_ranges_are_read_back(values: Seq<LineRangeView>)
    ensures
        line_range_arg_list(line_ranges_json(values)) == Some(
            Seq::new(
                values.len(),
                |i: int| LineRangeArgView { start: values[i].start, end: values[i].end },
            )
        ),
{
    let items = line_ranges_json(values)->Array_0;
    let decode = |item: JsonView| line_range_arg(item);
    assert forall|i: int| 0 <= i < items.len() implies (#[trigger] decode(items[i])) == Some(
        LineRangeArgView { start: values[i].start, end: values[i].end },
    ) by {
        lemma_line_range_is_read_back(values[i]);
    }
    assert(
        decoded(items, decode)->0 =~= Seq::new(
            values.len(),
            |i: int| LineRangeArgView { start: values[i].start, end: values[i].end },
        )
    );
}

/// The argument of a file to read.
spec fn read_file_argument(value: ReadFileView) -> ReadFileArgView {
    ReadFileArgView {
        name: Some(value.name),
        line_ranges: Seq::new(
            value.line_ranges.len(),
            |i: int|
                LineRangeArgView {
                    start: value.line_ranges[i].start,
                    end: value.line_ranges[i].end,
                },
        ),
    }
}

proof fn lemma_read_file_is_read_back(value: ReadFileView)
    ensures
        read_file_arg(read_file_json(value)) == Some(read_file_argument(value)),
        read_file(read_file_argument(value)) == value,
{
    reveal_with_fuel(member_named, 3);
    reveal_strlit("line_ranges");
    reveal_strlit("path");
    reveal_strlit("name");
    reveal_strlit("file_path");
    assert("line_ranges"@.len() != "path"@.len());
    assert("line_ranges"@.len() != "name"@.len());
    assert("line_ranges"@.len() != "file_path"@.len());
    assert("path"@[0] != "name"@[0]);
    assert("path"@.len() != "file_path"@.len());
    assert("name"@.len() != "file_path"@.len());
    let json = read_file_json(value);
    assert(json.get("line_ranges"@) is Some);
    assert(json.get("path"@) is Some);
    assert(json.get("name"@) is None);
    assert(json.get("file_path"@) is None);
    lemma_line_ranges_are_read_back(value.line_ranges);
    assert(line_ranges(read_file_argument(value).line_ranges) =~= value.line_ranges);
}

proof fn lemma_read_files_are_read_back(values: Seq<ReadFileView>)
    ensures
        read_file_arg_list(read_files_json(values)) == Some(
            Seq::new(values.len(), |i: int| read_file_argument(values[i]))
        ),
{
    let items = read_files_json(values)->Array_0;
    let decode = |item: JsonView| read_file_arg(item);
    assert forall|i: int| 0 <= i < items.len() implies (#[trigger] decode(items[i])) == Some(
        read_file_argument(values[i]),
    ) by {
        lemma_read_file_is_read_back(values[i]);
    }
    assert(
        decoded(items, decode)->0 =~= Seq::new(values.len(), |i: int| read_file_argument(values[i]))
    );
}

/// The argument of a question.
spec fn question_argument(value: QuestionView) -> AskUserQuestionArgView {
    match value.question_type {
        Some(choice) => AskUserQuestionArgView {
            question_id: Some(value.question_id),
            question: value.question,
            options: choice.options,
            recommended_option_index: Some(choice.recommended_option_index),
            is_multiselect: choice.is_multiselect,
            supports_other: choice.supports_other,
        },
        None => AskUserQuestionArgView {
            question_id: Some(value.question_id),
            question: value.question,
            options: Seq::empty(),
            recommended_option_index: Some(-1i32),
            is_multiselect: false,
            supports_other: false,
        },
    }
}

proof fn lemma_question_is_read_back(value: QuestionView)
    ensures
        ask_user_question_arg(question_json(value)) == Some(question_argument(value)),
{
    reveal_with_fuel(member_named, 7);
    reveal_strlit("is_multiselect");
    reveal_strlit("options");
    reveal_strlit("question");
    reveal_strlit("question_id");
    reveal_strlit("recommended_option_index");
    reveal_strlit("supports_other");
    assert("is_multiselect"@.len() != "options"@.len());
    assert("is_multiselect"@.len() != "question"@.len());
    assert("is_multiselect"@.len() != "question_id"@.len());
    assert("is_multiselect"@.len() != "recommended_option_index"@.len());
    assert("is_multiselect"@[0] != "supports_other"@[0]);
    assert("options"@.len() != "question"@.len());
    assert("options"@.len() != "question_id"@.len());
    assert("options"@.len() != "recommended_option_index"@.len());
    assert("options"@.len() != "supports_other"@.len());
    assert("question"@.len() != "question_id"@.len());
    assert("question"@.len() != "recommended_option_index"@.len());
    assert("question"@.len() != "supports_other"@.len());
    assert("question_id"@.len() != "recommended_option_index"@.len());
    assert("question_id"@.len() != "supports_other"@.len());
    assert("recommended_option_index"@.len() != "supports_other"@.len());
    let json = question_json(value);
    assert(json.get("is_multiselect"@) is Some);
    assert(json.get("options"@) is Some);
    assert(json.get("question"@) is Some);
    assert(json.get("question_id"@) is Some);
    assert(json.get("recommended_option_index"@) is Some);
    assert(json.get("supports_other"@) is Some);
    lemma_texts_are_read_back(question_argument(value).options);
}

proof fn lemma_questions_are_read_back(values: Seq<QuestionView>)
    ensures
        ask_user_question_arg_list(questions_json(values)) == Some(
            Seq::new(values.len(), |i: int| question_argument(values[i]))
        ),
{
    let items = questions_json(values)->Array_0;
    let decode = |item: JsonView| ask_user_question_arg(item);
    assert forall|i: int| 0 <= i < items.len() implies (#[trigger] decode(items[i])) == Some(
        question_argument(values[i]),
    ) by {
        lemma_question_is_read_back(values[i]);
    }
    assert(
        decoded(items, decode)->0 =~= Seq::new(values.len(), |i: int| question_argument(values[i]))
    );
}

proof fn lemma_file_diffs_are_read_back(values: Seq<FileDiffView>)
    ensures
        file_diff_args_list(file_diffs_json(values)) == Some(
            Seq::new(
                values.len(),
                |i: int| FileDiffArgsView {
                    file_path: values[i].file_path,
                    search: values[i].search,
                    replace: values[i].replace,
                },
            )
        ),
{
    let items = file_diffs_json(values)->Array_0;
    let decode = |item: JsonView| file_diff_args(item);
    assert forall|i: int| 0 <= i < items.len() implies (#[trigger] decode(items[i])) == Some(
        FileDiffArgsView {
            file_path: values[i].file_path,
            search: values[i].search,
            replace: values[i].replace,
        },
    ) by {
        lemma_file_diff_is_read_back(values[i]);
    }
    assert(
        decoded(items, decode)->0 =~= Seq::new(
            values.len(),
            |i: int| FileDiffArgsView {
                file_path: values[i].file_path,
                search: values[i].search,
                replace: values[i].replace,
            },
        )
    );
}

proof fn lemma_new_files_are_read_back(values: Seq<NewFileView>)
    ensures
        new_file_args_list(new_files_json(values)) == Some(
            Seq::new(
                values.len(),
                |i: int| NewFileArgsView {
                    file_path: values[i].file_path,
                    content: values[i].content,
                },
            )
        ),
{
    let items = new_files_json(values)->Array_0;
    let decode = |item: JsonView| new_file_args(item);
    assert forall|i: int| 0 <= i < items.len() implies (#[trigger] decode(items[i])) == Some(
        NewFileArgsView { file_path: values[i].file_path, content: values[i].content },
    ) by {
        lemma_new_file_is_read_back(values[i]);
    }
    assert(
        decoded(items, decode)->0 =~= Seq::new(
            values.len(),
            |i: int| NewFileArgsView { file_path: values[i].file_path, content: values[i].content },
        )
    );
}

proof fn lemma_deleted_files_are_read_back(values: Seq<DeleteFileView>)
    ensures
        deleted_file_args_list(deleted_files_json(values)) == Some(
            Seq::new(values.len(), |i: int| DeletedFileArgsView { file_path: values[i].file_path })
        ),
{
    let items = deleted_files_json(values)->Array_0;
    let decode = |item: JsonView| deleted_file_args(item);
    assert forall|i: int| 0 <= i < items.len() implies (#[trigger] decode(items[i])) == Some(
        DeletedFileArgsView { file_path: values[i].file_path },
    ) by {
        lemma_deleted_file_is_read_back(values[i]);
    }
    assert(
        decoded(items, decode)->0 =~= Seq::new(
            values.len(),
            |i: int| DeletedFileArgsView { file_path: values[i].file_path },
        )
    );
}

/// The arguments of edits.
spec fn edits_argument(value: ApplyFileDiffsView) -> ApplyFileDiffsArgsView {
    ApplyFileDiffsArgsView {
        summary: Some(value.summary),
        diffs: Seq::new(
            value.diffs.len(),
            |i: int|
                FileDiffArgsView {
                    file_path: value.diffs[i].file_path,
                    search: value.diffs[i].search,
                    replace: value.diffs[i].replace,
                },
        ),
        new_files: Seq::new(
            value.new_files.len(),
            |i: int|
                NewFileArgsView {
                    file_path: value.new_files[i].file_path,
                    content: value.new_files[i].content,
                },
        ),
        deleted_files: Seq::new(
            value.deleted_files.len(),
            |i: int| DeletedFileArgsView { file_path: value.deleted_files[i].file_path },
        ),
        v4a_updates: Seq::empty(),
    }
}

proof fn lemma_edits_are_read_back(value: ApplyFileDiffsView)
    ensures
        apply_file_diffs_args(apply_file_diffs_json(value)) == Some(edits_argument(value)),
        value.v4a_updates.len() == 0 ==> apply_file_diffs(edits_argument(value)) == value,
{
    reveal_with_fuel(member_named, 5);
    reveal_strlit("deleted_files");
    reveal_strlit("diffs");
    reveal_strlit("new_files");
    reveal_strlit("summary");
    reveal_strlit("v4a_updates");
    assert("deleted_files"@.len() != "diffs"@.len());
    assert("deleted_files"@.len() != "new_files"@.len());
    assert("deleted_files"@.len() != "summary"@.len());
    assert("deleted_files"@.len() != "v4a_updates"@.len());
    assert("diffs"@.len() != "new_files"@.len());
    assert("diffs"@.len() != "summary"@.len());
    assert("diffs"@.len() != "v4a_updates"@.len());
    assert("new_files"@.len() != "summary"@.len());
    assert("new_files"@.len() != "v4a_updates"@.len());
    assert("summary"@.len() != "v4a_updates"@.len());
    let json = apply_file_diffs_json(value);
    assert(json.get("deleted_files"@) is Some);
    assert(json.get("diffs"@) is Some);
    assert(json.get("new_files"@) is Some);
    assert(json.get("summary"@) is Some);
    assert(json.get("v4a_updates"@) is None);
    lemma_file_diffs_are_read_back(value.diffs);
    lemma_new_files_are_read_back(value.new_files);
    lemma_deleted_files_are_read_back(value.deleted_files);
    let args = edits_argument(value);
    assert(file_diffs(args.diffs) =~= value.diffs);
    assert(new_files(args.new_files) =~= value.new_files);
    assert(deleted_files(args.deleted_files) =~= value.deleted_files);
    if value.v4a_updates.len() == 0 {
        assert(apply_file_diffs(args).v4a_updates =~= value.v4a_updates);
    }
}

proof fn lemma_reason_is_read_back(value: Seq<char>)
    ensures
        transfer_shell_command_control_args(single_member("reason"@, JsonView::Str(value))) == Some(
            TransferShellCommandControlArgsView { reason: value },
        ),
{
    reveal_with_fuel(member_named, 2);
    assert(single_member("reason"@, JsonView::Str(value)).get("reason"@) == Some(
        JsonView::Str(value),
    ));
}

// ---------------------------------------------------------------------------------------------
// Tools
// ---------------------------------------------------------------------------------------------
proof fn lemma_tool_names_differ()
    ensures
        "read_shell_command_output"@ != "run_shell_command"@,
        "write_to_lrc"@ != "run_shell_command"@,
        "write_to_lrc"@ != "read_shell_command_output"@,
        "transfer_shell_command_control"@ != "run_shell_command"@,
        "transfer_shell_command_control"@ != "read_shell_command_output"@,
        "transfer_shell_command_control"@ != "write_to_lrc"@,
        "transfer_shell_command_control"@ != "write_to_long_running_shell_command"@,
        "read_files"@ != "run_shell_command"@,
        "read_files"@ != "read_shell_command_output"@,
        "read_files"@ != "write_to_lrc"@,
        "read_files"@ != "write_to_long_running_shell_command"@,
        "read_files"@ != "transfer_shell_command_control"@,
        "read_files"@ != "transfer_shell_command_control_to_user"@,
        "search_codebase"@ != "run_shell_command"@,
        "search_codebase"@ != "read_shell_command_output"@,
        "search_codebase"@ != "write_to_lrc"@,
        "search_codebase"@ != "write_to_long_running_shell_command"@,
        "search_codebase"@ != "transfer_shell_command_control"@,
        "search_codebase"@ != "transfer_shell_command_control_to_user"@,
        "search_codebase"@ != "read_files"@,
        "grep"@ != "run_shell_command"@,
        "grep"@ != "read_shell_command_output"@,
        "grep"@ != "write_to_lrc"@,
        "grep"@ != "write_to_long_running_shell_command"@,
        "grep"@ != "transfer_shell_command_control"@,
        "grep"@ != "transfer_shell_command_control_to_user"@,
        "grep"@ != "read_files"@,
        "grep"@ != "search_codebase"@,
        "file_glob"@ != "run_shell_command"@,
        "file_glob"@ != "read_shell_command_output"@,
        "file_glob"@ != "write_to_lrc"@,
        "file_glob"@ != "write_to_long_running_shell_command"@,
        "file_glob"@ != "transfer_shell_command_control"@,
        "file_glob"@ != "transfer_shell_command_control_to_user"@,
        "file_glob"@ != "read_files"@,
        "file_glob"@ != "search_codebase"@,
        "file_glob"@ != "grep"@,
        "file_glob_v2"@ != "run_shell_command"@,
        "file_glob_v2"@ != "read_shell_command_output"@,
        "file_glob_v2"@ != "write_to_lrc"@,
        "file_glob_v2"@ != "write_to_long_running_shell_command"@,
        "file_glob_v2"@ != "transfer_shell_command_control"@,
        "file_glob_v2"@ != "transfer_shell_command_control_to_user"@,
        "file_glob_v2"@ != "read_files"@,
        "file_glob_v2"@ != "search_codebase"@,
        "file_glob_v2"@ != "grep"@,
        "file_glob_v2"@ != "file_glob"@,
        "ask_user_question"@ != "run_shell_command"@,
        "ask_user_question"@ != "read_shell_command_output"@,
        "ask_user_question"@ != "write_to_lrc"@,
        "ask_user_question"@ != "write_to_long_running_shell_command"@,
        "ask_user_question"@ != "transfer_shell_command_control"@,
        "ask_user_question"@ != "transfer_shell_command_control_to_user"@,
        "ask_user_question"@ != "read_files"@,
        "ask_user_question"@ != "search_codebase"@,
        "ask_user_question"@ != "grep"@,
        "ask_user_question"@ != "file_glob"@,
        "ask_user_question"@ != "file_glob_v2"@,
        "apply_file_diffs"@ != "run_shell_command"@,
        "apply_file_diffs"@ != "read_shell_command_output"@,
        "apply_file_diffs"@ != "write_to_lrc"@,
        "apply_file_diffs"@ != "write_to_long_running_shell_command"@,
        "apply_file_diffs"@ != "transfer_shell_command_control"@,
        "apply_file_diffs"@ != "transfer_shell_command_control_to_user"@,
        "apply_file_diffs"@ != "read_files"@,
        "apply_file_diffs"@ != "search_codebase"@,
        "apply_file_diffs"@ != "grep"@,
        "apply_file_diffs"@ != "file_glob"@,
        "apply_file_diffs"@ != "file_glob_v2"@,
        "apply_file_diffs"@ != "ask_user_question"@,
        "read_skill"@ != "run_shell_command"@,
        "read_skill"@ != "read_shell_command_output"@,
        "read_skill"@ != "write_to_lrc"@,
        "read_skill"@ != "write_to_long_running_shell_command"@,
        "read_skill"@ != "transfer_shell_command_control"@,
        "read_skill"@ != "transfer_shell_command_control_to_user"@,
        "read_skill"@ != "read_files"@,
        "read_skill"@ != "search_codebase"@,
        "read_skill"@ != "grep"@,
        "read_skill"@ != "file_glob"@,
        "read_skill"@ != "file_glob_v2"@,
        "read_skill"@ != "ask_user_question"@,
        "read_skill"@ != "apply_file_diffs"@,
        "read_skill"@ != "suggest_prompt"@,
{
    reveal_strlit("run_shell_command");
    reveal_strlit("read_shell_command_output");
    reveal_strlit("write_to_lrc");
    reveal_strlit("write_to_long_running_shell_command");
    reveal_strlit("transfer_shell_command_control");
    reveal_strlit("transfer_shell_command_control_to_user");
    reveal_strlit("read_files");
    reveal_strlit("search_codebase");
    reveal_strlit("grep");
    reveal_strlit("file_glob");
    reveal_strlit("file_glob_v2");
    reveal_strlit("ask_user_question");
    reveal_strlit("apply_file_diffs");
    reveal_strlit("suggest_prompt");
    reveal_strlit("read_skill");
    assert("read_shell_command_output"@.len() != "run_shell_command"@.len());
    assert("write_to_lrc"@.len() != "run_shell_command"@.len());
    assert("write_to_lrc"@.len() != "read_shell_command_output"@.len());
    assert("transfer_shell_command_control"@.len() != "run_shell_command"@.len());
    assert("transfer_shell_command_control"@.len() != "read_shell_command_output"@.len());
    assert("transfer_shell_command_control"@.len() != "write_to_lrc"@.len());
    assert("transfer_shell_command_control"@.len() != "write_to_long_running_shell_command"@.len());
    assert("read_files"@.len() != "run_shell_command"@.len());
    assert("read_files"@.len() != "read_shell_command_output"@.len());
    assert("read_files"@.len() != "write_to_lrc"@.len());
    assert("read_files"@.len() != "write_to_long_running_shell_command"@.len());
    assert("read_files"@.len() != "transfer_shell_command_control"@.len());
    assert("read_files"@.len() != "transfer_shell_command_control_to_user"@.len());
    assert("search_codebase"@.len() != "run_shell_command"@.len());
    assert("search_codebase"@.len() != "read_shell_command_output"@.len());
    assert("search_codebase"@.len() != "write_to_lrc"@.len());
    assert("search_codebase"@.len() != "write_to_long_running_shell_command"@.len());
    assert("search_codebase"@.len() != "transfer_shell_command_control"@.len());
    assert("search_codebase"@.len() != "transfer_shell_command_control_to_user"@.len());
    assert("search_codebase"@.len() != "read_files"@.len());
    assert("grep"@.len() != "run_shell_command"@.len());
    assert("grep"@.len() != "read_shell_command_output"@.len());
    assert("grep"@.len() != "write_to_lrc"@.len());
    assert("grep"@.len() != "write_to_long_running_shell_command"@.len());
    assert("grep"@.len() != "transfer_shell_command_control"@.len());
    assert("grep"@.len() != "transfer_shell_command_control_to_user"@.len());
    assert("grep"@.len() != "read_files"@.len());
    assert("grep"@.len() != "search_codebase"@.len());
    assert("file_glob"@.len() != "run_shell_command"@.len());
    assert("file_glob"@.len() != "read_shell_command_output"@.len());
    assert("file_glob"@.len() != "write_to_lrc"@.len());
    assert("file_glob"@.len() != "write_to_long_running_shell_command"@.len());
    assert("file_glob"@.len() != "transfer_shell_command_control"@.len());
    assert("file_glob"@.len() != "transfer_shell_command_control_to_user"@.len());
    assert("file_glob"@.len() != "read_files"@.len());
    assert("file_glob"@.len() != "search_codebase"@.len());
    assert("file_glob"@.len() != "grep"@.len());
    assert("file_glob_v2"@.len() != "run_shell_command"@.len());
    assert("file_glob_v2"@.len() != "read_shell_command_output"@.len());
    assert("file_glob_v2"@[0] != "write_to_lrc"@[0]);
    assert("file_glob_v2"@.len() != "write_to_long_running_shell_command"@.len());
    assert("file_glob_v2"@.len() != "transfer_shell_command_control"@.len());
    assert("file_glob_v2"@.len() != "transfer_shell_command_control_to_user"@.len());
    assert("file_glob_v2"@.len() != "read_files"@.len());
    assert("file_glob_v2"@.len() != "search_codebase"@.len());
    assert("file_glob_v2"@.len() != "grep"@.len());
    assert("file_glob_v2"@.len() != "file_glob"@.len());
    assert("ask_user_question"@[0] != "run_shell_command"@[0]);
    assert("ask_user_question"@.len() != "read_shell_command_output"@.len());
    assert("ask_user_question"@.len() != "write_to_lrc"@.len());
    assert("ask_user_question"@.len() != "write_to_long_running_shell_command"@.len());
    assert("ask_user_question"@.len() != "transfer_shell_command_control"@.len());
    assert("ask_user_question"@.len() != "transfer_shell_command_control_to_user"@.len());
    assert("ask_user_question"@.len() != "read_files"@.len());
    assert("ask_user_question"@.len() != "search_codebase"@.len());
    assert("ask_user_question"@.len() != "grep"@.len());
    assert("ask_user_question"@.len() != "file_glob"@.len());
    assert("ask_user_question"@.len() != "file_glob_v2"@.len());
    assert("apply_file_diffs"@.len() != "run_shell_command"@.len());
    assert("apply_file_diffs"@.len() != "read_shell_command_output"@.len());
    assert("apply_file_diffs"@.len() != "write_to_lrc"@.len());
    assert("apply_file_diffs"@.len() != "write_to_long_running_shell_command"@.len());
    assert("apply_file_diffs"@.len() != "transfer_shell_command_control"@.len());
    assert("apply_file_diffs"@.len() != "transfer_shell_command_control_to_user"@.len());
    assert("apply_file_diffs"@.len() != "read_files"@.len());
    assert("apply_file_diffs"@.len() != "search_codebase"@.len());
    assert("apply_file_diffs"@.len() != "grep"@.len());
    assert("apply_file_diffs"@.len() != "file_glob"@.len());
    assert("apply_file_diffs"@.len() != "file_glob_v2"@.len());
    assert("apply_file_diffs"@.len() != "ask_user_question"@.len());
    assert("read_skill"@.len() != "run_shell_command"@.len());
    assert("read_skill"@.len() != "read_shell_command_output"@.len());
    assert("read_skill"@.len() != "write_to_lrc"@.len());
    assert("read_skill"@.len() != "write_to_long_running_shell_command"@.len());
    assert("read_skill"@.len() != "transfer_shell_command_control"@.len());
    assert("read_skill"@.len() != "transfer_shell_command_control_to_user"@.len());
    assert("read_skill"@[5] != "read_files"@[5]);
    assert("read_skill"@.len() != "search_codebase"@.len());
    assert("read_skill"@.len() != "grep"@.len());
    assert("read_skill"@.len() != "file_glob"@.len());
    assert("read_skill"@.len() != "file_glob_v2"@.len());
    assert("read_skill"@.len() != "ask_user_question"@.len());
    assert("read_skill"@.len() != "apply_file_diffs"@.len());
    assert("read_skill"@.len() != "suggest_prompt"@.len());
}

/// A call of a tool becomes a call of the tool of that name.
pub proof fn lemma_names_stand_for_tools(parsed: Result<JsonView, Seq<char>>)
    ensures
        tool_of("run_shell_command"@, parsed) matches Ok(tool) ==> tool is RunShellCommand,
        tool_of(
            "read_shell_command_output"@,
            parsed,
        ) matches Ok(tool) ==> tool is ReadShellCommandOutput,
        tool_of(
            "write_to_lrc"@,
            parsed,
        ) matches Ok(tool) ==> tool is WriteToLongRunningShellCommand,
        tool_of(
            "transfer_shell_command_control"@,
            parsed,
        ) matches Ok(tool) ==> tool is TransferShellCommandControlToUser,
        tool_of("read_files"@, parsed) matches Ok(tool) ==> tool is ReadFiles,
        tool_of("search_codebase"@, parsed) matches Ok(tool) ==> tool is SearchCodebase,
        tool_of("grep"@, parsed) matches Ok(tool) ==> tool is Grep,
        tool_of("file_glob"@, parsed) matches Ok(tool) ==> tool is FileGlob,
        tool_of("file_glob_v2"@, parsed) matches Ok(tool) ==> tool is FileGlobV2,
        tool_of("ask_user_question"@, parsed) matches Ok(tool) ==> tool is AskUserQuestion,
        tool_of("apply_file_diffs"@, parsed) matches Ok(tool) ==> tool is ApplyFileDiffs,
        tool_of("read_skill"@, parsed) matches Ok(tool) ==> tool is ReadSkill,
{
    lemma_tool_names_differ();
}

/// Whether an identifier is left open, or says something.
pub open spec fn open_or_said(id: Seq<char>) -> bool {
    id.len() == 0 || !blank(id)
}

/// Whether a tool is of the form in which a backend asks for it: nothing that has a default is left
/// open. Edits in the form of patches are left out, of which a backend is not told.
pub open spec fn settled(tool: ToolView) -> bool {
    match tool {
        ToolView::RunShellCommand(command) => command.wait_until_complete is Some,
        ToolView::ReadShellCommandOutput(command) => command.delay matches Some(
            DelayView::Seconds(seconds),
        ) ==> seconds >= 0,
        ToolView::WriteToLongRunningShellCommand(command) => valid_utf8(command.input)
            && command.mode is Some,
        ToolView::ReadSkill(skill) => match skill.skill_reference {
            Some(SkillReferenceView::SkillPath(path)) => !blank(path),
            Some(SkillReferenceView::BundledSkillId(id)) => !blank(id),
            None => false,
        },
        ToolView::AskUserQuestion(ask) => forall|i: int|
            0 <= i < ask.questions.len() ==> (#[trigger] ask.questions[i]).question_type is Some
                && open_or_said(ask.questions[i].question_id),
        ToolView::ApplyFileDiffs(diffs) => diffs.v4a_updates.len() == 0,
        _ => true,
    }
}

proof fn lemma_mode_is_read_back(command: WriteToLongRunningShellCommandView)
    requires
        command.mode is Some,
        valid_utf8(command.input),
    ensures
        write_mode(
            WriteToLongRunningShellCommandArgsView {
                command_id: command.command_id,
                input: text_in(command.input),
                mode: Some(mode_name(command.mode)),
            },
        ) == command.mode->0,
        vstd::utf8::encode_utf8(text_in(command.input)) == command.input,
{
    reveal_strlit("line");
    reveal_strlit("block");
    reveal_strlit("raw");
    assert(lowered("line"@) =~= "line"@);
    assert(lowered("block"@) =~= "block"@);
    assert(lowered("raw"@) =~= "raw"@);
    assert("raw"@.len() != "line"@.len());
    assert("raw"@.len() != "block"@.len());
    assert("line"@.len() != "block"@.len());
    decode_utf8_encode_utf8(command.input);
}

/// What a backend is told of a tool, it would ask for again: read as arguments, it gives the same
/// tool.
pub proof fn lemma_tool_is_told_as_it_was(tool: ToolView)
    requires
        settled(tool),
    ensures
        tool_arguments(tool) matches Some(call) ==> tool_of(call.0, Ok(call.1)) == Ok::<
            ToolView,
            Seq<char>,
        >(tool),
{
    lemma_tool_names_differ();
    match tool {
        ToolView::RunShellCommand(command) => {
            lemma_run_shell_is_read_back(command);
        },
        ToolView::ReadShellCommandOutput(command) => {
            lemma_read_output_is_read_back(command);
        },
        ToolView::WriteToLongRunningShellCommand(command) => {
            lemma_write_input_is_read_back(command);
            lemma_mode_is_read_back(command);
        },
        ToolView::TransferShellCommandControlToUser(transfer) => {
            lemma_reason_is_read_back(transfer.reason);
        },
        ToolView::ReadFiles(read) => {
            let json = single_member("files"@, read_files_json(read.files));
            reveal_with_fuel(member_named, 2);
            assert(json.get("files"@) == Some(read_files_json(read.files)));
            lemma_read_files_are_read_back(read.files);
            let args = Seq::new(read.files.len(), |i: int| read_file_argument(read.files[i]));
            assert(read_files_args(json) == Some(ReadFilesArgsView { files: args }));
            assert forall|i: int| 0 <= i < args.len() implies read_file(args[i])
                == #[trigger] read.files[i] by {
                lemma_read_file_is_read_back(read.files[i]);
            }
            assert(read_files(args) =~= read.files);
        },
        ToolView::SearchCodebase(search) => {
            lemma_search_is_read_back(search);
        },
        ToolView::Grep(grep) => {
            lemma_grep_is_read_back(grep);
        },
        ToolView::FileGlob(glob) => {
            lemma_file_glob_is_read_back(glob);
        },
        ToolView::FileGlobV2(glob) => {
            lemma_file_glob_v2_is_read_back(glob);
        },
        ToolView::ReadSkill(skill) => {
            lemma_read_skill_is_read_back(skill);
            assert(blank(Seq::<char>::empty()));
        },
        ToolView::AskUserQuestion(ask) => {
            let json = single_member("questions"@, questions_json(ask.questions));
            reveal_with_fuel(member_named, 2);
            assert(json.get("questions"@) == Some(questions_json(ask.questions)));
            lemma_questions_are_read_back(ask.questions);
            let args = Seq::new(ask.questions.len(), |i: int| question_argument(ask.questions[i]));
            assert(
                ask_user_question_args(json) == Some(AskUserQuestionArgsView { questions: args })
            );
            assert forall|i: int| 0 <= i < args.len() implies question(args[i])
                == #[trigger] ask.questions[i] by {
                let asked = ask.questions[i];
                if asked.question_id.len() == 0 {
                    assert(asked.question_id =~= Seq::<char>::empty());
                }
            }
            assert(questions(args) =~= ask.questions);
        },
        ToolView::ApplyFileDiffs(diffs) => {
            lemma_edits_are_read_back(diffs);
        },
        _ => {},
    }
}

/// A tool that a backend asked for is settled, unless it is edits in the form of patches.
pub proof fn lemma_called_tools_are_settled(name: Seq<char>, parsed: Result<JsonView, Seq<char>>)
    requires
        tool_of(name, parsed) matches Ok(
            ToolView::ApplyFileDiffs(diffs)
        ) ==> diffs.v4a_updates.len()
            == 0,
    ensures
        tool_of(name, parsed) matches Ok(tool) ==> settled(tool),
{
    match parsed {
        Ok(json) => {
            match write_to_long_running_shell_command_args(json) {
                Some(args) => {
                    encode_utf8_valid_utf8(args.input);
                },
                None => {},
            }
        },
        Err(_) => {},
    }
}

/// A call that a backend made is told to it as the call that it made: with a settled tool.
pub proof fn lemma_calls_are_told_as_they_were(name: Seq<char>, parsed: Result<JsonView, Seq<char>>)
    requires
        tool_of(name, parsed) matches Ok(
            ToolView::ApplyFileDiffs(diffs)
        ) ==> diffs.v4a_updates.len()
            == 0,
    ensures
        tool_of(name, parsed) matches Ok(tool) ==> (tool_arguments(tool) matches Some(call)
            ==> tool_of(call.0, Ok(call.1)) == tool_of(name, parsed)),
{
    lemma_called_tools_are_settled(name, parsed);
    match tool_of(name, parsed) {
        Ok(tool) => {
            lemma_tool_is_told_as_it_was(tool);
        },
        Err(_) => {},
    }
}

} // verus!
