//! Telling a backend which tools it has called before.
use crate::bytes::{text_in, text_of_bytes};
use crate::json::{int_json, json_text, texts_json, Json, JsonView};
use crate::json::members_view;
use crate::text::{opt_view, views};
use crate::warp::{
    ApplyFileDiffs, ApplyFileDiffsView, AskUserQuestion, Delay, DelayView, DeleteFile,
    DeleteFileView, FileDiff, FileDiffView, FileGlob, FileGlobV2, FileGlobV2View, FileGlobView,
    Grep, GrepView, LineRange, LineRangeView, NewFile, NewFileView, Question, QuestionView,
    ReadFile, ReadFileView, ReadShellCommandOutput, ReadShellCommandOutputView, ReadSkill,
    ReadSkillView, RunShellCommand, RunShellCommandView, SearchCodebase, SearchCodebaseView,
    SkillReference, SkillReferenceView, Tool, ToolCall, ToolCallView, ToolView, WriteMode,
    WriteToLongRunningShellCommand, WriteToLongRunningShellCommandView,
};
use crate::wire::{
    OpenAIFunctionCall, OpenAIFunctionCallView, OpenAIMessageToolCall, OpenAIMessageToolCallView,
};
use vstd::prelude::*;

verus! {

/// The seconds after which to read, where they are given.
pub open spec fn delay_seconds(command: ReadShellCommandOutputView) -> Option<i64> {
    match command.delay {
        Some(DelayView::Seconds(seconds)) => Some(seconds),
        _ => None,
    }
}

/// The seconds after which to read, where they are given.
pub fn read_shell_delay_seconds(command: &ReadShellCommandOutput) -> (r: Option<i64>)
    ensures
        r == delay_seconds(command@),
{
    match &command.delay {
        Some(Delay::Seconds(seconds)) => Some(*seconds),
        _ => None,
    }
}

/// Whether to read once the command has ended.
pub open spec fn waits_until_complete(command: ReadShellCommandOutputView) -> bool {
    command.delay == Some(DelayView::OnCompletion)
}

/// Whether to read once the command has ended.
pub fn read_shell_waits_until_complete(command: &ReadShellCommandOutput) -> (r: bool)
    ensures
        r == waits_until_complete(command@),
{
    match &command.delay {
        Some(Delay::OnCompletion) => true,
        _ => false,
    }
}

/// The name of a way to write.
pub open spec fn mode_name(mode: Option<WriteMode>) -> Seq<char> {
    match mode {
        Some(WriteMode::Line) => "line"@,
        Some(WriteMode::Block) => "block"@,
        Some(WriteMode::Raw) => "raw"@,
        None => "raw"@,
    }
}

/// The name of the way in which input is written.
pub fn write_to_lrc_mode_name(command: &WriteToLongRunningShellCommand) -> (r: &'static str)
    ensures
        r@ == mode_name(command@.mode),
{
    match command.mode {
        Some(WriteMode::Line) => "line",
        Some(WriteMode::Block) => "block",
        Some(WriteMode::Raw) => "raw",
        None => "raw",
    }
}

/// An optional integer; null where there is none.
pub open spec fn opt_int_json(n: Option<i64>) -> JsonView {
    match n {
        Some(n) => int_json(n),
        None => JsonView::Null,
    }
}

fn new_opt_int(n: Option<i64>) -> (r: Json)
    ensures
        r@ == opt_int_json(n),
{
    match n {
        Some(n) => Json::integer(n),
        None => Json::Null,
    }
}

/// The arguments of `run_shell_command`.
pub open spec fn run_shell_json(command: RunShellCommandView) -> JsonView {
    let wait = match command.wait_until_complete {
        Some(wait) => wait,
        None => true,
    };
    JsonView::Object(
        seq![
            ("command"@, JsonView::Str(command.command)),
            ("is_read_only"@, JsonView::Bool(command.is_read_only)),
            ("is_risky"@, JsonView::Bool(command.is_risky)),
            ("uses_pager"@, JsonView::Bool(command.uses_pager)),
            ("wait_until_complete"@, JsonView::Bool(wait)),
        ],
    )
}

fn new_run_shell_json(command: &RunShellCommand) -> (r: Json)
    ensures
        r@ == run_shell_json(command@),
{
    let wait = match command.wait_until_complete {
        Some(wait) => wait,
        None => true,
    };
    let members = vec![
        ("command".to_owned(), Json::text(command.command.as_str())),
        ("is_read_only".to_owned(), Json::Bool(command.is_read_only)),
        ("is_risky".to_owned(), Json::Bool(command.is_risky)),
        ("uses_pager".to_owned(), Json::Bool(command.uses_pager)),
        ("wait_until_complete".to_owned(), Json::Bool(wait)),
    ];
    assert(members_view(members@) =~= run_shell_json(command@)->Object_0);
    Json::object(members)
}

/// The arguments of `read_shell_command_output`.
pub open spec fn read_output_json(command: ReadShellCommandOutputView) -> JsonView {
    JsonView::Object(
        seq![
            ("command_id"@, JsonView::Str(command.command_id)),
            ("delay_seconds"@, opt_int_json(delay_seconds(command))),
            ("wait_until_complete"@, JsonView::Bool(waits_until_complete(command))),
        ],
    )
}

fn new_read_output_json(command: &ReadShellCommandOutput) -> (r: Json)
    ensures
        r@ == read_output_json(command@),
{
    let members = vec![
        ("command_id".to_owned(), Json::text(command.command_id.as_str())),
        ("delay_seconds".to_owned(), new_opt_int(read_shell_delay_seconds(command))),
        ("wait_until_complete".to_owned(), Json::Bool(read_shell_waits_until_complete(command))),
    ];
    assert(members_view(members@) =~= read_output_json(command@)->Object_0);
    Json::object(members)
}

/// The arguments of `write_to_lrc`.
pub open spec fn write_input_json(command: WriteToLongRunningShellCommandView) -> JsonView {
    JsonView::Object(
        seq![
            ("command_id"@, JsonView::Str(command.command_id)),
            ("input"@, JsonView::Str(text_in(command.input))),
            ("mode"@, JsonView::Str(mode_name(command.mode))),
        ],
    )
}

fn new_write_input_json(command: &WriteToLongRunningShellCommand) -> (r: Json)
    ensures
        r@ == write_input_json(command@),
{
    let members = vec![
        ("command_id".to_owned(), Json::text(command.command_id.as_str())),
        ("input".to_owned(), Json::Str(text_of_bytes(&command.input))),
        ("mode".to_owned(), Json::text(write_to_lrc_mode_name(command))),
    ];
    assert(members_view(members@) =~= write_input_json(command@)->Object_0);
    Json::object(members)
}

/// A range of lines.
pub open spec fn line_range_json(range: LineRangeView) -> JsonView {
    JsonView::Object(
        seq![
            ("end"@, int_json(range.end as i64)),
            ("start"@, int_json(range.start as i64)),
        ],
    )
}

fn new_line_range_json(range: &LineRange) -> (r: Json)
    ensures
        r@ == line_range_json(range@),
{
    let members = vec![
        ("end".to_owned(), Json::integer(range.end as i64)),
        ("start".to_owned(), Json::integer(range.start as i64)),
    ];
    assert(members_view(members@) =~= line_range_json(range@)->Object_0);
    Json::object(members)
}

/// Ranges of lines.
pub open spec fn line_ranges_json(items: Seq<LineRangeView>) -> JsonView {
    JsonView::Array(Seq::new(items.len(), |i: int| line_range_json(items[i])))
}

fn new_line_ranges_json(items: &Vec<LineRange>) -> (r: Json)
    ensures
        r@ == line_ranges_json(views(items@)),
{
    let mut r: Vec<Json> = Vec::new();
    let mut i: usize = 0;
    while i < items.len()
        invariant
            i <= items.len(),
            r.len() == i,
            forall|k: int| 0 <= k < i ==> (#[trigger] r@[k])@ == line_range_json(items@[k]@),
        decreases items.len() - i,
    {
        let item = new_line_range_json(&items[i]);
        r.push(item);
        i += 1;
    }
    assert(views(r@) =~= line_ranges_json(views(items@))->Array_0);
    Json::array(r)
}

/// A file to read.
pub open spec fn read_file_json(file: ReadFileView) -> JsonView {
    JsonView::Object(
        seq![
            ("line_ranges"@, line_ranges_json(file.line_ranges)),
            ("path"@, JsonView::Str(file.name)),
        ],
    )
}

fn new_read_file_json(file: &ReadFile) -> (r: Json)
    ensures
        r@ == read_file_json(file@),
{
    let members = vec![
        ("line_ranges".to_owned(), new_line_ranges_json(&file.line_ranges)),
        ("path".to_owned(), Json::text(file.name.as_str())),
    ];
    assert(members_view(members@) =~= read_file_json(file@)->Object_0);
    Json::object(members)
}

/// Files to read.
pub open spec fn read_files_json(items: Seq<ReadFileView>) -> JsonView {
    JsonView::Array(Seq::new(items.len(), |i: int| read_file_json(items[i])))
}

fn new_read_files_json(items: &Vec<ReadFile>) -> (r: Json)
    ensures
        r@ == read_files_json(views(items@)),
{
    let mut r: Vec<Json> = Vec::new();
    let mut i: usize = 0;
    while i < items.len()
        invariant
            i <= items.len(),
            r.len() == i,
            forall|k: int| 0 <= k < i ==> (#[trigger] r@[k])@ == read_file_json(items@[k]@),
        decreases items.len() - i,
    {
        let item = new_read_file_json(&items[i]);
        r.push(item);
        i += 1;
    }
    assert(views(r@) =~= read_files_json(views(items@))->Array_0);
    Json::array(r)
}

/// The arguments of `search_codebase`.
pub open spec fn search_json(search: SearchCodebaseView) -> JsonView {
    JsonView::Object(
        seq![
            ("codebase_path"@, JsonView::Str(search.codebase_path)),
            ("path_filters"@, texts_json(search.path_filters)),
            ("query"@, JsonView::Str(search.query)),
        ],
    )
}

fn new_search_json(search: &SearchCodebase) -> (r: Json)
    ensures
        r@ == search_json(search@),
{
    let members = vec![
        ("codebase_path".to_owned(), Json::text(search.codebase_path.as_str())),
        ("path_filters".to_owned(), Json::texts(&search.path_filters)),
        ("query".to_owned(), Json::text(search.query.as_str())),
    ];
    assert(members_view(members@) =~= search_json(search@)->Object_0);
    Json::object(members)
}

/// The arguments of `grep`.
pub open spec fn grep_json(grep: GrepView) -> JsonView {
    JsonView::Object(
        seq![
            ("path"@, JsonView::Str(grep.path)),
            ("queries"@, texts_json(grep.queries)),
        ],
    )
}

fn new_grep_json(grep: &Grep) -> (r: Json)
    ensures
        r@ == grep_json(grep@),
{
    let members = vec![
        ("path".to_owned(), Json::text(grep.path.as_str())),
        ("queries".to_owned(), Json::texts(&grep.queries)),
    ];
    assert(members_view(members@) =~= grep_json(grep@)->Object_0);
    Json::object(members)
}

/// The arguments of `file_glob`.
pub open spec fn file_glob_json(glob: FileGlobView) -> JsonView {
    JsonView::Object(
        seq![
            ("path"@, JsonView::Str(glob.path)),
            ("patterns"@, texts_json(glob.patterns)),
        ],
    )
}

fn new_file_glob_json(glob: &FileGlob) -> (r: Json)
    ensures
        r@ == file_glob_json(glob@),
{
    let members = vec![
        ("path".to_owned(), Json::text(glob.path.as_str())),
        ("patterns".to_owned(), Json::texts(&glob.patterns)),
    ];
    assert(members_view(members@) =~= file_glob_json(glob@)->Object_0);
    Json::object(members)
}

/// The arguments of `file_glob_v2`.
pub open spec fn file_glob_v2_json(glob: FileGlobV2View) -> JsonView {
    JsonView::Object(
        seq![
            ("max_depth"@, int_json(glob.max_depth as i64)),
            ("max_matches"@, int_json(glob.max_matches as i64)),
            ("min_depth"@, int_json(glob.min_depth as i64)),
            ("patterns"@, texts_json(glob.patterns)),
            ("search_dir"@, JsonView::Str(glob.search_dir)),
        ],
    )
}

fn new_file_glob_v2_json(glob: &FileGlobV2) -> (r: Json)
    ensures
        r@ == file_glob_v2_json(glob@),
{
    let members = vec![
        ("max_depth".to_owned(), Json::integer(glob.max_depth as i64)),
        ("max_matches".to_owned(), Json::integer(glob.max_matches as i64)),
        ("min_depth".to_owned(), Json::integer(glob.min_depth as i64)),
        ("patterns".to_owned(), Json::texts(&glob.patterns)),
        ("search_dir".to_owned(), Json::text(glob.search_dir.as_str())),
    ];
    assert(members_view(members@) =~= file_glob_v2_json(glob@)->Object_0);
    Json::object(members)
}

/// The path and the identifier of a skill, of which one is empty.
pub open spec fn skill_names(reference: Option<SkillReferenceView>) -> (Seq<char>, Seq<char>) {
    match reference {
        Some(SkillReferenceView::SkillPath(path)) => (path, Seq::empty()),
        Some(SkillReferenceView::BundledSkillId(id)) => (Seq::empty(), id),
        None => (Seq::empty(), Seq::empty()),
    }
}

/// The arguments of `read_skill`.
pub open spec fn read_skill_json(skill: ReadSkillView) -> JsonView {
    let names = skill_names(skill.skill_reference);
    JsonView::Object(
        seq![
            ("bundled_skill_id"@, JsonView::Str(names.1)),
            ("name"@, JsonView::Str(skill.name)),
            ("skill_path"@, JsonView::Str(names.0)),
        ],
    )
}

fn new_read_skill_json(skill: &ReadSkill) -> (r: Json)
    ensures
        r@ == read_skill_json(skill@),
{
    let (skill_path, bundled_skill_id) = match &skill.skill_reference {
        Some(SkillReference::SkillPath(path)) => (path.clone(), String::new()),
        Some(SkillReference::BundledSkillId(id)) => (String::new(), id.clone()),
        None => (String::new(), String::new()),
    };
    let members = vec![
        ("bundled_skill_id".to_owned(), Json::Str(bundled_skill_id)),
        ("name".to_owned(), Json::text(skill.name.as_str())),
        ("skill_path".to_owned(), Json::Str(skill_path)),
    ];
    assert(members_view(members@) =~= read_skill_json(skill@)->Object_0);
    Json::object(members)
}

/// A question; without options it has no options and no recommendation.
pub open spec fn question_json(question: QuestionView) -> JsonView {
    let (is_multiselect, options, recommended, supports_other) = match question.question_type {
        Some(choice) => (
            choice.is_multiselect,
            choice.options,
            choice.recommended_option_index,
            choice.supports_other,
        ),
        None => (false, Seq::empty(), -1i32, false),
    };
    JsonView::Object(
        seq![
            ("is_multiselect"@, JsonView::Bool(is_multiselect)),
            ("options"@, texts_json(options)),
            ("question"@, JsonView::Str(question.question)),
            ("question_id"@, JsonView::Str(question.question_id)),
            ("recommended_option_index"@, int_json(recommended as i64)),
            ("supports_other"@, JsonView::Bool(supports_other)),
        ],
    )
}

fn new_question_json(question: &Question) -> (r: Json)
    ensures
        r@ == question_json(question@),
{
    let (
        is_multiselect,
        options,
        recommended,
        supports_other,
    ): (bool, Json, i32, bool) = match &question.question_type {
        Some(choice) => (
            choice.is_multiselect,
            Json::texts(&choice.options),
            choice.recommended_option_index,
            choice.supports_other,
        ),
        None => {
            let options: Vec<String> = Vec::new();
            assert(views(options@) =~= Seq::<Seq<char>>::empty());
            (false, Json::texts(&options), -1, false)
        },
    };
    let members = vec![
        ("is_multiselect".to_owned(), Json::Bool(is_multiselect)),
        ("options".to_owned(), options),
        ("question".to_owned(), Json::text(question.question.as_str())),
        ("question_id".to_owned(), Json::text(question.question_id.as_str())),
        ("recommended_option_index".to_owned(), Json::integer(recommended as i64)),
        ("supports_other".to_owned(), Json::Bool(supports_other)),
    ];
    assert(members_view(members@) =~= question_json(question@)->Object_0);
    Json::object(members)
}

/// Questions.
pub open spec fn questions_json(items: Seq<QuestionView>) -> JsonView {
    JsonView::Array(Seq::new(items.len(), |i: int| question_json(items[i])))
}

fn new_questions_json(items: &Vec<Question>) -> (r: Json)
    ensures
        r@ == questions_json(views(items@)),
{
    let mut r: Vec<Json> = Vec::new();
    let mut i: usize = 0;
    while i < items.len()
        invariant
            i <= items.len(),
            r.len() == i,
            forall|k: int| 0 <= k < i ==> (#[trigger] r@[k])@ == question_json(items@[k]@),
        decreases items.len() - i,
    {
        let item = new_question_json(&items[i]);
        r.push(item);
        i += 1;
    }
    assert(views(r@) =~= questions_json(views(items@))->Array_0);
    Json::array(r)
}

/// A text of a file to replace.
pub open spec fn file_diff_json(diff: FileDiffView) -> JsonView {
    JsonView::Object(
        seq![
            ("file_path"@, JsonView::Str(diff.file_path)),
            ("replace"@, JsonView::Str(diff.replace)),
            ("search"@, JsonView::Str(diff.search)),
        ],
    )
}

fn new_file_diff_json(diff: &FileDiff) -> (r: Json)
    ensures
        r@ == file_diff_json(diff@),
{
    let members = vec![
        ("file_path".to_owned(), Json::text(diff.file_path.as_str())),
        ("replace".to_owned(), Json::text(diff.replace.as_str())),
        ("search".to_owned(), Json::text(diff.search.as_str())),
    ];
    assert(members_view(members@) =~= file_diff_json(diff@)->Object_0);
    Json::object(members)
}

/// Texts of files to replace.
pub open spec fn file_diffs_json(items: Seq<FileDiffView>) -> JsonView {
    JsonView::Array(Seq::new(items.len(), |i: int| file_diff_json(items[i])))
}

fn new_file_diffs_json(items: &Vec<FileDiff>) -> (r: Json)
    ensures
        r@ == file_diffs_json(views(items@)),
{
    let mut r: Vec<Json> = Vec::new();
    let mut i: usize = 0;
    while i < items.len()
        invariant
            i <= items.len(),
            r.len() == i,
            forall|k: int| 0 <= k < i ==> (#[trigger] r@[k])@ == file_diff_json(items@[k]@),
        decreases items.len() - i,
    {
        let item = new_file_diff_json(&items[i]);
        r.push(item);
        i += 1;
    }
    assert(views(r@) =~= file_diffs_json(views(items@))->Array_0);
    Json::array(r)
}

/// A file to create.
pub open spec fn new_file_json(file: NewFileView) -> JsonView {
    JsonView::Object(
        seq![
            ("content"@, JsonView::Str(file.content)),
            ("file_path"@, JsonView::Str(file.file_path)),
        ],
    )
}

fn new_new_file_json(file: &NewFile) -> (r: Json)
    ensures
        r@ == new_file_json(file@),
{
    let members = vec![
        ("content".to_owned(), Json::text(file.content.as_str())),
        ("file_path".to_owned(), Json::text(file.file_path.as_str())),
    ];
    assert(members_view(members@) =~= new_file_json(file@)->Object_0);
    Json::object(members)
}

/// Files to create.
pub open spec fn new_files_json(items: Seq<NewFileView>) -> JsonView {
    JsonView::Array(Seq::new(items.len(), |i: int| new_file_json(items[i])))
}

fn new_new_files_json(items: &Vec<NewFile>) -> (r: Json)
    ensures
        r@ == new_files_json(views(items@)),
{
    let mut r: Vec<Json> = Vec::new();
    let mut i: usize = 0;
    while i < items.len()
        invariant
            i <= items.len(),
            r.len() == i,
            forall|k: int| 0 <= k < i ==> (#[trigger] r@[k])@ == new_file_json(items@[k]@),
        decreases items.len() - i,
    {
        let item = new_new_file_json(&items[i]);
        r.push(item);
        i += 1;
    }
    assert(views(r@) =~= new_files_json(views(items@))->Array_0);
    Json::array(r)
}

/// A file to delete.
pub open spec fn deleted_file_json(file: DeleteFileView) -> JsonView {
    JsonView::Object(
        seq![
            ("file_path"@, JsonView::Str(file.file_path)),
        ],
    )
}

fn new_deleted_file_json(file: &DeleteFile) -> (r: Json)
    ensures
        r@ == deleted_file_json(file@),
{
    let members = vec![
        ("file_path".to_owned(), Json::text(file.file_path.as_str())),
    ];
    assert(members_view(members@) =~= deleted_file_json(file@)->Object_0);
    Json::object(members)
}

/// Files to delete.
pub open spec fn deleted_files_json(items: Seq<DeleteFileView>) -> JsonView {
    JsonView::Array(Seq::new(items.len(), |i: int| deleted_file_json(items[i])))
}

fn new_deleted_files_json(items: &Vec<DeleteFile>) -> (r: Json)
    ensures
        r@ == deleted_files_json(views(items@)),
{
    let mut r: Vec<Json> = Vec::new();
    let mut i: usize = 0;
    while i < items.len()
        invariant
            i <= items.len(),
            r.len() == i,
            forall|k: int| 0 <= k < i ==> (#[trigger] r@[k])@ == deleted_file_json(items@[k]@),
        decreases items.len() - i,
    {
        let item = new_deleted_file_json(&items[i]);
        r.push(item);
        i += 1;
    }
    assert(views(r@) =~= deleted_files_json(views(items@))->Array_0);
    Json::array(r)
}

/// The arguments of `apply_file_diffs`.
pub open spec fn apply_file_diffs_json(diffs: ApplyFileDiffsView) -> JsonView {
    JsonView::Object(
        seq![
            ("deleted_files"@, deleted_files_json(diffs.deleted_files)),
            ("diffs"@, file_diffs_json(diffs.diffs)),
            ("new_files"@, new_files_json(diffs.new_files)),
            ("summary"@, JsonView::Str(diffs.summary)),
        ],
    )
}

fn new_apply_file_diffs_json(diffs: &ApplyFileDiffs) -> (r: Json)
    ensures
        r@ == apply_file_diffs_json(diffs@),
{
    let members = vec![
        ("deleted_files".to_owned(), new_deleted_files_json(&diffs.deleted_files)),
        ("diffs".to_owned(), new_file_diffs_json(&diffs.diffs)),
        ("new_files".to_owned(), new_new_files_json(&diffs.new_files)),
        ("summary".to_owned(), Json::text(diffs.summary.as_str())),
    ];
    assert(members_view(members@) =~= apply_file_diffs_json(diffs@)->Object_0);
    Json::object(members)
}

/// An object with one member.
pub open spec fn single_member(name: Seq<char>, value: JsonView) -> JsonView {
    JsonView::Object(seq![(name, value)])
}

fn new_single_member(name: &str, value: Json) -> (r: Json)
    ensures
        r@ == single_member(name@, value@),
{
    let members = vec![(name.to_owned(), value)];
    assert(members_view(members@) =~= single_member(name@, value@)->Object_0);
    Json::object(members)
}

/// The name and the arguments of a tool, where it is one that a backend can call.
pub open spec fn tool_arguments(tool: ToolView) -> Option<(Seq<char>, JsonView)> {
    match tool {
        ToolView::RunShellCommand(x) => Some(("run_shell_command"@, run_shell_json(x))),
        ToolView::ReadShellCommandOutput(x) => {
            Some(("read_shell_command_output"@, read_output_json(x)))
        },
        ToolView::WriteToLongRunningShellCommand(x) => Some(("write_to_lrc"@, write_input_json(x))),
        ToolView::TransferShellCommandControlToUser(x) => {
            Some(
                (
                    "transfer_shell_command_control"@,
                    single_member("reason"@, JsonView::Str(x.reason)),
                )
            )
        },
        ToolView::ReadFiles(x) => {
            Some(("read_files"@, single_member("files"@, read_files_json(x.files))))
        },
        ToolView::SearchCodebase(x) => Some(("search_codebase"@, search_json(x))),
        ToolView::Grep(x) => Some(("grep"@, grep_json(x))),
        ToolView::FileGlob(x) => Some(("file_glob"@, file_glob_json(x))),
        ToolView::FileGlobV2(x) => Some(("file_glob_v2"@, file_glob_v2_json(x))),
        ToolView::ReadSkill(x) => Some(("read_skill"@, read_skill_json(x))),
        ToolView::AskUserQuestion(x) => {
            Some(("ask_user_question"@, single_member("questions"@, questions_json(x.questions))))
        },
        ToolView::ApplyFileDiffs(x) => Some(("apply_file_diffs"@, apply_file_diffs_json(x))),
        ToolView::SuggestPrompt(_) => None,
        ToolView::Other => None,
    }
}

/// A tool call as a backend made it, where the tool is one that a backend can call.
pub open spec fn openai_tool_call(call: ToolCallView) -> Option<OpenAIMessageToolCallView> {
    match call.tool {
        Some(tool) => match tool_arguments(tool) {
            Some((name, arguments)) => Some(
                OpenAIMessageToolCallView {
                    id: call.tool_call_id,
                    kind: "function"@,
                    function: OpenAIFunctionCallView { name, arguments: json_text(arguments) },
                },
            ),
            None => None,
        },
        None => None,
    }
}

/// The name and the arguments of a tool, where it is one that a backend can call.
pub fn arguments_of_tool(tool: &Tool) -> (r: Option<(&'static str, Json)>)
    ensures
        r is Some <==> tool_arguments(tool@) is Some,
        r matches Some(call) ==> tool_arguments(tool@) == Some((call.0@, call.1@)),
{
    match tool {
        Tool::RunShellCommand(x) => Some(("run_shell_command", new_run_shell_json(x))),
        Tool::ReadShellCommandOutput(x) => {
            Some(("read_shell_command_output", new_read_output_json(x)))
        },
        Tool::WriteToLongRunningShellCommand(x) => Some(("write_to_lrc", new_write_input_json(x))),
        Tool::TransferShellCommandControlToUser(x) => {
            Some(
                (
                    "transfer_shell_command_control",
                    new_single_member("reason", Json::text(x.reason.as_str())),
                )
            )
        },
        Tool::ReadFiles(x) => {
            Some(("read_files", new_single_member("files", new_read_files_json(&x.files))))
        },
        Tool::SearchCodebase(x) => Some(("search_codebase", new_search_json(x))),
        Tool::Grep(x) => Some(("grep", new_grep_json(x))),
        Tool::FileGlob(x) => Some(("file_glob", new_file_glob_json(x))),
        Tool::FileGlobV2(x) => Some(("file_glob_v2", new_file_glob_v2_json(x))),
        Tool::ReadSkill(x) => Some(("read_skill", new_read_skill_json(x))),
        Tool::AskUserQuestion(x) => {
            Some(
                (
                    "ask_user_question",
                    new_single_member("questions", new_questions_json(&x.questions)),
                )
            )
        },
        Tool::ApplyFileDiffs(x) => Some(("apply_file_diffs", new_apply_file_diffs_json(x))),
        Tool::SuggestPrompt(_) => None,
        Tool::Other => None,
    }
}

/// A tool call as a backend made it, where the tool is one that a backend can call.
pub fn warp_tool_call_to_openai(tool_call: &ToolCall) -> (r: Option<OpenAIMessageToolCall>)
    ensures
        opt_view(r) == openai_tool_call(tool_call@),
{
    match &tool_call.tool {
        Some(tool) => match arguments_of_tool(tool) {
            Some((name, arguments)) => Some(
                OpenAIMessageToolCall {
                    id: tool_call.tool_call_id.clone(),
                    kind: "function".to_owned(),
                    function: OpenAIFunctionCall {
                        name: name.to_owned(),
                        arguments: arguments.to_text(),
                    },
                },
            ),
            None => None,
        },
        None => None,
    }
}

} // verus!
