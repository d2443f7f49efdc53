//! Turning the tool calls of a backend into what the client is asked to do.
use crate::args::{
    apply_file_diffs_args, ask_user_question_args, file_glob_args, file_glob_v2_args, grep_args,
    read_files_args, read_shell_command_output_args, read_skill_args, run_shell_command_args,
    search_codebase_args, suggest_prompt_args, suggest_rule_args,
    transfer_shell_command_control_args, write_to_long_running_shell_command_args,
    ApplyFileDiffsArgs, ApplyFileDiffsArgsView, AskUserQuestionArg, AskUserQuestionArgView,
    AskUserQuestionArgs, DeletedFileArgs, DeletedFileArgsView, FileDiffArgs, FileDiffArgsView,
    FileGlobArgs, FileGlobV2Args, GrepArgs, GrepArgsView, LineRangeArg, LineRangeArgView,
    NewFileArgs, NewFileArgsView, ReadFileArg, ReadFileArgView, ReadFilesArgs,
    ReadShellCommandOutputArgs, ReadShellCommandOutputArgsView, ReadSkillArgs, ReadSkillArgsView,
    RunShellCommandArgs, RunShellCommandArgsView, SearchCodebaseArgs, SuggestPromptArgs,
    SuggestPromptArgsView, SuggestRuleArgs, SuggestRuleArgsView, TransferShellCommandControlArgs,
    V4AHunkArgs, V4AHunkArgsView, V4AUpdateArgs, V4AUpdateArgsView,
    WriteToLongRunningShellCommandArgs, WriteToLongRunningShellCommandArgsView,
};
use crate::bytes::bytes_of_text;
use crate::calls::{ToolCallAccumulator, ToolCallAccumulatorSet, ToolCallAccumulatorView};
use crate::ids::{fresh_id, new_id, new_ids};
use crate::json::{json_reading, parse_json, Json, JsonView};
use crate::lists::{borrowed, copy_texts, or_empty, owned, string_or_empty};
use crate::text::{
    blank, is_blank, lowered, opt_view, res_view, same, text_or_empty, to_ascii_lowercase, views,
};
use crate::warp::{
    ApplyFileDiffs, ApplyFileDiffsView, AskUserQuestion, AskUserQuestionView, Delay, DelayView,
    DeleteFile, DeleteFileView, DisplayMode, DisplayModeView, FileDiff, FileDiffView, FileGlob,
    FileGlobV2, FileGlobV2View, FileGlobView, Grep, GrepView, Hunk, HunkView, InlineQueryBanner,
    InlineQueryBannerView, LineRange, LineRangeView, MultipleChoice, MultipleChoiceView, NewFile,
    NewFileView, PromptChip, PromptChipView, Question, QuestionView, ReadFile, ReadFileView,
    ReadFiles, ReadFilesView, ReadShellCommandOutput, ReadShellCommandOutputView, ReadSkill,
    ReadSkillView, RunShellCommand, RunShellCommandView, SearchCodebase, SearchCodebaseView,
    SkillReference, SkillReferenceView, SuggestPrompt, SuggestPromptView, SuggestedRule,
    SuggestedRuleView, Suggestions, SuggestionsView, Tool, ToolCall, ToolCallView, ToolView,
    TransferShellCommandControlToUser, TransferShellCommandControlToUserView, V4aFileUpdate,
    V4aFileUpdateView, WriteMode, WriteToLongRunningShellCommand,
    WriteToLongRunningShellCommandView,
};
use vstd::prelude::*;
use vstd::utf8::encode_utf8;

verus! {

/// What the client is asked to do.
#[derive(Debug)]
pub enum WarpClientOutput {
    ToolCall(ToolCall),
    Suggestions(Suggestions),
}

/// The model of [`WarpClientOutput`].
#[verifier::ext_equal]
pub enum WarpClientOutputView {
    ToolCall(ToolCallView),
    Suggestions(SuggestionsView),
}

impl View for WarpClientOutput {
    type V = WarpClientOutputView;

    open spec fn view(&self) -> WarpClientOutputView {
        match self {
            WarpClientOutput::ToolCall(x) => WarpClientOutputView::ToolCall(x@),
            WarpClientOutput::Suggestions(x) => WarpClientOutputView::Suggestions(x@),
        }
    }
}

/// A text, unless there is nothing but white space in it.
pub open spec fn unless_blank(text: Option<Seq<char>>) -> Option<Seq<char>> {
    match text {
        Some(t) => if blank(t) {
            None
        } else {
            Some(t)
        },
        None => None,
    }
}

/// A text, unless there is nothing but white space in it.
fn drop_blank(text: Option<String>) -> (r: Option<String>)
    ensures
        opt_view(r) == unless_blank(opt_view(text)),
{
    match text {
        Some(t) => if is_blank(t.as_str()) {
            None
        } else {
            Some(t)
        },
        None => None,
    }
}

// ---------------------------------------------------------------------------------------------
// From arguments to tools
// ---------------------------------------------------------------------------------------------
/// A command to run; unless the arguments say otherwise, it is waited for.
pub open spec fn run_shell_command(args: RunShellCommandArgsView) -> RunShellCommandView {
    RunShellCommandView {
        command: args.command,
        is_read_only: args.is_read_only,
        uses_pager: args.uses_pager,
        is_risky: args.is_risky,
        wait_until_complete: Some(
            match args.wait_until_complete {
                Some(wait) => wait,
                None => true,
            },
        ),
    }
}

/// When to read: on completion where that is asked for, else after the delay, which is not
/// negative.
pub open spec fn read_delay(args: ReadShellCommandOutputArgsView) -> Option<DelayView> {
    if args.wait_until_complete {
        Some(DelayView::OnCompletion)
    } else {
        match args.delay_seconds {
            Some(seconds) => Some(
                DelayView::Seconds(
                    if seconds < 0 {
                        0
                    } else {
                        seconds
                    },
                ),
            ),
            None => None,
        }
    }
}

impl ReadShellCommandOutputArgs {
    /// When to read.
    pub fn to_delay(&self) -> (r: Option<Delay>)
        ensures
            opt_view(r) == read_delay(self@),
    {
        if self.wait_until_complete {
            return Some(Delay::OnCompletion);
        }
        match self.delay_seconds {
            Some(seconds) => Some(
                Delay::Seconds(
                    if seconds < 0 {
                        0
                    } else {
                        seconds
                    },
                ),
            ),
            None => None,
        }
    }
}

/// How to write: `line` or `block`, in any case of the letters, and raw else.
pub open spec fn write_mode(args: WriteToLongRunningShellCommandArgsView) -> WriteMode {
    match args.mode {
        Some(mode) => if lowered(mode) == "line"@ {
            WriteMode::Line
        } else if lowered(mode) == "block"@ {
            WriteMode::Block
        } else {
            WriteMode::Raw
        },
        None => WriteMode::Raw,
    }
}

impl WriteToLongRunningShellCommandArgs {
    /// How to write.
    pub fn to_mode(&self) -> (r: WriteMode)
        ensures
            r == write_mode(self@),
    {
        match &self.mode {
            Some(mode) => {
                let mode = to_ascii_lowercase(mode.as_str());
                if same(mode.as_str(), "line") {
                    WriteMode::Line
                } else if same(mode.as_str(), "block") {
                    WriteMode::Block
                } else {
                    WriteMode::Raw
                }
            },
            None => WriteMode::Raw,
        }
    }
}

/// A range of lines.
pub open spec fn line_range(arg: LineRangeArgView) -> LineRangeView {
    LineRangeView { start: arg.start, end: arg.end }
}

fn to_line_range(arg: &LineRangeArg) -> (r: LineRange)
    ensures
        r@ == line_range(arg@),
{
    LineRange { start: arg.start, end: arg.end }
}

/// Ranges of lines.
pub open spec fn line_ranges(items: Seq<LineRangeArgView>) -> Seq<LineRangeView> {
    Seq::new(items.len(), |i: int| line_range(items[i]))
}

/// Ranges of lines.
fn to_line_ranges(items: &Vec<LineRangeArg>) -> (r: Vec<LineRange>)
    ensures
        views(r@) == line_ranges(views(items@)),
{
    let mut r: Vec<LineRange> = Vec::new();
    let mut i: usize = 0;
    while i < items.len()
        invariant
            i <= items.len(),
            r.len() == i,
            forall|k: int| 0 <= k < i ==> (#[trigger] r@[k])@ == line_range(items@[k]@),
        decreases items.len() - i,
    {
        let item = to_line_range(&items[i]);
        r.push(item);
        i += 1;
    }
    assert(views(r@) =~= line_ranges(views(items@)));
    r
}

/// A file to read.
pub open spec fn read_file(arg: ReadFileArgView) -> ReadFileView {
    ReadFileView { name: text_or_empty(arg.name), line_ranges: line_ranges(arg.line_ranges) }
}

fn to_read_file(arg: &ReadFileArg) -> (r: ReadFile)
    ensures
        r@ == read_file(arg@),
{
    ReadFile {
        name: or_empty(borrowed(&arg.name)).to_owned(),
        line_ranges: to_line_ranges(&arg.line_ranges),
    }
}

/// Files to read.
pub open spec fn read_files(items: Seq<ReadFileArgView>) -> Seq<ReadFileView> {
    Seq::new(items.len(), |i: int| read_file(items[i]))
}

/// Files to read.
fn to_read_files(items: &Vec<ReadFileArg>) -> (r: Vec<ReadFile>)
    ensures
        views(r@) == read_files(views(items@)),
{
    let mut r: Vec<ReadFile> = Vec::new();
    let mut i: usize = 0;
    while i < items.len()
        invariant
            i <= items.len(),
            r.len() == i,
            forall|k: int| 0 <= k < i ==> (#[trigger] r@[k])@ == read_file(items@[k]@),
        decreases items.len() - i,
    {
        let item = to_read_file(&items[i]);
        r.push(item);
        i += 1;
    }
    assert(views(r@) =~= read_files(views(items@)));
    r
}

/// The patterns to search for: the list, and behind it the single one, unless that is blank.
pub open spec fn grep_queries(args: GrepArgsView) -> Seq<Seq<char>> {
    match unless_blank(args.query) {
        Some(query) => args.queries.push(query),
        None => args.queries,
    }
}

impl GrepArgs {
    /// The patterns to search for.
    pub fn queries(self) -> (r: Vec<String>)
        ensures
            views(r@) == grep_queries(self@),
    {
        let mut queries = self.queries;
        let ghost before = views(queries@);
        match drop_blank(self.query) {
            Some(query) => {
                queries.push(query);
                assert(views(queries@) =~= before.push(query@));
            },
            None => {},
        }
        queries
    }
}

/// Where the skill is: at its path, or else under its identifier, whichever is not blank.
pub open spec fn skill_reference(args: ReadSkillArgsView) -> Result<SkillReferenceView, Seq<char>> {
    match (unless_blank(args.skill_path), unless_blank(args.bundled_skill_id)) {
        (Some(path), _) => Ok(SkillReferenceView::SkillPath(path)),
        (None, Some(id)) => Ok(SkillReferenceView::BundledSkillId(id)),
        (None, None) => Err("read_skill requires skill_path or bundled_skill_id"@),
    }
}

impl ReadSkillArgs {
    /// Where the skill is.
    pub fn skill_reference(self) -> (r: Result<SkillReference, String>)
        ensures
            res_view(r) == skill_reference(self@),
    {
        match drop_blank(self.skill_path) {
            Some(path) => {
                return Ok(SkillReference::SkillPath(path));
            },
            None => {},
        }
        match drop_blank(self.bundled_skill_id) {
            Some(id) => {
                return Ok(SkillReference::BundledSkillId(id));
            },
            None => {},
        }
        Err("read_skill requires skill_path or bundled_skill_id".to_owned())
    }
}

/// A question. Where the arguments give no identifier, it is left empty.
pub open spec fn question(arg: AskUserQuestionArgView) -> QuestionView {
    QuestionView {
        question_id: text_or_empty(unless_blank(arg.question_id)),
        question: arg.question,
        question_type: Some(
            MultipleChoiceView {
                options: arg.options,
                recommended_option_index: match arg.recommended_option_index {
                    Some(index) => index,
                    None => -1i32,
                },
                is_multiselect: arg.is_multiselect,
                supports_other: arg.supports_other,
            },
        ),
    }
}

fn to_question(arg: &AskUserQuestionArg) -> (r: Question)
    ensures
        r@ == question(arg@),
{
    Question {
        question_id: string_or_empty(drop_blank(owned(borrowed(&arg.question_id)))),
        question: arg.question.clone(),
        question_type: Some(
            MultipleChoice {
                options: copy_texts(&arg.options),
                recommended_option_index: match arg.recommended_option_index {
                    Some(index) => index,
                    None => -1,
                },
                is_multiselect: arg.is_multiselect,
                supports_other: arg.supports_other,
            },
        ),
    }
}

/// Questions.
pub open spec fn questions(items: Seq<AskUserQuestionArgView>) -> Seq<QuestionView> {
    Seq::new(items.len(), |i: int| question(items[i]))
}

/// Questions.
fn to_questions(items: &Vec<AskUserQuestionArg>) -> (r: Vec<Question>)
    ensures
        views(r@) == questions(views(items@)),
{
    let mut r: Vec<Question> = Vec::new();
    let mut i: usize = 0;
    while i < items.len()
        invariant
            i <= items.len(),
            r.len() == i,
            forall|k: int| 0 <= k < i ==> (#[trigger] r@[k])@ == question(items@[k]@),
        decreases items.len() - i,
    {
        let item = to_question(&items[i]);
        r.push(item);
        i += 1;
    }
    assert(views(r@) =~= questions(views(items@)));
    r
}

/// A text of a file to replace.
pub open spec fn file_diff(arg: FileDiffArgsView) -> FileDiffView {
    FileDiffView { file_path: arg.file_path, search: arg.search, replace: arg.replace }
}

fn to_file_diff(arg: &FileDiffArgs) -> (r: FileDiff)
    ensures
        r@ == file_diff(arg@),
{
    FileDiff {
        file_path: arg.file_path.clone(),
        search: arg.search.clone(),
        replace: arg.replace.clone(),
    }
}

/// Texts of files to replace.
pub open spec fn file_diffs(items: Seq<FileDiffArgsView>) -> Seq<FileDiffView> {
    Seq::new(items.len(), |i: int| file_diff(items[i]))
}

/// Texts of files to replace.
fn to_file_diffs(items: &Vec<FileDiffArgs>) -> (r: Vec<FileDiff>)
    ensures
        views(r@) == file_diffs(views(items@)),
{
    let mut r: Vec<FileDiff> = Vec::new();
    let mut i: usize = 0;
    while i < items.len()
        invariant
            i <= items.len(),
            r.len() == i,
            forall|k: int| 0 <= k < i ==> (#[trigger] r@[k])@ == file_diff(items@[k]@),
        decreases items.len() - i,
    {
        let item = to_file_diff(&items[i]);
        r.push(item);
        i += 1;
    }
    assert(views(r@) =~= file_diffs(views(items@)));
    r
}

/// A file to create.
pub open spec fn new_file(arg: NewFileArgsView) -> NewFileView {
    NewFileView { file_path: arg.file_path, content: arg.content }
}

fn to_new_file(arg: &NewFileArgs) -> (r: NewFile)
    ensures
        r@ == new_file(arg@),
{
    NewFile { file_path: arg.file_path.clone(), content: arg.content.clone() }
}

/// Files to create.
pub open spec fn new_files(items: Seq<NewFileArgsView>) -> Seq<NewFileView> {
    Seq::new(items.len(), |i: int| new_file(items[i]))
}

/// Files to create.
fn to_new_files(items: &Vec<NewFileArgs>) -> (r: Vec<NewFile>)
    ensures
        views(r@) == new_files(views(items@)),
{
    let mut r: Vec<NewFile> = Vec::new();
    let mut i: usize = 0;
    while i < items.len()
        invariant
            i <= items.len(),
            r.len() == i,
            forall|k: int| 0 <= k < i ==> (#[trigger] r@[k])@ == new_file(items@[k]@),
        decreases items.len() - i,
    {
        let item = to_new_file(&items[i]);
        r.push(item);
        i += 1;
    }
    assert(views(r@) =~= new_files(views(items@)));
    r
}

/// A file to delete.
pub open spec fn deleted_file(arg: DeletedFileArgsView) -> DeleteFileView {
    DeleteFileView { file_path: arg.file_path }
}

fn to_deleted_file(arg: &DeletedFileArgs) -> (r: DeleteFile)
    ensures
        r@ == deleted_file(arg@),
{
    DeleteFile { file_path: arg.file_path.clone() }
}

/// Files to delete.
pub open spec fn deleted_files(items: Seq<DeletedFileArgsView>) -> Seq<DeleteFileView> {
    Seq::new(items.len(), |i: int| deleted_file(items[i]))
}

/// Files to delete.
fn to_deleted_files(items: &Vec<DeletedFileArgs>) -> (r: Vec<DeleteFile>)
    ensures
        views(r@) == deleted_files(views(items@)),
{
    let mut r: Vec<DeleteFile> = Vec::new();
    let mut i: usize = 0;
    while i < items.len()
        invariant
            i <= items.len(),
            r.len() == i,
            forall|k: int| 0 <= k < i ==> (#[trigger] r@[k])@ == deleted_file(items@[k]@),
        decreases items.len() - i,
    {
        let item = to_deleted_file(&items[i]);
        r.push(item);
        i += 1;
    }
    assert(views(r@) =~= deleted_files(views(items@)));
    r
}

/// A change within a file; what is not given is empty.
pub open spec fn hunk(arg: V4AHunkArgsView) -> HunkView {
    HunkView {
        change_context: arg.change_context,
        pre_context: text_or_empty(arg.pre_context),
        old: text_or_empty(arg.old),
        new: text_or_empty(arg.new),
        post_context: text_or_empty(arg.post_context),
    }
}

fn to_hunk(arg: &V4AHunkArgs) -> (r: Hunk)
    ensures
        r@ == hunk(arg@),
{
    Hunk {
        change_context: copy_texts(&arg.change_context),
        pre_context: or_empty(borrowed(&arg.pre_context)).to_owned(),
        old: or_empty(borrowed(&arg.old)).to_owned(),
        new: or_empty(borrowed(&arg.new)).to_owned(),
        post_context: or_empty(borrowed(&arg.post_context)).to_owned(),
    }
}

/// Changes within a file.
pub open spec fn hunks(items: Seq<V4AHunkArgsView>) -> Seq<HunkView> {
    Seq::new(items.len(), |i: int| hunk(items[i]))
}

/// Changes within a file.
fn to_hunks(items: &Vec<V4AHunkArgs>) -> (r: Vec<Hunk>)
    ensures
        views(r@) == hunks(views(items@)),
{
    let mut r: Vec<Hunk> = Vec::new();
    let mut i: usize = 0;
    while i < items.len()
        invariant
            i <= items.len(),
            r.len() == i,
            forall|k: int| 0 <= k < i ==> (#[trigger] r@[k])@ == hunk(items@[k]@),
        decreases items.len() - i,
    {
        let item = to_hunk(&items[i]);
        r.push(item);
        i += 1;
    }
    assert(views(r@) =~= hunks(views(items@)));
    r
}

/// Changes to a file.
pub open spec fn file_update(arg: V4AUpdateArgsView) -> V4aFileUpdateView {
    V4aFileUpdateView {
        file_path: arg.file_path,
        move_to: text_or_empty(arg.move_to),
        hunks: hunks(arg.hunks),
    }
}

fn to_file_update(arg: &V4AUpdateArgs) -> (r: V4aFileUpdate)
    ensures
        r@ == file_update(arg@),
{
    V4aFileUpdate {
        file_path: arg.file_path.clone(),
        move_to: or_empty(borrowed(&arg.move_to)).to_owned(),
        hunks: to_hunks(&arg.hunks),
    }
}

/// Changes to files.
pub open spec fn file_updates(items: Seq<V4AUpdateArgsView>) -> Seq<V4aFileUpdateView> {
    Seq::new(items.len(), |i: int| file_update(items[i]))
}

/// Changes to files.
fn to_file_updates(items: &Vec<V4AUpdateArgs>) -> (r: Vec<V4aFileUpdate>)
    ensures
        views(r@) == file_updates(views(items@)),
{
    let mut r: Vec<V4aFileUpdate> = Vec::new();
    let mut i: usize = 0;
    while i < items.len()
        invariant
            i <= items.len(),
            r.len() == i,
            forall|k: int| 0 <= k < i ==> (#[trigger] r@[k])@ == file_update(items@[k]@),
        decreases items.len() - i,
    {
        let item = to_file_update(&items[i]);
        r.push(item);
        i += 1;
    }
    assert(views(r@) =~= file_updates(views(items@)));
    r
}

/// Edits of files.
pub open spec fn apply_file_diffs(args: ApplyFileDiffsArgsView) -> ApplyFileDiffsView {
    ApplyFileDiffsView {
        summary: match args.summary {
            Some(summary) => summary,
            None => "Apply file edits"@,
        },
        diffs: file_diffs(args.diffs),
        new_files: new_files(args.new_files),
        deleted_files: deleted_files(args.deleted_files),
        v4a_updates: file_updates(args.v4a_updates),
    }
}

fn to_apply_file_diffs(args: ApplyFileDiffsArgs) -> (r: ApplyFileDiffs)
    ensures
        r@ == apply_file_diffs(args@),
{
    ApplyFileDiffs {
        summary: match args.summary {
            Some(summary) => summary,
            None => "Apply file edits".to_owned(),
        },
        diffs: to_file_diffs(&args.diffs),
        new_files: to_new_files(&args.new_files),
        deleted_files: to_deleted_files(&args.deleted_files),
        v4a_updates: to_file_updates(&args.v4a_updates),
    }
}

/// Whether a suggestion is shown as a banner: where its mode says so, or where it has a title or a
/// description that is not blank.
pub open spec fn wants_inline_banner(args: SuggestPromptArgsView) -> bool {
    ||| args.mode matches Some(mode) && lowered(mode) == "inline_query_banner"@
    ||| unless_blank(args.title) is Some
    ||| unless_blank(args.description) is Some
}

/// A suggested prompt, as a banner or as a chip.
pub open spec fn suggest_prompt(args: SuggestPromptArgsView) -> SuggestPromptView {
    SuggestPromptView {
        is_trigger_irrelevant: args.is_trigger_irrelevant,
        display_mode: Some(
            if wants_inline_banner(args) {
                DisplayModeView::InlineQueryBanner(
                    InlineQueryBannerView {
                        title: match (args.title, args.label) {
                            (Some(title), _) => title,
                            (None, Some(label)) => label,
                            (None, None) => "Suggested prompt"@,
                        },
                        description: text_or_empty(args.description),
                        query: args.prompt,
                    },
                )
            } else {
                DisplayModeView::PromptChip(
                    PromptChipView { prompt: args.prompt, label: text_or_empty(args.label) },
                )
            },
        ),
    }
}

impl SuggestPromptArgs {
    /// A suggested prompt.
    pub fn into_api(self) -> (r: SuggestPrompt)
        ensures
            r@ == suggest_prompt(self@),
    {
        let banner_mode = match &self.mode {
            Some(mode) => {
                let mode = to_ascii_lowercase(mode.as_str());
                same(mode.as_str(), "inline_query_banner")
            },
            None => false,
        };
        let titled = match &self.title {
            Some(title) => !is_blank(title.as_str()),
            None => false,
        };
        let described = match &self.description {
            Some(description) => !is_blank(description.as_str()),
            None => false,
        };
        let display_mode = if banner_mode || titled || described {
            DisplayMode::InlineQueryBanner(
                InlineQueryBanner {
                    title: match (self.title, self.label) {
                        (Some(title), _) => title,
                        (None, Some(label)) => label,
                        (None, None) => "Suggested prompt".to_owned(),
                    },
                    description: string_or_empty(self.description),
                    query: self.prompt,
                },
            )
        } else {
            DisplayMode::PromptChip(
                PromptChip { prompt: self.prompt, label: string_or_empty(self.label) },
            )
        };
        SuggestPrompt {
            is_trigger_irrelevant: self.is_trigger_irrelevant,
            display_mode: Some(display_mode),
        }
    }
}

/// A suggested rule. Where the arguments give no identifier, it is left empty.
pub open spec fn suggestions(args: SuggestRuleArgsView) -> SuggestionsView {
    SuggestionsView {
        rules: seq![
            SuggestedRuleView {
                name: args.name,
                content: args.content,
                logging_id: text_or_empty(unless_blank(args.logging_id)),
            },
        ],
    }
}

fn to_suggestions(args: SuggestRuleArgs) -> (r: Suggestions)
    ensures
        r@ == suggestions(args@),
{
    let rule = SuggestedRule {
        name: args.name,
        content: args.content,
        logging_id: string_or_empty(drop_blank(args.logging_id)),
    };
    let rules = vec![rule];
    assert(views(rules@) =~= suggestions(args@).rules);
    Suggestions { rules }
}

// ---------------------------------------------------------------------------------------------
// From a tool call to an output
// ---------------------------------------------------------------------------------------------
/// The error of arguments that do not fit the tool.
pub open spec fn misfit(tool: Seq<char>) -> Seq<char> {
    "arguments do not fit the schema of `"@ + tool + "`"@
}

fn misfit_error(tool: &str) -> (r: String)
    ensures
        r@ == misfit(tool@),
{
    let mut r = "arguments do not fit the schema of `".to_owned();
    r.append(tool);
    r.append("`");
    r
}

/// The arguments that a tool was called with, where they are JSON and fit the tool.
pub open spec fn arguments<T>(
    tool: Seq<char>,
    parsed: Result<JsonView, Seq<char>>,
    decode: spec_fn(JsonView) -> Option<T>,
) -> Result<T, Seq<char>> {
    match parsed {
        Ok(json) => match decode(json) {
            Some(args) => Ok(args),
            None => Err(misfit(tool)),
        },
        Err(message) => Err(message),
    }
}

/// A number, or 0.
pub open spec fn or_zero(number: Option<i32>) -> i32 {
    match number {
        Some(n) => n,
        None => 0,
    }
}

fn number_or_zero(number: Option<i32>) -> (r: i32)
    ensures
        r == or_zero(number),
{
    match number {
        Some(n) => n,
        None => 0,
    }
}

/// The tool of that name with the arguments that were parsed for it.
pub open spec fn tool_of(name: Seq<char>, parsed: Result<JsonView, Seq<char>>) -> Result<
    ToolView,
    Seq<char>,
> {
    if name == "run_shell_command"@ {
        match arguments(name, parsed, |json: JsonView| run_shell_command_args(json)) {
            Ok(args) => Ok(ToolView::RunShellCommand(run_shell_command(args))),
            Err(message) => Err(message),
        }
    } else if name == "read_shell_command_output"@ {
        match arguments(name, parsed, |json: JsonView| read_shell_command_output_args(json)) {
            Ok(args) => Ok(ToolView::ReadShellCommandOutput(
                ReadShellCommandOutputView {
                    command_id: args.command_id,
                    delay: read_delay(args),
                },
            )),
            Err(message) => Err(message),
        }
    } else if name == "write_to_lrc"@ || name == "write_to_long_running_shell_command"@ {
        match arguments(
            name,
            parsed,
            |json: JsonView| write_to_long_running_shell_command_args(json),
        ) {
            Ok(args) => Ok(ToolView::WriteToLongRunningShellCommand(
                WriteToLongRunningShellCommandView {
                    command_id: args.command_id,
                    input: encode_utf8(args.input),
                    mode: Some(write_mode(args)),
                },
            )),
            Err(message) => Err(message),
        }
    } else if name == "transfer_shell_command_control"@
        || name == "transfer_shell_command_control_to_user"@ {
        match arguments(name, parsed, |json: JsonView| transfer_shell_command_control_args(json)) {
            Ok(args) => Ok(ToolView::TransferShellCommandControlToUser(
                TransferShellCommandControlToUserView { reason: args.reason },
            )),
            Err(message) => Err(message),
        }
    } else if name == "read_files"@ {
        match arguments(name, parsed, |json: JsonView| read_files_args(json)) {
            Ok(args) => Ok(ToolView::ReadFiles(ReadFilesView { files: read_files(args.files) })),
            Err(message) => Err(message),
        }
    } else if name == "search_codebase"@ {
        match arguments(name, parsed, |json: JsonView| search_codebase_args(json)) {
            Ok(args) => Ok(ToolView::SearchCodebase(
                SearchCodebaseView {
                    query: args.query,
                    path_filters: args.path_filters,
                    codebase_path: text_or_empty(args.codebase_path),
                },
            )),
            Err(message) => Err(message),
        }
    } else if name == "grep"@ {
        match arguments(name, parsed, |json: JsonView| grep_args(json)) {
            Ok(args) => Ok(ToolView::Grep(
                GrepView { queries: grep_queries(args), path: text_or_empty(args.path) },
            )),
            Err(message) => Err(message),
        }
    } else if name == "file_glob"@ {
        match arguments(name, parsed, |json: JsonView| file_glob_args(json)) {
            Ok(args) => Ok(ToolView::FileGlob(
                FileGlobView { patterns: args.patterns, path: text_or_empty(args.path) },
            )),
            Err(message) => Err(message),
        }
    } else if name == "file_glob_v2"@ {
        match arguments(name, parsed, |json: JsonView| file_glob_v2_args(json)) {
            Ok(args) => Ok(ToolView::FileGlobV2(
                FileGlobV2View {
                    patterns: args.patterns,
                    search_dir: text_or_empty(args.search_dir),
                    max_matches: or_zero(args.max_matches),
                    max_depth: or_zero(args.max_depth),
                    min_depth: or_zero(args.min_depth),
                },
            )),
            Err(message) => Err(message),
        }
    } else if name == "ask_user_question"@ {
        match arguments(name, parsed, |json: JsonView| ask_user_question_args(json)) {
            Ok(args) => Ok(ToolView::AskUserQuestion(
                AskUserQuestionView { questions: questions(args.questions) },
            )),
            Err(message) => Err(message),
        }
    } else if name == "apply_file_diffs"@ {
        match arguments(name, parsed, |json: JsonView| apply_file_diffs_args(json)) {
            Ok(args) => Ok(ToolView::ApplyFileDiffs(apply_file_diffs(args))),
            Err(message) => Err(message),
        }
    } else if name == "suggest_prompt"@ {
        match arguments(name, parsed, |json: JsonView| suggest_prompt_args(json)) {
            Ok(args) => Ok(ToolView::SuggestPrompt(suggest_prompt(args))),
            Err(message) => Err(message),
        }
    } else if name == "read_skill"@ {
        match arguments(name, parsed, |json: JsonView| read_skill_args(json)) {
            Ok(args) => match skill_reference(args) {
                Ok(reference) => Ok(
                    ToolView::ReadSkill(
                        ReadSkillView {
                            name: text_or_empty(args.name),
                            skill_reference: Some(reference),
                        },
                    ),
                ),
                Err(message) => Err(message),
            },
            Err(message) => Err(message),
        }
    } else {
        Err("unknown tool `"@ + name + "`"@)
    }
}

/// The arguments of the tool.
fn parsed_run_shell_command_args(
    name: &str,
    parsed: &Result<Json, String>,
) -> (r: Result<RunShellCommandArgs, String>)
    ensures
        res_view(r) == arguments(
            name@,
            res_view(*parsed),
            |json: JsonView| run_shell_command_args(json),
        ),
{
    match parsed {
        Ok(json) => match RunShellCommandArgs::from_json(json) {
            Some(args) => Ok(args),
            None => Err(misfit_error(name)),
        },
        Err(message) => Err(message.clone()),
    }
}

/// The arguments of the tool.
fn parsed_read_shell_command_output_args(
    name: &str,
    parsed: &Result<Json, String>,
) -> (r: Result<ReadShellCommandOutputArgs, String>)
    ensures
        res_view(r) == arguments(
            name@,
            res_view(*parsed),
            |json: JsonView| read_shell_command_output_args(json),
        ),
{
    match parsed {
        Ok(json) => match ReadShellCommandOutputArgs::from_json(json) {
            Some(args) => Ok(args),
            None => Err(misfit_error(name)),
        },
        Err(message) => Err(message.clone()),
    }
}

/// The arguments of the tool.
fn parsed_write_to_long_running_shell_command_args(
    name: &str,
    parsed: &Result<Json, String>,
) -> (r: Result<WriteToLongRunningShellCommandArgs, String>)
    ensures
        res_view(r) == arguments(
            name@,
            res_view(*parsed),
            |json: JsonView| write_to_long_running_shell_command_args(json),
        ),
{
    match parsed {
        Ok(json) => match WriteToLongRunningShellCommandArgs::from_json(json) {
            Some(args) => Ok(args),
            None => Err(misfit_error(name)),
        },
        Err(message) => Err(message.clone()),
    }
}

/// The arguments of the tool.
fn parsed_transfer_shell_command_control_args(
    name: &str,
    parsed: &Result<Json, String>,
) -> (r: Result<TransferShellCommandControlArgs, String>)
    ensures
        res_view(r) == arguments(
            name@,
            res_view(*parsed),
            |json: JsonView| transfer_shell_command_control_args(json),
        ),
{
    match parsed {
        Ok(json) => match TransferShellCommandControlArgs::from_json(json) {
            Some(args) => Ok(args),
            None => Err(misfit_error(name)),
        },
        Err(message) => Err(message.clone()),
    }
}

/// The arguments of the tool.
fn parsed_read_files_args(
    name: &str,
    parsed: &Result<Json, String>,
) -> (r: Result<ReadFilesArgs, String>)
    ensures
        res_view(r) == arguments(name@, res_view(*parsed), |json: JsonView| read_files_args(json)),
{
    match parsed {
        Ok(json) => match ReadFilesArgs::from_json(json) {
            Some(args) => Ok(args),
            None => Err(misfit_error(name)),
        },
        Err(message) => Err(message.clone()),
    }
}

/// The arguments of the tool.
fn parsed_search_codebase_args(
    name: &str,
    parsed: &Result<Json, String>,
) -> (r: Result<SearchCodebaseArgs, String>)
    ensures
        res_view(r) == arguments(
            name@,
            res_view(*parsed),
            |json: JsonView| search_codebase_args(json),
        ),
{
    match parsed {
        Ok(json) => match SearchCodebaseArgs::from_json(json) {
            Some(args) => Ok(args),
            None => Err(misfit_error(name)),
        },
        Err(message) => Err(message.clone()),
    }
}

/// The arguments of the tool.
fn parsed_grep_args(name: &str, parsed: &Result<Json, String>) -> (r: Result<GrepArgs, String>)
    ensures
        res_view(r) == arguments(name@, res_view(*parsed), |json: JsonView| grep_args(json)),
{
    match parsed {
        Ok(json) => match GrepArgs::from_json(json) {
            Some(args) => Ok(args),
            None => Err(misfit_error(name)),
        },
        Err(message) => Err(message.clone()),
    }
}

/// The arguments of the tool.
fn parsed_file_glob_args(
    name: &str,
    parsed: &Result<Json, String>,
) -> (r: Result<FileGlobArgs, String>)
    ensures
        res_view(r) == arguments(name@, res_view(*parsed), |json: JsonView| file_glob_args(json)),
{
    match parsed {
        Ok(json) => match FileGlobArgs::from_json(json) {
            Some(args) => Ok(args),
            None => Err(misfit_error(name)),
        },
        Err(message) => Err(message.clone()),
    }
}

/// The arguments of the tool.
fn parsed_file_glob_v2_args(
    name: &str,
    parsed: &Result<Json, String>,
) -> (r: Result<FileGlobV2Args, String>)
    ensures
        res_view(r) == arguments(
            name@,
            res_view(*parsed),
            |json: JsonView| file_glob_v2_args(json),
        ),
{
    match parsed {
        Ok(json) => match FileGlobV2Args::from_json(json) {
            Some(args) => Ok(args),
            None => Err(misfit_error(name)),
        },
        Err(message) => Err(message.clone()),
    }
}

/// The arguments of the tool.
fn parsed_ask_user_question_args(
    name: &str,
    parsed: &Result<Json, String>,
) -> (r: Result<AskUserQuestionArgs, String>)
    ensures
        res_view(r) == arguments(
            name@,
            res_view(*parsed),
            |json: JsonView| ask_user_question_args(json),
        ),
{
    match parsed {
        Ok(json) => match AskUserQuestionArgs::from_json(json) {
            Some(args) => Ok(args),
            None => Err(misfit_error(name)),
        },
        Err(message) => Err(message.clone()),
    }
}

/// The arguments of the tool.
fn parsed_apply_file_diffs_args(
    name: &str,
    parsed: &Result<Json, String>,
) -> (r: Result<ApplyFileDiffsArgs, String>)
    ensures
        res_view(r) == arguments(
            name@,
            res_view(*parsed),
            |json: JsonView| apply_file_diffs_args(json),
        ),
{
    match parsed {
        Ok(json) => match ApplyFileDiffsArgs::from_json(json) {
            Some(args) => Ok(args),
            None => Err(misfit_error(name)),
        },
        Err(message) => Err(message.clone()),
    }
}

/// The arguments of the tool.
fn parsed_suggest_prompt_args(
    name: &str,
    parsed: &Result<Json, String>,
) -> (r: Result<SuggestPromptArgs, String>)
    ensures
        res_view(r) == arguments(
            name@,
            res_view(*parsed),
            |json: JsonView| suggest_prompt_args(json),
        ),
{
    match parsed {
        Ok(json) => match SuggestPromptArgs::from_json(json) {
            Some(args) => Ok(args),
            None => Err(misfit_error(name)),
        },
        Err(message) => Err(message.clone()),
    }
}

/// The arguments of the tool.
fn parsed_read_skill_args(
    name: &str,
    parsed: &Result<Json, String>,
) -> (r: Result<ReadSkillArgs, String>)
    ensures
        res_view(r) == arguments(name@, res_view(*parsed), |json: JsonView| read_skill_args(json)),
{
    match parsed {
        Ok(json) => match ReadSkillArgs::from_json(json) {
            Some(args) => Ok(args),
            None => Err(misfit_error(name)),
        },
        Err(message) => Err(message.clone()),
    }
}

/// The tool of that name with the arguments that were parsed for it, or why there is none.
pub fn tool_from_arguments(name: &str, parsed: &Result<Json, String>) -> (r: Result<Tool, String>)
    ensures
        res_view(r) == tool_of(name@, res_view(*parsed)),
{
    if same(name, "run_shell_command") {
        match parsed_run_shell_command_args(name, parsed) {
            Ok(args) => Ok(
                Tool::RunShellCommand(
                    RunShellCommand {
                        command: args.command,
                        is_read_only: args.is_read_only,
                        uses_pager: args.uses_pager,
                        is_risky: args.is_risky,
                        wait_until_complete: Some(
                            match args.wait_until_complete {
                                Some(wait) => wait,
                                None => true,
                            },
                        ),
                    },
                ),
            ),
            Err(message) => Err(message),
        }
    } else if same(name, "read_shell_command_output") {
        match parsed_read_shell_command_output_args(name, parsed) {
            Ok(args) => Ok(
                Tool::ReadShellCommandOutput(
                    ReadShellCommandOutput { delay: args.to_delay(), command_id: args.command_id },
                ),
            ),
            Err(message) => Err(message),
        }
    } else if same(name, "write_to_lrc") || same(name, "write_to_long_running_shell_command") {
        match parsed_write_to_long_running_shell_command_args(name, parsed) {
            Ok(args) => Ok(
                Tool::WriteToLongRunningShellCommand(
                    WriteToLongRunningShellCommand {
                        mode: Some(args.to_mode()),
                        input: bytes_of_text(args.input.as_str()),
                        command_id: args.command_id,
                    },
                ),
            ),
            Err(message) => Err(message),
        }
    } else if same(name, "transfer_shell_command_control") || same(
        name,
        "transfer_shell_command_control_to_user",
    ) {
        match parsed_transfer_shell_command_control_args(name, parsed) {
            Ok(args) => Ok(
                Tool::TransferShellCommandControlToUser(
                    TransferShellCommandControlToUser { reason: args.reason },
                ),
            ),
            Err(message) => Err(message),
        }
    } else if same(name, "read_files") {
        match parsed_read_files_args(name, parsed) {
            Ok(args) => Ok(
                Tool::ReadFiles(ReadFiles { files: to_read_files(&args.files) }),
            ),
            Err(message) => Err(message),
        }
    } else if same(name, "search_codebase") {
        match parsed_search_codebase_args(name, parsed) {
            Ok(args) => Ok(
                Tool::SearchCodebase(
                    SearchCodebase {
                        query: args.query,
                        path_filters: args.path_filters,
                        codebase_path: string_or_empty(args.codebase_path),
                    },
                ),
            ),
            Err(message) => Err(message),
        }
    } else if same(name, "grep") {
        match parsed_grep_args(name, parsed) {
            Ok(args) => {
                let path = or_empty(borrowed(&args.path)).to_owned();
                Ok(Tool::Grep(Grep { queries: args.queries(), path }))
            },
            Err(message) => Err(message),
        }
    } else if same(name, "file_glob") {
        match parsed_file_glob_args(name, parsed) {
            Ok(args) => Ok(
                Tool::FileGlob(
                    FileGlob { patterns: args.patterns, path: string_or_empty(args.path) }
                ),
            ),
            Err(message) => Err(message),
        }
    } else if same(name, "file_glob_v2") {
        match parsed_file_glob_v2_args(name, parsed) {
            Ok(args) => Ok(
                Tool::FileGlobV2(
                    FileGlobV2 {
                        patterns: args.patterns,
                        search_dir: string_or_empty(args.search_dir),
                        max_matches: number_or_zero(args.max_matches),
                        max_depth: number_or_zero(args.max_depth),
                        min_depth: number_or_zero(args.min_depth),
                    },
                ),
            ),
            Err(message) => Err(message),
        }
    } else if same(name, "ask_user_question") {
        match parsed_ask_user_question_args(name, parsed) {
            Ok(args) => Ok(
                Tool::AskUserQuestion(AskUserQuestion { questions: to_questions(&args.questions) }),
            ),
            Err(message) => Err(message),
        }
    } else if same(name, "apply_file_diffs") {
        match parsed_apply_file_diffs_args(name, parsed) {
            Ok(args) => Ok(
                Tool::ApplyFileDiffs(to_apply_file_diffs(args)),
            ),
            Err(message) => Err(message),
        }
    } else if same(name, "suggest_prompt") {
        match parsed_suggest_prompt_args(name, parsed) {
            Ok(args) => Ok(
                Tool::SuggestPrompt(args.into_api()),
            ),
            Err(message) => Err(message),
        }
    } else if same(name, "read_skill") {
        match parsed_read_skill_args(name, parsed) {
            Ok(args) => {
                let name = or_empty(borrowed(&args.name)).to_owned();
                match args.skill_reference() {
                    Ok(reference) => Ok(
                        Tool::ReadSkill(ReadSkill { name, skill_reference: Some(reference) }),
                    ),
                    Err(message) => Err(message),
                }
            },
            Err(message) => Err(message),
        }
    } else {
        let mut message = "unknown tool `".to_owned();
        message.append(name);
        message.append("`");
        Err(message)
    }
}

/// What the client is asked to do by a call of the tool of that name. Identifiers that are not
/// given are left empty.
pub open spec fn output_of(
    name: Option<Seq<char>>,
    id: Option<Seq<char>>,
    parsed: Result<JsonView, Seq<char>>,
) -> Result<WarpClientOutputView, Seq<char>> {
    match name {
        None => Err("missing function name"@),
        Some(name) => if name == "suggest_rule"@ {
            match arguments(name, parsed, |json: JsonView| suggest_rule_args(json)) {
                Ok(args) => Ok(WarpClientOutputView::Suggestions(suggestions(args))),
                Err(message) => Err(message),
            }
        } else {
            match tool_of(name, parsed) {
                Ok(tool) => Ok(
                    WarpClientOutputView::ToolCall(
                        ToolCallView { tool_call_id: text_or_empty(id), tool: Some(tool) },
                    ),
                ),
                Err(message) => Err(message),
            }
        },
    }
}

/// What the client is asked to do by a call whose arguments have been parsed.
pub fn output_from_arguments(
    name: Option<String>,
    id: Option<String>,
    parsed: &Result<Json, String>,
) -> (r: Result<WarpClientOutput, String>)
    ensures
        res_view(r) == output_of(opt_view(name), opt_view(id), res_view(*parsed)),
{
    match name {
        None => Err("missing function name".to_owned()),
        Some(name) => if same(name.as_str(), "suggest_rule") {
            match parsed {
                Ok(json) => match SuggestRuleArgs::from_json(json) {
                    Some(args) => Ok(WarpClientOutput::Suggestions(to_suggestions(args))),
                    None => Err(misfit_error(name.as_str())),
                },
                Err(message) => Err(message.clone()),
            }
        } else {
            match tool_from_arguments(name.as_str(), parsed) {
                Ok(tool) => Ok(
                    WarpClientOutput::ToolCall(
                        ToolCall { tool_call_id: string_or_empty(id), tool: Some(tool) },
                    ),
                ),
                Err(message) => Err(message),
            }
        },
    }
}

// ---------------------------------------------------------------------------------------------
// Fresh identifiers
// ---------------------------------------------------------------------------------------------
/// An identifier, or the fresh one where it is empty.
pub open spec fn or_fresh(id: Seq<char>, fresh: Seq<char>) -> Seq<char> {
    if id.len() == 0 {
        fresh
    } else {
        id
    }
}

fn id_or_fresh(id: String, fresh: String) -> (r: String)
    ensures
        r@ == or_fresh(id@, fresh@),
{
    if id.as_str().is_empty() {
        fresh
    } else {
        id
    }
}

/// The number of questions that an output asks.
pub open spec fn question_count(output: WarpClientOutputView) -> int {
    match output {
        WarpClientOutputView::ToolCall(
            ToolCallView { tool: Some(ToolView::AskUserQuestion(ask)), .. },
        ) => ask.questions.len() as int,
        _ => 0,
    }
}

/// Questions with a fresh identifier for each that has none.
pub open spec fn identified_questions(
    questions: Seq<QuestionView>,
    fresh: Seq<Seq<char>>,
) -> Seq<QuestionView> {
    Seq::new(
        questions.len(),
        |i: int|
            QuestionView {
                question_id: or_fresh(questions[i].question_id, fresh[i]),
                ..questions[i]
            },
    )
}

/// Rules with a fresh identifier for each that has none.
pub open spec fn identified_rules(
    rules: Seq<SuggestedRuleView>,
    fresh: Seq<char>,
) -> Seq<SuggestedRuleView> {
    Seq::new(
        rules.len(),
        |i: int| SuggestedRuleView { logging_id: or_fresh(rules[i].logging_id, fresh), ..rules[i] },
    )
}

/// An output with fresh identifiers for what has none.
pub open spec fn identified(
    output: WarpClientOutputView,
    call_id: Seq<char>,
    question_ids: Seq<Seq<char>>,
    rule_id: Seq<char>,
) -> WarpClientOutputView {
    match output {
        WarpClientOutputView::ToolCall(call) => WarpClientOutputView::ToolCall(
            ToolCallView {
                tool_call_id: or_fresh(call.tool_call_id, call_id),
                tool: match call.tool {
                    Some(ToolView::AskUserQuestion(ask)) => Some(
                        ToolView::AskUserQuestion(
                            AskUserQuestionView {
                                questions: identified_questions(ask.questions, question_ids),
                            },
                        ),
                    ),
                    other => other,
                },
            },
        ),
        WarpClientOutputView::Suggestions(suggestions) => WarpClientOutputView::Suggestions(
            SuggestionsView { rules: identified_rules(suggestions.rules, rule_id) },
        ),
    }
}

/// Whether identifiers are fresh ones for an output.
pub open spec fn fresh_for(
    output: WarpClientOutputView,
    call_id: Seq<char>,
    question_ids: Seq<Seq<char>>,
    rule_id: Seq<char>,
) -> bool {
    &&& fresh_id("tool_"@, call_id)
    &&& fresh_id("byob-rule-"@, rule_id)
    &&& question_ids.len() == question_count(output)
    &&& forall|i: int|
        0 <= i < question_ids.len() ==> fresh_id("question_"@, #[trigger] question_ids[i])
}

/// The number of questions that an output asks.
fn count_questions(output: &WarpClientOutput) -> (n: usize)
    ensures
        n == question_count(output@),
{
    match output {
        WarpClientOutput::ToolCall(call) => match &call.tool {
            Some(Tool::AskUserQuestion(ask)) => ask.questions.len(),
            _ => 0,
        },
        WarpClientOutput::Suggestions(_) => 0,
    }
}

/// Questions with a fresh identifier for each that has none.
fn identify_questions(questions: Vec<Question>, fresh: Vec<String>) -> (r: Vec<Question>)
    requires
        fresh@.len() == questions@.len(),
    ensures
        views(r@) == identified_questions(views(questions@), views(fresh@)),
{
    let mut questions = questions;
    let ghost before = views(questions@);
    let mut i: usize = 0;
    while i < questions.len()
        invariant
            i <= questions.len(),
            questions.len() == before.len(),
            fresh.len() == before.len(),
            forall|k: int|
                0 <= k < i ==> (#[trigger] questions@[k])@ == (QuestionView {
                    question_id: or_fresh(before[k].question_id, fresh@[k]@),
                    ..before[k]
                }),
            forall|k: int| i <= k < before.len() ==> (#[trigger] questions@[k])@ == before[k],
        decreases questions.len() - i,
    {
        if questions[i].question_id.as_str().is_empty() {
            let question = &mut questions[i];
            question.question_id = fresh[i].clone();
        }
        i += 1;
    }
    assert(views(questions@) =~= identified_questions(before, views(fresh@)));
    questions
}

/// Rules with a fresh identifier for each that has none.
fn identify_rules(rules: Vec<SuggestedRule>, fresh: String) -> (r: Vec<SuggestedRule>)
    ensures
        views(r@) == identified_rules(views(rules@), fresh@),
{
    let mut rules = rules;
    let ghost before = views(rules@);
    let mut i: usize = 0;
    while i < rules.len()
        invariant
            i <= rules.len(),
            rules.len() == before.len(),
            forall|k: int|
                0 <= k < i ==> (#[trigger] rules@[k])@ == (SuggestedRuleView {
                    logging_id: or_fresh(before[k].logging_id, fresh@),
                    ..before[k]
                }),
            forall|k: int| i <= k < before.len() ==> (#[trigger] rules@[k])@ == before[k],
        decreases rules.len() - i,
    {
        if rules[i].logging_id.as_str().is_empty() {
            let rule = &mut rules[i];
            rule.logging_id = fresh.clone();
        }
        i += 1;
    }
    assert(views(rules@) =~= identified_rules(before, fresh@));
    rules
}

/// An output with the given identifiers for what has none.
pub fn identify_output(
    output: WarpClientOutput,
    call_id: String,
    question_ids: Vec<String>,
    rule_id: String,
) -> (r: WarpClientOutput)
    requires
        question_ids@.len() == question_count(output@),
    ensures
        r@ == identified(output@, call_id@, views(question_ids@), rule_id@),
{
    match output {
        WarpClientOutput::ToolCall(call) => {
            let tool = match call.tool {
                Some(Tool::AskUserQuestion(ask)) => Some(
                    Tool::AskUserQuestion(
                        AskUserQuestion {
                            questions: identify_questions(ask.questions, question_ids),
                        },
                    ),
                ),
                other => other,
            };
            WarpClientOutput::ToolCall(
                ToolCall { tool_call_id: id_or_fresh(call.tool_call_id, call_id), tool },
            )
        },
        WarpClientOutput::Suggestions(suggestions) => WarpClientOutput::Suggestions(
            Suggestions { rules: identify_rules(suggestions.rules, rule_id) },
        ),
    }
}

// ---------------------------------------------------------------------------------------------
// The tool calls of an answer
// ---------------------------------------------------------------------------------------------
/// What the client is asked to do by a tool call. Identifiers that are not given are left empty.
pub open spec fn output_of_call(call: ToolCallAccumulatorView) -> Result<
    WarpClientOutputView,
    Seq<char>,
> {
    output_of(call.name, call.id, json_reading(call.arguments))
}

/// Whether a result is what a tool call asks for, with fresh identifiers for what has none.
pub open spec fn completes(
    call: ToolCallAccumulatorView,
    result: Result<WarpClientOutputView, Seq<char>>,
) -> bool {
    match output_of_call(call) {
        Ok(output) => exists|call_id: Seq<char>, question_ids: Seq<Seq<char>>, rule_id: Seq<char>|
            #![trigger fresh_for(output, call_id, question_ids, rule_id)]
            fresh_for(output, call_id, question_ids, rule_id) && result == Ok::<_, Seq<char>>(
                identified(output, call_id, question_ids, rule_id),
            ),
        Err(message) => result == Err::<WarpClientOutputView, _>(message),
    }
}

impl ToolCallAccumulator {
    /// What the client is asked to do by the tool call, or why it cannot be asked.
    pub fn into_warp_client_output(self) -> (r: Result<WarpClientOutput, String>)
        ensures
            completes(self@, res_view(r)),
    {
        let parsed = parse_json(self.arguments.as_str());
        match output_from_arguments(self.name, self.id, &parsed) {
            Ok(output) => {
                let call_id = new_id("tool_");
                let question_ids = new_ids("question_", count_questions(&output));
                let rule_id = new_id("byob-rule-");
                assert(fresh_for(output@, call_id@, views(question_ids@), rule_id@));
                Ok(identify_output(output, call_id, question_ids, rule_id))
            },
            Err(message) => Err(message),
        }
    }
}

/// Whether anything that can be called is known of a tool call.
pub open spec fn has_content(call: ToolCallAccumulatorView) -> bool {
    call.name is Some || call.arguments.len() > 0
}

/// The tool calls of which something that can be called is known.
pub open spec fn calls_with_content(
    calls: Seq<(usize, ToolCallAccumulatorView)>,
) -> Seq<ToolCallAccumulatorView>
    decreases calls.len(),
{
    if calls.len() == 0 {
        Seq::empty()
    } else {
        let before = calls_with_content(calls.drop_last());
        if has_content(calls.last().1) {
            before.push(calls.last().1)
        } else {
            before
        }
    }
}

/// Whether the results are those of the tool calls, one for one.
pub open spec fn all_complete(
    calls: Seq<ToolCallAccumulatorView>,
    results: Seq<Result<WarpClientOutput, String>>,
) -> bool {
    &&& results.len() == calls.len()
    &&& forall|i: int|
        0 <= i < calls.len() ==> completes(calls[i], res_view(#[trigger] results[i]))
}

/// The result of a call that asks for a tool, or that failed.
pub open spec fn tool_call_result(result: Result<WarpClientOutput, String>) -> Option<
    Result<ToolCall, String>,
> {
    match result {
        Ok(WarpClientOutput::ToolCall(call)) => Some(Ok(call)),
        Ok(WarpClientOutput::Suggestions(_)) => None,
        Err(message) => Some(Err(message)),
    }
}

/// The results of the calls that ask for a tool, or that failed.
pub open spec fn tool_call_results(results: Seq<Result<WarpClientOutput, String>>) -> Seq<
    Result<ToolCall, String>,
>
    decreases results.len(),
{
    if results.len() == 0 {
        Seq::empty()
    } else {
        let before = tool_call_results(results.drop_last());
        match tool_call_result(results.last()) {
            Some(result) => before.push(result),
            None => before,
        }
    }
}

impl ToolCallAccumulatorSet {
    /// What the client is asked to do by the tool calls, in the order of their indices.
    pub fn into_warp_client_outputs(self) -> (r: Vec<Result<WarpClientOutput, String>>)
        ensures
            all_complete(calls_with_content(self@), r@),
    {
        let ghost all = self@;
        let mut calls = self.into_calls();
        let mut rest: Vec<ToolCallAccumulator> = Vec::new();
        let ghost n = calls@.len();
        assert(all.take(n as int) == all);
        assert(calls_with_content(all) + views(rest@).reverse() =~= calls_with_content(all));
        // The calls are taken from the end, so that each of them can be given away.
        loop
            invariant
                calls@.len() <= n,
                all.len() == n,
                forall|i: int| 0 <= i < calls@.len() ==> (#[trigger] calls@[i]).1@ == all[i].1,
                calls_with_content(all.take(calls@.len() as int)) + views(rest@).reverse()
                    == calls_with_content(all),
            ensures
                views(rest@).reverse() == calls_with_content(all),
            decreases calls@.len(),
        {
            let ghost m = calls@.len() as int;
            match calls.pop() {
                Some((_, call)) => {
                    assert(all.take(m).drop_last() == all.take(m - 1));
                    let ghost before = views(rest@);
                    if call.name.is_some() || !call.arguments.as_str().is_empty() {
                        rest.push(call);
                        assert(views(rest@) =~= before.push(call@));
                        assert(views(rest@).reverse() =~= seq![call@] + before.reverse());
                        assert(calls_with_content(all.take(m - 1)).push(call@) + before.reverse()
                            =~= calls_with_content(all.take(m - 1)) + views(rest@).reverse());
                    }
                },
                None => {
                    assert(all.take(0) == Seq::<(usize, ToolCallAccumulatorView)>::empty());
                    assert(Seq::<ToolCallAccumulatorView>::empty() + views(rest@).reverse()
                        =~= views(rest@).reverse());
                    break;
                },
            }
        }
        let ghost kept = calls_with_content(all);
        let mut r: Vec<Result<WarpClientOutput, String>> = Vec::new();
        loop
            invariant
                r@.len() + rest@.len() == kept.len(),
                forall|i: int|
                    0 <= i < rest@.len() ==> (#[trigger] rest@[i])@ == kept[kept.len() - 1 - i],
                forall|i: int|
                    0 <= i < r@.len() ==> completes(kept[i], res_view(#[trigger] r@[i])),
            ensures
                r@.len() == kept.len(),
                forall|i: int|
                    0 <= i < r@.len() ==> completes(kept[i], res_view(#[trigger] r@[i])),
            decreases rest@.len(),
        {
            match rest.pop() {
                Some(call) => {
                    r.push(call.into_warp_client_output());
                },
                None => {
                    break;
                },
            }
        }
        r
    }

    /// The results of those of the tool calls that ask for a tool, or that failed.
    pub fn into_warp_tool_calls(self) -> (r: Vec<Result<ToolCall, String>>)
        ensures
            exists|results: Seq<Result<WarpClientOutput, String>>|
                #[trigger] all_complete(calls_with_content(self@), results) && r@
                    == tool_call_results(results),
    {
        let mut results = self.into_warp_client_outputs();
        let ghost all = results@;
        assert(all_complete(calls_with_content(self@), all));
        let mut rest: Vec<Result<ToolCall, String>> = Vec::new();
        loop
            invariant
                results@ == all.take(results@.len() as int),
                results@.len() <= all.len(),
                tool_call_results(results@) + rest@.reverse() == tool_call_results(all),
            ensures
                rest@.reverse() == tool_call_results(all),
            decreases results@.len(),
        {
            let ghost shown = results@;
            match results.pop() {
                Some(result) => {
                    assert(shown.drop_last() =~= results@);
                    assert(results@ =~= all.take(results@.len() as int));
                    let ghost before = rest@;
                    match result {
                        Ok(WarpClientOutput::ToolCall(call)) => {
                            rest.push(Ok(call));
                        },
                        Ok(WarpClientOutput::Suggestions(_)) => {},
                        Err(message) => {
                            rest.push(Err(message));
                        },
                    }
                    proof {
                        match tool_call_result(result) {
                            Some(kept) => {
                                assert(rest@.reverse() =~= seq![kept] + before.reverse());
                                assert(tool_call_results(results@).push(kept) + before.reverse()
                                    =~= tool_call_results(results@) + rest@.reverse());
                            },
                            None => {},
                        }
                    }
                },
                None => {
                    assert(Seq::<Result<ToolCall, String>>::empty() + rest@.reverse()
                        =~= rest@.reverse());
                    break;
                },
            }
        }
        let mut r: Vec<Result<ToolCall, String>> = Vec::new();
        let ghost reversed = rest@.reverse();
        loop
            invariant
                r@ + rest@.reverse() == reversed,
            ensures
                r@ == reversed,
            decreases rest@.len(),
        {
            let ghost before = rest@;
            let ghost done = r@;
            match rest.pop() {
                Some(result) => {
                    r.push(result);
                    assert(before.reverse() =~= seq![result] + rest@.reverse());
                    assert(done + before.reverse() =~= r@ + rest@.reverse());
                },
                None => {
                    assert(r@ + rest@.reverse() =~= r@);
                    break;
                },
            }
        }
        r
    }
}

/// Calls of which a name or arguments came are made, in their order; the others are passed over.
pub proof fn lemma_which_calls_are_made(
    calls: Seq<(usize, ToolCallAccumulatorView)>,
    index: usize,
    call: ToolCallAccumulatorView,
)
    ensures
        call.name is Some || call.arguments.len() > 0 ==> calls_with_content(
            calls.push((index, call)),
        ) == calls_with_content(calls).push(call),
        call.name is None && call.arguments.len() == 0 ==> calls_with_content(
            calls.push((index, call)),
        ) == calls_with_content(calls),
        calls_with_content(Seq::empty()).len() == 0,
{
    assert(calls.push((index, call)).drop_last() =~= calls);
}

/// Every call that is made has one result, at its place.
pub proof fn lemma_each_call_has_its_result(
    calls: Seq<ToolCallAccumulatorView>,
    results: Seq<Result<WarpClientOutput, String>>,
    i: int,
)
    requires
        all_complete(calls, results),
    ensures
        results.len() == calls.len(),
        0 <= i < calls.len() ==> completes(calls[i], res_view(results[i])),
{
}

/// Of the results, calls of tools and failures are kept, in their order; suggestions are not.
pub proof fn lemma_which_results_are_kept(
    results: Seq<Result<WarpClientOutput, String>>,
    call: ToolCall,
    suggestions: Suggestions,
    message: String,
)
    ensures
        tool_call_results(results.push(Ok(WarpClientOutput::ToolCall(call)))) == tool_call_results(
            results,
        ).push(Ok(call)),
        tool_call_results(results.push(Err(message))) == tool_call_results(results).push(
            Err(message),
        ),
        tool_call_results(results.push(Ok(WarpClientOutput::Suggestions(suggestions))))
            == tool_call_results(results),
        tool_call_results(Seq::empty()).len() == 0,
{
    assert(results.push(Ok(WarpClientOutput::ToolCall(call))).drop_last() =~= results);
    assert(results.push(Err(message)).drop_last() =~= results);
    assert(results.push(Ok(WarpClientOutput::Suggestions(suggestions))).drop_last() =~= results);
}

} // verus!
