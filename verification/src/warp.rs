//! The data that the Warp client and the proxy exchange: requests with their conversation history,
//! tool calls and tool results, and the events of a response stream.
use crate::text::{opt_view, opt_views, views, views_opt};
use vstd::prelude::*;

verus! {

// ---------------------------------------------------------------------------------------------
// Files
// ---------------------------------------------------------------------------------------------
/// A range of lines of a file.
#[derive(Debug)]
pub struct LineRange {
    pub start: u32,
    pub end: u32,
}

/// The model of [`LineRange`].
#[verifier::ext_equal]
pub struct LineRangeView {
    pub start: u32,
    pub end: u32,
}

impl View for LineRange {
    type V = LineRangeView;

    open spec fn view(&self) -> LineRangeView {
        LineRangeView {
            start: self.start,
            end: self.end,
        }
    }
}

/// The text of a file, or of some of its lines.
#[derive(Debug)]
pub struct FileContent {
    pub file_path: String,
    pub content: String,
    pub line_range: Option<LineRange>,
}

/// The model of [`FileContent`].
#[verifier::ext_equal]
pub struct FileContentView {
    pub file_path: Seq<char>,
    pub content: Seq<char>,
    pub line_range: Option<LineRangeView>,
}

impl View for FileContent {
    type V = FileContentView;

    open spec fn view(&self) -> FileContentView {
        FileContentView {
            file_path: self.file_path@,
            content: self.content@,
            line_range: opt_view(self.line_range),
        }
    }
}

/// The bytes of a file.
#[derive(Debug)]
pub struct BinaryFile {
    pub file_path: String,
    pub data: Vec<u8>,
}

/// The model of [`BinaryFile`].
#[verifier::ext_equal]
pub struct BinaryFileView {
    pub file_path: Seq<char>,
    pub data: Seq<u8>,
}

impl View for BinaryFile {
    type V = BinaryFileView;

    open spec fn view(&self) -> BinaryFileView {
        BinaryFileView {
            file_path: self.file_path@,
            data: self.data@,
        }
    }
}

/// What was read of a file.
#[derive(Debug)]
pub enum AnyFileContent {
    Text(FileContent),
    Binary(BinaryFile),
    Empty,
}

/// The model of [`AnyFileContent`].
#[verifier::ext_equal]
pub enum AnyFileContentView {
    Text(FileContentView),
    Binary(BinaryFileView),
    Empty,
}

impl View for AnyFileContent {
    type V = AnyFileContentView;

    open spec fn view(&self) -> AnyFileContentView {
        match self {
            AnyFileContent::Text(x) => AnyFileContentView::Text(x@),
            AnyFileContent::Binary(x) => AnyFileContentView::Binary(x@),
            AnyFileContent::Empty => AnyFileContentView::Empty,
        }
    }
}

// ---------------------------------------------------------------------------------------------
// Tool calls
// ---------------------------------------------------------------------------------------------
/// Run a command in the terminal.
#[derive(Debug)]
pub struct RunShellCommand {
    pub command: String,
    pub is_read_only: bool,
    pub uses_pager: bool,
    pub is_risky: bool,
    pub wait_until_complete: Option<bool>,
}

/// The model of [`RunShellCommand`].
#[verifier::ext_equal]
pub struct RunShellCommandView {
    pub command: Seq<char>,
    pub is_read_only: bool,
    pub uses_pager: bool,
    pub is_risky: bool,
    pub wait_until_complete: Option<bool>,
}

impl View for RunShellCommand {
    type V = RunShellCommandView;

    open spec fn view(&self) -> RunShellCommandView {
        RunShellCommandView {
            command: self.command@,
            is_read_only: self.is_read_only,
            uses_pager: self.uses_pager,
            is_risky: self.is_risky,
            wait_until_complete: self.wait_until_complete,
        }
    }
}

/// When to read the output of a running command.
#[derive(Debug)]
pub enum Delay {
    /// Once the command has ended.
    OnCompletion,
    /// After some seconds.
    Seconds(i64),
}

/// The model of [`Delay`].
#[verifier::ext_equal]
pub enum DelayView {
    OnCompletion,
    Seconds(i64),
}

impl View for Delay {
    type V = DelayView;

    open spec fn view(&self) -> DelayView {
        match self {
            Delay::OnCompletion => DelayView::OnCompletion,
            Delay::Seconds(x) => DelayView::Seconds(*x),
        }
    }
}

/// Read the output of a running command.
#[derive(Debug)]
pub struct ReadShellCommandOutput {
    pub command_id: String,
    pub delay: Option<Delay>,
}

/// The model of [`ReadShellCommandOutput`].
#[verifier::ext_equal]
pub struct ReadShellCommandOutputView {
    pub command_id: Seq<char>,
    pub delay: Option<DelayView>,
}

impl View for ReadShellCommandOutput {
    type V = ReadShellCommandOutputView;

    open spec fn view(&self) -> ReadShellCommandOutputView {
        ReadShellCommandOutputView {
            command_id: self.command_id@,
            delay: opt_view(self.delay),
        }
    }
}

/// How input is written to a running command.
#[derive(Clone, Copy, Debug, PartialEq, Eq, Structural)]
pub enum WriteMode {
    Raw,
    Line,
    Block,
}

/// Write input to a running command.
#[derive(Debug)]
pub struct WriteToLongRunningShellCommand {
    pub command_id: String,
    pub input: Vec<u8>,
    pub mode: Option<WriteMode>,
}

/// The model of [`WriteToLongRunningShellCommand`].
#[verifier::ext_equal]
pub struct WriteToLongRunningShellCommandView {
    pub command_id: Seq<char>,
    pub input: Seq<u8>,
    pub mode: Option<WriteMode>,
}

impl View for WriteToLongRunningShellCommand {
    type V = WriteToLongRunningShellCommandView;

    open spec fn view(&self) -> WriteToLongRunningShellCommandView {
        WriteToLongRunningShellCommandView {
            command_id: self.command_id@,
            input: self.input@,
            mode: self.mode,
        }
    }
}

/// Hand a running command over to the user.
#[derive(Debug)]
pub struct TransferShellCommandControlToUser {
    pub reason: String,
}

/// The model of [`TransferShellCommandControlToUser`].
#[verifier::ext_equal]
pub struct TransferShellCommandControlToUserView {
    pub reason: Seq<char>,
}

impl View for TransferShellCommandControlToUser {
    type V = TransferShellCommandControlToUserView;

    open spec fn view(&self) -> TransferShellCommandControlToUserView {
        TransferShellCommandControlToUserView {
            reason: self.reason@,
        }
    }
}

/// A file to read, whole or by ranges of lines.
#[derive(Debug)]
pub struct ReadFile {
    pub name: String,
    pub line_ranges: Vec<LineRange>,
}

/// The model of [`ReadFile`].
#[verifier::ext_equal]
pub struct ReadFileView {
    pub name: Seq<char>,
    pub line_ranges: Seq<LineRangeView>,
}

impl View for ReadFile {
    type V = ReadFileView;

    open spec fn view(&self) -> ReadFileView {
        ReadFileView {
            name: self.name@,
            line_ranges: views(self.line_ranges@),
        }
    }
}

/// Read files.
#[derive(Debug)]
pub struct ReadFiles {
    pub files: Vec<ReadFile>,
}

/// The model of [`ReadFiles`].
#[verifier::ext_equal]
pub struct ReadFilesView {
    pub files: Seq<ReadFileView>,
}

impl View for ReadFiles {
    type V = ReadFilesView;

    open spec fn view(&self) -> ReadFilesView {
        ReadFilesView {
            files: views(self.files@),
        }
    }
}

/// Search a codebase for what a query means.
#[derive(Debug)]
pub struct SearchCodebase {
    pub query: String,
    pub path_filters: Vec<String>,
    pub codebase_path: String,
}

/// The model of [`SearchCodebase`].
#[verifier::ext_equal]
pub struct SearchCodebaseView {
    pub query: Seq<char>,
    pub path_filters: Seq<Seq<char>>,
    pub codebase_path: Seq<char>,
}

impl View for SearchCodebase {
    type V = SearchCodebaseView;

    open spec fn view(&self) -> SearchCodebaseView {
        SearchCodebaseView {
            query: self.query@,
            path_filters: views(self.path_filters@),
            codebase_path: self.codebase_path@,
        }
    }
}

/// Search files for patterns.
#[derive(Debug)]
pub struct Grep {
    pub queries: Vec<String>,
    pub path: String,
}

/// The model of [`Grep`].
#[verifier::ext_equal]
pub struct GrepView {
    pub queries: Seq<Seq<char>>,
    pub path: Seq<char>,
}

impl View for Grep {
    type V = GrepView;

    open spec fn view(&self) -> GrepView {
        GrepView {
            queries: views(self.queries@),
            path: self.path@,
        }
    }
}

/// Find files by name.
#[derive(Debug)]
pub struct FileGlob {
    pub patterns: Vec<String>,
    pub path: String,
}

/// The model of [`FileGlob`].
#[verifier::ext_equal]
pub struct FileGlobView {
    pub patterns: Seq<Seq<char>>,
    pub path: Seq<char>,
}

impl View for FileGlob {
    type V = FileGlobView;

    open spec fn view(&self) -> FileGlobView {
        FileGlobView {
            patterns: views(self.patterns@),
            path: self.path@,
        }
    }
}

/// Find files by name, within limits.
#[derive(Debug)]
pub struct FileGlobV2 {
    pub patterns: Vec<String>,
    pub search_dir: String,
    pub max_matches: i32,
    pub max_depth: i32,
    pub min_depth: i32,
}

/// The model of [`FileGlobV2`].
#[verifier::ext_equal]
pub struct FileGlobV2View {
    pub patterns: Seq<Seq<char>>,
    pub search_dir: Seq<char>,
    pub max_matches: i32,
    pub max_depth: i32,
    pub min_depth: i32,
}

impl View for FileGlobV2 {
    type V = FileGlobV2View;

    open spec fn view(&self) -> FileGlobV2View {
        FileGlobV2View {
            patterns: views(self.patterns@),
            search_dir: self.search_dir@,
            max_matches: self.max_matches,
            max_depth: self.max_depth,
            min_depth: self.min_depth,
        }
    }
}

/// Where a skill is found.
#[derive(Debug)]
pub enum SkillReference {
    SkillPath(String),
    BundledSkillId(String),
}

/// The model of [`SkillReference`].
#[verifier::ext_equal]
pub enum SkillReferenceView {
    SkillPath(Seq<char>),
    BundledSkillId(Seq<char>),
}

impl View for SkillReference {
    type V = SkillReferenceView;

    open spec fn view(&self) -> SkillReferenceView {
        match self {
            SkillReference::SkillPath(x) => SkillReferenceView::SkillPath(x@),
            SkillReference::BundledSkillId(x) => SkillReferenceView::BundledSkillId(x@),
        }
    }
}

/// Read a skill.
#[derive(Debug)]
pub struct ReadSkill {
    pub name: String,
    pub skill_reference: Option<SkillReference>,
}

/// The model of [`ReadSkill`].
#[verifier::ext_equal]
pub struct ReadSkillView {
    pub name: Seq<char>,
    pub skill_reference: Option<SkillReferenceView>,
}

impl View for ReadSkill {
    type V = ReadSkillView;

    open spec fn view(&self) -> ReadSkillView {
        ReadSkillView {
            name: self.name@,
            skill_reference: opt_view(self.skill_reference),
        }
    }
}

/// The options of a question.
#[derive(Debug)]
pub struct MultipleChoice {
    pub options: Vec<String>,
    /// The index of the recommended option, or -1.
    pub recommended_option_index: i32,
    pub is_multiselect: bool,
    pub supports_other: bool,
}

/// The model of [`MultipleChoice`].
#[verifier::ext_equal]
pub struct MultipleChoiceView {
    pub options: Seq<Seq<char>>,
    pub recommended_option_index: i32,
    pub is_multiselect: bool,
    pub supports_other: bool,
}

impl View for MultipleChoice {
    type V = MultipleChoiceView;

    open spec fn view(&self) -> MultipleChoiceView {
        MultipleChoiceView {
            options: views(self.options@),
            recommended_option_index: self.recommended_option_index,
            is_multiselect: self.is_multiselect,
            supports_other: self.supports_other,
        }
    }
}

/// A question to the user.
#[derive(Debug)]
pub struct Question {
    pub question_id: String,
    pub question: String,
    pub question_type: Option<MultipleChoice>,
}

/// The model of [`Question`].
#[verifier::ext_equal]
pub struct QuestionView {
    pub question_id: Seq<char>,
    pub question: Seq<char>,
    pub question_type: Option<MultipleChoiceView>,
}

impl View for Question {
    type V = QuestionView;

    open spec fn view(&self) -> QuestionView {
        QuestionView {
            question_id: self.question_id@,
            question: self.question@,
            question_type: opt_view(self.question_type),
        }
    }
}

/// Ask the user some questions.
#[derive(Debug)]
pub struct AskUserQuestion {
    pub questions: Vec<Question>,
}

/// The model of [`AskUserQuestion`].
#[verifier::ext_equal]
pub struct AskUserQuestionView {
    pub questions: Seq<QuestionView>,
}

impl View for AskUserQuestion {
    type V = AskUserQuestionView;

    open spec fn view(&self) -> AskUserQuestionView {
        AskUserQuestionView {
            questions: views(self.questions@),
        }
    }
}

/// A text of a file to replace by another.
#[derive(Debug)]
pub struct FileDiff {
    pub file_path: String,
    pub search: String,
    pub replace: String,
}

/// The model of [`FileDiff`].
#[verifier::ext_equal]
pub struct FileDiffView {
    pub file_path: Seq<char>,
    pub search: Seq<char>,
    pub replace: Seq<char>,
}

impl View for FileDiff {
    type V = FileDiffView;

    open spec fn view(&self) -> FileDiffView {
        FileDiffView {
            file_path: self.file_path@,
            search: self.search@,
            replace: self.replace@,
        }
    }
}

/// A file to create.
#[derive(Debug)]
pub struct NewFile {
    pub file_path: String,
    pub content: String,
}

/// The model of [`NewFile`].
#[verifier::ext_equal]
pub struct NewFileView {
    pub file_path: Seq<char>,
    pub content: Seq<char>,
}

impl View for NewFile {
    type V = NewFileView;

    open spec fn view(&self) -> NewFileView {
        NewFileView {
            file_path: self.file_path@,
            content: self.content@,
        }
    }
}

/// A file to delete.
#[derive(Debug)]
pub struct DeleteFile {
    pub file_path: String,
}

/// The model of [`DeleteFile`].
#[verifier::ext_equal]
pub struct DeleteFileView {
    pub file_path: Seq<char>,
}

impl View for DeleteFile {
    type V = DeleteFileView;

    open spec fn view(&self) -> DeleteFileView {
        DeleteFileView {
            file_path: self.file_path@,
        }
    }
}

/// A change within a file, found by its context.
#[derive(Debug)]
pub struct Hunk {
    pub change_context: Vec<String>,
    pub pre_context: String,
    pub old: String,
    pub new: String,
    pub post_context: String,
}

/// The model of [`Hunk`].
#[verifier::ext_equal]
pub struct HunkView {
    pub change_context: Seq<Seq<char>>,
    pub pre_context: Seq<char>,
    pub old: Seq<char>,
    pub new: Seq<char>,
    pub post_context: Seq<char>,
}

impl View for Hunk {
    type V = HunkView;

    open spec fn view(&self) -> HunkView {
        HunkView {
            change_context: views(self.change_context@),
            pre_context: self.pre_context@,
            old: self.old@,
            new: self.new@,
            post_context: self.post_context@,
        }
    }
}

/// Changes to a file, and where it moves to.
#[derive(Debug)]
pub struct V4aFileUpdate {
    pub file_path: String,
    pub move_to: String,
    pub hunks: Vec<Hunk>,
}

/// The model of [`V4aFileUpdate`].
#[verifier::ext_equal]
pub struct V4aFileUpdateView {
    pub file_path: Seq<char>,
    pub move_to: Seq<char>,
    pub hunks: Seq<HunkView>,
}

impl View for V4aFileUpdate {
    type V = V4aFileUpdateView;

    open spec fn view(&self) -> V4aFileUpdateView {
        V4aFileUpdateView {
            file_path: self.file_path@,
            move_to: self.move_to@,
            hunks: views(self.hunks@),
        }
    }
}

/// Edit, create and delete files.
#[derive(Debug)]
pub struct ApplyFileDiffs {
    pub summary: String,
    pub diffs: Vec<FileDiff>,
    pub new_files: Vec<NewFile>,
    pub deleted_files: Vec<DeleteFile>,
    pub v4a_updates: Vec<V4aFileUpdate>,
}

/// The model of [`ApplyFileDiffs`].
#[verifier::ext_equal]
pub struct ApplyFileDiffsView {
    pub summary: Seq<char>,
    pub diffs: Seq<FileDiffView>,
    pub new_files: Seq<NewFileView>,
    pub deleted_files: Seq<DeleteFileView>,
    pub v4a_updates: Seq<V4aFileUpdateView>,
}

impl View for ApplyFileDiffs {
    type V = ApplyFileDiffsView;

    open spec fn view(&self) -> ApplyFileDiffsView {
        ApplyFileDiffsView {
            summary: self.summary@,
            diffs: views(self.diffs@),
            new_files: views(self.new_files@),
            deleted_files: views(self.deleted_files@),
            v4a_updates: views(self.v4a_updates@),
        }
    }
}

/// A suggestion shown as a banner.
#[derive(Debug)]
pub struct InlineQueryBanner {
    pub title: String,
    pub description: String,
    pub query: String,
}

/// The model of [`InlineQueryBanner`].
#[verifier::ext_equal]
pub struct InlineQueryBannerView {
    pub title: Seq<char>,
    pub description: Seq<char>,
    pub query: Seq<char>,
}

impl View for InlineQueryBanner {
    type V = InlineQueryBannerView;

    open spec fn view(&self) -> InlineQueryBannerView {
        InlineQueryBannerView {
            title: self.title@,
            description: self.description@,
            query: self.query@,
        }
    }
}

/// A suggestion shown as a chip.
#[derive(Debug)]
pub struct PromptChip {
    pub prompt: String,
    pub label: String,
}

/// The model of [`PromptChip`].
#[verifier::ext_equal]
pub struct PromptChipView {
    pub prompt: Seq<char>,
    pub label: Seq<char>,
}

impl View for PromptChip {
    type V = PromptChipView;

    open spec fn view(&self) -> PromptChipView {
        PromptChipView {
            prompt: self.prompt@,
            label: self.label@,
        }
    }
}

/// How a suggested prompt is shown.
#[derive(Debug)]
pub enum DisplayMode {
    InlineQueryBanner(InlineQueryBanner),
    PromptChip(PromptChip),
}

/// The model of [`DisplayMode`].
#[verifier::ext_equal]
pub enum DisplayModeView {
    InlineQueryBanner(InlineQueryBannerView),
    PromptChip(PromptChipView),
}

impl View for DisplayMode {
    type V = DisplayModeView;

    open spec fn view(&self) -> DisplayModeView {
        match self {
            DisplayMode::InlineQueryBanner(x) => DisplayModeView::InlineQueryBanner(x@),
            DisplayMode::PromptChip(x) => DisplayModeView::PromptChip(x@),
        }
    }
}

/// Suggest a prompt to the user.
#[derive(Debug)]
pub struct SuggestPrompt {
    pub is_trigger_irrelevant: bool,
    pub display_mode: Option<DisplayMode>,
}

/// The model of [`SuggestPrompt`].
#[verifier::ext_equal]
pub struct SuggestPromptView {
    pub is_trigger_irrelevant: bool,
    pub display_mode: Option<DisplayModeView>,
}

impl View for SuggestPrompt {
    type V = SuggestPromptView;

    open spec fn view(&self) -> SuggestPromptView {
        SuggestPromptView {
            is_trigger_irrelevant: self.is_trigger_irrelevant,
            display_mode: opt_view(self.display_mode),
        }
    }
}

/// A tool and its arguments.
#[derive(Debug)]
pub enum Tool {
    RunShellCommand(RunShellCommand),
    ReadShellCommandOutput(ReadShellCommandOutput),
    WriteToLongRunningShellCommand(WriteToLongRunningShellCommand),
    TransferShellCommandControlToUser(TransferShellCommandControlToUser),
    ReadFiles(ReadFiles),
    SearchCodebase(SearchCodebase),
    Grep(Grep),
    FileGlob(FileGlob),
    FileGlobV2(FileGlobV2),
    ReadSkill(ReadSkill),
    AskUserQuestion(AskUserQuestion),
    ApplyFileDiffs(ApplyFileDiffs),
    SuggestPrompt(SuggestPrompt),
    /// A tool of the client that the proxy does not handle.
    Other,
}

/// The model of [`Tool`].
#[verifier::ext_equal]
pub enum ToolView {
    RunShellCommand(RunShellCommandView),
    ReadShellCommandOutput(ReadShellCommandOutputView),
    WriteToLongRunningShellCommand(WriteToLongRunningShellCommandView),
    TransferShellCommandControlToUser(TransferShellCommandControlToUserView),
    ReadFiles(ReadFilesView),
    SearchCodebase(SearchCodebaseView),
    Grep(GrepView),
    FileGlob(FileGlobView),
    FileGlobV2(FileGlobV2View),
    ReadSkill(ReadSkillView),
    AskUserQuestion(AskUserQuestionView),
    ApplyFileDiffs(ApplyFileDiffsView),
    SuggestPrompt(SuggestPromptView),
    Other,
}

impl View for Tool {
    type V = ToolView;

    open spec fn view(&self) -> ToolView {
        match self {
            Tool::RunShellCommand(x) => ToolView::RunShellCommand(x@),
            Tool::ReadShellCommandOutput(x) => ToolView::ReadShellCommandOutput(x@),
            Tool::WriteToLongRunningShellCommand(x) => ToolView::WriteToLongRunningShellCommand(x@),
            Tool::TransferShellCommandControlToUser(x) => {
                ToolView::TransferShellCommandControlToUser(x@)
            },
            Tool::ReadFiles(x) => ToolView::ReadFiles(x@),
            Tool::SearchCodebase(x) => ToolView::SearchCodebase(x@),
            Tool::Grep(x) => ToolView::Grep(x@),
            Tool::FileGlob(x) => ToolView::FileGlob(x@),
            Tool::FileGlobV2(x) => ToolView::FileGlobV2(x@),
            Tool::ReadSkill(x) => ToolView::ReadSkill(x@),
            Tool::AskUserQuestion(x) => ToolView::AskUserQuestion(x@),
            Tool::ApplyFileDiffs(x) => ToolView::ApplyFileDiffs(x@),
            Tool::SuggestPrompt(x) => ToolView::SuggestPrompt(x@),
            Tool::Other => ToolView::Other,
        }
    }
}

/// A call of a tool.
#[derive(Debug)]
pub struct ToolCall {
    pub tool_call_id: String,
    pub tool: Option<Tool>,
}

/// The model of [`ToolCall`].
#[verifier::ext_equal]
pub struct ToolCallView {
    pub tool_call_id: Seq<char>,
    pub tool: Option<ToolView>,
}

impl View for ToolCall {
    type V = ToolCallView;

    open spec fn view(&self) -> ToolCallView {
        ToolCallView {
            tool_call_id: self.tool_call_id@,
            tool: opt_view(self.tool),
        }
    }
}

/// A rule that the user may want to keep.
#[derive(Debug)]
pub struct SuggestedRule {
    pub name: String,
    pub content: String,
    pub logging_id: String,
}

/// The model of [`SuggestedRule`].
#[verifier::ext_equal]
pub struct SuggestedRuleView {
    pub name: Seq<char>,
    pub content: Seq<char>,
    pub logging_id: Seq<char>,
}

impl View for SuggestedRule {
    type V = SuggestedRuleView;

    open spec fn view(&self) -> SuggestedRuleView {
        SuggestedRuleView {
            name: self.name@,
            content: self.content@,
            logging_id: self.logging_id@,
        }
    }
}

/// Suggestions to show to the user.
#[derive(Debug)]
pub struct Suggestions {
    pub rules: Vec<SuggestedRule>,
}

/// The model of [`Suggestions`].
#[verifier::ext_equal]
pub struct SuggestionsView {
    pub rules: Seq<SuggestedRuleView>,
}

impl View for Suggestions {
    type V = SuggestionsView;

    open spec fn view(&self) -> SuggestionsView {
        SuggestionsView {
            rules: views(self.rules@),
        }
    }
}

/// The tools that a client can offer.
#[derive(Clone, Copy, Debug, PartialEq, Eq, Structural)]
pub enum ToolType {
    RunShellCommand,
    ReadShellCommandOutput,
    WriteToLongRunningShellCommand,
    TransferShellCommandControlToUser,
    ReadFiles,
    SearchCodebase,
    Grep,
    FileGlob,
    FileGlobV2,
    ReadSkill,
    AskUserQuestion,
    ApplyFileDiffs,
    SuggestPrompt,
    /// A tool that the proxy does not handle.
    Other,
}

// ---------------------------------------------------------------------------------------------
// Tool results
// ---------------------------------------------------------------------------------------------
/// A command that has ended.
#[derive(Debug)]
pub struct ShellCommandFinished {
    pub command_id: String,
    pub exit_code: i32,
    pub output: String,
}

/// The model of [`ShellCommandFinished`].
#[verifier::ext_equal]
pub struct ShellCommandFinishedView {
    pub command_id: Seq<char>,
    pub exit_code: i32,
    pub output: Seq<char>,
}

impl View for ShellCommandFinished {
    type V = ShellCommandFinishedView;

    open spec fn view(&self) -> ShellCommandFinishedView {
        ShellCommandFinishedView {
            command_id: self.command_id@,
            exit_code: self.exit_code,
            output: self.output@,
        }
    }
}

/// A command that is still running.
#[derive(Debug)]
pub struct LongRunningShellCommandSnapshot {
    pub command_id: String,
    pub is_alt_screen_active: bool,
    pub is_preempted: bool,
    pub output: String,
}

/// The model of [`LongRunningShellCommandSnapshot`].
#[verifier::ext_equal]
pub struct LongRunningShellCommandSnapshotView {
    pub command_id: Seq<char>,
    pub is_alt_screen_active: bool,
    pub is_preempted: bool,
    pub output: Seq<char>,
}

impl View for LongRunningShellCommandSnapshot {
    type V = LongRunningShellCommandSnapshotView;

    open spec fn view(&self) -> LongRunningShellCommandSnapshotView {
        LongRunningShellCommandSnapshotView {
            command_id: self.command_id@,
            is_alt_screen_active: self.is_alt_screen_active,
            is_preempted: self.is_preempted,
            output: self.output@,
        }
    }
}

/// What became of a command.
#[derive(Debug)]
pub enum RunShellCommandOutcome {
    CommandFinished(ShellCommandFinished),
    LongRunningCommandSnapshot(LongRunningShellCommandSnapshot),
    PermissionDenied,
}

/// The model of [`RunShellCommandOutcome`].
#[verifier::ext_equal]
pub enum RunShellCommandOutcomeView {
    CommandFinished(ShellCommandFinishedView),
    LongRunningCommandSnapshot(LongRunningShellCommandSnapshotView),
    PermissionDenied,
}

impl View for RunShellCommandOutcome {
    type V = RunShellCommandOutcomeView;

    open spec fn view(&self) -> RunShellCommandOutcomeView {
        match self {
            RunShellCommandOutcome::CommandFinished(x) => {
                RunShellCommandOutcomeView::CommandFinished(x@)
            },
            RunShellCommandOutcome::LongRunningCommandSnapshot(x) => {
                RunShellCommandOutcomeView::LongRunningCommandSnapshot(x@)
            },
            RunShellCommandOutcome::PermissionDenied => {
                RunShellCommandOutcomeView::PermissionDenied
            },
        }
    }
}

/// The result of running a command.
#[derive(Debug)]
pub struct RunShellCommandResult {
    pub command: String,
    pub output: String,
    pub exit_code: i32,
    pub result: Option<RunShellCommandOutcome>,
}

/// The model of [`RunShellCommandResult`].
#[verifier::ext_equal]
pub struct RunShellCommandResultView {
    pub command: Seq<char>,
    pub output: Seq<char>,
    pub exit_code: i32,
    pub result: Option<RunShellCommandOutcomeView>,
}

impl View for RunShellCommandResult {
    type V = RunShellCommandResultView;

    open spec fn view(&self) -> RunShellCommandResultView {
        RunShellCommandResultView {
            command: self.command@,
            output: self.output@,
            exit_code: self.exit_code,
            result: opt_view(self.result),
        }
    }
}

/// What became of a running command.
#[derive(Debug)]
pub enum ShellOutcome {
    CommandFinished(ShellCommandFinished),
    LongRunningCommandSnapshot(LongRunningShellCommandSnapshot),
    /// The error, as it is shown to a developer.
    Error(String),
}

/// The model of [`ShellOutcome`].
#[verifier::ext_equal]
pub enum ShellOutcomeView {
    CommandFinished(ShellCommandFinishedView),
    LongRunningCommandSnapshot(LongRunningShellCommandSnapshotView),
    Error(Seq<char>),
}

impl View for ShellOutcome {
    type V = ShellOutcomeView;

    open spec fn view(&self) -> ShellOutcomeView {
        match self {
            ShellOutcome::CommandFinished(x) => ShellOutcomeView::CommandFinished(x@),
            ShellOutcome::LongRunningCommandSnapshot(x) => {
                ShellOutcomeView::LongRunningCommandSnapshot(x@)
            },
            ShellOutcome::Error(x) => ShellOutcomeView::Error(x@),
        }
    }
}

/// The result of reading the output of a running command.
#[derive(Debug)]
pub struct ReadShellCommandOutputResult {
    pub command: String,
    pub result: Option<ShellOutcome>,
}

/// The model of [`ReadShellCommandOutputResult`].
#[verifier::ext_equal]
pub struct ReadShellCommandOutputResultView {
    pub command: Seq<char>,
    pub result: Option<ShellOutcomeView>,
}

impl View for ReadShellCommandOutputResult {
    type V = ReadShellCommandOutputResultView;

    open spec fn view(&self) -> ReadShellCommandOutputResultView {
        ReadShellCommandOutputResultView {
            command: self.command@,
            result: opt_view(self.result),
        }
    }
}

/// What came of reading files.
#[derive(Debug)]
pub enum ReadFilesOutcome {
    TextFilesSuccess(Vec<FileContent>),
    AnyFilesSuccess(Vec<AnyFileContent>),
    Error(String),
}

/// The model of [`ReadFilesOutcome`].
#[verifier::ext_equal]
pub enum ReadFilesOutcomeView {
    TextFilesSuccess(Seq<FileContentView>),
    AnyFilesSuccess(Seq<AnyFileContentView>),
    Error(Seq<char>),
}

impl View for ReadFilesOutcome {
    type V = ReadFilesOutcomeView;

    open spec fn view(&self) -> ReadFilesOutcomeView {
        match self {
            ReadFilesOutcome::TextFilesSuccess(x) => {
                ReadFilesOutcomeView::TextFilesSuccess(views(x@))
            },
            ReadFilesOutcome::AnyFilesSuccess(x) => {
                ReadFilesOutcomeView::AnyFilesSuccess(views(x@))
            },
            ReadFilesOutcome::Error(x) => ReadFilesOutcomeView::Error(x@),
        }
    }
}

/// What came of a search.
#[derive(Debug)]
pub enum SearchCodebaseOutcome {
    Success(Vec<FileContent>),
    Error(String),
}

/// The model of [`SearchCodebaseOutcome`].
#[verifier::ext_equal]
pub enum SearchCodebaseOutcomeView {
    Success(Seq<FileContentView>),
    Error(Seq<char>),
}

impl View for SearchCodebaseOutcome {
    type V = SearchCodebaseOutcomeView;

    open spec fn view(&self) -> SearchCodebaseOutcomeView {
        match self {
            SearchCodebaseOutcome::Success(x) => SearchCodebaseOutcomeView::Success(views(x@)),
            SearchCodebaseOutcome::Error(x) => SearchCodebaseOutcomeView::Error(x@),
        }
    }
}

/// A file in which a pattern was found.
#[derive(Debug)]
pub struct GrepFile {
    pub file_path: String,
    /// The numbers of the lines that match.
    pub matched_lines: Vec<u32>,
}

/// The model of [`GrepFile`].
#[verifier::ext_equal]
pub struct GrepFileView {
    pub file_path: Seq<char>,
    pub matched_lines: Seq<u32>,
}

impl View for GrepFile {
    type V = GrepFileView;

    open spec fn view(&self) -> GrepFileView {
        GrepFileView {
            file_path: self.file_path@,
            matched_lines: self.matched_lines@,
        }
    }
}

/// What came of a search for patterns.
#[derive(Debug)]
pub enum GrepOutcome {
    Success(Vec<GrepFile>),
    Error(String),
}

/// The model of [`GrepOutcome`].
#[verifier::ext_equal]
pub enum GrepOutcomeView {
    Success(Seq<GrepFileView>),
    Error(Seq<char>),
}

impl View for GrepOutcome {
    type V = GrepOutcomeView;

    open spec fn view(&self) -> GrepOutcomeView {
        match self {
            GrepOutcome::Success(x) => GrepOutcomeView::Success(views(x@)),
            GrepOutcome::Error(x) => GrepOutcomeView::Error(x@),
        }
    }
}

/// What came of finding files.
#[derive(Debug)]
pub enum FileGlobOutcome {
    Success(String),
    Error(String),
}

/// The model of [`FileGlobOutcome`].
#[verifier::ext_equal]
pub enum FileGlobOutcomeView {
    Success(Seq<char>),
    Error(Seq<char>),
}

impl View for FileGlobOutcome {
    type V = FileGlobOutcomeView;

    open spec fn view(&self) -> FileGlobOutcomeView {
        match self {
            FileGlobOutcome::Success(x) => FileGlobOutcomeView::Success(x@),
            FileGlobOutcome::Error(x) => FileGlobOutcomeView::Error(x@),
        }
    }
}

/// The files that were found.
#[derive(Debug)]
pub struct FileGlobV2Success {
    pub matched_files: Vec<String>,
    pub warnings: String,
}

/// The model of [`FileGlobV2Success`].
#[verifier::ext_equal]
pub struct FileGlobV2SuccessView {
    pub matched_files: Seq<Seq<char>>,
    pub warnings: Seq<char>,
}

impl View for FileGlobV2Success {
    type V = FileGlobV2SuccessView;

    open spec fn view(&self) -> FileGlobV2SuccessView {
        FileGlobV2SuccessView {
            matched_files: views(self.matched_files@),
            warnings: self.warnings@,
        }
    }
}

/// What came of finding files within limits.
#[derive(Debug)]
pub enum FileGlobV2Outcome {
    Success(FileGlobV2Success),
    Error(String),
}

/// The model of [`FileGlobV2Outcome`].
#[verifier::ext_equal]
pub enum FileGlobV2OutcomeView {
    Success(FileGlobV2SuccessView),
    Error(Seq<char>),
}

impl View for FileGlobV2Outcome {
    type V = FileGlobV2OutcomeView;

    open spec fn view(&self) -> FileGlobV2OutcomeView {
        match self {
            FileGlobV2Outcome::Success(x) => FileGlobV2OutcomeView::Success(x@),
            FileGlobV2Outcome::Error(x) => FileGlobV2OutcomeView::Error(x@),
        }
    }
}

/// What came of reading a skill.
#[derive(Debug)]
pub enum ReadSkillOutcome {
    Success(Option<FileContent>),
    Error(String),
}

/// The model of [`ReadSkillOutcome`].
#[verifier::ext_equal]
pub enum ReadSkillOutcomeView {
    Success(Option<FileContentView>),
    Error(Seq<char>),
}

impl View for ReadSkillOutcome {
    type V = ReadSkillOutcomeView;

    open spec fn view(&self) -> ReadSkillOutcomeView {
        match self {
            ReadSkillOutcome::Success(x) => ReadSkillOutcomeView::Success(opt_view(*x)),
            ReadSkillOutcome::Error(x) => ReadSkillOutcomeView::Error(x@),
        }
    }
}

/// What the user chose.
#[derive(Debug)]
pub struct ChosenOptions {
    pub selected_options: Vec<String>,
    pub other_text: String,
}

/// The model of [`ChosenOptions`].
#[verifier::ext_equal]
pub struct ChosenOptionsView {
    pub selected_options: Seq<Seq<char>>,
    pub other_text: Seq<char>,
}

impl View for ChosenOptions {
    type V = ChosenOptionsView;

    open spec fn view(&self) -> ChosenOptionsView {
        ChosenOptionsView {
            selected_options: views(self.selected_options@),
            other_text: self.other_text@,
        }
    }
}

/// An answer of the user.
#[derive(Debug)]
pub enum Answer {
    MultipleChoice(ChosenOptions),
    Skipped,
}

/// The model of [`Answer`].
#[verifier::ext_equal]
pub enum AnswerView {
    MultipleChoice(ChosenOptionsView),
    Skipped,
}

impl View for Answer {
    type V = AnswerView;

    open spec fn view(&self) -> AnswerView {
        match self {
            Answer::MultipleChoice(x) => AnswerView::MultipleChoice(x@),
            Answer::Skipped => AnswerView::Skipped,
        }
    }
}

/// The answer to a question, where there is one.
#[derive(Debug)]
pub struct AnswerItem {
    pub question_id: String,
    pub answer: Option<Answer>,
}

/// The model of [`AnswerItem`].
#[verifier::ext_equal]
pub struct AnswerItemView {
    pub question_id: Seq<char>,
    pub answer: Option<AnswerView>,
}

impl View for AnswerItem {
    type V = AnswerItemView;

    open spec fn view(&self) -> AnswerItemView {
        AnswerItemView {
            question_id: self.question_id@,
            answer: opt_view(self.answer),
        }
    }
}

/// What came of asking the user.
#[derive(Debug)]
pub enum AskUserQuestionOutcome {
    Success(Vec<AnswerItem>),
    Error(String),
}

/// The model of [`AskUserQuestionOutcome`].
#[verifier::ext_equal]
pub enum AskUserQuestionOutcomeView {
    Success(Seq<AnswerItemView>),
    Error(Seq<char>),
}

impl View for AskUserQuestionOutcome {
    type V = AskUserQuestionOutcomeView;

    open spec fn view(&self) -> AskUserQuestionOutcomeView {
        match self {
            AskUserQuestionOutcome::Success(x) => AskUserQuestionOutcomeView::Success(views(x@)),
            AskUserQuestionOutcome::Error(x) => AskUserQuestionOutcomeView::Error(x@),
        }
    }
}

/// The files that were edited and deleted.
#[derive(Debug)]
pub struct ApplyFileDiffsSuccess {
    /// The path of each edited file, where it is given.
    pub updated_files: Vec<Option<String>>,
    pub deleted_files: Vec<String>,
}

/// The model of [`ApplyFileDiffsSuccess`].
#[verifier::ext_equal]
pub struct ApplyFileDiffsSuccessView {
    pub updated_files: Seq<Option<Seq<char>>>,
    pub deleted_files: Seq<Seq<char>>,
}

impl View for ApplyFileDiffsSuccess {
    type V = ApplyFileDiffsSuccessView;

    open spec fn view(&self) -> ApplyFileDiffsSuccessView {
        ApplyFileDiffsSuccessView {
            updated_files: opt_views(self.updated_files@),
            deleted_files: views(self.deleted_files@),
        }
    }
}

/// What came of editing files.
#[derive(Debug)]
pub enum ApplyFileDiffsOutcome {
    Success(ApplyFileDiffsSuccess),
    Error(String),
}

/// The model of [`ApplyFileDiffsOutcome`].
#[verifier::ext_equal]
pub enum ApplyFileDiffsOutcomeView {
    Success(ApplyFileDiffsSuccessView),
    Error(Seq<char>),
}

impl View for ApplyFileDiffsOutcome {
    type V = ApplyFileDiffsOutcomeView;

    open spec fn view(&self) -> ApplyFileDiffsOutcomeView {
        match self {
            ApplyFileDiffsOutcome::Success(x) => ApplyFileDiffsOutcomeView::Success(x@),
            ApplyFileDiffsOutcome::Error(x) => ApplyFileDiffsOutcomeView::Error(x@),
        }
    }
}

/// The result of a tool call.
#[derive(Debug)]
pub enum ToolResult {
    RunShellCommand(RunShellCommandResult),
    ReadShellCommandOutput(ReadShellCommandOutputResult),
    WriteToLongRunningShellCommand(Option<ShellOutcome>),
    TransferShellCommandControlToUser(Option<ShellOutcome>),
    ReadFiles(Option<ReadFilesOutcome>),
    SearchCodebase(Option<SearchCodebaseOutcome>),
    Grep(Option<GrepOutcome>),
    FileGlob(Option<FileGlobOutcome>),
    FileGlobV2(Option<FileGlobV2Outcome>),
    ReadSkill(Option<ReadSkillOutcome>),
    AskUserQuestion(Option<AskUserQuestionOutcome>),
    ApplyFileDiffs(Option<ApplyFileDiffsOutcome>),
    /// Any other result, as it is shown to a developer.
    Other(String),
}

/// The model of [`ToolResult`].
#[verifier::ext_equal]
pub enum ToolResultView {
    RunShellCommand(RunShellCommandResultView),
    ReadShellCommandOutput(ReadShellCommandOutputResultView),
    WriteToLongRunningShellCommand(Option<ShellOutcomeView>),
    TransferShellCommandControlToUser(Option<ShellOutcomeView>),
    ReadFiles(Option<ReadFilesOutcomeView>),
    SearchCodebase(Option<SearchCodebaseOutcomeView>),
    Grep(Option<GrepOutcomeView>),
    FileGlob(Option<FileGlobOutcomeView>),
    FileGlobV2(Option<FileGlobV2OutcomeView>),
    ReadSkill(Option<ReadSkillOutcomeView>),
    AskUserQuestion(Option<AskUserQuestionOutcomeView>),
    ApplyFileDiffs(Option<ApplyFileDiffsOutcomeView>),
    Other(Seq<char>),
}

impl View for ToolResult {
    type V = ToolResultView;

    open spec fn view(&self) -> ToolResultView {
        match self {
            ToolResult::RunShellCommand(x) => ToolResultView::RunShellCommand(x@),
            ToolResult::ReadShellCommandOutput(x) => ToolResultView::ReadShellCommandOutput(x@),
            ToolResult::WriteToLongRunningShellCommand(x) => {
                ToolResultView::WriteToLongRunningShellCommand(opt_view(*x))
            },
            ToolResult::TransferShellCommandControlToUser(x) => {
                ToolResultView::TransferShellCommandControlToUser(opt_view(*x))
            },
            ToolResult::ReadFiles(x) => ToolResultView::ReadFiles(opt_view(*x)),
            ToolResult::SearchCodebase(x) => ToolResultView::SearchCodebase(opt_view(*x)),
            ToolResult::Grep(x) => ToolResultView::Grep(opt_view(*x)),
            ToolResult::FileGlob(x) => ToolResultView::FileGlob(opt_view(*x)),
            ToolResult::FileGlobV2(x) => ToolResultView::FileGlobV2(opt_view(*x)),
            ToolResult::ReadSkill(x) => ToolResultView::ReadSkill(opt_view(*x)),
            ToolResult::AskUserQuestion(x) => ToolResultView::AskUserQuestion(opt_view(*x)),
            ToolResult::ApplyFileDiffs(x) => ToolResultView::ApplyFileDiffs(opt_view(*x)),
            ToolResult::Other(x) => ToolResultView::Other(x@),
        }
    }
}

/// The result of the tool call of that id.
#[derive(Debug)]
pub struct ToolCallResult {
    pub tool_call_id: String,
    pub result: Option<ToolResult>,
}

/// The model of [`ToolCallResult`].
#[verifier::ext_equal]
pub struct ToolCallResultView {
    pub tool_call_id: Seq<char>,
    pub result: Option<ToolResultView>,
}

impl View for ToolCallResult {
    type V = ToolCallResultView;

    open spec fn view(&self) -> ToolCallResultView {
        ToolCallResultView {
            tool_call_id: self.tool_call_id@,
            result: opt_view(self.result),
        }
    }
}

// ---------------------------------------------------------------------------------------------
// Context of a request
// ---------------------------------------------------------------------------------------------
/// Where the user is.
#[derive(Debug)]
pub struct Directory {
    pub pwd: String,
    pub home: String,
}

/// The model of [`Directory`].
#[verifier::ext_equal]
pub struct DirectoryView {
    pub pwd: Seq<char>,
    pub home: Seq<char>,
}

impl View for Directory {
    type V = DirectoryView;

    open spec fn view(&self) -> DirectoryView {
        DirectoryView {
            pwd: self.pwd@,
            home: self.home@,
        }
    }
}

/// The operating system.
#[derive(Debug)]
pub struct OperatingSystem {
    pub platform: String,
    pub distribution: String,
}

/// The model of [`OperatingSystem`].
#[verifier::ext_equal]
pub struct OperatingSystemView {
    pub platform: Seq<char>,
    pub distribution: Seq<char>,
}

impl View for OperatingSystem {
    type V = OperatingSystemView;

    open spec fn view(&self) -> OperatingSystemView {
        OperatingSystemView {
            platform: self.platform@,
            distribution: self.distribution@,
        }
    }
}

/// The shell.
#[derive(Debug)]
pub struct Shell {
    pub name: String,
    pub version: String,
}

/// The model of [`Shell`].
#[verifier::ext_equal]
pub struct ShellView {
    pub name: Seq<char>,
    pub version: Seq<char>,
}

impl View for Shell {
    type V = ShellView;

    open spec fn view(&self) -> ShellView {
        ShellView {
            name: self.name@,
            version: self.version@,
        }
    }
}

/// The state of a repository.
#[derive(Debug)]
pub struct Git {
    pub head: String,
    pub branch: String,
}

/// The model of [`Git`].
#[verifier::ext_equal]
pub struct GitView {
    pub head: Seq<char>,
    pub branch: Seq<char>,
}

impl View for Git {
    type V = GitView;

    open spec fn view(&self) -> GitView {
        GitView {
            head: self.head@,
            branch: self.branch@,
        }
    }
}

/// A codebase.
#[derive(Debug)]
pub struct Codebase {
    pub name: String,
    pub path: String,
}

/// The model of [`Codebase`].
#[verifier::ext_equal]
pub struct CodebaseView {
    pub name: Seq<char>,
    pub path: Seq<char>,
}

impl View for Codebase {
    type V = CodebaseView;

    open spec fn view(&self) -> CodebaseView {
        CodebaseView {
            name: self.name@,
            path: self.path@,
        }
    }
}

/// A command that was run before.
#[derive(Debug)]
pub struct ExecutedShellCommand {
    pub command_id: String,
    pub command: String,
    pub exit_code: i32,
    pub output: String,
}

/// The model of [`ExecutedShellCommand`].
#[verifier::ext_equal]
pub struct ExecutedShellCommandView {
    pub command_id: Seq<char>,
    pub command: Seq<char>,
    pub exit_code: i32,
    pub output: Seq<char>,
}

impl View for ExecutedShellCommand {
    type V = ExecutedShellCommandView;

    open spec fn view(&self) -> ExecutedShellCommandView {
        ExecutedShellCommandView {
            command_id: self.command_id@,
            command: self.command@,
            exit_code: self.exit_code,
            output: self.output@,
        }
    }
}

/// The rule files that apply to a project.
#[derive(Debug)]
pub struct ProjectRules {
    pub active_rule_files: Vec<FileContent>,
}

/// The model of [`ProjectRules`].
#[verifier::ext_equal]
pub struct ProjectRulesView {
    pub active_rule_files: Seq<FileContentView>,
}

impl View for ProjectRules {
    type V = ProjectRulesView;

    open spec fn view(&self) -> ProjectRulesView {
        ProjectRulesView {
            active_rule_files: views(self.active_rule_files@),
        }
    }
}

/// What the client says of the situation in which it asks.
#[derive(Debug)]
pub struct InputContext {
    pub directory: Option<Directory>,
    pub operating_system: Option<OperatingSystem>,
    pub shell: Option<Shell>,
    pub git: Option<Git>,
    pub codebases: Vec<Codebase>,
    pub executed_shell_commands: Vec<ExecutedShellCommand>,
    pub selected_text: Vec<String>,
    pub files: Vec<Option<FileContent>>,
    pub project_rules: Vec<ProjectRules>,
}

/// The model of [`InputContext`].
#[verifier::ext_equal]
pub struct InputContextView {
    pub directory: Option<DirectoryView>,
    pub operating_system: Option<OperatingSystemView>,
    pub shell: Option<ShellView>,
    pub git: Option<GitView>,
    pub codebases: Seq<CodebaseView>,
    pub executed_shell_commands: Seq<ExecutedShellCommandView>,
    pub selected_text: Seq<Seq<char>>,
    pub files: Seq<Option<FileContentView>>,
    pub project_rules: Seq<ProjectRulesView>,
}

impl View for InputContext {
    type V = InputContextView;

    open spec fn view(&self) -> InputContextView {
        InputContextView {
            directory: opt_view(self.directory),
            operating_system: opt_view(self.operating_system),
            shell: opt_view(self.shell),
            git: opt_view(self.git),
            codebases: views(self.codebases@),
            executed_shell_commands: views(self.executed_shell_commands@),
            selected_text: views(self.selected_text@),
            files: opt_views(self.files@),
            project_rules: views(self.project_rules@),
        }
    }
}

// ---------------------------------------------------------------------------------------------
// Messages and requests
// ---------------------------------------------------------------------------------------------
/// A query of the user, with its context.
#[derive(Debug)]
pub struct UserQuery {
    pub query: String,
    pub context: Option<InputContext>,
}

/// The model of [`UserQuery`].
#[verifier::ext_equal]
pub struct UserQueryView {
    pub query: Seq<char>,
    pub context: Option<InputContextView>,
}

impl View for UserQuery {
    type V = UserQueryView;

    open spec fn view(&self) -> UserQueryView {
        UserQueryView {
            query: self.query@,
            context: opt_view(self.context),
        }
    }
}

/// A query that the client made by itself.
#[derive(Debug)]
pub enum SystemQuery {
    AutoCodeDiff(String),
    ResumeConversation,
    GeneratePassiveSuggestions,
    CreateNewProject(String),
    CloneRepository(String),
    SummarizeConversation(String),
    FetchReviewComments(String),
    Other,
}

/// The model of [`SystemQuery`].
#[verifier::ext_equal]
pub enum SystemQueryView {
    AutoCodeDiff(Seq<char>),
    ResumeConversation,
    GeneratePassiveSuggestions,
    CreateNewProject(Seq<char>),
    CloneRepository(Seq<char>),
    SummarizeConversation(Seq<char>),
    FetchReviewComments(Seq<char>),
    Other,
}

impl View for SystemQuery {
    type V = SystemQueryView;

    open spec fn view(&self) -> SystemQueryView {
        match self {
            SystemQuery::AutoCodeDiff(x) => SystemQueryView::AutoCodeDiff(x@),
            SystemQuery::ResumeConversation => SystemQueryView::ResumeConversation,
            SystemQuery::GeneratePassiveSuggestions => SystemQueryView::GeneratePassiveSuggestions,
            SystemQuery::CreateNewProject(x) => SystemQueryView::CreateNewProject(x@),
            SystemQuery::CloneRepository(x) => SystemQueryView::CloneRepository(x@),
            SystemQuery::SummarizeConversation(x) => SystemQueryView::SummarizeConversation(x@),
            SystemQuery::FetchReviewComments(x) => SystemQueryView::FetchReviewComments(x@),
            SystemQuery::Other => SystemQueryView::Other,
        }
    }
}

/// A summary of what came before.
#[derive(Debug)]
pub enum Summarization {
    ConversationSummary(String),
    ToolCallResultSummary,
}

/// The model of [`Summarization`].
#[verifier::ext_equal]
pub enum SummarizationView {
    ConversationSummary(Seq<char>),
    ToolCallResultSummary,
}

impl View for Summarization {
    type V = SummarizationView;

    open spec fn view(&self) -> SummarizationView {
        match self {
            Summarization::ConversationSummary(x) => SummarizationView::ConversationSummary(x@),
            Summarization::ToolCallResultSummary => SummarizationView::ToolCallResultSummary,
        }
    }
}

/// What a message holds.
#[derive(Debug)]
pub enum MessageContent {
    UserQuery(UserQuery),
    SystemQuery(Option<SystemQuery>),
    AgentOutput(String),
    AgentReasoning(String),
    ToolCall(ToolCall),
    ToolCallResult(ToolCallResult),
    Summarization(Option<Summarization>),
    /// Content that the proxy does not handle.
    Other,
}

/// The model of [`MessageContent`].
#[verifier::ext_equal]
pub enum MessageContentView {
    UserQuery(UserQueryView),
    SystemQuery(Option<SystemQueryView>),
    AgentOutput(Seq<char>),
    AgentReasoning(Seq<char>),
    ToolCall(ToolCallView),
    ToolCallResult(ToolCallResultView),
    Summarization(Option<SummarizationView>),
    Other,
}

impl View for MessageContent {
    type V = MessageContentView;

    open spec fn view(&self) -> MessageContentView {
        match self {
            MessageContent::UserQuery(x) => MessageContentView::UserQuery(x@),
            MessageContent::SystemQuery(x) => MessageContentView::SystemQuery(opt_view(*x)),
            MessageContent::AgentOutput(x) => MessageContentView::AgentOutput(x@),
            MessageContent::AgentReasoning(x) => MessageContentView::AgentReasoning(x@),
            MessageContent::ToolCall(x) => MessageContentView::ToolCall(x@),
            MessageContent::ToolCallResult(x) => MessageContentView::ToolCallResult(x@),
            MessageContent::Summarization(x) => MessageContentView::Summarization(opt_view(*x)),
            MessageContent::Other => MessageContentView::Other,
        }
    }
}

/// A point in time: seconds and nanoseconds since 1970.
#[derive(Debug)]
pub struct Timestamp {
    pub seconds: i64,
    pub nanos: i32,
}

/// The model of [`Timestamp`].
#[verifier::ext_equal]
pub struct TimestampView {
    pub seconds: i64,
    pub nanos: i32,
}

impl View for Timestamp {
    type V = TimestampView;

    open spec fn view(&self) -> TimestampView {
        TimestampView {
            seconds: self.seconds,
            nanos: self.nanos,
        }
    }
}

/// A message of a task.
#[derive(Debug)]
pub struct Message {
    pub id: String,
    pub task_id: String,
    pub request_id: String,
    pub timestamp: Option<Timestamp>,
    pub message: Option<MessageContent>,
}

/// The model of [`Message`].
#[verifier::ext_equal]
pub struct MessageView {
    pub id: Seq<char>,
    pub task_id: Seq<char>,
    pub request_id: Seq<char>,
    pub timestamp: Option<TimestampView>,
    pub message: Option<MessageContentView>,
}

impl View for Message {
    type V = MessageView;

    open spec fn view(&self) -> MessageView {
        MessageView {
            id: self.id@,
            task_id: self.task_id@,
            request_id: self.request_id@,
            timestamp: opt_view(self.timestamp),
            message: opt_view(self.message),
        }
    }
}

/// A task with its messages.
#[derive(Debug)]
pub struct Task {
    pub id: String,
    pub messages: Vec<Message>,
}

/// The model of [`Task`].
#[verifier::ext_equal]
pub struct TaskView {
    pub id: Seq<char>,
    pub messages: Seq<MessageView>,
}

impl View for Task {
    type V = TaskView;

    open spec fn view(&self) -> TaskView {
        TaskView {
            id: self.id@,
            messages: views(self.messages@),
        }
    }
}

/// A command that is running while the user asks.
#[derive(Debug)]
pub struct RunningShellCommand {
    pub command: String,
    pub snapshot: Option<LongRunningShellCommandSnapshot>,
}

/// The model of [`RunningShellCommand`].
#[verifier::ext_equal]
pub struct RunningShellCommandView {
    pub command: Seq<char>,
    pub snapshot: Option<LongRunningShellCommandSnapshotView>,
}

impl View for RunningShellCommand {
    type V = RunningShellCommandView;

    open spec fn view(&self) -> RunningShellCommandView {
        RunningShellCommandView {
            command: self.command@,
            snapshot: opt_view(self.snapshot),
        }
    }
}

/// A query of the user about a running command.
#[derive(Debug)]
pub struct CliAgentUserQuery {
    pub user_query: Option<String>,
    pub running_command: Option<RunningShellCommand>,
}

/// The model of [`CliAgentUserQuery`].
#[verifier::ext_equal]
pub struct CliAgentUserQueryView {
    pub user_query: Option<Seq<char>>,
    pub running_command: Option<RunningShellCommandView>,
}

impl View for CliAgentUserQuery {
    type V = CliAgentUserQueryView;

    open spec fn view(&self) -> CliAgentUserQueryView {
        CliAgentUserQueryView {
            user_query: opt_view(self.user_query),
            running_command: opt_view(self.running_command),
        }
    }
}

/// A message of another agent.
#[derive(Debug)]
pub struct AgentMessage {
    pub sender_agent_id: String,
    pub addresses: Vec<String>,
    pub subject: String,
    pub message_body: String,
}

/// The model of [`AgentMessage`].
#[verifier::ext_equal]
pub struct AgentMessageView {
    pub sender_agent_id: Seq<char>,
    pub addresses: Seq<Seq<char>>,
    pub subject: Seq<char>,
    pub message_body: Seq<char>,
}

impl View for AgentMessage {
    type V = AgentMessageView;

    open spec fn view(&self) -> AgentMessageView {
        AgentMessageView {
            sender_agent_id: self.sender_agent_id@,
            addresses: views(self.addresses@),
            subject: self.subject@,
            message_body: self.message_body@,
        }
    }
}

/// One of several inputs of a request.
#[derive(Debug)]
pub enum UserInput {
    UserQuery(String),
    CliAgentUserQuery(CliAgentUserQuery),
    ToolCallResult(ToolCallResult),
    MessagesReceivedFromAgents(Vec<AgentMessage>),
    /// The number of events.
    EventsFromAgents(u64),
    PassiveSuggestionResult,
    /// An input that the proxy does not handle.
    Other,
}

/// The model of [`UserInput`].
#[verifier::ext_equal]
pub enum UserInputView {
    UserQuery(Seq<char>),
    CliAgentUserQuery(CliAgentUserQueryView),
    ToolCallResult(ToolCallResultView),
    MessagesReceivedFromAgents(Seq<AgentMessageView>),
    EventsFromAgents(u64),
    PassiveSuggestionResult,
    Other,
}

impl View for UserInput {
    type V = UserInputView;

    open spec fn view(&self) -> UserInputView {
        match self {
            UserInput::UserQuery(x) => UserInputView::UserQuery(x@),
            UserInput::CliAgentUserQuery(x) => UserInputView::CliAgentUserQuery(x@),
            UserInput::ToolCallResult(x) => UserInputView::ToolCallResult(x@),
            UserInput::MessagesReceivedFromAgents(x) => {
                UserInputView::MessagesReceivedFromAgents(views(x@))
            },
            UserInput::EventsFromAgents(x) => UserInputView::EventsFromAgents(*x),
            UserInput::PassiveSuggestionResult => UserInputView::PassiveSuggestionResult,
            UserInput::Other => UserInputView::Other,
        }
    }
}

/// What a request asks for.
#[derive(Debug)]
pub enum InputType {
    UserInputs(Vec<Option<UserInput>>),
    QueryWithCannedResponse(String),
    AutoCodeDiffQuery(String),
    ResumeConversation,
    InitProjectRules,
    GeneratePassiveSuggestions,
    CreateNewProject(String),
    CloneRepository(String),
    CodeReview,
    SummarizeConversation(String),
    CreateEnvironment(Vec<String>),
    FetchReviewComments(String),
    StartFromAmbientRunPrompt(String),
    InvokeSkill(Option<String>),
    UserQuery(String),
    ToolCallResult(ToolCallResult),
}

/// The model of [`InputType`].
#[verifier::ext_equal]
pub enum InputTypeView {
    UserInputs(Seq<Option<UserInputView>>),
    QueryWithCannedResponse(Seq<char>),
    AutoCodeDiffQuery(Seq<char>),
    ResumeConversation,
    InitProjectRules,
    GeneratePassiveSuggestions,
    CreateNewProject(Seq<char>),
    CloneRepository(Seq<char>),
    CodeReview,
    SummarizeConversation(Seq<char>),
    CreateEnvironment(Seq<Seq<char>>),
    FetchReviewComments(Seq<char>),
    StartFromAmbientRunPrompt(Seq<char>),
    InvokeSkill(Option<Seq<char>>),
    UserQuery(Seq<char>),
    ToolCallResult(ToolCallResultView),
}

impl View for InputType {
    type V = InputTypeView;

    open spec fn view(&self) -> InputTypeView {
        match self {
            InputType::UserInputs(x) => InputTypeView::UserInputs(opt_views(x@)),
            InputType::QueryWithCannedResponse(x) => InputTypeView::QueryWithCannedResponse(x@),
            InputType::AutoCodeDiffQuery(x) => InputTypeView::AutoCodeDiffQuery(x@),
            InputType::ResumeConversation => InputTypeView::ResumeConversation,
            InputType::InitProjectRules => InputTypeView::InitProjectRules,
            InputType::GeneratePassiveSuggestions => InputTypeView::GeneratePassiveSuggestions,
            InputType::CreateNewProject(x) => InputTypeView::CreateNewProject(x@),
            InputType::CloneRepository(x) => InputTypeView::CloneRepository(x@),
            InputType::CodeReview => InputTypeView::CodeReview,
            InputType::SummarizeConversation(x) => InputTypeView::SummarizeConversation(x@),
            InputType::CreateEnvironment(x) => InputTypeView::CreateEnvironment(views(x@)),
            InputType::FetchReviewComments(x) => InputTypeView::FetchReviewComments(x@),
            InputType::StartFromAmbientRunPrompt(x) => InputTypeView::StartFromAmbientRunPrompt(x@),
            InputType::InvokeSkill(x) => InputTypeView::InvokeSkill(opt_view(*x)),
            InputType::UserQuery(x) => InputTypeView::UserQuery(x@),
            InputType::ToolCallResult(x) => InputTypeView::ToolCallResult(x@),
        }
    }
}

/// The input of a request.
#[derive(Debug)]
pub struct Input {
    pub context: Option<InputContext>,
    pub input_type: Option<InputType>,
}

/// The model of [`Input`].
#[verifier::ext_equal]
pub struct InputView {
    pub context: Option<InputContextView>,
    pub input_type: Option<InputTypeView>,
}

impl View for Input {
    type V = InputView;

    open spec fn view(&self) -> InputView {
        InputView {
            context: opt_view(self.context),
            input_type: opt_view(self.input_type),
        }
    }
}

/// The models that the user picked.
#[derive(Debug)]
pub struct ModelConfig {
    pub coding: String,
    pub base: String,
    pub cli_agent: String,
    pub computer_use_agent: String,
}

/// The model of [`ModelConfig`].
#[verifier::ext_equal]
pub struct ModelConfigView {
    pub coding: Seq<char>,
    pub base: Seq<char>,
    pub cli_agent: Seq<char>,
    pub computer_use_agent: Seq<char>,
}

impl View for ModelConfig {
    type V = ModelConfigView;

    open spec fn view(&self) -> ModelConfigView {
        ModelConfigView {
            coding: self.coding@,
            base: self.base@,
            cli_agent: self.cli_agent@,
            computer_use_agent: self.computer_use_agent@,
        }
    }
}

/// The settings of a request.
#[derive(Debug)]
pub struct Settings {
    pub model_config: Option<ModelConfig>,
    pub supported_tools: Vec<ToolType>,
}

/// The model of [`Settings`].
#[verifier::ext_equal]
pub struct SettingsView {
    pub model_config: Option<ModelConfigView>,
    pub supported_tools: Seq<ToolType>,
}

impl View for Settings {
    type V = SettingsView;

    open spec fn view(&self) -> SettingsView {
        SettingsView {
            model_config: opt_view(self.model_config),
            supported_tools: self.supported_tools@,
        }
    }
}

/// The identifiers of a request.
#[derive(Debug)]
pub struct Metadata {
    pub conversation_id: String,
    pub ambient_agent_task_id: String,
}

/// The model of [`Metadata`].
#[verifier::ext_equal]
pub struct MetadataView {
    pub conversation_id: Seq<char>,
    pub ambient_agent_task_id: Seq<char>,
}

impl View for Metadata {
    type V = MetadataView;

    open spec fn view(&self) -> MetadataView {
        MetadataView {
            conversation_id: self.conversation_id@,
            ambient_agent_task_id: self.ambient_agent_task_id@,
        }
    }
}

/// A request of the client.
#[derive(Debug)]
pub struct Request {
    pub settings: Option<Settings>,
    pub metadata: Option<Metadata>,
    pub task_context: Option<Vec<Task>>,
    pub input: Option<Input>,
}

/// The model of [`Request`].
#[verifier::ext_equal]
pub struct RequestView {
    pub settings: Option<SettingsView>,
    pub metadata: Option<MetadataView>,
    pub task_context: Option<Seq<TaskView>>,
    pub input: Option<InputView>,
}

impl View for Request {
    type V = RequestView;

    open spec fn view(&self) -> RequestView {
        RequestView {
            settings: opt_view(self.settings),
            metadata: opt_view(self.metadata),
            task_context: views_opt(self.task_context),
            input: opt_view(self.input),
        }
    }
}

// ---------------------------------------------------------------------------------------------
// Events of a response stream
// ---------------------------------------------------------------------------------------------
/// The identifiers of a response stream.
#[derive(Debug)]
pub struct StreamInit {
    pub conversation_id: String,
    pub request_id: String,
    pub run_id: String,
}

/// The model of [`StreamInit`].
#[verifier::ext_equal]
pub struct StreamInitView {
    pub conversation_id: Seq<char>,
    pub request_id: Seq<char>,
    pub run_id: Seq<char>,
}

impl View for StreamInit {
    type V = StreamInitView;

    open spec fn view(&self) -> StreamInitView {
        StreamInitView {
            conversation_id: self.conversation_id@,
            request_id: self.request_id@,
            run_id: self.run_id@,
        }
    }
}

/// A task to create.
#[derive(Debug)]
pub struct NewTask {
    pub id: String,
    pub description: String,
}

/// The model of [`NewTask`].
#[verifier::ext_equal]
pub struct NewTaskView {
    pub id: Seq<char>,
    pub description: Seq<char>,
}

impl View for NewTask {
    type V = NewTaskView;

    open spec fn view(&self) -> NewTaskView {
        NewTaskView {
            id: self.id@,
            description: self.description@,
        }
    }
}

/// Messages to add to a task.
#[derive(Debug)]
pub struct AddMessagesToTask {
    pub task_id: String,
    pub messages: Vec<Message>,
}

/// The model of [`AddMessagesToTask`].
#[verifier::ext_equal]
pub struct AddMessagesToTaskView {
    pub task_id: Seq<char>,
    pub messages: Seq<MessageView>,
}

impl View for AddMessagesToTask {
    type V = AddMessagesToTaskView;

    open spec fn view(&self) -> AddMessagesToTaskView {
        AddMessagesToTaskView {
            task_id: self.task_id@,
            messages: views(self.messages@),
        }
    }
}

/// Content to append to a message.
#[derive(Debug)]
pub struct AppendToMessageContent {
    pub task_id: String,
    pub message: Message,
    /// The paths of the fields to append to.
    pub mask: Vec<String>,
}

/// The model of [`AppendToMessageContent`].
#[verifier::ext_equal]
pub struct AppendToMessageContentView {
    pub task_id: Seq<char>,
    pub message: MessageView,
    pub mask: Seq<Seq<char>>,
}

impl View for AppendToMessageContent {
    type V = AppendToMessageContentView;

    open spec fn view(&self) -> AppendToMessageContentView {
        AppendToMessageContentView {
            task_id: self.task_id@,
            message: self.message@,
            mask: views(self.mask@),
        }
    }
}

/// An action of the client.
#[derive(Debug)]
pub enum ClientAction {
    CreateTask(NewTask),
    AddMessagesToTask(AddMessagesToTask),
    AppendToMessageContent(AppendToMessageContent),
    ShowSuggestions(Suggestions),
}

/// The model of [`ClientAction`].
#[verifier::ext_equal]
pub enum ClientActionView {
    CreateTask(NewTaskView),
    AddMessagesToTask(AddMessagesToTaskView),
    AppendToMessageContent(AppendToMessageContentView),
    ShowSuggestions(SuggestionsView),
}

impl View for ClientAction {
    type V = ClientActionView;

    open spec fn view(&self) -> ClientActionView {
        match self {
            ClientAction::CreateTask(x) => ClientActionView::CreateTask(x@),
            ClientAction::AddMessagesToTask(x) => ClientActionView::AddMessagesToTask(x@),
            ClientAction::AppendToMessageContent(x) => ClientActionView::AppendToMessageContent(x@),
            ClientAction::ShowSuggestions(x) => ClientActionView::ShowSuggestions(x@),
        }
    }
}

/// Why a stream has ended.
#[derive(Debug)]
pub enum FinishReason {
    Done,
    InternalError(String),
}

/// The model of [`FinishReason`].
#[verifier::ext_equal]
pub enum FinishReasonView {
    Done,
    InternalError(Seq<char>),
}

impl View for FinishReason {
    type V = FinishReasonView;

    open spec fn view(&self) -> FinishReasonView {
        match self {
            FinishReason::Done => FinishReasonView::Done,
            FinishReason::InternalError(x) => FinishReasonView::InternalError(x@),
        }
    }
}

/// An event of a response stream.
#[derive(Debug)]
pub enum ResponseEvent {
    Init(StreamInit),
    ClientActions(Vec<ClientAction>),
    Finished(FinishReason),
}

/// The model of [`ResponseEvent`].
#[verifier::ext_equal]
pub enum ResponseEventView {
    Init(StreamInitView),
    ClientActions(Seq<ClientActionView>),
    Finished(FinishReasonView),
}

impl View for ResponseEvent {
    type V = ResponseEventView;

    open spec fn view(&self) -> ResponseEventView {
        match self {
            ResponseEvent::Init(x) => ResponseEventView::Init(x@),
            ResponseEvent::ClientActions(x) => ResponseEventView::ClientActions(views(x@)),
            ResponseEvent::Finished(x) => ResponseEventView::Finished(x@),
        }
    }
}

} // verus!
