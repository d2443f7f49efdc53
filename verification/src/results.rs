//! Telling a backend what came of its tool calls.
use crate::text::{
    blank, decimal, decimal_of, digits_of, is_blank, join, joined, opt_view, opt_views, truncate,
    truncated, views,
};
use crate::warp::{
    Answer, AnswerItem, AnswerItemView, AnswerView, AnyFileContent, AnyFileContentView,
    ApplyFileDiffsOutcome, ApplyFileDiffsOutcomeView, AskUserQuestionOutcome,
    AskUserQuestionOutcomeView, FileContent, FileContentView, FileGlobOutcome, FileGlobOutcomeView,
    FileGlobV2Outcome, FileGlobV2OutcomeView, GrepFile, GrepFileView, GrepOutcome, GrepOutcomeView,
    LongRunningShellCommandSnapshot, LongRunningShellCommandSnapshotView, ReadFilesOutcome,
    ReadFilesOutcomeView, ReadShellCommandOutputResult, ReadShellCommandOutputResultView,
    ReadSkillOutcome, ReadSkillOutcomeView, RunShellCommandOutcome, RunShellCommandOutcomeView,
    RunShellCommandResult, RunShellCommandResultView, SearchCodebaseOutcome,
    SearchCodebaseOutcomeView, ShellCommandFinished, ShellCommandFinishedView, ShellOutcome,
    ShellOutcomeView, ToolCallResult, ToolCallResultView, ToolResult, ToolResultView,
};
use vstd::prelude::*;

verus! {

/// A boolean as text.
pub open spec fn flag_text(flag: bool) -> Seq<char> {
    if flag {
        "true"@
    } else {
        "false"@
    }
}

/// A boolean as text.
fn show_flag(flag: bool) -> (r: &'static str)
    ensures
        r@ == flag_text(flag),
{
    if flag {
        "true"
    } else {
        "false"
    }
}

// ---------------------------------------------------------------------------------------------
// Commands
// ---------------------------------------------------------------------------------------------
/// A command that is still running.
pub open spec fn snapshot_text(snapshot: LongRunningShellCommandSnapshotView) -> Seq<char> {
    "command_id: "@ + snapshot.command_id + "\nstatus: still running\nalt_screen: "@
        + flag_text(snapshot.is_alt_screen_active) + "\npreempted: "@
        + flag_text(snapshot.is_preempted) + "\noutput:\n"@ + truncated(snapshot.output, 12000)
}

/// A command that is still running.
pub fn format_long_running_snapshot(snapshot: &LongRunningShellCommandSnapshot) -> (r: String)
    ensures
        r@ == snapshot_text(snapshot@),
{
    let mut text = "command_id: ".to_owned();
    text.append(snapshot.command_id.as_str());
    text.append("\nstatus: still running\nalt_screen: ");
    text.append(show_flag(snapshot.is_alt_screen_active));
    text.append("\npreempted: ");
    text.append(show_flag(snapshot.is_preempted));
    text.append("\noutput:\n");
    let part0 = truncate(snapshot.output.as_str(), 12000);
    text.append(part0.as_str());
    text
}

/// A command that has ended, after its text where that is given and not empty.
pub open spec fn finished_text(
    command: Option<Seq<char>>,
    finished: ShellCommandFinishedView,
) -> Seq<char> {
    let command_line = match command {
        Some(command) => if command.len() == 0 {
            Seq::empty()
        } else {
            "command: "@ + command + "\n"@
        },
        None => Seq::empty(),
    };
    command_line + (
        "command_id: "@ + finished.command_id + "\nexit_code: "@
            + decimal(finished.exit_code as int) + "\noutput:\n"@
            + truncated(finished.output, 12000)
    )
}

/// A command that has ended.
pub fn format_shell_finished(command: Option<&str>, finished: &ShellCommandFinished) -> (r: String)
    ensures
        r@ == finished_text(opt_view(command), finished@),
{
    let mut line = String::new();
    match command {
        Some(command) => {
            if !command.is_empty() {
                line = "command: ".to_owned();
                line.append(command);
                line.append("\n");
            }
        },
        None => {},
    }
    let mut text = "command_id: ".to_owned();
    text.append(finished.command_id.as_str());
    text.append("\nexit_code: ");
    let part0 = decimal_of(finished.exit_code as i64);
    text.append(part0.as_str());
    text.append("\noutput:\n");
    let part1 = truncate(finished.output.as_str(), 12000);
    text.append(part1.as_str());
    line.append(text.as_str());
    line
}

/// The result of running a command.
pub open spec fn run_shell_text(result: RunShellCommandResultView) -> Seq<char> {
    match result.result {
        Some(RunShellCommandOutcomeView::CommandFinished(finished)) => {
            "command: "@ + result.command + "\ncommand_id: "@ + finished.command_id
                + "\nexit_code: "@ + decimal(finished.exit_code as int) + "\noutput:\n"@
                + truncated(finished.output, 12000)
        },
        Some(RunShellCommandOutcomeView::LongRunningCommandSnapshot(snapshot)) => {
            "command: "@ + result.command + "\n"@ + snapshot_text(snapshot)
        },
        Some(RunShellCommandOutcomeView::PermissionDenied) => {
            "command denied by user or policy: "@ + result.command
        },
        None => {
            "command: "@ + result.command + "\nexit_code: "@ + decimal(result.exit_code as int)
                + "\noutput:\n"@ + truncated(result.output, 12000)
        },
    }
}

/// The result of running a command.
pub fn format_run_shell_result(result: &RunShellCommandResult) -> (r: String)
    ensures
        r@ == run_shell_text(result@),
{
    match &result.result {
        Some(RunShellCommandOutcome::CommandFinished(finished)) => {
            let mut text = "command: ".to_owned();
            text.append(result.command.as_str());
            text.append("\ncommand_id: ");
            text.append(finished.command_id.as_str());
            text.append("\nexit_code: ");
            let part0 = decimal_of(finished.exit_code as i64);
            text.append(part0.as_str());
            text.append("\noutput:\n");
            let part1 = truncate(finished.output.as_str(), 12000);
            text.append(part1.as_str());
            text
        },
        Some(RunShellCommandOutcome::LongRunningCommandSnapshot(snapshot)) => {
            let mut text = "command: ".to_owned();
            text.append(result.command.as_str());
            text.append("\n");
            let part0 = format_long_running_snapshot(snapshot);
            text.append(part0.as_str());
            text
        },
        Some(RunShellCommandOutcome::PermissionDenied) => {
            let mut text = "command denied by user or policy: ".to_owned();
            text.append(result.command.as_str());
            text
        },
        None => {
            let mut text = "command: ".to_owned();
            text.append(result.command.as_str());
            text.append("\nexit_code: ");
            let part0 = decimal_of(result.exit_code as i64);
            text.append(part0.as_str());
            text.append("\noutput:\n");
            let part1 = truncate(result.output.as_str(), 12000);
            text.append(part1.as_str());
            text
        },
    }
}

/// A tool that failed.
pub open spec fn shell_error_text(tool_name: Seq<char>, error: Seq<char>) -> Seq<char> {
    tool_name + " failed: "@ + error
}

/// A tool that failed, with its error as it is shown to a developer.
pub fn format_shell_error(tool_name: &str, error: &str) -> (r: String)
    ensures
        r@ == shell_error_text(tool_name@, error@),
{
    let mut text = tool_name.to_owned();
    text.append(" failed: ");
    text.append(error);
    text
}

/// The result of reading the output of a running command.
pub open spec fn read_shell_output_text(result: ReadShellCommandOutputResultView) -> Seq<char> {
    match result.result {
        Some(ShellOutcomeView::CommandFinished(finished)) => finished_text(
            Some(result.command),
            finished,
        ),
        Some(ShellOutcomeView::LongRunningCommandSnapshot(snapshot)) => {
            "command: "@ + result.command + "\n"@ + snapshot_text(snapshot)
        },
        Some(ShellOutcomeView::Error(error)) => shell_error_text(
            "read_shell_command_output"@,
            error,
        ),
        None => "command: "@ + result.command + "\nread_shell_command_output returned no result."@,
    }
}

/// The result of reading the output of a running command.
pub fn format_read_shell_output_result(result: &ReadShellCommandOutputResult) -> (r: String)
    ensures
        r@ == read_shell_output_text(result@),
{
    match &result.result {
        Some(ShellOutcome::CommandFinished(finished)) => format_shell_finished(
            Some(result.command.as_str()),
            finished,
        ),
        Some(ShellOutcome::LongRunningCommandSnapshot(snapshot)) => {
            let mut text = "command: ".to_owned();
            text.append(result.command.as_str());
            text.append("\n");
            let part0 = format_long_running_snapshot(snapshot);
            text.append(part0.as_str());
            text
        },
        Some(ShellOutcome::Error(error)) => format_shell_error(
            "read_shell_command_output",
            error.as_str(),
        ),
        None => {
            let mut text = "command: ".to_owned();
            text.append(result.command.as_str());
            text.append("\nread_shell_command_output returned no result.");
            text
        },
    }
}

/// The result of writing to a running command.
pub open spec fn write_to_lrc_text(result: Option<ShellOutcomeView>) -> Seq<char> {
    match result {
        Some(ShellOutcomeView::CommandFinished(finished)) => finished_text(None, finished),
        Some(ShellOutcomeView::LongRunningCommandSnapshot(snapshot)) => snapshot_text(snapshot),
        Some(ShellOutcomeView::Error(error)) => shell_error_text("write_to_lrc"@, error),
        None => "write_to_lrc returned no result."@,
    }
}

/// The result of writing to a running command.
pub fn format_write_to_lrc_result(result: &Option<ShellOutcome>) -> (r: String)
    ensures
        r@ == write_to_lrc_text(opt_view(*result)),
{
    match result {
        Some(ShellOutcome::CommandFinished(finished)) => format_shell_finished(None, finished),
        Some(ShellOutcome::LongRunningCommandSnapshot(snapshot)) => format_long_running_snapshot(
            snapshot,
        ),
        Some(ShellOutcome::Error(error)) => format_shell_error("write_to_lrc", error.as_str()),
        None => "write_to_lrc returned no result.".to_owned(),
    }
}

/// The result of handing a running command over to the user.
pub open spec fn transfer_shell_control_text(result: Option<ShellOutcomeView>) -> Seq<char> {
    match result {
        Some(ShellOutcomeView::CommandFinished(finished)) => finished_text(None, finished),
        Some(ShellOutcomeView::LongRunningCommandSnapshot(snapshot)) => snapshot_text(snapshot),
        Some(ShellOutcomeView::Error(error)) => {
            shell_error_text("transfer_shell_command_control"@, error)
        },
        None => "transfer_shell_command_control returned no result."@,
    }
}

/// The result of handing a running command over to the user.
pub fn format_transfer_shell_control_result(result: &Option<ShellOutcome>) -> (r: String)
    ensures
        r@ == transfer_shell_control_text(opt_view(*result)),
{
    match result {
        Some(ShellOutcome::CommandFinished(finished)) => format_shell_finished(None, finished),
        Some(ShellOutcome::LongRunningCommandSnapshot(snapshot)) => format_long_running_snapshot(
            snapshot,
        ),
        Some(ShellOutcome::Error(error)) => {
            format_shell_error("transfer_shell_command_control", error.as_str())
        },
        None => "transfer_shell_command_control returned no result.".to_owned(),
    }
}

// ---------------------------------------------------------------------------------------------
// Files
// ---------------------------------------------------------------------------------------------
/// A file, with the range of lines where it is given.
pub open spec fn file_content_text(file: FileContentView) -> Seq<char> {
    let range = match file.line_range {
        Some(range) => " lines "@ + decimal(range.start as int) + "-"@ + decimal(range.end as int),
        None => Seq::empty(),
    };
    "file: "@ + file.file_path + range + "\n"@ + truncated(file.content, 12000)
}

/// A file.
pub fn format_file_content(file: &FileContent) -> (r: String)
    ensures
        r@ == file_content_text(file@),
{
    let range_text = match &file.line_range {
        Some(range) => {
            let mut text = " lines ".to_owned();
            let part0 = digits_of(range.start as u64);
            text.append(part0.as_str());
            text.append("-");
            let part1 = digits_of(range.end as u64);
            text.append(part1.as_str());
            text
        },
        None => String::new(),
    };
    let mut text = "file: ".to_owned();
    text.append(file.file_path.as_str());
    let part0 = range_text;
    text.append(part0.as_str());
    text.append("\n");
    let part1 = truncate(file.content.as_str(), 12000);
    text.append(part1.as_str());
    text
}

/// What was read of a file.
pub open spec fn any_file_text(content: AnyFileContentView) -> Seq<char> {
    match content {
        AnyFileContentView::Text(file) => file_content_text(file),
        AnyFileContentView::Binary(file) => {
            "binary file: "@ + file.file_path + "\nbytes: "@ + decimal(file.data.len() as int)
        },
        AnyFileContentView::Empty => "empty file content"@,
    }
}

/// What was read of a file.
pub fn format_any_file_content(content: &AnyFileContent) -> (r: String)
    ensures
        r@ == any_file_text(content@),
{
    match content {
        AnyFileContent::Text(file) => format_file_content(file),
        AnyFileContent::Binary(file) => {
            let mut text = "binary file: ".to_owned();
            text.append(file.file_path.as_str());
            text.append("\nbytes: ");
            let part0 = digits_of(file.data.len() as u64);
            text.append(part0.as_str());
            text
        },
        AnyFileContent::Empty => "empty file content".to_owned(),
    }
}

/// The texts of files.
pub open spec fn file_texts(items: Seq<FileContentView>) -> Seq<Seq<char>> {
    Seq::new(items.len(), |i: int| file_content_text(items[i]))
}

/// The texts of files.
fn show_files(items: &Vec<FileContent>) -> (r: Vec<String>)
    ensures
        views(r@) == file_texts(views(items@)),
{
    let mut r: Vec<String> = Vec::new();
    let mut i: usize = 0;
    while i < items.len()
        invariant
            i <= items.len(),
            r.len() == i,
            forall|k: int| 0 <= k < i ==> (#[trigger] r@[k])@ == file_content_text(items@[k]@),
        decreases items.len() - i,
    {
        let text = format_file_content(&items[i]);
        r.push(text);
        i += 1;
    }
    assert(views(r@) =~= file_texts(views(items@)));
    r
}

/// The texts of what was read of files.
pub open spec fn any_file_texts(items: Seq<AnyFileContentView>) -> Seq<Seq<char>> {
    Seq::new(items.len(), |i: int| any_file_text(items[i]))
}

/// The texts of what was read of files.
fn show_any_files(items: &Vec<AnyFileContent>) -> (r: Vec<String>)
    ensures
        views(r@) == any_file_texts(views(items@)),
{
    let mut r: Vec<String> = Vec::new();
    let mut i: usize = 0;
    while i < items.len()
        invariant
            i <= items.len(),
            r.len() == i,
            forall|k: int| 0 <= k < i ==> (#[trigger] r@[k])@ == any_file_text(items@[k]@),
        decreases items.len() - i,
    {
        let text = format_any_file_content(&items[i]);
        r.push(text);
        i += 1;
    }
    assert(views(r@) =~= any_file_texts(views(items@)));
    r
}

/// Files that a tool gives, or that there are none.
pub open spec fn files_text(tool_name: Seq<char>, files: Seq<Seq<char>>) -> Seq<char> {
    let all = joined(files, "\n\n"@);
    if all.len() == 0 {
        tool_name + " returned no files."@
    } else {
        tool_name + " result:\n"@ + all
    }
}

/// Files that a tool gives, or that there are none.
fn show_tool_files(tool_name: &str, files: &Vec<String>) -> (r: String)
    ensures
        r@ == files_text(tool_name@, views(files@)),
{
    let all = join(files, "\n\n");
    let mut text = tool_name.to_owned();
    if all.as_str().is_empty() {
        text.append(" returned no files.");
    } else {
        text.append(" result:\n");
        text.append(all.as_str());
    }
    text
}

/// The text files that a tool gives, or that there are none.
pub fn format_file_contents(tool_name: &str, files: &Vec<FileContent>) -> (r: String)
    ensures
        r@ == files_text(tool_name@, file_texts(views(files@))),
{
    let texts = show_files(files);
    show_tool_files(tool_name, &texts)
}

/// The result of reading files.
pub open spec fn read_files_text(result: Option<ReadFilesOutcomeView>) -> Seq<char> {
    match result {
        Some(ReadFilesOutcomeView::TextFilesSuccess(files)) => files_text(
            "read_files"@,
            file_texts(files),
        ),
        Some(ReadFilesOutcomeView::AnyFilesSuccess(files)) => files_text(
            "read_files"@,
            any_file_texts(files),
        ),
        Some(ReadFilesOutcomeView::Error(message)) => "read_files failed: "@ + message,
        None => "read_files returned no result."@,
    }
}

/// The result of reading files.
pub fn format_read_files_result(result: &Option<ReadFilesOutcome>) -> (r: String)
    ensures
        r@ == read_files_text(opt_view(*result)),
{
    match result {
        Some(ReadFilesOutcome::TextFilesSuccess(files)) => {
            format_file_contents("read_files", files)
        },
        Some(ReadFilesOutcome::AnyFilesSuccess(files)) => {
            let texts = show_any_files(files);
            show_tool_files("read_files", &texts)
        },
        Some(ReadFilesOutcome::Error(message)) => {
            let mut text = "read_files failed: ".to_owned();
            text.append(message.as_str());
            text
        },
        None => "read_files returned no result.".to_owned(),
    }
}

/// The result of a search.
pub open spec fn search_codebase_text(result: Option<SearchCodebaseOutcomeView>) -> Seq<char> {
    match result {
        Some(SearchCodebaseOutcomeView::Success(files)) => files_text(
            "search_codebase"@,
            file_texts(files),
        ),
        Some(SearchCodebaseOutcomeView::Error(message)) => "search_codebase failed: "@ + message,
        None => "search_codebase returned no result."@,
    }
}

/// The result of a search.
pub fn format_search_codebase_result(result: &Option<SearchCodebaseOutcome>) -> (r: String)
    ensures
        r@ == search_codebase_text(opt_view(*result)),
{
    match result {
        Some(SearchCodebaseOutcome::Success(files)) => format_file_contents(
            "search_codebase",
            files,
        ),
        Some(SearchCodebaseOutcome::Error(message)) => {
            let mut text = "search_codebase failed: ".to_owned();
            text.append(message.as_str());
            text
        },
        None => "search_codebase returned no result.".to_owned(),
    }
}

/// The number of a line.
pub open spec fn line_number_text(number: u32) -> Seq<char> {
    decimal(number as int)
}

/// The number of a line.
fn show_line_number(number: u32) -> (r: String)
    ensures
        r@ == line_number_text(number),
{
    digits_of(number as u64)
}

/// The numbers of lines.
pub open spec fn line_number_texts(items: Seq<u32>) -> Seq<Seq<char>> {
    Seq::new(items.len(), |i: int| line_number_text(items[i]))
}

/// The numbers of lines.
fn show_line_numbers(items: &Vec<u32>) -> (r: Vec<String>)
    ensures
        views(r@) == line_number_texts(items@),
{
    let mut r: Vec<String> = Vec::new();
    let mut i: usize = 0;
    while i < items.len()
        invariant
            i <= items.len(),
            r.len() == i,
            forall|k: int| 0 <= k < i ==> (#[trigger] r@[k])@ == line_number_text(items@[k]),
        decreases items.len() - i,
    {
        let text = show_line_number(items[i]);
        r.push(text);
        i += 1;
    }
    assert(views(r@) =~= line_number_texts(items@));
    r
}

/// A file in which a pattern was found.
pub open spec fn grep_file_text(file: GrepFileView) -> Seq<char> {
    file.file_path + ": lines ["@ + joined(line_number_texts(file.matched_lines), ", "@) + "]"@
}

/// A file in which a pattern was found.
pub fn format_grep_file(file: &GrepFile) -> (r: String)
    ensures
        r@ == grep_file_text(file@),
{
    let mut text = file.file_path.as_str().to_owned();
    text.append(": lines [");
    let part0 = join(&show_line_numbers(&file.matched_lines), ", ");
    text.append(part0.as_str());
    text.append("]");
    text
}

/// Files in which a pattern was found.
pub open spec fn grep_file_texts(items: Seq<GrepFileView>) -> Seq<Seq<char>> {
    Seq::new(items.len(), |i: int| grep_file_text(items[i]))
}

/// Files in which a pattern was found.
fn show_grep_files(items: &Vec<GrepFile>) -> (r: Vec<String>)
    ensures
        views(r@) == grep_file_texts(views(items@)),
{
    let mut r: Vec<String> = Vec::new();
    let mut i: usize = 0;
    while i < items.len()
        invariant
            i <= items.len(),
            r.len() == i,
            forall|k: int| 0 <= k < i ==> (#[trigger] r@[k])@ == grep_file_text(items@[k]@),
        decreases items.len() - i,
    {
        let text = format_grep_file(&items[i]);
        r.push(text);
        i += 1;
    }
    assert(views(r@) =~= grep_file_texts(views(items@)));
    r
}

/// The result of a search for patterns.
pub open spec fn grep_text(result: Option<GrepOutcomeView>) -> Seq<char> {
    match result {
        Some(GrepOutcomeView::Success(files)) => {
            let all = joined(grep_file_texts(files), "\n"@);
            if all.len() == 0 {
                "grep found no matches."@
            } else {
                "grep matches:\n"@ + all
            }
        },
        Some(GrepOutcomeView::Error(message)) => "grep failed: "@ + message,
        None => "grep returned no result."@,
    }
}

/// The result of a search for patterns.
pub fn format_grep_result(result: &Option<GrepOutcome>) -> (r: String)
    ensures
        r@ == grep_text(opt_view(*result)),
{
    match result {
        Some(GrepOutcome::Success(files)) => {
            let all = join(&show_grep_files(files), "\n");
            if all.as_str().is_empty() {
                "grep found no matches.".to_owned()
            } else {
                let mut text = "grep matches:\n".to_owned();
                text.append(all.as_str());
                text
            }
        },
        Some(GrepOutcome::Error(message)) => {
            let mut text = "grep failed: ".to_owned();
            text.append(message.as_str());
            text
        },
        None => "grep returned no result.".to_owned(),
    }
}

/// The result of finding files.
pub open spec fn file_glob_text(result: Option<FileGlobOutcomeView>) -> Seq<char> {
    match result {
        Some(FileGlobOutcomeView::Success(files)) => "file_glob matches:\n"@ + files,
        Some(FileGlobOutcomeView::Error(message)) => "file_glob failed: "@ + message,
        None => "file_glob returned no result."@,
    }
}

/// The result of finding files.
pub fn format_file_glob_result(result: &Option<FileGlobOutcome>) -> (r: String)
    ensures
        r@ == file_glob_text(opt_view(*result)),
{
    match result {
        Some(FileGlobOutcome::Success(files)) => {
            let mut text = "file_glob matches:\n".to_owned();
            text.append(files.as_str());
            text
        },
        Some(FileGlobOutcome::Error(message)) => {
            let mut text = "file_glob failed: ".to_owned();
            text.append(message.as_str());
            text
        },
        None => "file_glob returned no result.".to_owned(),
    }
}

/// The result of finding files within limits.
pub open spec fn file_glob_v2_text(result: Option<FileGlobV2OutcomeView>) -> Seq<char> {
    match result {
        Some(FileGlobV2OutcomeView::Success(success)) => {
            let files = joined(success.matched_files, "\n"@);
            let warnings = if blank(success.warnings) {
                Seq::empty()
            } else {
                "\nwarnings:\n"@ + success.warnings
            };
            if files.len() == 0 {
                "file_glob_v2 found no matches."@ + warnings
            } else {
                "file_glob_v2 matches:\n"@ + files + warnings
            }
        },
        Some(FileGlobV2OutcomeView::Error(message)) => "file_glob_v2 failed: "@ + message,
        None => "file_glob_v2 returned no result."@,
    }
}

/// The result of finding files within limits.
pub fn format_file_glob_v2_result(result: &Option<FileGlobV2Outcome>) -> (r: String)
    ensures
        r@ == file_glob_v2_text(opt_view(*result)),
{
    match result {
        Some(FileGlobV2Outcome::Success(success)) => {
            let files = join(&success.matched_files, "\n");
            let mut warnings = String::new();
            if !is_blank(success.warnings.as_str()) {
                warnings = "\nwarnings:\n".to_owned();
                warnings.append(success.warnings.as_str());
            }
            if files.as_str().is_empty() {
                let mut text = "file_glob_v2 found no matches.".to_owned();
                text.append(warnings.as_str());
                text
            } else {
                let mut text = "file_glob_v2 matches:\n".to_owned();
                text.append(files.as_str());
                text.append(warnings.as_str());
                text
            }
        },
        Some(FileGlobV2Outcome::Error(message)) => {
            let mut text = "file_glob_v2 failed: ".to_owned();
            text.append(message.as_str());
            text
        },
        None => "file_glob_v2 returned no result.".to_owned(),
    }
}

/// The result of reading a skill.
pub open spec fn read_skill_text(result: Option<ReadSkillOutcomeView>) -> Seq<char> {
    match result {
        Some(ReadSkillOutcomeView::Success(content)) => match content {
            Some(file) => "read_skill result:\n"@ + file_content_text(file),
            None => "read_skill returned success without content."@,
        },
        Some(ReadSkillOutcomeView::Error(message)) => "read_skill failed: "@ + message,
        None => "read_skill returned no result."@,
    }
}

/// The result of reading a skill.
pub fn format_read_skill_result(result: &Option<ReadSkillOutcome>) -> (r: String)
    ensures
        r@ == read_skill_text(opt_view(*result)),
{
    match result {
        Some(ReadSkillOutcome::Success(content)) => match content {
            Some(file) => {
                let mut text = "read_skill result:\n".to_owned();
                let content = format_file_content(file);
                text.append(content.as_str());
                text
            },
            None => "read_skill returned success without content.".to_owned(),
        },
        Some(ReadSkillOutcome::Error(message)) => {
            let mut text = "read_skill failed: ".to_owned();
            text.append(message.as_str());
            text
        },
        None => "read_skill returned no result.".to_owned(),
    }
}

// ---------------------------------------------------------------------------------------------
// Questions
// ---------------------------------------------------------------------------------------------
/// The answer to a question.
pub open spec fn answer_text(answer: AnswerItemView) -> Seq<char> {
    match answer.answer {
        Some(AnswerView::MultipleChoice(choice)) => if blank(choice.other_text) {
            answer.question_id + ": "@ + joined(choice.selected_options, ", "@)
        } else {
            answer.question_id + ": "@ + joined(choice.selected_options, ", "@) + " other="@
                + choice.other_text
        },
        Some(AnswerView::Skipped) => answer.question_id + ": skipped"@,
        None => answer.question_id + ": no answer"@,
    }
}

/// The answer to a question.
pub fn format_answer_item(answer: &AnswerItem) -> (r: String)
    ensures
        r@ == answer_text(answer@),
{
    match &answer.answer {
        Some(Answer::MultipleChoice(choice)) => if is_blank(choice.other_text.as_str()) {
            let mut text = answer.question_id.as_str().to_owned();
            text.append(": ");
            let part0 = join(&choice.selected_options, ", ");
            text.append(part0.as_str());
            text
        } else {
            let mut text = answer.question_id.as_str().to_owned();
            text.append(": ");
            let part0 = join(&choice.selected_options, ", ");
            text.append(part0.as_str());
            text.append(" other=");
            text.append(choice.other_text.as_str());
            text
        },
        Some(Answer::Skipped) => {
            let mut text = answer.question_id.as_str().to_owned();
            text.append(": skipped");
            text
        },
        None => {
            let mut text = answer.question_id.as_str().to_owned();
            text.append(": no answer");
            text
        },
    }
}

/// The answers to questions.
pub open spec fn answer_texts(items: Seq<AnswerItemView>) -> Seq<Seq<char>> {
    Seq::new(items.len(), |i: int| answer_text(items[i]))
}

/// The answers to questions.
fn show_answers(items: &Vec<AnswerItem>) -> (r: Vec<String>)
    ensures
        views(r@) == answer_texts(views(items@)),
{
    let mut r: Vec<String> = Vec::new();
    let mut i: usize = 0;
    while i < items.len()
        invariant
            i <= items.len(),
            r.len() == i,
            forall|k: int| 0 <= k < i ==> (#[trigger] r@[k])@ == answer_text(items@[k]@),
        decreases items.len() - i,
    {
        let text = format_answer_item(&items[i]);
        r.push(text);
        i += 1;
    }
    assert(views(r@) =~= answer_texts(views(items@)));
    r
}

/// The result of asking the user.
pub open spec fn ask_user_question_text(result: Option<AskUserQuestionOutcomeView>) -> Seq<char> {
    match result {
        Some(AskUserQuestionOutcomeView::Success(answers)) => {
            let all = joined(answer_texts(answers), "\n"@);
            if all.len() == 0 {
                "ask_user_question completed with no answers."@
            } else {
                "ask_user_question answers:\n"@ + all
            }
        },
        Some(AskUserQuestionOutcomeView::Error(message)) => "ask_user_question failed: "@ + message,
        None => "ask_user_question returned no result."@,
    }
}

/// The result of asking the user.
pub fn format_ask_user_question_result(result: &Option<AskUserQuestionOutcome>) -> (r: String)
    ensures
        r@ == ask_user_question_text(opt_view(*result)),
{
    match result {
        Some(AskUserQuestionOutcome::Success(answers)) => {
            let all = join(&show_answers(answers), "\n");
            if all.as_str().is_empty() {
                "ask_user_question completed with no answers.".to_owned()
            } else {
                let mut text = "ask_user_question answers:\n".to_owned();
                text.append(all.as_str());
                text
            }
        },
        Some(AskUserQuestionOutcome::Error(message)) => {
            let mut text = "ask_user_question failed: ".to_owned();
            text.append(message.as_str());
            text
        },
        None => "ask_user_question returned no result.".to_owned(),
    }
}

// ---------------------------------------------------------------------------------------------
// Edits
// ---------------------------------------------------------------------------------------------
/// The texts that are there.
pub open spec fn present(texts: Seq<Option<Seq<char>>>) -> Seq<Seq<char>>
    decreases texts.len(),
{
    if texts.len() == 0 {
        Seq::empty()
    } else {
        match texts.last() {
            Some(text) => present(texts.drop_last()).push(text),
            None => present(texts.drop_last()),
        }
    }
}

/// The texts that are there.
fn present_texts(texts: &Vec<Option<String>>) -> (r: Vec<String>)
    ensures
        views(r@) == present(opt_views(texts@)),
{
    let ghost all = opt_views(texts@);
    let mut r: Vec<String> = Vec::new();
    let mut i: usize = 0;
    while i < texts.len()
        invariant
            i <= texts.len(),
            all == opt_views(texts@),
            views(r@) == present(all.take(i as int)),
        decreases texts.len() - i,
    {
        assert(all.take(i + 1).drop_last() == all.take(i as int));
        let ghost before = views(r@);
        match &texts[i] {
            Some(text) => {
                r.push(text.clone());
                assert(views(r@) =~= before.push(text@));
            },
            None => {},
        }
        i += 1;
    }
    assert(all.take(all.len() as int) == all);
    r
}

/// The result of editing files.
pub open spec fn apply_file_diffs_text(result: Option<ApplyFileDiffsOutcomeView>) -> Seq<char> {
    match result {
        Some(ApplyFileDiffsOutcomeView::Success(success)) => {
            "file edits applied. updated: ["@ + joined(present(success.updated_files), ", "@)
                + "] deleted: ["@ + joined(success.deleted_files, ", "@) + "]"@
        },
        Some(ApplyFileDiffsOutcomeView::Error(message)) => "file edits failed: "@ + message,
        None => "file edit result was empty"@,
    }
}

/// The result of editing files.
pub fn format_apply_file_diffs_result(result: &Option<ApplyFileDiffsOutcome>) -> (r: String)
    ensures
        r@ == apply_file_diffs_text(opt_view(*result)),
{
    match result {
        Some(ApplyFileDiffsOutcome::Success(success)) => {
            let mut text = "file edits applied. updated: [".to_owned();
            let part0 = join(&present_texts(&success.updated_files), ", ");
            text.append(part0.as_str());
            text.append("] deleted: [");
            let part1 = join(&success.deleted_files, ", ");
            text.append(part1.as_str());
            text.append("]");
            text
        },
        Some(ApplyFileDiffsOutcome::Error(message)) => {
            let mut text = "file edits failed: ".to_owned();
            text.append(message.as_str());
            text
        },
        None => "file edit result was empty".to_owned(),
    }
}

// ---------------------------------------------------------------------------------------------
// Any tool
// ---------------------------------------------------------------------------------------------
/// The result of a tool call.
pub open spec fn tool_result_text(result: ToolCallResultView) -> Seq<char> {
    match result.result {
        Some(ToolResultView::RunShellCommand(result)) => run_shell_text(result),
        Some(ToolResultView::ReadShellCommandOutput(result)) => read_shell_output_text(result),
        Some(ToolResultView::WriteToLongRunningShellCommand(result)) => write_to_lrc_text(result),
        Some(ToolResultView::TransferShellCommandControlToUser(result)) => {
            transfer_shell_control_text(result)
        },
        Some(ToolResultView::ReadFiles(result)) => read_files_text(result),
        Some(ToolResultView::SearchCodebase(result)) => search_codebase_text(result),
        Some(ToolResultView::Grep(result)) => grep_text(result),
        Some(ToolResultView::FileGlob(result)) => file_glob_text(result),
        Some(ToolResultView::FileGlobV2(result)) => file_glob_v2_text(result),
        Some(ToolResultView::ReadSkill(result)) => read_skill_text(result),
        Some(ToolResultView::AskUserQuestion(result)) => ask_user_question_text(result),
        Some(ToolResultView::ApplyFileDiffs(result)) => apply_file_diffs_text(result),
        Some(ToolResultView::Other(shown)) => "Tool result: "@ + shown,
        None => "Tool returned no result."@,
    }
}

/// The result of a tool call in the history of a conversation.
pub fn format_tool_call_result(result: &ToolCallResult) -> (r: String)
    ensures
        r@ == tool_result_text(result@),
{
    match &result.result {
        Some(ToolResult::RunShellCommand(result)) => format_run_shell_result(result),
        Some(ToolResult::ReadShellCommandOutput(result)) => format_read_shell_output_result(result),
        Some(ToolResult::WriteToLongRunningShellCommand(result)) => {
            format_write_to_lrc_result(result)
        },
        Some(ToolResult::TransferShellCommandControlToUser(result)) => {
            format_transfer_shell_control_result(result)
        },
        Some(ToolResult::ReadFiles(result)) => format_read_files_result(result),
        Some(ToolResult::SearchCodebase(result)) => format_search_codebase_result(result),
        Some(ToolResult::Grep(result)) => format_grep_result(result),
        Some(ToolResult::FileGlob(result)) => format_file_glob_result(result),
        Some(ToolResult::FileGlobV2(result)) => format_file_glob_v2_result(result),
        Some(ToolResult::ReadSkill(result)) => format_read_skill_result(result),
        Some(ToolResult::AskUserQuestion(result)) => format_ask_user_question_result(result),
        Some(ToolResult::ApplyFileDiffs(result)) => format_apply_file_diffs_result(result),
        Some(ToolResult::Other(shown)) => {
            let mut text = "Tool result: ".to_owned();
            text.append(shown.as_str());
            text
        },
        None => "Tool returned no result.".to_owned(),
    }
}

/// The result of a tool call in the input of a request.
pub fn format_request_tool_call_result(result: &ToolCallResult) -> (r: String)
    ensures
        r@ == tool_result_text(result@),
{
    format_tool_call_result(result)
}

} // verus!
