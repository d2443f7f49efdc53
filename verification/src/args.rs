//! The arguments of the tools that a backend can call, decoded from JSON.
use crate::json::{Json, JsonView};
use crate::record::{
    defaulted, field_of, flag_at, flag_field, is_record, list_value, opt_flag_at, opt_flag_field,
    opt_i32_at, opt_i32_field, opt_i64_at, opt_i64_field, opt_text_at, opt_text_field, record,
    required, text_at, text_field, texts_at, texts_field, texts_or_empty_at, texts_or_empty_field,
    u32_at, u32_field,
};
use crate::text::{opt_view, views, views_opt};
use vstd::prelude::*;

verus! {

/// The arguments of `run_shell_command`.
#[derive(Debug)]
pub struct RunShellCommandArgs {
    pub command: String,
    pub is_read_only: bool,
    pub uses_pager: bool,
    pub is_risky: bool,
    pub wait_until_complete: Option<bool>,
}

/// The model of [`RunShellCommandArgs`].
#[verifier::ext_equal]
pub struct RunShellCommandArgsView {
    pub command: Seq<char>,
    pub is_read_only: bool,
    pub uses_pager: bool,
    pub is_risky: bool,
    pub wait_until_complete: Option<bool>,
}

impl View for RunShellCommandArgs {
    type V = RunShellCommandArgsView;

    open spec fn view(&self) -> RunShellCommandArgsView {
        RunShellCommandArgsView {
            command: self.command@,
            is_read_only: self.is_read_only,
            uses_pager: self.uses_pager,
            is_risky: self.is_risky,
            wait_until_complete: self.wait_until_complete,
        }
    }
}

/// What a JSON value says as [`RunShellCommandArgs`].
pub open spec fn run_shell_command_args(json: JsonView) -> Option<RunShellCommandArgsView> {
    if !record(json, 5) {
        None
    } else {
        match (
            text_field(json, 0, "command"@),
            flag_field(json, 1, "is_read_only"@),
            flag_field(json, 2, "uses_pager"@),
            flag_field(json, 3, "is_risky"@),
            opt_flag_field(json, 4, "wait_until_complete"@),
        ) {
            (
                Some(command),
                Some(is_read_only),
                Some(uses_pager),
                Some(is_risky),
                Some(wait_until_complete),
            ) => Some(
                RunShellCommandArgsView {
                    command,
                    is_read_only,
                    uses_pager,
                    is_risky,
                    wait_until_complete,
                },
            ),
            _ => None,
        }
    }
}

impl RunShellCommandArgs {
    /// Decodes the record.
    pub fn from_json(json: &Json) -> (r: Option<Self>)
        ensures
            opt_view(r) == run_shell_command_args(json@),
    {
        if !is_record(json, 5) {
            return None;
        }
        let command = match text_at(json, 0, "command") {
            Some(v) => v,
            None => {
                return None;
            },
        };
        let is_read_only = match flag_at(json, 1, "is_read_only") {
            Some(v) => v,
            None => {
                return None;
            },
        };
        let uses_pager = match flag_at(json, 2, "uses_pager") {
            Some(v) => v,
            None => {
                return None;
            },
        };
        let is_risky = match flag_at(json, 3, "is_risky") {
            Some(v) => v,
            None => {
                return None;
            },
        };
        let wait_until_complete = match opt_flag_at(json, 4, "wait_until_complete") {
            Some(v) => v,
            None => {
                return None;
            },
        };
        Some(
            RunShellCommandArgs { command, is_read_only, uses_pager, is_risky, wait_until_complete }
        )
    }
}

/// The arguments of `read_shell_command_output`.
#[derive(Debug)]
pub struct ReadShellCommandOutputArgs {
    pub command_id: String,
    pub delay_seconds: Option<i64>,
    pub wait_until_complete: bool,
}

/// The model of [`ReadShellCommandOutputArgs`].
#[verifier::ext_equal]
pub struct ReadShellCommandOutputArgsView {
    pub command_id: Seq<char>,
    pub delay_seconds: Option<i64>,
    pub wait_until_complete: bool,
}

impl View for ReadShellCommandOutputArgs {
    type V = ReadShellCommandOutputArgsView;

    open spec fn view(&self) -> ReadShellCommandOutputArgsView {
        ReadShellCommandOutputArgsView {
            command_id: self.command_id@,
            delay_seconds: self.delay_seconds,
            wait_until_complete: self.wait_until_complete,
        }
    }
}

/// What a JSON value says as [`ReadShellCommandOutputArgs`].
pub open spec fn read_shell_command_output_args(
    json: JsonView
) -> Option<ReadShellCommandOutputArgsView> {
    if !record(json, 3) {
        None
    } else {
        match (
            text_field(json, 0, "command_id"@),
            opt_i64_field(json, 1, "delay_seconds"@),
            flag_field(json, 2, "wait_until_complete"@),
        ) {
            (Some(command_id), Some(delay_seconds), Some(wait_until_complete)) => Some(
                ReadShellCommandOutputArgsView { command_id, delay_seconds, wait_until_complete },
            ),
            _ => None,
        }
    }
}

impl ReadShellCommandOutputArgs {
    /// Decodes the record.
    pub fn from_json(json: &Json) -> (r: Option<Self>)
        ensures
            opt_view(r) == read_shell_command_output_args(json@),
    {
        if !is_record(json, 3) {
            return None;
        }
        let command_id = match text_at(json, 0, "command_id") {
            Some(v) => v,
            None => {
                return None;
            },
        };
        let delay_seconds = match opt_i64_at(json, 1, "delay_seconds") {
            Some(v) => v,
            None => {
                return None;
            },
        };
        let wait_until_complete = match flag_at(json, 2, "wait_until_complete") {
            Some(v) => v,
            None => {
                return None;
            },
        };
        Some(ReadShellCommandOutputArgs { command_id, delay_seconds, wait_until_complete })
    }
}

/// The arguments of `write_to_lrc`.
#[derive(Debug)]
pub struct WriteToLongRunningShellCommandArgs {
    pub command_id: String,
    pub input: String,
    pub mode: Option<String>,
}

/// The model of [`WriteToLongRunningShellCommandArgs`].
#[verifier::ext_equal]
pub struct WriteToLongRunningShellCommandArgsView {
    pub command_id: Seq<char>,
    pub input: Seq<char>,
    pub mode: Option<Seq<char>>,
}

impl View for WriteToLongRunningShellCommandArgs {
    type V = WriteToLongRunningShellCommandArgsView;

    open spec fn view(&self) -> WriteToLongRunningShellCommandArgsView {
        WriteToLongRunningShellCommandArgsView {
            command_id: self.command_id@,
            input: self.input@,
            mode: opt_view(self.mode),
        }
    }
}

/// What a JSON value says as [`WriteToLongRunningShellCommandArgs`].
pub open spec fn write_to_long_running_shell_command_args(
    json: JsonView
) -> Option<WriteToLongRunningShellCommandArgsView> {
    if !record(json, 3) {
        None
    } else {
        match (
            text_field(json, 0, "command_id"@),
            text_field(json, 1, "input"@),
            opt_text_field(json, 2, "mode"@),
        ) {
            (Some(command_id), Some(input), Some(mode)) => Some(
                WriteToLongRunningShellCommandArgsView { command_id, input, mode },
            ),
            _ => None,
        }
    }
}

impl WriteToLongRunningShellCommandArgs {
    /// Decodes the record.
    pub fn from_json(json: &Json) -> (r: Option<Self>)
        ensures
            opt_view(r) == write_to_long_running_shell_command_args(json@),
    {
        if !is_record(json, 3) {
            return None;
        }
        let command_id = match text_at(json, 0, "command_id") {
            Some(v) => v,
            None => {
                return None;
            },
        };
        let input = match text_at(json, 1, "input") {
            Some(v) => v,
            None => {
                return None;
            },
        };
        let mode = match opt_text_at(json, 2, "mode") {
            Some(v) => v,
            None => {
                return None;
            },
        };
        Some(WriteToLongRunningShellCommandArgs { command_id, input, mode })
    }
}

/// The arguments of `transfer_shell_command_control`.
#[derive(Debug)]
pub struct TransferShellCommandControlArgs {
    pub reason: String,
}

/// The model of [`TransferShellCommandControlArgs`].
#[verifier::ext_equal]
pub struct TransferShellCommandControlArgsView {
    pub reason: Seq<char>,
}

impl View for TransferShellCommandControlArgs {
    type V = TransferShellCommandControlArgsView;

    open spec fn view(&self) -> TransferShellCommandControlArgsView {
        TransferShellCommandControlArgsView {
            reason: self.reason@,
        }
    }
}

/// What a JSON value says as [`TransferShellCommandControlArgs`].
pub open spec fn transfer_shell_command_control_args(
    json: JsonView
) -> Option<TransferShellCommandControlArgsView> {
    if !record(json, 1) {
        None
    } else {
        match text_field(json, 0, "reason"@) {
            Some(reason) => Some(TransferShellCommandControlArgsView { reason }),
            None => None,
        }
    }
}

impl TransferShellCommandControlArgs {
    /// Decodes the record.
    pub fn from_json(json: &Json) -> (r: Option<Self>)
        ensures
            opt_view(r) == transfer_shell_command_control_args(json@),
    {
        if !is_record(json, 1) {
            return None;
        }
        let reason = match text_at(json, 0, "reason") {
            Some(v) => v,
            None => {
                return None;
            },
        };
        Some(TransferShellCommandControlArgs { reason })
    }
}

/// A range of lines to read.
#[derive(Debug)]
pub struct LineRangeArg {
    pub start: u32,
    pub end: u32,
}

/// The model of [`LineRangeArg`].
#[verifier::ext_equal]
pub struct LineRangeArgView {
    pub start: u32,
    pub end: u32,
}

impl View for LineRangeArg {
    type V = LineRangeArgView;

    open spec fn view(&self) -> LineRangeArgView {
        LineRangeArgView {
            start: self.start,
            end: self.end,
        }
    }
}

/// What a JSON value says as [`LineRangeArg`].
pub open spec fn line_range_arg(json: JsonView) -> Option<LineRangeArgView> {
    if !record(json, 2) {
        None
    } else {
        match (
            u32_field(json, 0, "start"@),
            u32_field(json, 1, "end"@),
        ) {
            (Some(start), Some(end)) => Some(
                LineRangeArgView { start, end },
            ),
            _ => None,
        }
    }
}

impl LineRangeArg {
    /// Decodes the record.
    pub fn from_json(json: &Json) -> (r: Option<Self>)
        ensures
            opt_view(r) == line_range_arg(json@),
    {
        if !is_record(json, 2) {
            return None;
        }
        let start = match u32_at(json, 0, "start") {
            Some(v) => v,
            None => {
                return None;
            },
        };
        let end = match u32_at(json, 1, "end") {
            Some(v) => v,
            None => {
                return None;
            },
        };
        Some(LineRangeArg { start, end })
    }
}

/// What a JSON value says as a list of [`LineRangeArg`].
pub open spec fn line_range_arg_list(json: JsonView) -> Option<Seq<LineRangeArgView>> {
    list_value(json, |item: JsonView| line_range_arg(item))
}

/// Decodes a list of records.
fn read_line_range_arg_list(json: &Json) -> (r: Option<Vec<LineRangeArg>>)
    ensures
        views_opt(r) == line_range_arg_list(json@),
{
    match json.as_array() {
        Some(items) => {
            let ghost models = views(items@);
            let mut r: Vec<LineRangeArg> = Vec::new();
            let mut i: usize = 0;
            while i < items.len()
                invariant
                    i <= items.len(),
                    models == views(items@),
                    json@ == JsonView::Array(models),
                    r.len() == i,
                    forall|k: int|
                        0 <= k < i ==> (#[trigger] line_range_arg(models[k])) == Some(r@[k]@),
                decreases items.len() - i,
            {
                match LineRangeArg::from_json(&items[i]) {
                    Some(v) => {
                        assert(line_range_arg(models[i as int]) == Some(v@));
                        r.push(v);
                    },
                    None => {
                        let ghost decode = |item: JsonView| line_range_arg(item);
                        assert(decode(models[i as int]) is None);
                        return None;
                    },
                }
                i += 1;
            }
            assert(line_range_arg_list(json@)->0 =~= views(r@));
            Some(r)
        },
        None => None,
    }
}

/// The name of a file to read: `name`, `path` or `file_path`, of which an object holds at most one.
pub open spec fn file_name_field(json: JsonView) -> Option<Option<Seq<char>>> {
    match (json.get("name"@), json.get("path"@), json.get("file_path"@)) {
        (_, None, None) => opt_text_field(json, 0, "name"@),
        (None, Some(_), None) => opt_text_field(json, 0, "path"@),
        (None, None, Some(_)) => opt_text_field(json, 0, "file_path"@),
        _ => None,
    }
}

/// Decodes the name of a file to read.
fn file_name_at(json: &Json) -> (r: Option<Option<String>>)
    ensures
        r is Some <==> file_name_field(json@) is Some,
        r matches Some(v) ==> file_name_field(json@) == Some(opt_view(v)),
{
    match (json.get("name"), json.get("path"), json.get("file_path")) {
        (_, None, None) => opt_text_at(json, 0, "name"),
        (None, Some(_), None) => opt_text_at(json, 0, "path"),
        (None, None, Some(_)) => opt_text_at(json, 0, "file_path"),
        _ => None,
    }
}

/// A file to read.
#[derive(Debug)]
pub struct ReadFileArg {
    pub name: Option<String>,
    pub line_ranges: Vec<LineRangeArg>,
}

/// The model of [`ReadFileArg`].
#[verifier::ext_equal]
pub struct ReadFileArgView {
    pub name: Option<Seq<char>>,
    pub line_ranges: Seq<LineRangeArgView>,
}

impl View for ReadFileArg {
    type V = ReadFileArgView;

    open spec fn view(&self) -> ReadFileArgView {
        ReadFileArgView {
            name: opt_view(self.name),
            line_ranges: views(self.line_ranges@),
        }
    }
}

/// What a JSON value says as [`ReadFileArg`].
pub open spec fn read_file_arg(json: JsonView) -> Option<ReadFileArgView> {
    if !record(json, 2) {
        None
    } else {
        match (
            file_name_field(json),
            defaulted(json, 1, "line_ranges"@, |v: JsonView| line_range_arg_list(v), Seq::empty()),
        ) {
            (Some(name), Some(line_ranges)) => Some(
                ReadFileArgView { name, line_ranges },
            ),
            _ => None,
        }
    }
}

impl ReadFileArg {
    /// Decodes the record.
    pub fn from_json(json: &Json) -> (r: Option<Self>)
        ensures
            opt_view(r) == read_file_arg(json@),
    {
        if !is_record(json, 2) {
            return None;
        }
        let name = match file_name_at(json) {
            Some(v) => v,
            None => {
                return None;
            },
        };
        let line_ranges = match field_of(json, 1, "line_ranges") {
            Some(value) => read_line_range_arg_list(value),
            None => Some(Vec::new()),
        };
        let line_ranges = match line_ranges {
            Some(v) => v,
            None => {
                return None;
            },
        };
        Some(ReadFileArg { name, line_ranges })
    }
}

/// What a JSON value says as a list of [`ReadFileArg`].
pub open spec fn read_file_arg_list(json: JsonView) -> Option<Seq<ReadFileArgView>> {
    list_value(json, |item: JsonView| read_file_arg(item))
}

/// Decodes a list of records.
fn read_read_file_arg_list(json: &Json) -> (r: Option<Vec<ReadFileArg>>)
    ensures
        views_opt(r) == read_file_arg_list(json@),
{
    match json.as_array() {
        Some(items) => {
            let ghost models = views(items@);
            let mut r: Vec<ReadFileArg> = Vec::new();
            let mut i: usize = 0;
            while i < items.len()
                invariant
                    i <= items.len(),
                    models == views(items@),
                    json@ == JsonView::Array(models),
                    r.len() == i,
                    forall|k: int|
                        0 <= k < i ==> (#[trigger] read_file_arg(models[k])) == Some(r@[k]@),
                decreases items.len() - i,
            {
                match ReadFileArg::from_json(&items[i]) {
                    Some(v) => {
                        assert(read_file_arg(models[i as int]) == Some(v@));
                        r.push(v);
                    },
                    None => {
                        let ghost decode = |item: JsonView| read_file_arg(item);
                        assert(decode(models[i as int]) is None);
                        return None;
                    },
                }
                i += 1;
            }
            assert(read_file_arg_list(json@)->0 =~= views(r@));
            Some(r)
        },
        None => None,
    }
}

/// The arguments of `read_files`.
#[derive(Debug)]
pub struct ReadFilesArgs {
    pub files: Vec<ReadFileArg>,
}

/// The model of [`ReadFilesArgs`].
#[verifier::ext_equal]
pub struct ReadFilesArgsView {
    pub files: Seq<ReadFileArgView>,
}

impl View for ReadFilesArgs {
    type V = ReadFilesArgsView;

    open spec fn view(&self) -> ReadFilesArgsView {
        ReadFilesArgsView {
            files: views(self.files@),
        }
    }
}

/// What a JSON value says as [`ReadFilesArgs`].
pub open spec fn read_files_args(json: JsonView) -> Option<ReadFilesArgsView> {
    if !record(json, 1) {
        None
    } else {
        match required(json, 0, "files"@, |v: JsonView| read_file_arg_list(v)) {
            Some(files) => Some(ReadFilesArgsView { files }),
            None => None,
        }
    }
}

impl ReadFilesArgs {
    /// Decodes the record.
    pub fn from_json(json: &Json) -> (r: Option<Self>)
        ensures
            opt_view(r) == read_files_args(json@),
    {
        if !is_record(json, 1) {
            return None;
        }
        let files = match field_of(json, 0, "files") {
            Some(value) => read_read_file_arg_list(value),
            None => None,
        };
        let files = match files {
            Some(v) => v,
            None => {
                return None;
            },
        };
        Some(ReadFilesArgs { files })
    }
}

/// The arguments of `search_codebase`.
#[derive(Debug)]
pub struct SearchCodebaseArgs {
    pub query: String,
    pub path_filters: Vec<String>,
    pub codebase_path: Option<String>,
}

/// The model of [`SearchCodebaseArgs`].
#[verifier::ext_equal]
pub struct SearchCodebaseArgsView {
    pub query: Seq<char>,
    pub path_filters: Seq<Seq<char>>,
    pub codebase_path: Option<Seq<char>>,
}

impl View for SearchCodebaseArgs {
    type V = SearchCodebaseArgsView;

    open spec fn view(&self) -> SearchCodebaseArgsView {
        SearchCodebaseArgsView {
            query: self.query@,
            path_filters: views(self.path_filters@),
            codebase_path: opt_view(self.codebase_path),
        }
    }
}

/// What a JSON value says as [`SearchCodebaseArgs`].
pub open spec fn search_codebase_args(json: JsonView) -> Option<SearchCodebaseArgsView> {
    if !record(json, 3) {
        None
    } else {
        match (
            text_field(json, 0, "query"@),
            texts_or_empty_field(json, 1, "path_filters"@),
            opt_text_field(json, 2, "codebase_path"@),
        ) {
            (Some(query), Some(path_filters), Some(codebase_path)) => Some(
                SearchCodebaseArgsView { query, path_filters, codebase_path },
            ),
            _ => None,
        }
    }
}

impl SearchCodebaseArgs {
    /// Decodes the record.
    pub fn from_json(json: &Json) -> (r: Option<Self>)
        ensures
            opt_view(r) == search_codebase_args(json@),
    {
        if !is_record(json, 3) {
            return None;
        }
        let query = match text_at(json, 0, "query") {
            Some(v) => v,
            None => {
                return None;
            },
        };
        let path_filters = match texts_or_empty_at(json, 1, "path_filters") {
            Some(v) => v,
            None => {
                return None;
            },
        };
        let codebase_path = match opt_text_at(json, 2, "codebase_path") {
            Some(v) => v,
            None => {
                return None;
            },
        };
        Some(SearchCodebaseArgs { query, path_filters, codebase_path })
    }
}

/// The arguments of `grep`.
#[derive(Debug)]
pub struct GrepArgs {
    pub query: Option<String>,
    pub queries: Vec<String>,
    pub path: Option<String>,
}

/// The model of [`GrepArgs`].
#[verifier::ext_equal]
pub struct GrepArgsView {
    pub query: Option<Seq<char>>,
    pub queries: Seq<Seq<char>>,
    pub path: Option<Seq<char>>,
}

impl View for GrepArgs {
    type V = GrepArgsView;

    open spec fn view(&self) -> GrepArgsView {
        GrepArgsView {
            query: opt_view(self.query),
            queries: views(self.queries@),
            path: opt_view(self.path),
        }
    }
}

/// What a JSON value says as [`GrepArgs`].
pub open spec fn grep_args(json: JsonView) -> Option<GrepArgsView> {
    if !record(json, 3) {
        None
    } else {
        match (
            opt_text_field(json, 0, "query"@),
            texts_or_empty_field(json, 1, "queries"@),
            opt_text_field(json, 2, "path"@),
        ) {
            (Some(query), Some(queries), Some(path)) => Some(
                GrepArgsView { query, queries, path },
            ),
            _ => None,
        }
    }
}

impl GrepArgs {
    /// Decodes the record.
    pub fn from_json(json: &Json) -> (r: Option<Self>)
        ensures
            opt_view(r) == grep_args(json@),
    {
        if !is_record(json, 3) {
            return None;
        }
        let query = match opt_text_at(json, 0, "query") {
            Some(v) => v,
            None => {
                return None;
            },
        };
        let queries = match texts_or_empty_at(json, 1, "queries") {
            Some(v) => v,
            None => {
                return None;
            },
        };
        let path = match opt_text_at(json, 2, "path") {
            Some(v) => v,
            None => {
                return None;
            },
        };
        Some(GrepArgs { query, queries, path })
    }
}

/// The arguments of `file_glob`.
#[derive(Debug)]
pub struct FileGlobArgs {
    pub patterns: Vec<String>,
    pub path: Option<String>,
}

/// The model of [`FileGlobArgs`].
#[verifier::ext_equal]
pub struct FileGlobArgsView {
    pub patterns: Seq<Seq<char>>,
    pub path: Option<Seq<char>>,
}

impl View for FileGlobArgs {
    type V = FileGlobArgsView;

    open spec fn view(&self) -> FileGlobArgsView {
        FileGlobArgsView {
            patterns: views(self.patterns@),
            path: opt_view(self.path),
        }
    }
}

/// What a JSON value says as [`FileGlobArgs`].
pub open spec fn file_glob_args(json: JsonView) -> Option<FileGlobArgsView> {
    if !record(json, 2) {
        None
    } else {
        match (
            texts_field(json, 0, "patterns"@),
            opt_text_field(json, 1, "path"@),
        ) {
            (Some(patterns), Some(path)) => Some(
                FileGlobArgsView { patterns, path },
            ),
            _ => None,
        }
    }
}

impl FileGlobArgs {
    /// Decodes the record.
    pub fn from_json(json: &Json) -> (r: Option<Self>)
        ensures
            opt_view(r) == file_glob_args(json@),
    {
        if !is_record(json, 2) {
            return None;
        }
        let patterns = match texts_at(json, 0, "patterns") {
            Some(v) => v,
            None => {
                return None;
            },
        };
        let path = match opt_text_at(json, 1, "path") {
            Some(v) => v,
            None => {
                return None;
            },
        };
        Some(FileGlobArgs { patterns, path })
    }
}

/// The arguments of `file_glob_v2`.
#[derive(Debug)]
pub struct FileGlobV2Args {
    pub patterns: Vec<String>,
    pub search_dir: Option<String>,
    pub max_matches: Option<i32>,
    pub max_depth: Option<i32>,
    pub min_depth: Option<i32>,
}

/// The model of [`FileGlobV2Args`].
#[verifier::ext_equal]
pub struct FileGlobV2ArgsView {
    pub patterns: Seq<Seq<char>>,
    pub search_dir: Option<Seq<char>>,
    pub max_matches: Option<i32>,
    pub max_depth: Option<i32>,
    pub min_depth: Option<i32>,
}

impl View for FileGlobV2Args {
    type V = FileGlobV2ArgsView;

    open spec fn view(&self) -> FileGlobV2ArgsView {
        FileGlobV2ArgsView {
            patterns: views(self.patterns@),
            search_dir: opt_view(self.search_dir),
            max_matches: self.max_matches,
            max_depth: self.max_depth,
            min_depth: self.min_depth,
        }
    }
}

/// What a JSON value says as [`FileGlobV2Args`].
pub open spec fn file_glob_v2_args(json: JsonView) -> Option<FileGlobV2ArgsView> {
    if !record(json, 5) {
        None
    } else {
        match (
            texts_field(json, 0, "patterns"@),
            opt_text_field(json, 1, "search_dir"@),
            opt_i32_field(json, 2, "max_matches"@),
            opt_i32_field(json, 3, "max_depth"@),
            opt_i32_field(json, 4, "min_depth"@),
        ) {
            (
                Some(patterns),
                Some(search_dir),
                Some(max_matches),
                Some(max_depth),
                Some(min_depth),
            ) => Some(
                FileGlobV2ArgsView { patterns, search_dir, max_matches, max_depth, min_depth },
            ),
            _ => None,
        }
    }
}

impl FileGlobV2Args {
    /// Decodes the record.
    pub fn from_json(json: &Json) -> (r: Option<Self>)
        ensures
            opt_view(r) == file_glob_v2_args(json@),
    {
        if !is_record(json, 5) {
            return None;
        }
        let patterns = match texts_at(json, 0, "patterns") {
            Some(v) => v,
            None => {
                return None;
            },
        };
        let search_dir = match opt_text_at(json, 1, "search_dir") {
            Some(v) => v,
            None => {
                return None;
            },
        };
        let max_matches = match opt_i32_at(json, 2, "max_matches") {
            Some(v) => v,
            None => {
                return None;
            },
        };
        let max_depth = match opt_i32_at(json, 3, "max_depth") {
            Some(v) => v,
            None => {
                return None;
            },
        };
        let min_depth = match opt_i32_at(json, 4, "min_depth") {
            Some(v) => v,
            None => {
                return None;
            },
        };
        Some(FileGlobV2Args { patterns, search_dir, max_matches, max_depth, min_depth })
    }
}

/// The arguments of `read_skill`.
#[derive(Debug)]
pub struct ReadSkillArgs {
    pub skill_path: Option<String>,
    pub bundled_skill_id: Option<String>,
    pub name: Option<String>,
}

/// The model of [`ReadSkillArgs`].
#[verifier::ext_equal]
pub struct ReadSkillArgsView {
    pub skill_path: Option<Seq<char>>,
    pub bundled_skill_id: Option<Seq<char>>,
    pub name: Option<Seq<char>>,
}

impl View for ReadSkillArgs {
    type V = ReadSkillArgsView;

    open spec fn view(&self) -> ReadSkillArgsView {
        ReadSkillArgsView {
            skill_path: opt_view(self.skill_path),
            bundled_skill_id: opt_view(self.bundled_skill_id),
            name: opt_view(self.name),
        }
    }
}

/// What a JSON value says as [`ReadSkillArgs`].
pub open spec fn read_skill_args(json: JsonView) -> Option<ReadSkillArgsView> {
    if !record(json, 3) {
        None
    } else {
        match (
            opt_text_field(json, 0, "skill_path"@),
            opt_text_field(json, 1, "bundled_skill_id"@),
            opt_text_field(json, 2, "name"@),
        ) {
            (Some(skill_path), Some(bundled_skill_id), Some(name)) => Some(
                ReadSkillArgsView { skill_path, bundled_skill_id, name },
            ),
            _ => None,
        }
    }
}

impl ReadSkillArgs {
    /// Decodes the record.
    pub fn from_json(json: &Json) -> (r: Option<Self>)
        ensures
            opt_view(r) == read_skill_args(json@),
    {
        if !is_record(json, 3) {
            return None;
        }
        let skill_path = match opt_text_at(json, 0, "skill_path") {
            Some(v) => v,
            None => {
                return None;
            },
        };
        let bundled_skill_id = match opt_text_at(json, 1, "bundled_skill_id") {
            Some(v) => v,
            None => {
                return None;
            },
        };
        let name = match opt_text_at(json, 2, "name") {
            Some(v) => v,
            None => {
                return None;
            },
        };
        Some(ReadSkillArgs { skill_path, bundled_skill_id, name })
    }
}

/// A question to the user.
#[derive(Debug)]
pub struct AskUserQuestionArg {
    pub question_id: Option<String>,
    pub question: String,
    pub options: Vec<String>,
    pub recommended_option_index: Option<i32>,
    pub is_multiselect: bool,
    pub supports_other: bool,
}

/// The model of [`AskUserQuestionArg`].
#[verifier::ext_equal]
pub struct AskUserQuestionArgView {
    pub question_id: Option<Seq<char>>,
    pub question: Seq<char>,
    pub options: Seq<Seq<char>>,
    pub recommended_option_index: Option<i32>,
    pub is_multiselect: bool,
    pub supports_other: bool,
}

impl View for AskUserQuestionArg {
    type V = AskUserQuestionArgView;

    open spec fn view(&self) -> AskUserQuestionArgView {
        AskUserQuestionArgView {
            question_id: opt_view(self.question_id),
            question: self.question@,
            options: views(self.options@),
            recommended_option_index: self.recommended_option_index,
            is_multiselect: self.is_multiselect,
            supports_other: self.supports_other,
        }
    }
}

/// What a JSON value says as [`AskUserQuestionArg`].
pub open spec fn ask_user_question_arg(json: JsonView) -> Option<AskUserQuestionArgView> {
    if !record(json, 6) {
        None
    } else {
        match (
            opt_text_field(json, 0, "question_id"@),
            text_field(json, 1, "question"@),
            texts_field(json, 2, "options"@),
            opt_i32_field(json, 3, "recommended_option_index"@),
            flag_field(json, 4, "is_multiselect"@),
            flag_field(json, 5, "supports_other"@),
        ) {
            (
                Some(question_id),
                Some(question),
                Some(options),
                Some(recommended_option_index),
                Some(is_multiselect),
                Some(supports_other),
            ) => Some(
                AskUserQuestionArgView {
                    question_id,
                    question,
                    options,
                    recommended_option_index,
                    is_multiselect,
                    supports_other,
                },
            ),
            _ => None,
        }
    }
}

impl AskUserQuestionArg {
    /// Decodes the record.
    pub fn from_json(json: &Json) -> (r: Option<Self>)
        ensures
            opt_view(r) == ask_user_question_arg(json@),
    {
        if !is_record(json, 6) {
            return None;
        }
        let question_id = match opt_text_at(json, 0, "question_id") {
            Some(v) => v,
            None => {
                return None;
            },
        };
        let question = match text_at(json, 1, "question") {
            Some(v) => v,
            None => {
                return None;
            },
        };
        let options = match texts_at(json, 2, "options") {
            Some(v) => v,
            None => {
                return None;
            },
        };
        let recommended_option_index = match opt_i32_at(json, 3, "recommended_option_index") {
            Some(v) => v,
            None => {
                return None;
            },
        };
        let is_multiselect = match flag_at(json, 4, "is_multiselect") {
            Some(v) => v,
            None => {
                return None;
            },
        };
        let supports_other = match flag_at(json, 5, "supports_other") {
            Some(v) => v,
            None => {
                return None;
            },
        };
        Some(
            AskUserQuestionArg {
                question_id,
                question,
                options,
                recommended_option_index,
                is_multiselect,
                supports_other,
            }
        )
    }
}

/// What a JSON value says as a list of [`AskUserQuestionArg`].
pub open spec fn ask_user_question_arg_list(json: JsonView) -> Option<Seq<AskUserQuestionArgView>> {
    list_value(json, |item: JsonView| ask_user_question_arg(item))
}

/// Decodes a list of records.
fn read_ask_user_question_arg_list(json: &Json) -> (r: Option<Vec<AskUserQuestionArg>>)
    ensures
        views_opt(r) == ask_user_question_arg_list(json@),
{
    match json.as_array() {
        Some(items) => {
            let ghost models = views(items@);
            let mut r: Vec<AskUserQuestionArg> = Vec::new();
            let mut i: usize = 0;
            while i < items.len()
                invariant
                    i <= items.len(),
                    models == views(items@),
                    json@ == JsonView::Array(models),
                    r.len() == i,
                    forall|k: int|
                        0 <= k < i ==>
                            (#[trigger] ask_user_question_arg(models[k])) == Some(r@[k]@),
                decreases items.len() - i,
            {
                match AskUserQuestionArg::from_json(&items[i]) {
                    Some(v) => {
                        assert(ask_user_question_arg(models[i as int]) == Some(v@));
                        r.push(v);
                    },
                    None => {
                        let ghost decode = |item: JsonView| ask_user_question_arg(item);
                        assert(decode(models[i as int]) is None);
                        return None;
                    },
                }
                i += 1;
            }
            assert(ask_user_question_arg_list(json@)->0 =~= views(r@));
            Some(r)
        },
        None => None,
    }
}

/// The arguments of `ask_user_question`.
#[derive(Debug)]
pub struct AskUserQuestionArgs {
    pub questions: Vec<AskUserQuestionArg>,
}

/// The model of [`AskUserQuestionArgs`].
#[verifier::ext_equal]
pub struct AskUserQuestionArgsView {
    pub questions: Seq<AskUserQuestionArgView>,
}

impl View for AskUserQuestionArgs {
    type V = AskUserQuestionArgsView;

    open spec fn view(&self) -> AskUserQuestionArgsView {
        AskUserQuestionArgsView {
            questions: views(self.questions@),
        }
    }
}

/// What a JSON value says as [`AskUserQuestionArgs`].
pub open spec fn ask_user_question_args(json: JsonView) -> Option<AskUserQuestionArgsView> {
    if !record(json, 1) {
        None
    } else {
        match required(json, 0, "questions"@, |v: JsonView| ask_user_question_arg_list(v)) {
            Some(questions) => Some(AskUserQuestionArgsView { questions }),
            None => None,
        }
    }
}

impl AskUserQuestionArgs {
    /// Decodes the record.
    pub fn from_json(json: &Json) -> (r: Option<Self>)
        ensures
            opt_view(r) == ask_user_question_args(json@),
    {
        if !is_record(json, 1) {
            return None;
        }
        let questions = match field_of(json, 0, "questions") {
            Some(value) => read_ask_user_question_arg_list(value),
            None => None,
        };
        let questions = match questions {
            Some(v) => v,
            None => {
                return None;
            },
        };
        Some(AskUserQuestionArgs { questions })
    }
}

/// A text of a file to replace.
#[derive(Debug)]
pub struct FileDiffArgs {
    pub file_path: String,
    pub search: String,
    pub replace: String,
}

/// The model of [`FileDiffArgs`].
#[verifier::ext_equal]
pub struct FileDiffArgsView {
    pub file_path: Seq<char>,
    pub search: Seq<char>,
    pub replace: Seq<char>,
}

impl View for FileDiffArgs {
    type V = FileDiffArgsView;

    open spec fn view(&self) -> FileDiffArgsView {
        FileDiffArgsView {
            file_path: self.file_path@,
            search: self.search@,
            replace: self.replace@,
        }
    }
}

/// What a JSON value says as [`FileDiffArgs`].
pub open spec fn file_diff_args(json: JsonView) -> Option<FileDiffArgsView> {
    if !record(json, 3) {
        None
    } else {
        match (
            text_field(json, 0, "file_path"@),
            text_field(json, 1, "search"@),
            text_field(json, 2, "replace"@),
        ) {
            (Some(file_path), Some(search), Some(replace)) => Some(
                FileDiffArgsView { file_path, search, replace },
            ),
            _ => None,
        }
    }
}

impl FileDiffArgs {
    /// Decodes the record.
    pub fn from_json(json: &Json) -> (r: Option<Self>)
        ensures
            opt_view(r) == file_diff_args(json@),
    {
        if !is_record(json, 3) {
            return None;
        }
        let file_path = match text_at(json, 0, "file_path") {
            Some(v) => v,
            None => {
                return None;
            },
        };
        let search = match text_at(json, 1, "search") {
            Some(v) => v,
            None => {
                return None;
            },
        };
        let replace = match text_at(json, 2, "replace") {
            Some(v) => v,
            None => {
                return None;
            },
        };
        Some(FileDiffArgs { file_path, search, replace })
    }
}

/// What a JSON value says as a list of [`FileDiffArgs`].
pub open spec fn file_diff_args_list(json: JsonView) -> Option<Seq<FileDiffArgsView>> {
    list_value(json, |item: JsonView| file_diff_args(item))
}

/// Decodes a list of records.
fn read_file_diff_args_list(json: &Json) -> (r: Option<Vec<FileDiffArgs>>)
    ensures
        views_opt(r) == file_diff_args_list(json@),
{
    match json.as_array() {
        Some(items) => {
            let ghost models = views(items@);
            let mut r: Vec<FileDiffArgs> = Vec::new();
            let mut i: usize = 0;
            while i < items.len()
                invariant
                    i <= items.len(),
                    models == views(items@),
                    json@ == JsonView::Array(models),
                    r.len() == i,
                    forall|k: int|
                        0 <= k < i ==> (#[trigger] file_diff_args(models[k])) == Some(r@[k]@),
                decreases items.len() - i,
            {
                match FileDiffArgs::from_json(&items[i]) {
                    Some(v) => {
                        assert(file_diff_args(models[i as int]) == Some(v@));
                        r.push(v);
                    },
                    None => {
                        let ghost decode = |item: JsonView| file_diff_args(item);
                        assert(decode(models[i as int]) is None);
                        return None;
                    },
                }
                i += 1;
            }
            assert(file_diff_args_list(json@)->0 =~= views(r@));
            Some(r)
        },
        None => None,
    }
}

/// A file to create.
#[derive(Debug)]
pub struct NewFileArgs {
    pub file_path: String,
    pub content: String,
}

/// The model of [`NewFileArgs`].
#[verifier::ext_equal]
pub struct NewFileArgsView {
    pub file_path: Seq<char>,
    pub content: Seq<char>,
}

impl View for NewFileArgs {
    type V = NewFileArgsView;

    open spec fn view(&self) -> NewFileArgsView {
        NewFileArgsView {
            file_path: self.file_path@,
            content: self.content@,
        }
    }
}

/// What a JSON value says as [`NewFileArgs`].
pub open spec fn new_file_args(json: JsonView) -> Option<NewFileArgsView> {
    if !record(json, 2) {
        None
    } else {
        match (
            text_field(json, 0, "file_path"@),
            text_field(json, 1, "content"@),
        ) {
            (Some(file_path), Some(content)) => Some(
                NewFileArgsView { file_path, content },
            ),
            _ => None,
        }
    }
}

impl NewFileArgs {
    /// Decodes the record.
    pub fn from_json(json: &Json) -> (r: Option<Self>)
        ensures
            opt_view(r) == new_file_args(json@),
    {
        if !is_record(json, 2) {
            return None;
        }
        let file_path = match text_at(json, 0, "file_path") {
            Some(v) => v,
            None => {
                return None;
            },
        };
        let content = match text_at(json, 1, "content") {
            Some(v) => v,
            None => {
                return None;
            },
        };
        Some(NewFileArgs { file_path, content })
    }
}

/// What a JSON value says as a list of [`NewFileArgs`].
pub open spec fn new_file_args_list(json: JsonView) -> Option<Seq<NewFileArgsView>> {
    list_value(json, |item: JsonView| new_file_args(item))
}

/// Decodes a list of records.
fn read_new_file_args_list(json: &Json) -> (r: Option<Vec<NewFileArgs>>)
    ensures
        views_opt(r) == new_file_args_list(json@),
{
    match json.as_array() {
        Some(items) => {
            let ghost models = views(items@);
            let mut r: Vec<NewFileArgs> = Vec::new();
            let mut i: usize = 0;
            while i < items.len()
                invariant
                    i <= items.len(),
                    models == views(items@),
                    json@ == JsonView::Array(models),
                    r.len() == i,
                    forall|k: int|
                        0 <= k < i ==> (#[trigger] new_file_args(models[k])) == Some(r@[k]@),
                decreases items.len() - i,
            {
                match NewFileArgs::from_json(&items[i]) {
                    Some(v) => {
                        assert(new_file_args(models[i as int]) == Some(v@));
                        r.push(v);
                    },
                    None => {
                        let ghost decode = |item: JsonView| new_file_args(item);
                        assert(decode(models[i as int]) is None);
                        return None;
                    },
                }
                i += 1;
            }
            assert(new_file_args_list(json@)->0 =~= views(r@));
            Some(r)
        },
        None => None,
    }
}

/// A file to delete.
#[derive(Debug)]
pub struct DeletedFileArgs {
    pub file_path: String,
}

/// The model of [`DeletedFileArgs`].
#[verifier::ext_equal]
pub struct DeletedFileArgsView {
    pub file_path: Seq<char>,
}

impl View for DeletedFileArgs {
    type V = DeletedFileArgsView;

    open spec fn view(&self) -> DeletedFileArgsView {
        DeletedFileArgsView {
            file_path: self.file_path@,
        }
    }
}

/// What a JSON value says as [`DeletedFileArgs`].
pub open spec fn deleted_file_args(json: JsonView) -> Option<DeletedFileArgsView> {
    if !record(json, 1) {
        None
    } else {
        match text_field(json, 0, "file_path"@) {
            Some(file_path) => Some(DeletedFileArgsView { file_path }),
            None => None,
        }
    }
}

impl DeletedFileArgs {
    /// Decodes the record.
    pub fn from_json(json: &Json) -> (r: Option<Self>)
        ensures
            opt_view(r) == deleted_file_args(json@),
    {
        if !is_record(json, 1) {
            return None;
        }
        let file_path = match text_at(json, 0, "file_path") {
            Some(v) => v,
            None => {
                return None;
            },
        };
        Some(DeletedFileArgs { file_path })
    }
}

/// What a JSON value says as a list of [`DeletedFileArgs`].
pub open spec fn deleted_file_args_list(json: JsonView) -> Option<Seq<DeletedFileArgsView>> {
    list_value(json, |item: JsonView| deleted_file_args(item))
}

/// Decodes a list of records.
fn read_deleted_file_args_list(json: &Json) -> (r: Option<Vec<DeletedFileArgs>>)
    ensures
        views_opt(r) == deleted_file_args_list(json@),
{
    match json.as_array() {
        Some(items) => {
            let ghost models = views(items@);
            let mut r: Vec<DeletedFileArgs> = Vec::new();
            let mut i: usize = 0;
            while i < items.len()
                invariant
                    i <= items.len(),
                    models == views(items@),
                    json@ == JsonView::Array(models),
                    r.len() == i,
                    forall|k: int|
                        0 <= k < i ==> (#[trigger] deleted_file_args(models[k])) == Some(r@[k]@),
                decreases items.len() - i,
            {
                match DeletedFileArgs::from_json(&items[i]) {
                    Some(v) => {
                        assert(deleted_file_args(models[i as int]) == Some(v@));
                        r.push(v);
                    },
                    None => {
                        let ghost decode = |item: JsonView| deleted_file_args(item);
                        assert(decode(models[i as int]) is None);
                        return None;
                    },
                }
                i += 1;
            }
            assert(deleted_file_args_list(json@)->0 =~= views(r@));
            Some(r)
        },
        None => None,
    }
}

/// A change within a file.
#[derive(Debug)]
pub struct V4AHunkArgs {
    pub change_context: Vec<String>,
    pub pre_context: Option<String>,
    pub old: Option<String>,
    pub new: Option<String>,
    pub post_context: Option<String>,
}

/// The model of [`V4AHunkArgs`].
#[verifier::ext_equal]
pub struct V4AHunkArgsView {
    pub change_context: Seq<Seq<char>>,
    pub pre_context: Option<Seq<char>>,
    pub old: Option<Seq<char>>,
    pub new: Option<Seq<char>>,
    pub post_context: Option<Seq<char>>,
}

impl View for V4AHunkArgs {
    type V = V4AHunkArgsView;

    open spec fn view(&self) -> V4AHunkArgsView {
        V4AHunkArgsView {
            change_context: views(self.change_context@),
            pre_context: opt_view(self.pre_context),
            old: opt_view(self.old),
            new: opt_view(self.new),
            post_context: opt_view(self.post_context),
        }
    }
}

/// What a JSON value says as [`V4AHunkArgs`].
pub open spec fn v4a_hunk_args(json: JsonView) -> Option<V4AHunkArgsView> {
    if !record(json, 5) {
        None
    } else {
        match (
            texts_or_empty_field(json, 0, "change_context"@),
            opt_text_field(json, 1, "pre_context"@),
            opt_text_field(json, 2, "old"@),
            opt_text_field(json, 3, "new"@),
            opt_text_field(json, 4, "post_context"@),
        ) {
            (
                Some(change_context),
                Some(pre_context),
                Some(old),
                Some(new),
                Some(post_context),
            ) => Some(
                V4AHunkArgsView { change_context, pre_context, old, new, post_context },
            ),
            _ => None,
        }
    }
}

impl V4AHunkArgs {
    /// Decodes the record.
    pub fn from_json(json: &Json) -> (r: Option<Self>)
        ensures
            opt_view(r) == v4a_hunk_args(json@),
    {
        if !is_record(json, 5) {
            return None;
        }
        let change_context = match texts_or_empty_at(json, 0, "change_context") {
            Some(v) => v,
            None => {
                return None;
            },
        };
        let pre_context = match opt_text_at(json, 1, "pre_context") {
            Some(v) => v,
            None => {
                return None;
            },
        };
        let old = match opt_text_at(json, 2, "old") {
            Some(v) => v,
            None => {
                return None;
            },
        };
        let new = match opt_text_at(json, 3, "new") {
            Some(v) => v,
            None => {
                return None;
            },
        };
        let post_context = match opt_text_at(json, 4, "post_context") {
            Some(v) => v,
            None => {
                return None;
            },
        };
        Some(V4AHunkArgs { change_context, pre_context, old, new, post_context })
    }
}

/// What a JSON value says as a list of [`V4AHunkArgs`].
pub open spec fn v4a_hunk_args_list(json: JsonView) -> Option<Seq<V4AHunkArgsView>> {
    list_value(json, |item: JsonView| v4a_hunk_args(item))
}

/// Decodes a list of records.
fn read_v4a_hunk_args_list(json: &Json) -> (r: Option<Vec<V4AHunkArgs>>)
    ensures
        views_opt(r) == v4a_hunk_args_list(json@),
{
    match json.as_array() {
        Some(items) => {
            let ghost models = views(items@);
            let mut r: Vec<V4AHunkArgs> = Vec::new();
            let mut i: usize = 0;
            while i < items.len()
                invariant
                    i <= items.len(),
                    models == views(items@),
                    json@ == JsonView::Array(models),
                    r.len() == i,
                    forall|k: int|
                        0 <= k < i ==> (#[trigger] v4a_hunk_args(models[k])) == Some(r@[k]@),
                decreases items.len() - i,
            {
                match V4AHunkArgs::from_json(&items[i]) {
                    Some(v) => {
                        assert(v4a_hunk_args(models[i as int]) == Some(v@));
                        r.push(v);
                    },
                    None => {
                        let ghost decode = |item: JsonView| v4a_hunk_args(item);
                        assert(decode(models[i as int]) is None);
                        return None;
                    },
                }
                i += 1;
            }
            assert(v4a_hunk_args_list(json@)->0 =~= views(r@));
            Some(r)
        },
        None => None,
    }
}

/// Changes to a file.
#[derive(Debug)]
pub struct V4AUpdateArgs {
    pub file_path: String,
    pub move_to: Option<String>,
    pub hunks: Vec<V4AHunkArgs>,
}

/// The model of [`V4AUpdateArgs`].
#[verifier::ext_equal]
pub struct V4AUpdateArgsView {
    pub file_path: Seq<char>,
    pub move_to: Option<Seq<char>>,
    pub hunks: Seq<V4AHunkArgsView>,
}

impl View for V4AUpdateArgs {
    type V = V4AUpdateArgsView;

    open spec fn view(&self) -> V4AUpdateArgsView {
        V4AUpdateArgsView {
            file_path: self.file_path@,
            move_to: opt_view(self.move_to),
            hunks: views(self.hunks@),
        }
    }
}

/// What a JSON value says as [`V4AUpdateArgs`].
pub open spec fn v4a_update_args(json: JsonView) -> Option<V4AUpdateArgsView> {
    if !record(json, 3) {
        None
    } else {
        match (
            text_field(json, 0, "file_path"@),
            opt_text_field(json, 1, "move_to"@),
            defaulted(json, 2, "hunks"@, |v: JsonView| v4a_hunk_args_list(v), Seq::empty()),
        ) {
            (Some(file_path), Some(move_to), Some(hunks)) => Some(
                V4AUpdateArgsView { file_path, move_to, hunks },
            ),
            _ => None,
        }
    }
}

impl V4AUpdateArgs {
    /// Decodes the record.
    pub fn from_json(json: &Json) -> (r: Option<Self>)
        ensures
            opt_view(r) == v4a_update_args(json@),
    {
        if !is_record(json, 3) {
            return None;
        }
        let file_path = match text_at(json, 0, "file_path") {
            Some(v) => v,
            None => {
                return None;
            },
        };
        let move_to = match opt_text_at(json, 1, "move_to") {
            Some(v) => v,
            None => {
                return None;
            },
        };
        let hunks = match field_of(json, 2, "hunks") {
            Some(value) => read_v4a_hunk_args_list(value),
            None => Some(Vec::new()),
        };
        let hunks = match hunks {
            Some(v) => v,
            None => {
                return None;
            },
        };
        Some(V4AUpdateArgs { file_path, move_to, hunks })
    }
}

/// What a JSON value says as a list of [`V4AUpdateArgs`].
pub open spec fn v4a_update_args_list(json: JsonView) -> Option<Seq<V4AUpdateArgsView>> {
    list_value(json, |item: JsonView| v4a_update_args(item))
}

/// Decodes a list of records.
fn read_v4a_update_args_list(json: &Json) -> (r: Option<Vec<V4AUpdateArgs>>)
    ensures
        views_opt(r) == v4a_update_args_list(json@),
{
    match json.as_array() {
        Some(items) => {
            let ghost models = views(items@);
            let mut r: Vec<V4AUpdateArgs> = Vec::new();
            let mut i: usize = 0;
            while i < items.len()
                invariant
                    i <= items.len(),
                    models == views(items@),
                    json@ == JsonView::Array(models),
                    r.len() == i,
                    forall|k: int|
                        0 <= k < i ==> (#[trigger] v4a_update_args(models[k])) == Some(r@[k]@),
                decreases items.len() - i,
            {
                match V4AUpdateArgs::from_json(&items[i]) {
                    Some(v) => {
                        assert(v4a_update_args(models[i as int]) == Some(v@));
                        r.push(v);
                    },
                    None => {
                        let ghost decode = |item: JsonView| v4a_update_args(item);
                        assert(decode(models[i as int]) is None);
                        return None;
                    },
                }
                i += 1;
            }
            assert(v4a_update_args_list(json@)->0 =~= views(r@));
            Some(r)
        },
        None => None,
    }
}

/// The arguments of `apply_file_diffs`.
#[derive(Debug)]
pub struct ApplyFileDiffsArgs {
    pub summary: Option<String>,
    pub diffs: Vec<FileDiffArgs>,
    pub new_files: Vec<NewFileArgs>,
    pub deleted_files: Vec<DeletedFileArgs>,
    pub v4a_updates: Vec<V4AUpdateArgs>,
}

/// The model of [`ApplyFileDiffsArgs`].
#[verifier::ext_equal]
pub struct ApplyFileDiffsArgsView {
    pub summary: Option<Seq<char>>,
    pub diffs: Seq<FileDiffArgsView>,
    pub new_files: Seq<NewFileArgsView>,
    pub deleted_files: Seq<DeletedFileArgsView>,
    pub v4a_updates: Seq<V4AUpdateArgsView>,
}

impl View for ApplyFileDiffsArgs {
    type V = ApplyFileDiffsArgsView;

    open spec fn view(&self) -> ApplyFileDiffsArgsView {
        ApplyFileDiffsArgsView {
            summary: opt_view(self.summary),
            diffs: views(self.diffs@),
            new_files: views(self.new_files@),
            deleted_files: views(self.deleted_files@),
            v4a_updates: views(self.v4a_updates@),
        }
    }
}

/// What a JSON value says as [`ApplyFileDiffsArgs`].
pub open spec fn apply_file_diffs_args(json: JsonView) -> Option<ApplyFileDiffsArgsView> {
    if !record(json, 5) {
        None
    } else {
        match (
            opt_text_field(json, 0, "summary"@),
            defaulted(json, 1, "diffs"@, |v: JsonView| file_diff_args_list(v), Seq::empty()),
            defaulted(json, 2, "new_files"@, |v: JsonView| new_file_args_list(v), Seq::empty()),
            defaulted(
                json,
                3,
                "deleted_files"@,
                |v: JsonView| deleted_file_args_list(v),
                Seq::empty(),
            ),
            defaulted(json, 4, "v4a_updates"@, |v: JsonView| v4a_update_args_list(v), Seq::empty()),
        ) {
            (
                Some(summary),
                Some(diffs),
                Some(new_files),
                Some(deleted_files),
                Some(v4a_updates),
            ) => Some(
                ApplyFileDiffsArgsView { summary, diffs, new_files, deleted_files, v4a_updates },
            ),
            _ => None,
        }
    }
}

impl ApplyFileDiffsArgs {
    /// Decodes the record.
    pub fn from_json(json: &Json) -> (r: Option<Self>)
        ensures
            opt_view(r) == apply_file_diffs_args(json@),
    {
        if !is_record(json, 5) {
            return None;
        }
        let summary = match opt_text_at(json, 0, "summary") {
            Some(v) => v,
            None => {
                return None;
            },
        };
        let diffs = match field_of(json, 1, "diffs") {
            Some(value) => read_file_diff_args_list(value),
            None => Some(Vec::new()),
        };
        let diffs = match diffs {
            Some(v) => v,
            None => {
                return None;
            },
        };
        let new_files = match field_of(json, 2, "new_files") {
            Some(value) => read_new_file_args_list(value),
            None => Some(Vec::new()),
        };
        let new_files = match new_files {
            Some(v) => v,
            None => {
                return None;
            },
        };
        let deleted_files = match field_of(json, 3, "deleted_files") {
            Some(value) => read_deleted_file_args_list(value),
            None => Some(Vec::new()),
        };
        let deleted_files = match deleted_files {
            Some(v) => v,
            None => {
                return None;
            },
        };
        let v4a_updates = match field_of(json, 4, "v4a_updates") {
            Some(value) => read_v4a_update_args_list(value),
            None => Some(Vec::new()),
        };
        let v4a_updates = match v4a_updates {
            Some(v) => v,
            None => {
                return None;
            },
        };
        Some(ApplyFileDiffsArgs { summary, diffs, new_files, deleted_files, v4a_updates })
    }
}

/// The arguments of `suggest_prompt`.
#[derive(Debug)]
pub struct SuggestPromptArgs {
    pub prompt: String,
    pub label: Option<String>,
    pub mode: Option<String>,
    pub title: Option<String>,
    pub description: Option<String>,
    pub is_trigger_irrelevant: bool,
}

/// The model of [`SuggestPromptArgs`].
#[verifier::ext_equal]
pub struct SuggestPromptArgsView {
    pub prompt: Seq<char>,
    pub label: Option<Seq<char>>,
    pub mode: Option<Seq<char>>,
    pub title: Option<Seq<char>>,
    pub description: Option<Seq<char>>,
    pub is_trigger_irrelevant: bool,
}

impl View for SuggestPromptArgs {
    type V = SuggestPromptArgsView;

    open spec fn view(&self) -> SuggestPromptArgsView {
        SuggestPromptArgsView {
            prompt: self.prompt@,
            label: opt_view(self.label),
            mode: opt_view(self.mode),
            title: opt_view(self.title),
            description: opt_view(self.description),
            is_trigger_irrelevant: self.is_trigger_irrelevant,
        }
    }
}

/// What a JSON value says as [`SuggestPromptArgs`].
pub open spec fn suggest_prompt_args(json: JsonView) -> Option<SuggestPromptArgsView> {
    if !record(json, 6) {
        None
    } else {
        match (
            text_field(json, 0, "prompt"@),
            opt_text_field(json, 1, "label"@),
            opt_text_field(json, 2, "mode"@),
            opt_text_field(json, 3, "title"@),
            opt_text_field(json, 4, "description"@),
            flag_field(json, 5, "is_trigger_irrelevant"@),
        ) {
            (
                Some(prompt),
                Some(label),
                Some(mode),
                Some(title),
                Some(description),
                Some(is_trigger_irrelevant),
            ) => Some(
                SuggestPromptArgsView {
                    prompt,
                    label,
                    mode,
                    title,
                    description,
                    is_trigger_irrelevant,
                },
            ),
            _ => None,
        }
    }
}

impl SuggestPromptArgs {
    /// Decodes the record.
    pub fn from_json(json: &Json) -> (r: Option<Self>)
        ensures
            opt_view(r) == suggest_prompt_args(json@),
    {
        if !is_record(json, 6) {
            return None;
        }
        let prompt = match text_at(json, 0, "prompt") {
            Some(v) => v,
            None => {
                return None;
            },
        };
        let label = match opt_text_at(json, 1, "label") {
            Some(v) => v,
            None => {
                return None;
            },
        };
        let mode = match opt_text_at(json, 2, "mode") {
            Some(v) => v,
            None => {
                return None;
            },
        };
        let title = match opt_text_at(json, 3, "title") {
            Some(v) => v,
            None => {
                return None;
            },
        };
        let description = match opt_text_at(json, 4, "description") {
            Some(v) => v,
            None => {
                return None;
            },
        };
        let is_trigger_irrelevant = match flag_at(json, 5, "is_trigger_irrelevant") {
            Some(v) => v,
            None => {
                return None;
            },
        };
        Some(SuggestPromptArgs { prompt, label, mode, title, description, is_trigger_irrelevant })
    }
}

/// The arguments of `suggest_rule`.
#[derive(Debug)]
pub struct SuggestRuleArgs {
    pub name: String,
    pub content: String,
    pub logging_id: Option<String>,
}

/// The model of [`SuggestRuleArgs`].
#[verifier::ext_equal]
pub struct SuggestRuleArgsView {
    pub name: Seq<char>,
    pub content: Seq<char>,
    pub logging_id: Option<Seq<char>>,
}

impl View for SuggestRuleArgs {
    type V = SuggestRuleArgsView;

    open spec fn view(&self) -> SuggestRuleArgsView {
        SuggestRuleArgsView {
            name: self.name@,
            content: self.content@,
            logging_id: opt_view(self.logging_id),
        }
    }
}

/// What a JSON value says as [`SuggestRuleArgs`].
pub open spec fn suggest_rule_args(json: JsonView) -> Option<SuggestRuleArgsView> {
    if !record(json, 3) {
        None
    } else {
        match (
            text_field(json, 0, "name"@),
            text_field(json, 1, "content"@),
            opt_text_field(json, 2, "logging_id"@),
        ) {
            (Some(name), Some(content), Some(logging_id)) => Some(
                SuggestRuleArgsView { name, content, logging_id },
            ),
            _ => None,
        }
    }
}

impl SuggestRuleArgs {
    /// Decodes the record.
    pub fn from_json(json: &Json) -> (r: Option<Self>)
        ensures
            opt_view(r) == suggest_rule_args(json@),
    {
        if !is_record(json, 3) {
            return None;
        }
        let name = match text_at(json, 0, "name") {
            Some(v) => v,
            None => {
                return None;
            },
        };
        let content = match text_at(json, 1, "content") {
            Some(v) => v,
            None => {
                return None;
            },
        };
        let logging_id = match opt_text_at(json, 2, "logging_id") {
            Some(v) => v,
            None => {
                return None;
            },
        };
        Some(SuggestRuleArgs { name, content, logging_id })
    }
}

} // verus!
