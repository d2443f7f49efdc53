//! The tools that are offered to a backend, with the JSON schemas of their arguments.
use crate::chat::{
    OpenAIFunctionDefinition, OpenAIFunctionDefinitionView, OpenAITool, OpenAIToolView,
};
use crate::json::{int_json, texts_json, Json, JsonView};
use crate::json::members_view;
use crate::outputs::{output_of, WarpClientOutputView};
use crate::text::views;
use crate::warp::{InputType, InputTypeView, Request, RequestView, ToolType};
use vstd::prelude::*;

verus! {

// ---------------------------------------------------------------------------------------------
// Schemas
// ---------------------------------------------------------------------------------------------
/// A text.
pub open spec fn text_schema() -> JsonView {
    JsonView::Object(
        seq![
            ("type"@, JsonView::Str("string"@)),
        ],
    )
}

fn new_text_schema() -> (r: Json)
    ensures
        r@ == text_schema(),
{
    let members = vec![
        ("type".to_owned(), Json::text("string")),
    ];
    assert(members_view(members@) =~= text_schema()->Object_0);
    Json::object(members)
}

/// A text, with a description.
pub open spec fn described_text(description: Seq<char>) -> JsonView {
    JsonView::Object(
        seq![
            ("description"@, JsonView::Str(description)),
            ("type"@, JsonView::Str("string"@)),
        ],
    )
}

fn new_described_text(description: &str) -> (r: Json)
    ensures
        r@ == described_text(description@),
{
    let members = vec![
        ("description".to_owned(), Json::text(description)),
        ("type".to_owned(), Json::text("string")),
    ];
    assert(members_view(members@) =~= described_text(description@)->Object_0);
    Json::object(members)
}

/// One of some texts.
pub open spec fn choice_schema(choices: Seq<Seq<char>>, default: Seq<char>) -> JsonView {
    JsonView::Object(
        seq![
            ("default"@, JsonView::Str(default)),
            ("enum"@, texts_json(choices)),
            ("type"@, JsonView::Str("string"@)),
        ],
    )
}

fn new_choice_schema(choices: Vec<String>, default: &str) -> (r: Json)
    ensures
        r@ == choice_schema(views(choices@), default@),
{
    let members = vec![
        ("default".to_owned(), Json::text(default)),
        ("enum".to_owned(), Json::texts(&choices)),
        ("type".to_owned(), Json::text("string")),
    ];
    assert(members_view(members@) =~= choice_schema(views(choices@), default@)->Object_0);
    Json::object(members)
}

/// A boolean with a default.
pub open spec fn flag_schema(default: bool) -> JsonView {
    JsonView::Object(
        seq![
            ("default"@, JsonView::Bool(default)),
            ("type"@, JsonView::Str("boolean"@)),
        ],
    )
}

fn new_flag_schema(default: bool) -> (r: Json)
    ensures
        r@ == flag_schema(default),
{
    let members = vec![
        ("default".to_owned(), Json::Bool(default)),
        ("type".to_owned(), Json::text("boolean")),
    ];
    assert(members_view(members@) =~= flag_schema(default)->Object_0);
    Json::object(members)
}

/// A boolean with a default and a description.
pub open spec fn described_flag(default: bool, description: Seq<char>) -> JsonView {
    JsonView::Object(
        seq![
            ("default"@, JsonView::Bool(default)),
            ("description"@, JsonView::Str(description)),
            ("type"@, JsonView::Str("boolean"@)),
        ],
    )
}

fn new_described_flag(default: bool, description: &str) -> (r: Json)
    ensures
        r@ == described_flag(default, description@),
{
    let members = vec![
        ("default".to_owned(), Json::Bool(default)),
        ("description".to_owned(), Json::text(description)),
        ("type".to_owned(), Json::text("boolean")),
    ];
    assert(members_view(members@) =~= described_flag(default, description@)->Object_0);
    Json::object(members)
}

/// An integer that is not below a minimum.
pub open spec fn integer_schema(minimum: i64) -> JsonView {
    JsonView::Object(
        seq![
            ("minimum"@, int_json(minimum)),
            ("type"@, JsonView::Str("integer"@)),
        ],
    )
}

fn new_integer_schema(minimum: i64) -> (r: Json)
    ensures
        r@ == integer_schema(minimum),
{
    let members = vec![
        ("minimum".to_owned(), Json::integer(minimum)),
        ("type".to_owned(), Json::text("integer")),
    ];
    assert(members_view(members@) =~= integer_schema(minimum)->Object_0);
    Json::object(members)
}

/// An integer that is not below a minimum, with a description.
pub open spec fn described_integer(minimum: i64, description: Seq<char>) -> JsonView {
    JsonView::Object(
        seq![
            ("description"@, JsonView::Str(description)),
            ("minimum"@, int_json(minimum)),
            ("type"@, JsonView::Str("integer"@)),
        ],
    )
}

fn new_described_integer(minimum: i64, description: &str) -> (r: Json)
    ensures
        r@ == described_integer(minimum, description@),
{
    let members = vec![
        ("description".to_owned(), Json::text(description)),
        ("minimum".to_owned(), Json::integer(minimum)),
        ("type".to_owned(), Json::text("integer")),
    ];
    assert(members_view(members@) =~= described_integer(minimum, description@)->Object_0);
    Json::object(members)
}

/// An integer, with a description.
pub open spec fn described_any_integer(description: Seq<char>) -> JsonView {
    JsonView::Object(
        seq![
            ("description"@, JsonView::Str(description)),
            ("type"@, JsonView::Str("integer"@)),
        ],
    )
}

fn new_described_any_integer(description: &str) -> (r: Json)
    ensures
        r@ == described_any_integer(description@),
{
    let members = vec![
        ("description".to_owned(), Json::text(description)),
        ("type".to_owned(), Json::text("integer")),
    ];
    assert(members_view(members@) =~= described_any_integer(description@)->Object_0);
    Json::object(members)
}

/// A list.
pub open spec fn list_schema(items: JsonView) -> JsonView {
    JsonView::Object(
        seq![
            ("items"@, items),
            ("type"@, JsonView::Str("array"@)),
        ],
    )
}

fn new_list_schema(items: Json) -> (r: Json)
    ensures
        r@ == list_schema(items@),
{
    let members = vec![
        ("items".to_owned(), items),
        ("type".to_owned(), Json::text("array")),
    ];
    assert(members_view(members@) =~= list_schema(items@)->Object_0);
    Json::object(members)
}

/// A record with these properties and no others, of which some are required.
pub open spec fn record_schema(
    required: Seq<Seq<char>>,
    properties: Seq<(Seq<char>, JsonView)>,
) -> JsonView {
    if required.len() == 0 {
        JsonView::Object(
            seq![
                ("additionalProperties"@, JsonView::Bool(false)),
                ("properties"@, JsonView::Object(properties)),
                ("type"@, JsonView::Str("object"@)),
            ],
        )
    } else {
        JsonView::Object(
            seq![
                ("additionalProperties"@, JsonView::Bool(false)),
                ("properties"@, JsonView::Object(properties)),
                ("required"@, texts_json(required)),
                ("type"@, JsonView::Str("object"@)),
            ],
        )
    }
}

fn new_record_schema(required: Vec<String>, properties: Vec<(String, Json)>) -> (r: Json)
    ensures
        r@ == record_schema(views(required@), members_view(properties@)),
{
    let ghost model = record_schema(views(required@), members_view(properties@));
    if required.len() == 0 {
        let members = vec![
            ("additionalProperties".to_owned(), Json::Bool(false)),
            ("properties".to_owned(), Json::object(properties)),
            ("type".to_owned(), Json::text("object")),
        ];
        assert(members_view(members@) =~= model->Object_0);
        Json::object(members)
    } else {
        let members = vec![
            ("additionalProperties".to_owned(), Json::Bool(false)),
            ("properties".to_owned(), Json::object(properties)),
            ("required".to_owned(), Json::texts(&required)),
            ("type".to_owned(), Json::text("object")),
        ];
        assert(members_view(members@) =~= model->Object_0);
        Json::object(members)
    }
}

/// The arguments of `run_shell_command`.
#[verifier::opaque]
pub open spec fn run_shell_command_schema() -> JsonView {
    record_schema(
        seq!["command"@],
        seq![
            ("command"@, text_schema()),
            ("is_read_only"@, flag_schema(false)),
            ("is_risky"@, flag_schema(false)),
            ("uses_pager"@, flag_schema(false)),
            ("wait_until_complete"@, flag_schema(true)),
        ],
    )
}

/// The arguments of `run_shell_command`.
fn new_run_shell_command_schema() -> (r: Json)
    ensures
        r@ == run_shell_command_schema(),
{
    let properties = vec![
        ("command".to_owned(), new_text_schema()),
        ("is_read_only".to_owned(), new_flag_schema(false)),
        ("is_risky".to_owned(), new_flag_schema(false)),
        ("uses_pager".to_owned(), new_flag_schema(false)),
        ("wait_until_complete".to_owned(), new_flag_schema(true)),
    ];
    let required: Vec<String> = vec!["command".to_owned()];
    proof {
        reveal(run_shell_command_schema);
        assert(members_view(properties@) =~= seq![
            ("command"@, text_schema()),
            ("is_read_only"@, flag_schema(false)),
            ("is_risky"@, flag_schema(false)),
            ("uses_pager"@, flag_schema(false)),
            ("wait_until_complete"@, flag_schema(true)),
        ]);
        assert(views(required@) =~= seq!["command"@]);
    }
    new_record_schema(required, properties)
}

/// The arguments of `read_shell_command_output`.
#[verifier::opaque]
pub open spec fn read_shell_command_output_schema() -> JsonView {
    record_schema(
        seq!["command_id"@],
        seq![
            (
                "command_id"@,
                described_text("The command_id returned by a long-running command snapshot."@),
            ),
            (
                "delay_seconds"@,
                described_integer(0, "Optional delay before reading another snapshot."@),
            ),
            (
                "wait_until_complete"@,
                described_flag(
                    false,
                    "Wait for command completion instead of taking a timed snapshot."@,
                ),
            ),
        ],
    )
}

/// The arguments of `read_shell_command_output`.
fn new_read_shell_command_output_schema() -> (r: Json)
    ensures
        r@ == read_shell_command_output_schema(),
{
    let properties = vec![
        (
            "command_id".to_owned(),
            new_described_text("The command_id returned by a long-running command snapshot."),
        ),
        (
            "delay_seconds".to_owned(),
            new_described_integer(0, "Optional delay before reading another snapshot."),
        ),
        (
            "wait_until_complete".to_owned(),
            new_described_flag(
                false,
                "Wait for command completion instead of taking a timed snapshot.",
            ),
        ),
    ];
    let required: Vec<String> = vec!["command_id".to_owned()];
    proof {
        reveal(read_shell_command_output_schema);
        assert(members_view(properties@) =~= seq![
            (
                "command_id"@,
                described_text("The command_id returned by a long-running command snapshot."@),
            ),
            (
                "delay_seconds"@,
                described_integer(0, "Optional delay before reading another snapshot."@),
            ),
            (
                "wait_until_complete"@,
                described_flag(
                    false,
                    "Wait for command completion instead of taking a timed snapshot."@,
                ),
            ),
        ]);
        assert(views(required@) =~= seq!["command_id"@]);
    }
    new_record_schema(required, properties)
}

/// The arguments of `write_to_lrc`.
#[verifier::opaque]
pub open spec fn write_to_lrc_schema() -> JsonView {
    record_schema(
        seq!["command_id"@, "input"@],
        seq![
            (
                "command_id"@,
                described_text("The command_id returned by a long-running command snapshot."@),
            ),
            ("input"@, described_text("The exact text or bytes to send to the terminal command."@)),
            ("mode"@, choice_schema(seq!["raw"@, "line"@, "block"@], "raw"@)),
        ],
    )
}

/// The arguments of `write_to_lrc`.
fn new_write_to_lrc_schema() -> (r: Json)
    ensures
        r@ == write_to_lrc_schema(),
{
    let choices = vec!["raw".to_owned(), "line".to_owned(), "block".to_owned()];
    assert(views(choices@) =~= seq!["raw"@, "line"@, "block"@]);
    let properties = vec![
        (
            "command_id".to_owned(),
            new_described_text("The command_id returned by a long-running command snapshot."),
        ),
        (
            "input".to_owned(),
            new_described_text("The exact text or bytes to send to the terminal command."),
        ),
        ("mode".to_owned(), new_choice_schema(choices, "raw")),
    ];
    let required: Vec<String> = vec!["command_id".to_owned(), "input".to_owned()];
    proof {
        reveal(write_to_lrc_schema);
        assert(members_view(properties@) =~= seq![
            (
                "command_id"@,
                described_text("The command_id returned by a long-running command snapshot."@),
            ),
            ("input"@, described_text("The exact text or bytes to send to the terminal command."@)),
            ("mode"@, choice_schema(seq!["raw"@, "line"@, "block"@], "raw"@)),
        ]);
        assert(views(required@) =~= seq!["command_id"@, "input"@]);
    }
    new_record_schema(required, properties)
}

/// The arguments of `transfer_shell_command_control`.
#[verifier::opaque]
pub open spec fn transfer_shell_command_control_schema() -> JsonView {
    record_schema(
        seq!["reason"@],
        seq![
            ("reason"@, described_text("A concise explanation of why the user must take over."@)),
        ],
    )
}

/// The arguments of `transfer_shell_command_control`.
fn new_transfer_shell_command_control_schema() -> (r: Json)
    ensures
        r@ == transfer_shell_command_control_schema(),
{
    let properties = vec![
        (
            "reason".to_owned(),
            new_described_text("A concise explanation of why the user must take over."),
        ),
    ];
    let required: Vec<String> = vec!["reason".to_owned()];
    proof {
        reveal(transfer_shell_command_control_schema);
        assert(members_view(properties@) =~= seq![
            ("reason"@, described_text("A concise explanation of why the user must take over."@)),
        ]);
        assert(views(required@) =~= seq!["reason"@]);
    }
    new_record_schema(required, properties)
}

/// The form of a range of lines.
#[verifier::opaque]
pub open spec fn line_range_schema() -> JsonView {
    record_schema(
        seq!["start"@, "end"@],
        seq![
            ("end"@, integer_schema(1)),
            ("start"@, integer_schema(1)),
        ],
    )
}

/// The form of a range of lines.
fn new_line_range_schema() -> (r: Json)
    ensures
        r@ == line_range_schema(),
{
    let properties = vec![
        ("end".to_owned(), new_integer_schema(1)),
        ("start".to_owned(), new_integer_schema(1)),
    ];
    let required: Vec<String> = vec!["start".to_owned(), "end".to_owned()];
    proof {
        reveal(line_range_schema);
        assert(members_view(properties@) =~= seq![
            ("end"@, integer_schema(1)),
            ("start"@, integer_schema(1)),
        ]);
        assert(views(required@) =~= seq!["start"@, "end"@]);
    }
    new_record_schema(required, properties)
}

/// The form of a file to read.
#[verifier::opaque]
pub open spec fn file_to_read_schema() -> JsonView {
    record_schema(
        seq!["path"@],
        seq![
            ("line_ranges"@, list_schema(line_range_schema())),
            ("path"@, text_schema()),
        ],
    )
}

/// The form of a file to read.
fn new_file_to_read_schema() -> (r: Json)
    ensures
        r@ == file_to_read_schema(),
{
    let properties = vec![
        ("line_ranges".to_owned(), new_list_schema(new_line_range_schema())),
        ("path".to_owned(), new_text_schema()),
    ];
    let required: Vec<String> = vec!["path".to_owned()];
    proof {
        reveal(file_to_read_schema);
        assert(members_view(properties@) =~= seq![
            ("line_ranges"@, list_schema(line_range_schema())),
            ("path"@, text_schema()),
        ]);
        assert(views(required@) =~= seq!["path"@]);
    }
    new_record_schema(required, properties)
}

/// The arguments of `read_files`.
#[verifier::opaque]
pub open spec fn read_files_schema() -> JsonView {
    record_schema(
        seq!["files"@],
        seq![
            ("files"@, list_schema(file_to_read_schema())),
        ],
    )
}

/// The arguments of `read_files`.
fn new_read_files_schema() -> (r: Json)
    ensures
        r@ == read_files_schema(),
{
    let properties = vec![
        ("files".to_owned(), new_list_schema(new_file_to_read_schema())),
    ];
    let required: Vec<String> = vec!["files".to_owned()];
    proof {
        reveal(read_files_schema);
        assert(members_view(properties@) =~= seq![
            ("files"@, list_schema(file_to_read_schema())),
        ]);
        assert(views(required@) =~= seq!["files"@]);
    }
    new_record_schema(required, properties)
}

/// The arguments of `search_codebase`.
#[verifier::opaque]
pub open spec fn search_codebase_schema() -> JsonView {
    record_schema(
        seq!["query"@],
        seq![
            (
                "codebase_path"@,
                described_text("Optional absolute path to the codebase to search."@),
            ),
            ("path_filters"@, list_schema(text_schema())),
            ("query"@, text_schema()),
        ],
    )
}

/// The arguments of `search_codebase`.
fn new_search_codebase_schema() -> (r: Json)
    ensures
        r@ == search_codebase_schema(),
{
    let properties = vec![
        (
            "codebase_path".to_owned(),
            new_described_text("Optional absolute path to the codebase to search."),
        ),
        ("path_filters".to_owned(), new_list_schema(new_text_schema())),
        ("query".to_owned(), new_text_schema()),
    ];
    let required: Vec<String> = vec!["query".to_owned()];
    proof {
        reveal(search_codebase_schema);
        assert(members_view(properties@) =~= seq![
            (
                "codebase_path"@,
                described_text("Optional absolute path to the codebase to search."@),
            ),
            ("path_filters"@, list_schema(text_schema())),
            ("query"@, text_schema()),
        ]);
        assert(views(required@) =~= seq!["query"@]);
    }
    new_record_schema(required, properties)
}

/// The arguments of `grep`.
#[verifier::opaque]
pub open spec fn grep_schema() -> JsonView {
    record_schema(
        Seq::empty(),
        seq![
            (
                "path"@,
                described_text(
                    "Relative file or directory to search. Empty means current project."@
                ),
            ),
            ("queries"@, list_schema(text_schema())),
            ("query"@, text_schema()),
        ],
    )
}

/// The arguments of `grep`.
fn new_grep_schema() -> (r: Json)
    ensures
        r@ == grep_schema(),
{
    let properties = vec![
        (
            "path".to_owned(),
            new_described_text(
                "Relative file or directory to search. Empty means current project."
            ),
        ),
        ("queries".to_owned(), new_list_schema(new_text_schema())),
        ("query".to_owned(), new_text_schema()),
    ];
    let required: Vec<String> = Vec::new();
    proof {
        reveal(grep_schema);
        assert(members_view(properties@) =~= seq![
            (
                "path"@,
                described_text(
                    "Relative file or directory to search. Empty means current project."@
                ),
            ),
            ("queries"@, list_schema(text_schema())),
            ("query"@, text_schema()),
        ]);
        assert(views(required@) =~= Seq::empty());
    }
    new_record_schema(required, properties)
}

/// The arguments of `file_glob_v2`.
#[verifier::opaque]
pub open spec fn file_glob_v2_schema() -> JsonView {
    record_schema(
        seq!["patterns"@],
        seq![
            ("max_depth"@, integer_schema(0)),
            ("max_matches"@, integer_schema(0)),
            ("min_depth"@, integer_schema(0)),
            ("patterns"@, list_schema(text_schema())),
            (
                "search_dir"@,
                described_text("Relative directory to search. Empty means current project."@),
            ),
        ],
    )
}

/// The arguments of `file_glob_v2`.
fn new_file_glob_v2_schema() -> (r: Json)
    ensures
        r@ == file_glob_v2_schema(),
{
    let properties = vec![
        ("max_depth".to_owned(), new_integer_schema(0)),
        ("max_matches".to_owned(), new_integer_schema(0)),
        ("min_depth".to_owned(), new_integer_schema(0)),
        ("patterns".to_owned(), new_list_schema(new_text_schema())),
        (
            "search_dir".to_owned(),
            new_described_text("Relative directory to search. Empty means current project."),
        ),
    ];
    let required: Vec<String> = vec!["patterns".to_owned()];
    proof {
        reveal(file_glob_v2_schema);
        assert(members_view(properties@) =~= seq![
            ("max_depth"@, integer_schema(0)),
            ("max_matches"@, integer_schema(0)),
            ("min_depth"@, integer_schema(0)),
            ("patterns"@, list_schema(text_schema())),
            (
                "search_dir"@,
                described_text("Relative directory to search. Empty means current project."@),
            ),
        ]);
        assert(views(required@) =~= seq!["patterns"@]);
    }
    new_record_schema(required, properties)
}

/// The arguments of `file_glob`.
#[verifier::opaque]
pub open spec fn file_glob_schema() -> JsonView {
    record_schema(
        seq!["patterns"@],
        seq![
            (
                "path"@,
                described_text("Relative directory to search. Empty means current project."@),
            ),
            ("patterns"@, list_schema(text_schema())),
        ],
    )
}

/// The arguments of `file_glob`.
fn new_file_glob_schema() -> (r: Json)
    ensures
        r@ == file_glob_schema(),
{
    let properties = vec![
        (
            "path".to_owned(),
            new_described_text("Relative directory to search. Empty means current project."),
        ),
        ("patterns".to_owned(), new_list_schema(new_text_schema())),
    ];
    let required: Vec<String> = vec!["patterns".to_owned()];
    proof {
        reveal(file_glob_schema);
        assert(members_view(properties@) =~= seq![
            (
                "path"@,
                described_text("Relative directory to search. Empty means current project."@),
            ),
            ("patterns"@, list_schema(text_schema())),
        ]);
        assert(views(required@) =~= seq!["patterns"@]);
    }
    new_record_schema(required, properties)
}

/// The arguments of `read_skill`.
#[verifier::opaque]
pub open spec fn read_skill_schema() -> JsonView {
    record_schema(
        Seq::empty(),
        seq![
            ("bundled_skill_id"@, text_schema()),
            ("name"@, text_schema()),
            ("skill_path"@, text_schema()),
        ],
    )
}

/// The arguments of `read_skill`.
fn new_read_skill_schema() -> (r: Json)
    ensures
        r@ == read_skill_schema(),
{
    let properties = vec![
        ("bundled_skill_id".to_owned(), new_text_schema()),
        ("name".to_owned(), new_text_schema()),
        ("skill_path".to_owned(), new_text_schema()),
    ];
    let required: Vec<String> = Vec::new();
    proof {
        reveal(read_skill_schema);
        assert(members_view(properties@) =~= seq![
            ("bundled_skill_id"@, text_schema()),
            ("name"@, text_schema()),
            ("skill_path"@, text_schema()),
        ]);
        assert(views(required@) =~= Seq::empty());
    }
    new_record_schema(required, properties)
}

/// The form of a question.
#[verifier::opaque]
pub open spec fn question_schema() -> JsonView {
    record_schema(
        seq!["question"@, "options"@],
        seq![
            ("is_multiselect"@, flag_schema(false)),
            ("options"@, list_schema(text_schema())),
            ("question"@, text_schema()),
            ("question_id"@, text_schema()),
            (
                "recommended_option_index"@,
                described_any_integer("Zero-based index. Use -1 for no recommendation."@),
            ),
            ("supports_other"@, flag_schema(false)),
        ],
    )
}

/// The form of a question.
fn new_question_schema() -> (r: Json)
    ensures
        r@ == question_schema(),
{
    let properties = vec![
        ("is_multiselect".to_owned(), new_flag_schema(false)),
        ("options".to_owned(), new_list_schema(new_text_schema())),
        ("question".to_owned(), new_text_schema()),
        ("question_id".to_owned(), new_text_schema()),
        (
            "recommended_option_index".to_owned(),
            new_described_any_integer("Zero-based index. Use -1 for no recommendation."),
        ),
        ("supports_other".to_owned(), new_flag_schema(false)),
    ];
    let required: Vec<String> = vec!["question".to_owned(), "options".to_owned()];
    proof {
        reveal(question_schema);
        assert(members_view(properties@) =~= seq![
            ("is_multiselect"@, flag_schema(false)),
            ("options"@, list_schema(text_schema())),
            ("question"@, text_schema()),
            ("question_id"@, text_schema()),
            (
                "recommended_option_index"@,
                described_any_integer("Zero-based index. Use -1 for no recommendation."@),
            ),
            ("supports_other"@, flag_schema(false)),
        ]);
        assert(views(required@) =~= seq!["question"@, "options"@]);
    }
    new_record_schema(required, properties)
}

/// The arguments of `ask_user_question`.
#[verifier::opaque]
pub open spec fn ask_user_question_schema() -> JsonView {
    record_schema(
        seq!["questions"@],
        seq![
            ("questions"@, list_schema(question_schema())),
        ],
    )
}

/// The arguments of `ask_user_question`.
fn new_ask_user_question_schema() -> (r: Json)
    ensures
        r@ == ask_user_question_schema(),
{
    let properties = vec![
        ("questions".to_owned(), new_list_schema(new_question_schema())),
    ];
    let required: Vec<String> = vec!["questions".to_owned()];
    proof {
        reveal(ask_user_question_schema);
        assert(members_view(properties@) =~= seq![
            ("questions"@, list_schema(question_schema())),
        ]);
        assert(views(required@) =~= seq!["questions"@]);
    }
    new_record_schema(required, properties)
}

/// The form of a file to delete.
#[verifier::opaque]
pub open spec fn deleted_file_schema() -> JsonView {
    record_schema(
        seq!["file_path"@],
        seq![
            ("file_path"@, text_schema()),
        ],
    )
}

/// The form of a file to delete.
fn new_deleted_file_schema() -> (r: Json)
    ensures
        r@ == deleted_file_schema(),
{
    let properties = vec![
        ("file_path".to_owned(), new_text_schema()),
    ];
    let required: Vec<String> = vec!["file_path".to_owned()];
    proof {
        reveal(deleted_file_schema);
        assert(members_view(properties@) =~= seq![
            ("file_path"@, text_schema()),
        ]);
        assert(views(required@) =~= seq!["file_path"@]);
    }
    new_record_schema(required, properties)
}

/// The form of a text to replace.
#[verifier::opaque]
pub open spec fn file_diff_schema() -> JsonView {
    record_schema(
        seq!["file_path"@, "search"@, "replace"@],
        seq![
            ("file_path"@, text_schema()),
            ("replace"@, text_schema()),
            ("search"@, text_schema()),
        ],
    )
}

/// The form of a text to replace.
fn new_file_diff_schema() -> (r: Json)
    ensures
        r@ == file_diff_schema(),
{
    let properties = vec![
        ("file_path".to_owned(), new_text_schema()),
        ("replace".to_owned(), new_text_schema()),
        ("search".to_owned(), new_text_schema()),
    ];
    let required: Vec<String> = vec![
        "file_path".to_owned(),
        "search".to_owned(),
        "replace".to_owned(),
    ];
    proof {
        reveal(file_diff_schema);
        assert(members_view(properties@) =~= seq![
            ("file_path"@, text_schema()),
            ("replace"@, text_schema()),
            ("search"@, text_schema()),
        ]);
        assert(views(required@) =~= seq!["file_path"@, "search"@, "replace"@]);
    }
    new_record_schema(required, properties)
}

/// The form of a file to create.
#[verifier::opaque]
pub open spec fn new_file_schema() -> JsonView {
    record_schema(
        seq!["file_path"@, "content"@],
        seq![
            ("content"@, text_schema()),
            ("file_path"@, text_schema()),
        ],
    )
}

/// The form of a file to create.
fn new_new_file_schema() -> (r: Json)
    ensures
        r@ == new_file_schema(),
{
    let properties = vec![
        ("content".to_owned(), new_text_schema()),
        ("file_path".to_owned(), new_text_schema()),
    ];
    let required: Vec<String> = vec!["file_path".to_owned(), "content".to_owned()];
    proof {
        reveal(new_file_schema);
        assert(members_view(properties@) =~= seq![
            ("content"@, text_schema()),
            ("file_path"@, text_schema()),
        ]);
        assert(views(required@) =~= seq!["file_path"@, "content"@]);
    }
    new_record_schema(required, properties)
}

/// The form of a change within a file.
#[verifier::opaque]
pub open spec fn hunk_schema() -> JsonView {
    record_schema(
        Seq::empty(),
        seq![
            ("change_context"@, list_schema(text_schema())),
            ("new"@, text_schema()),
            ("old"@, text_schema()),
            ("post_context"@, text_schema()),
            ("pre_context"@, text_schema()),
        ],
    )
}

/// The form of a change within a file.
fn new_hunk_schema() -> (r: Json)
    ensures
        r@ == hunk_schema(),
{
    let properties = vec![
        ("change_context".to_owned(), new_list_schema(new_text_schema())),
        ("new".to_owned(), new_text_schema()),
        ("old".to_owned(), new_text_schema()),
        ("post_context".to_owned(), new_text_schema()),
        ("pre_context".to_owned(), new_text_schema()),
    ];
    let required: Vec<String> = Vec::new();
    proof {
        reveal(hunk_schema);
        assert(members_view(properties@) =~= seq![
            ("change_context"@, list_schema(text_schema())),
            ("new"@, text_schema()),
            ("old"@, text_schema()),
            ("post_context"@, text_schema()),
            ("pre_context"@, text_schema()),
        ]);
        assert(views(required@) =~= Seq::empty());
    }
    new_record_schema(required, properties)
}

/// The form of changes to a file.
#[verifier::opaque]
pub open spec fn file_update_schema() -> JsonView {
    record_schema(
        seq!["file_path"@, "hunks"@],
        seq![
            ("file_path"@, text_schema()),
            ("hunks"@, list_schema(hunk_schema())),
            ("move_to"@, text_schema()),
        ],
    )
}

/// The form of changes to a file.
fn new_file_update_schema() -> (r: Json)
    ensures
        r@ == file_update_schema(),
{
    let properties = vec![
        ("file_path".to_owned(), new_text_schema()),
        ("hunks".to_owned(), new_list_schema(new_hunk_schema())),
        ("move_to".to_owned(), new_text_schema()),
    ];
    let required: Vec<String> = vec!["file_path".to_owned(), "hunks".to_owned()];
    proof {
        reveal(file_update_schema);
        assert(members_view(properties@) =~= seq![
            ("file_path"@, text_schema()),
            ("hunks"@, list_schema(hunk_schema())),
            ("move_to"@, text_schema()),
        ]);
        assert(views(required@) =~= seq!["file_path"@, "hunks"@]);
    }
    new_record_schema(required, properties)
}

/// The arguments of `apply_file_diffs`.
#[verifier::opaque]
pub open spec fn apply_file_diffs_schema() -> JsonView {
    record_schema(
        Seq::empty(),
        seq![
            ("deleted_files"@, list_schema(deleted_file_schema())),
            ("diffs"@, list_schema(file_diff_schema())),
            ("new_files"@, list_schema(new_file_schema())),
            ("summary"@, text_schema()),
            ("v4a_updates"@, list_schema(file_update_schema())),
        ],
    )
}

/// The arguments of `apply_file_diffs`.
fn new_apply_file_diffs_schema() -> (r: Json)
    ensures
        r@ == apply_file_diffs_schema(),
{
    let properties = vec![
        ("deleted_files".to_owned(), new_list_schema(new_deleted_file_schema())),
        ("diffs".to_owned(), new_list_schema(new_file_diff_schema())),
        ("new_files".to_owned(), new_list_schema(new_new_file_schema())),
        ("summary".to_owned(), new_text_schema()),
        ("v4a_updates".to_owned(), new_list_schema(new_file_update_schema())),
    ];
    let required: Vec<String> = Vec::new();
    proof {
        reveal(apply_file_diffs_schema);
        assert(members_view(properties@) =~= seq![
            ("deleted_files"@, list_schema(deleted_file_schema())),
            ("diffs"@, list_schema(file_diff_schema())),
            ("new_files"@, list_schema(new_file_schema())),
            ("summary"@, text_schema()),
            ("v4a_updates"@, list_schema(file_update_schema())),
        ]);
        assert(views(required@) =~= Seq::empty());
    }
    new_record_schema(required, properties)
}

/// The arguments of `suggest_prompt`.
#[verifier::opaque]
pub open spec fn suggest_prompt_schema() -> JsonView {
    record_schema(
        seq!["prompt"@],
        seq![
            (
                "description"@,
                described_text(
                    "Inline banner description. Only used for inline_query_banner mode."@
                ),
            ),
            ("is_trigger_irrelevant"@, flag_schema(false)),
            ("label"@, described_text("Short optional chip label shown to the user."@)),
            ("mode"@, choice_schema(seq!["prompt_chip"@, "inline_query_banner"@], "prompt_chip"@)),
            (
                "prompt"@,
                described_text("The Agent Mode query to run if the user accepts the suggestion."@),
            ),
            (
                "title"@,
                described_text("Inline banner title. Only used for inline_query_banner mode."@),
            ),
        ],
    )
}

/// The arguments of `suggest_prompt`.
fn new_suggest_prompt_schema() -> (r: Json)
    ensures
        r@ == suggest_prompt_schema(),
{
    let choices = vec!["prompt_chip".to_owned(), "inline_query_banner".to_owned()];
    assert(views(choices@) =~= seq!["prompt_chip"@, "inline_query_banner"@]);
    let properties = vec![
        (
            "description".to_owned(),
            new_described_text(
                "Inline banner description. Only used for inline_query_banner mode."
            ),
        ),
        ("is_trigger_irrelevant".to_owned(), new_flag_schema(false)),
        ("label".to_owned(), new_described_text("Short optional chip label shown to the user.")),
        ("mode".to_owned(), new_choice_schema(choices, "prompt_chip")),
        (
            "prompt".to_owned(),
            new_described_text("The Agent Mode query to run if the user accepts the suggestion."),
        ),
        (
            "title".to_owned(),
            new_described_text("Inline banner title. Only used for inline_query_banner mode."),
        ),
    ];
    let required: Vec<String> = vec!["prompt".to_owned()];
    proof {
        reveal(suggest_prompt_schema);
        assert(members_view(properties@) =~= seq![
            (
                "description"@,
                described_text(
                    "Inline banner description. Only used for inline_query_banner mode."@
                ),
            ),
            ("is_trigger_irrelevant"@, flag_schema(false)),
            ("label"@, described_text("Short optional chip label shown to the user."@)),
            ("mode"@, choice_schema(seq!["prompt_chip"@, "inline_query_banner"@], "prompt_chip"@)),
            (
                "prompt"@,
                described_text("The Agent Mode query to run if the user accepts the suggestion."@),
            ),
            (
                "title"@,
                described_text("Inline banner title. Only used for inline_query_banner mode."@),
            ),
        ]);
        assert(views(required@) =~= seq!["prompt"@]);
    }
    new_record_schema(required, properties)
}

/// The arguments of `suggest_rule`.
#[verifier::opaque]
pub open spec fn suggest_rule_schema() -> JsonView {
    record_schema(
        seq!["name"@, "content"@],
        seq![
            ("content"@, text_schema()),
            ("logging_id"@, described_text("Optional stable unique id for this suggestion."@)),
            ("name"@, text_schema()),
        ],
    )
}

/// The arguments of `suggest_rule`.
fn new_suggest_rule_schema() -> (r: Json)
    ensures
        r@ == suggest_rule_schema(),
{
    let properties = vec![
        ("content".to_owned(), new_text_schema()),
        (
            "logging_id".to_owned(),
            new_described_text("Optional stable unique id for this suggestion."),
        ),
        ("name".to_owned(), new_text_schema()),
    ];
    let required: Vec<String> = vec!["name".to_owned(), "content".to_owned()];
    proof {
        reveal(suggest_rule_schema);
        assert(members_view(properties@) =~= seq![
            ("content"@, text_schema()),
            ("logging_id"@, described_text("Optional stable unique id for this suggestion."@)),
            ("name"@, text_schema()),
        ]);
        assert(views(required@) =~= seq!["name"@, "content"@]);
    }
    new_record_schema(required, properties)
}

// ---------------------------------------------------------------------------------------------
// Tools
// ---------------------------------------------------------------------------------------------
/// A tool with its description and the schema of its arguments.
pub open spec fn function_tool(
    name: Seq<char>,
    description: Seq<char>,
    parameters: JsonView,
) -> OpenAIToolView {
    OpenAIToolView {
        kind: "function"@,
        function: OpenAIFunctionDefinitionView { name, description, parameters },
    }
}

fn new_function_tool(name: &str, description: &str, parameters: Json) -> (r: OpenAITool)
    ensures
        r@ == function_tool(name@, description@, parameters@),
{
    OpenAITool {
        kind: "function".to_owned(),
        function: OpenAIFunctionDefinition {
            name: name.to_owned(),
            description: description.to_owned(),
            parameters,
        },
    }
}

/// Whether the client of a request offers a tool: one that names no tools offers all of them.
pub open spec fn supports(request: RequestView, tool: ToolType) -> bool {
    match request.settings {
        Some(settings) => settings.supported_tools.len() == 0 || settings.supported_tools.contains(
            tool,
        ),
        None => true,
    }
}

/// Whether the client of a request offers a tool.
pub fn supports_tool(request: &Request, tool: ToolType) -> (r: bool)
    ensures
        r == supports(request@, tool),
{
    match &request.settings {
        Some(settings) => {
            if settings.supported_tools.len() == 0 {
                return true;
            }
            let mut i: usize = 0;
            while i < settings.supported_tools.len()
                invariant
                    i <= settings.supported_tools.len(),
                    request@.settings == Some(settings@),
                    forall|k: int| 0 <= k < i ==> settings.supported_tools@[k] != tool,
                decreases settings.supported_tools.len() - i,
            {
                if settings.supported_tools[i] == tool {
                    assert(settings.supported_tools@[i as int] == tool);
                    return true;
                }
                i += 1;
            }
            false
        },
        None => true,
    }
}

/// Whether a rule may be suggested: not in answer to a request for passive suggestions.
pub open spec fn offers_rule(request: RequestView) -> bool {
    !(request.input matches Some(input) && input.input_type
        == Some(InputTypeView::GeneratePassiveSuggestions))
}

/// Whether a rule may be suggested.
pub fn should_offer_suggest_rule(request: &Request) -> (r: bool)
    ensures
        r == offers_rule(request@),
{
    match &request.input {
        Some(input) => match &input.input_type {
            Some(InputType::GeneratePassiveSuggestions) => false,
            _ => true,
        },
        None => true,
    }
}

/// A tool, where it is offered.
pub open spec fn if_offered(offered: bool, tool: OpenAIToolView) -> Seq<OpenAIToolView> {
    if offered {
        seq![tool]
    } else {
        Seq::empty()
    }
}

/// The tool `run_shell_command`.
pub open spec fn run_shell_command_tool() -> OpenAIToolView {
    function_tool(
        "run_shell_command"@,
        "Ask Warp to run a shell command in the user's terminal."@,
        run_shell_command_schema(),
    )
}

/// The tool `read_shell_command_output`.
pub open spec fn read_shell_command_output_tool() -> OpenAIToolView {
    function_tool(
        "read_shell_command_output"@,
        "Read output from a long-running shell command that Warp is monitoring."@,
        read_shell_command_output_schema(),
    )
}

/// The tool `write_to_lrc`.
pub open spec fn write_to_lrc_tool() -> OpenAIToolView {
    function_tool(
        "write_to_lrc"@,
        "Write input to a long-running foreground command in Warp's terminal."@,
        write_to_lrc_schema(),
    )
}

/// The tool `transfer_shell_command_control`.
pub open spec fn transfer_shell_command_control_tool() -> OpenAIToolView {
    function_tool(
        "transfer_shell_command_control"@,
        "Transfer control of a running terminal command back to the user."@,
        transfer_shell_command_control_schema(),
    )
}

/// The tool `read_files`.
pub open spec fn read_files_tool() -> OpenAIToolView {
    function_tool(
        "read_files"@,
        "Ask Warp to read one or more local files, optionally limited to line ranges."@,
        read_files_schema(),
    )
}

/// The tool `search_codebase`.
pub open spec fn search_codebase_tool() -> OpenAIToolView {
    function_tool(
        "search_codebase"@,
        "Ask Warp to search the current indexed codebase for relevant file snippets."@,
        search_codebase_schema(),
    )
}

/// The tool `grep`.
pub open spec fn grep_tool() -> OpenAIToolView {
    function_tool(
        "grep"@,
        "Ask Warp to grep local files for one or more literal strings or regex patterns."@,
        grep_schema(),
    )
}

/// The tool `file_glob_v2`.
pub open spec fn file_glob_v2_tool() -> OpenAIToolView {
    function_tool(
        "file_glob_v2"@,
        "Ask Warp to find files by filename glob patterns."@,
        file_glob_v2_schema(),
    )
}

/// The tool `file_glob`.
pub open spec fn file_glob_tool() -> OpenAIToolView {
    function_tool(
        "file_glob"@,
        "Ask Warp to find files by filename glob patterns."@,
        file_glob_schema(),
    )
}

/// The tool `read_skill`.
pub open spec fn read_skill_tool() -> OpenAIToolView {
    function_tool(
        "read_skill"@,
        "Ask Warp to read a skill by local SKILL.md path or bundled skill id."@,
        read_skill_schema(),
    )
}

/// The tool `ask_user_question`.
pub open spec fn ask_user_question_tool() -> OpenAIToolView {
    function_tool(
        "ask_user_question"@,
        "Ask Warp to show one or more multiple-choice questions to the user."@,
        ask_user_question_schema(),
    )
}

/// The tool `apply_file_diffs`.
pub open spec fn apply_file_diffs_tool() -> OpenAIToolView {
    function_tool(
        "apply_file_diffs"@,
        "Ask Warp to apply file edits, creates, deletes, or V4A hunks."@,
        apply_file_diffs_schema(),
    )
}

/// The tool `suggest_prompt`.
pub open spec fn suggest_prompt_tool() -> OpenAIToolView {
    function_tool(
        "suggest_prompt"@,
        "Ask Warp to show a passive Agent Mode prompt suggestion."@,
        suggest_prompt_schema(),
    )
}

/// The tool `suggest_rule`.
pub open spec fn suggest_rule_tool() -> OpenAIToolView {
    function_tool(
        "suggest_rule"@,
        "Suggest a durable local WarpOCA rule for future agent runs. Use sparingly, only when a stable preference or project guideline was learned."@,
        suggest_rule_schema(),
    )
}

/// The tools that are offered in answer to a request.
pub open spec fn tool_definitions(request: RequestView) -> Seq<OpenAIToolView> {
    if_offered(supports(request, ToolType::RunShellCommand), run_shell_command_tool())
        + if_offered(
            supports(request, ToolType::ReadShellCommandOutput),
            read_shell_command_output_tool(),
        )
        + if_offered(
            supports(request, ToolType::WriteToLongRunningShellCommand),
            write_to_lrc_tool(),
        )
        + if_offered(
            supports(request, ToolType::TransferShellCommandControlToUser),
            transfer_shell_command_control_tool(),
        )
        + if_offered(supports(request, ToolType::ReadFiles), read_files_tool())
        + if_offered(supports(request, ToolType::SearchCodebase), search_codebase_tool())
        + if_offered(supports(request, ToolType::Grep), grep_tool())
        + if_offered(supports(request, ToolType::FileGlobV2), file_glob_v2_tool())
        + if_offered(
            !supports(request, ToolType::FileGlobV2) && supports(request, ToolType::FileGlob),
            file_glob_tool(),
        )
        + if_offered(supports(request, ToolType::ReadSkill), read_skill_tool())
        + if_offered(supports(request, ToolType::AskUserQuestion), ask_user_question_tool())
        + if_offered(supports(request, ToolType::ApplyFileDiffs), apply_file_diffs_tool())
        + if_offered(supports(request, ToolType::SuggestPrompt), suggest_prompt_tool())
        + if_offered(offers_rule(request), suggest_rule_tool())
}

/// Adds a tool, where it is offered.
fn offer(
    tools: &mut Vec<OpenAITool>,
    offered: bool,
    name: &str,
    description: &str,
    parameters: Json,
)
    ensures
        views(final(tools)@) == views(old(tools)@) + if_offered(
            offered,
            function_tool(name@, description@, parameters@),
        ),
{
    let ghost before = views(tools@);
    if offered {
        tools.push(new_function_tool(name, description, parameters));
    }
    assert(views(tools@) =~= before + if_offered(
        offered,
        function_tool(name@, description@, parameters@),
    ));
}

/// The tools that are offered in answer to a request.
pub fn build_tool_definitions(request: &Request) -> (r: Vec<OpenAITool>)
    ensures
        views(r@) == tool_definitions(request@),
{
    let mut tools: Vec<OpenAITool> = Vec::new();
    offer(
        &mut tools,
        supports_tool(request, ToolType::RunShellCommand),
        "run_shell_command",
        "Ask Warp to run a shell command in the user's terminal.",
        new_run_shell_command_schema(),
    );
    assert(
        views(tools@) =~= if_offered(
            supports(request@, ToolType::RunShellCommand),
            run_shell_command_tool(),
        )
    );
    offer(
        &mut tools,
        supports_tool(request, ToolType::ReadShellCommandOutput),
        "read_shell_command_output",
        "Read output from a long-running shell command that Warp is monitoring.",
        new_read_shell_command_output_schema(),
    );
    offer(
        &mut tools,
        supports_tool(request, ToolType::WriteToLongRunningShellCommand),
        "write_to_lrc",
        "Write input to a long-running foreground command in Warp's terminal.",
        new_write_to_lrc_schema(),
    );
    offer(
        &mut tools,
        supports_tool(request, ToolType::TransferShellCommandControlToUser),
        "transfer_shell_command_control",
        "Transfer control of a running terminal command back to the user.",
        new_transfer_shell_command_control_schema(),
    );
    offer(
        &mut tools,
        supports_tool(request, ToolType::ReadFiles),
        "read_files",
        "Ask Warp to read one or more local files, optionally limited to line ranges.",
        new_read_files_schema(),
    );
    offer(
        &mut tools,
        supports_tool(request, ToolType::SearchCodebase),
        "search_codebase",
        "Ask Warp to search the current indexed codebase for relevant file snippets.",
        new_search_codebase_schema(),
    );
    offer(
        &mut tools,
        supports_tool(request, ToolType::Grep),
        "grep",
        "Ask Warp to grep local files for one or more literal strings or regex patterns.",
        new_grep_schema(),
    );
    offer(
        &mut tools,
        supports_tool(request, ToolType::FileGlobV2),
        "file_glob_v2",
        "Ask Warp to find files by filename glob patterns.",
        new_file_glob_v2_schema(),
    );
    offer(
        &mut tools,
        !supports_tool(request, ToolType::FileGlobV2) && supports_tool(request, ToolType::FileGlob),
        "file_glob",
        "Ask Warp to find files by filename glob patterns.",
        new_file_glob_schema(),
    );
    offer(
        &mut tools,
        supports_tool(request, ToolType::ReadSkill),
        "read_skill",
        "Ask Warp to read a skill by local SKILL.md path or bundled skill id.",
        new_read_skill_schema(),
    );
    offer(
        &mut tools,
        supports_tool(request, ToolType::AskUserQuestion),
        "ask_user_question",
        "Ask Warp to show one or more multiple-choice questions to the user.",
        new_ask_user_question_schema(),
    );
    offer(
        &mut tools,
        supports_tool(request, ToolType::ApplyFileDiffs),
        "apply_file_diffs",
        "Ask Warp to apply file edits, creates, deletes, or V4A hunks.",
        new_apply_file_diffs_schema(),
    );
    offer(
        &mut tools,
        supports_tool(request, ToolType::SuggestPrompt),
        "suggest_prompt",
        "Ask Warp to show a passive Agent Mode prompt suggestion.",
        new_suggest_prompt_schema(),
    );
    offer(
        &mut tools,
        should_offer_suggest_rule(request),
        "suggest_rule",
        "Suggest a durable local WarpOCA rule for future agent runs. Use sparingly, only when a stable preference or project guideline was learned.",
        new_suggest_rule_schema(),
    );
    tools
}

/// Whether a tool is known: an error in its arguments is reported as it is.
#[verifier::opaque]
pub open spec fn known_tool(name: Seq<char>) -> bool {
    forall|id: Option<Seq<char>>, message: Seq<char>|
        #[trigger] output_of(
            Some(name),
            id,
            Err(message),
        ) == Err::<WarpClientOutputView, Seq<char>>(
            message,
        )
}

/// Whether all of the tools are known.
#[verifier::opaque]
pub open spec fn all_known(tools: Seq<OpenAIToolView>) -> bool {
    forall|k: int| 0 <= k < tools.len() ==> known_tool((#[trigger] tools[k]).function.name)
}

proof fn lemma_one_more_is_known(tools: Seq<OpenAIToolView>, offered: bool, tool: OpenAIToolView)
    requires
        all_known(tools),
        known_tool(tool.function.name),
    ensures
        all_known(tools + if_offered(offered, tool)),
{
    reveal(all_known);
}

/// Every tool that is offered is known, so that a call of it is understood.
pub proof fn lemma_offered_tools_are_known(request: RequestView)
    ensures
        all_known(tool_definitions(request)),
{
    lemma_known("run_shell_command"@);
    let tools = Seq::<OpenAIToolView>::empty();
    assert(all_known(tools)) by {
        reveal(all_known);
    }
    lemma_one_more_is_known(
        tools,
        supports(request, ToolType::RunShellCommand),
        run_shell_command_tool(),
    );
    assert(
        tools + if_offered(
            supports(request, ToolType::RunShellCommand),
            run_shell_command_tool(),
        ) =~= if_offered(supports(request, ToolType::RunShellCommand), run_shell_command_tool())
    );
    let tools = if_offered(supports(request, ToolType::RunShellCommand), run_shell_command_tool());
    lemma_known("read_shell_command_output"@);
    lemma_one_more_is_known(
        tools,
        supports(request, ToolType::ReadShellCommandOutput),
        read_shell_command_output_tool(),
    );
    let tools = tools + if_offered(
        supports(request, ToolType::ReadShellCommandOutput),
        read_shell_command_output_tool(),
    );
    lemma_known("write_to_lrc"@);
    lemma_one_more_is_known(
        tools,
        supports(request, ToolType::WriteToLongRunningShellCommand),
        write_to_lrc_tool(),
    );
    let tools = tools + if_offered(
        supports(request, ToolType::WriteToLongRunningShellCommand),
        write_to_lrc_tool(),
    );
    lemma_known("transfer_shell_command_control"@);
    lemma_one_more_is_known(
        tools,
        supports(request, ToolType::TransferShellCommandControlToUser),
        transfer_shell_command_control_tool(),
    );
    let tools = tools + if_offered(
        supports(request, ToolType::TransferShellCommandControlToUser),
        transfer_shell_command_control_tool(),
    );
    lemma_known("read_files"@);
    lemma_one_more_is_known(tools, supports(request, ToolType::ReadFiles), read_files_tool());
    let tools = tools + if_offered(supports(request, ToolType::ReadFiles), read_files_tool());
    lemma_known("search_codebase"@);
    lemma_one_more_is_known(
        tools,
        supports(request, ToolType::SearchCodebase),
        search_codebase_tool(),
    );
    let tools = tools + if_offered(
        supports(request, ToolType::SearchCodebase),
        search_codebase_tool(),
    );
    lemma_known("grep"@);
    lemma_one_more_is_known(tools, supports(request, ToolType::Grep), grep_tool());
    let tools = tools + if_offered(supports(request, ToolType::Grep), grep_tool());
    lemma_known("file_glob_v2"@);
    lemma_one_more_is_known(tools, supports(request, ToolType::FileGlobV2), file_glob_v2_tool());
    let tools = tools + if_offered(supports(request, ToolType::FileGlobV2), file_glob_v2_tool());
    lemma_known("file_glob"@);
    lemma_one_more_is_known(
        tools,
        !supports(request, ToolType::FileGlobV2) && supports(request, ToolType::FileGlob),
        file_glob_tool(),
    );
    let tools = tools + if_offered(
        !supports(request, ToolType::FileGlobV2) && supports(request, ToolType::FileGlob),
        file_glob_tool(),
    );
    lemma_known("read_skill"@);
    lemma_one_more_is_known(tools, supports(request, ToolType::ReadSkill), read_skill_tool());
    let tools = tools + if_offered(supports(request, ToolType::ReadSkill), read_skill_tool());
    lemma_known("ask_user_question"@);
    lemma_one_more_is_known(
        tools,
        supports(request, ToolType::AskUserQuestion),
        ask_user_question_tool(),
    );
    let tools = tools + if_offered(
        supports(request, ToolType::AskUserQuestion),
        ask_user_question_tool(),
    );
    lemma_known("apply_file_diffs"@);
    lemma_one_more_is_known(
        tools,
        supports(request, ToolType::ApplyFileDiffs),
        apply_file_diffs_tool(),
    );
    let tools = tools + if_offered(
        supports(request, ToolType::ApplyFileDiffs),
        apply_file_diffs_tool(),
    );
    lemma_known("suggest_prompt"@);
    lemma_one_more_is_known(
        tools,
        supports(request, ToolType::SuggestPrompt),
        suggest_prompt_tool(),
    );
    let tools = tools + if_offered(
        supports(request, ToolType::SuggestPrompt),
        suggest_prompt_tool(),
    );
    lemma_known("suggest_rule"@);
    lemma_one_more_is_known(tools, offers_rule(request), suggest_rule_tool());
    let tools = tools + if_offered(offers_rule(request), suggest_rule_tool());
}

/// A tool of one of these names is known.
proof fn lemma_known(name: Seq<char>)
    requires
        name == "run_shell_command"@
            || name == "read_shell_command_output"@
            || name == "write_to_lrc"@
            || name == "transfer_shell_command_control"@
            || name == "read_files"@
            || name == "search_codebase"@
            || name == "grep"@
            || name == "file_glob_v2"@
            || name == "file_glob"@
            || name == "read_skill"@
            || name == "ask_user_question"@
            || name == "apply_file_diffs"@
            || name == "suggest_prompt"@
            || name == "suggest_rule"@,
    ensures
        known_tool(name),
{
    reveal(known_tool);
}

} // verus!
