//! The smaller questions that the client asks, and the prompts with which they are put to a
//! backend.
use crate::chat::{
    fresh_call_ids, input_of_messages, messages_items, paired_items, responses_tools,
    system_message, user_message, OpenAIChatMessage, OpenAIChatRequest, OpenAIChatRequestView,
    OpenAIResponsesRequest, OpenAIResponsesRequestView,
};
use crate::config::{Config, ConfigView, WireApi, DEFAULT_MODEL};
use crate::history::{build_chat_request, chat_request};
use crate::json::{json_text, lemma_last_member_counts, Json, JsonView};
use crate::lists::last_of;
use crate::record::{
    decoded, defaulted, field_of, i32_at, i32_field, is_record, list_value, opt_json_at,
    opt_json_field, opt_text_at, opt_text_field, record, text_at, text_field, text_or_empty_at,
    text_or_empty_field, texts_or_empty_at, texts_or_empty_field,
};
use crate::text::{
    blank, decimal, decimal_of, is_blank, lemma_cutting_twice, opt_view, truncate, truncated, views,
    views_opt,
};
use crate::warp::Request;
use crate::asked::{counts, listed, lists_texts, said, text_if_any};
use vstd::prelude::*;

verus! {

// ---------------------------------------------------------------------------------------------
// Questions of the client
// ---------------------------------------------------------------------------------------------
/// A message of the context: a text, or a value.
#[derive(Debug)]
pub enum ContextMessagePayload {
    Text(String),
    Object(Json),
}

/// The model of [`ContextMessagePayload`].
#[verifier::ext_equal]
pub enum ContextMessagePayloadView {
    Text(Seq<char>),
    Object(JsonView),
}

impl View for ContextMessagePayload {
    type V = ContextMessagePayloadView;

    open spec fn view(&self) -> ContextMessagePayloadView {
        match self {
            ContextMessagePayload::Text(x) => ContextMessagePayloadView::Text(x@),
            ContextMessagePayload::Object(x) => ContextMessagePayloadView::Object(x@),
        }
    }
}

/// A message of the context.
pub open spec fn context_message_payload(json: JsonView) -> Option<ContextMessagePayloadView> {
    match json {
        JsonView::Str(text) => Some(ContextMessagePayloadView::Text(text)),
        value => Some(ContextMessagePayloadView::Object(value)),
    }
}

impl ContextMessagePayload {
    /// Decodes a message of the context.
    pub fn from_json(json: &Json) -> (r: Option<Self>)
        ensures
            opt_view(r) == context_message_payload(json@),
    {
        match json {
            Json::Str(text) => Some(ContextMessagePayload::Text(text.clone())),
            value => Some(ContextMessagePayload::Object(value.copy())),
        }
    }
}

/// What a JSON value says as a list of [`ContextMessagePayload`].
pub open spec fn context_message_payload_list(
    json: JsonView
) -> Option<Seq<ContextMessagePayloadView>> {
    list_value(json, |item: JsonView| context_message_payload(item))
}

/// Decodes a list of records.
fn read_context_message_payload_list(json: &Json) -> (r: Option<Vec<ContextMessagePayload>>)
    ensures
        views_opt(r) == context_message_payload_list(json@),
{
    match json.as_array() {
        Some(items) => {
            let ghost models = views(items@);
            let mut r: Vec<ContextMessagePayload> = Vec::new();
            let mut i: usize = 0;
            while i < items.len()
                invariant
                    i <= items.len(),
                    models == views(items@),
                    json@ == JsonView::Array(models),
                    r.len() == i,
                    forall|k: int|
                        0 <= k < i ==>
                            (#[trigger] context_message_payload(models[k])) == Some(r@[k]@),
                decreases items.len() - i,
            {
                match ContextMessagePayload::from_json(&items[i]) {
                    Some(v) => {
                        assert(context_message_payload(models[i as int]) == Some(v@));
                        r.push(v);
                    },
                    None => {
                        let ghost decode = |item: JsonView| context_message_payload(item);
                        assert(decode(models[i as int]) is None);
                        return None;
                    },
                }
                i += 1;
            }
            assert(context_message_payload_list(json@)->0 =~= views(r@));
            Some(r)
        },
        None => None,
    }
}

/// A question for the next command.
#[derive(Debug)]
pub struct GenerateAIInputSuggestionsRequest {
    pub context_messages: Vec<ContextMessagePayload>,
    pub history_context: String,
    pub system_context: Option<String>,
    pub rejected_suggestions: Vec<String>,
    pub prefix: Option<String>,
    pub block_context: Option<Json>,
    pub previous_result: Option<Json>,
}

/// The model of [`GenerateAIInputSuggestionsRequest`].
#[verifier::ext_equal]
pub struct GenerateAIInputSuggestionsRequestView {
    pub context_messages: Seq<ContextMessagePayloadView>,
    pub history_context: Seq<char>,
    pub system_context: Option<Seq<char>>,
    pub rejected_suggestions: Seq<Seq<char>>,
    pub prefix: Option<Seq<char>>,
    pub block_context: Option<JsonView>,
    pub previous_result: Option<JsonView>,
}

impl View for GenerateAIInputSuggestionsRequest {
    type V = GenerateAIInputSuggestionsRequestView;

    open spec fn view(&self) -> GenerateAIInputSuggestionsRequestView {
        GenerateAIInputSuggestionsRequestView {
            context_messages: views(self.context_messages@),
            history_context: self.history_context@,
            system_context: opt_view(self.system_context),
            rejected_suggestions: views(self.rejected_suggestions@),
            prefix: opt_view(self.prefix),
            block_context: opt_view(self.block_context),
            previous_result: opt_view(self.previous_result),
        }
    }
}

/// What a JSON value says as [`GenerateAIInputSuggestionsRequest`].
pub open spec fn input_suggestions_request(
    json: JsonView
) -> Option<GenerateAIInputSuggestionsRequestView> {
    if !record(json, 7) {
        None
    } else {
        match (
            defaulted(
                json,
                0,
                "context_messages"@,
                |v: JsonView| context_message_payload_list(v),
                Seq::empty(),
            ),
            text_or_empty_field(json, 1, "history_context"@),
            opt_text_field(json, 2, "system_context"@),
            texts_or_empty_field(json, 3, "rejected_suggestions"@),
            opt_text_field(json, 4, "prefix"@),
            opt_json_field(json, 5, "block_context"@),
            opt_json_field(json, 6, "previous_result"@),
        ) {
            (
                Some(context_messages),
                Some(history_context),
                Some(system_context),
                Some(rejected_suggestions),
                Some(prefix),
                Some(block_context),
                Some(previous_result),
            ) => Some(
                GenerateAIInputSuggestionsRequestView {
                    context_messages,
                    history_context,
                    system_context,
                    rejected_suggestions,
                    prefix,
                    block_context,
                    previous_result,
                },
            ),
            _ => None,
        }
    }
}

impl GenerateAIInputSuggestionsRequest {
    /// Decodes the record.
    pub fn from_json(json: &Json) -> (r: Option<Self>)
        ensures
            opt_view(r) == input_suggestions_request(json@),
    {
        if !is_record(json, 7) {
            return None;
        }
        let context_messages = match field_of(json, 0, "context_messages") {
            Some(value) => read_context_message_payload_list(value),
            None => Some(Vec::new()),
        };
        let context_messages = match context_messages {
            Some(v) => v,
            None => {
                return None;
            },
        };
        let history_context = match text_or_empty_at(json, 1, "history_context") {
            Some(v) => v,
            None => {
                return None;
            },
        };
        let system_context = match opt_text_at(json, 2, "system_context") {
            Some(v) => v,
            None => {
                return None;
            },
        };
        let rejected_suggestions = match texts_or_empty_at(json, 3, "rejected_suggestions") {
            Some(v) => v,
            None => {
                return None;
            },
        };
        let prefix = match opt_text_at(json, 4, "prefix") {
            Some(v) => v,
            None => {
                return None;
            },
        };
        let block_context = match opt_json_at(json, 5, "block_context") {
            Some(v) => v,
            None => {
                return None;
            },
        };
        let previous_result = match opt_json_at(json, 6, "previous_result") {
            Some(v) => v,
            None => {
                return None;
            },
        };
        Some(
            GenerateAIInputSuggestionsRequest {
                context_messages,
                history_context,
                system_context,
                rejected_suggestions,
                prefix,
                block_context,
                previous_result,
            }
        )
    }
}

/// A question for a query to the agent, after a command.
#[derive(Debug)]
pub struct GenerateAMQuerySuggestionsRequest {
    pub context_messages: Vec<ContextMessagePayload>,
    pub system_context: Option<String>,
    pub exit_code: i32,
}

/// The model of [`GenerateAMQuerySuggestionsRequest`].
#[verifier::ext_equal]
pub struct GenerateAMQuerySuggestionsRequestView {
    pub context_messages: Seq<ContextMessagePayloadView>,
    pub system_context: Option<Seq<char>>,
    pub exit_code: i32,
}

impl View for GenerateAMQuerySuggestionsRequest {
    type V = GenerateAMQuerySuggestionsRequestView;

    open spec fn view(&self) -> GenerateAMQuerySuggestionsRequestView {
        GenerateAMQuerySuggestionsRequestView {
            context_messages: views(self.context_messages@),
            system_context: opt_view(self.system_context),
            exit_code: self.exit_code,
        }
    }
}

/// What a JSON value says as [`GenerateAMQuerySuggestionsRequest`].
pub open spec fn am_query_suggestions_request(
    json: JsonView
) -> Option<GenerateAMQuerySuggestionsRequestView> {
    if !record(json, 3) {
        None
    } else {
        match (
            defaulted(
                json,
                0,
                "context_messages"@,
                |v: JsonView| context_message_payload_list(v),
                Seq::empty(),
            ),
            opt_text_field(json, 1, "system_context"@),
            i32_field(json, 2, "exit_code"@),
        ) {
            (Some(context_messages), Some(system_context), Some(exit_code)) => Some(
                GenerateAMQuerySuggestionsRequestView {
                    context_messages,
                    system_context,
                    exit_code,
                },
            ),
            _ => None,
        }
    }
}

impl GenerateAMQuerySuggestionsRequest {
    /// Decodes the record.
    pub fn from_json(json: &Json) -> (r: Option<Self>)
        ensures
            opt_view(r) == am_query_suggestions_request(json@),
    {
        if !is_record(json, 3) {
            return None;
        }
        let context_messages = match field_of(json, 0, "context_messages") {
            Some(value) => read_context_message_payload_list(value),
            None => Some(Vec::new()),
        };
        let context_messages = match context_messages {
            Some(v) => v,
            None => {
                return None;
            },
        };
        let system_context = match opt_text_at(json, 1, "system_context") {
            Some(v) => v,
            None => {
                return None;
            },
        };
        let exit_code = match i32_at(json, 2, "exit_code") {
            Some(v) => v,
            None => {
                return None;
            },
        };
        Some(GenerateAMQuerySuggestionsRequest { context_messages, system_context, exit_code })
    }
}

/// A question for the rest of a query to the agent.
#[derive(Debug)]
pub struct PredictAMQueriesRequest {
    pub context_messages: Vec<ContextMessagePayload>,
    pub partial_query: String,
    pub system_context: Option<String>,
}

/// The model of [`PredictAMQueriesRequest`].
#[verifier::ext_equal]
pub struct PredictAMQueriesRequestView {
    pub context_messages: Seq<ContextMessagePayloadView>,
    pub partial_query: Seq<char>,
    pub system_context: Option<Seq<char>>,
}

impl View for PredictAMQueriesRequest {
    type V = PredictAMQueriesRequestView;

    open spec fn view(&self) -> PredictAMQueriesRequestView {
        PredictAMQueriesRequestView {
            context_messages: views(self.context_messages@),
            partial_query: self.partial_query@,
            system_context: opt_view(self.system_context),
        }
    }
}

/// What a JSON value says as [`PredictAMQueriesRequest`].
pub open spec fn predict_am_queries_request(json: JsonView) -> Option<PredictAMQueriesRequestView> {
    if !record(json, 3) {
        None
    } else {
        match (
            defaulted(
                json,
                0,
                "context_messages"@,
                |v: JsonView| context_message_payload_list(v),
                Seq::empty(),
            ),
            text_field(json, 1, "partial_query"@),
            opt_text_field(json, 2, "system_context"@),
        ) {
            (Some(context_messages), Some(partial_query), Some(system_context)) => Some(
                PredictAMQueriesRequestView { context_messages, partial_query, system_context },
            ),
            _ => None,
        }
    }
}

impl PredictAMQueriesRequest {
    /// Decodes the record.
    pub fn from_json(json: &Json) -> (r: Option<Self>)
        ensures
            opt_view(r) == predict_am_queries_request(json@),
    {
        if !is_record(json, 3) {
            return None;
        }
        let context_messages = match field_of(json, 0, "context_messages") {
            Some(value) => read_context_message_payload_list(value),
            None => Some(Vec::new()),
        };
        let context_messages = match context_messages {
            Some(v) => v,
            None => {
                return None;
            },
        };
        let partial_query = match text_at(json, 1, "partial_query") {
            Some(v) => v,
            None => {
                return None;
            },
        };
        let system_context = match opt_text_at(json, 2, "system_context") {
            Some(v) => v,
            None => {
                return None;
            },
        };
        Some(PredictAMQueriesRequest { context_messages, partial_query, system_context })
    }
}

/// A file with the symbols in it.
#[derive(Debug)]
pub struct RelevantFileContext {
    pub path: String,
    pub symbols: String,
}

/// The model of [`RelevantFileContext`].
#[verifier::ext_equal]
pub struct RelevantFileContextView {
    pub path: Seq<char>,
    pub symbols: Seq<char>,
}

impl View for RelevantFileContext {
    type V = RelevantFileContextView;

    open spec fn view(&self) -> RelevantFileContextView {
        RelevantFileContextView {
            path: self.path@,
            symbols: self.symbols@,
        }
    }
}

/// What a JSON value says as [`RelevantFileContext`].
pub open spec fn relevant_file_context(json: JsonView) -> Option<RelevantFileContextView> {
    if !record(json, 2) {
        None
    } else {
        match (
            text_field(json, 0, "path"@),
            text_field(json, 1, "symbols"@),
        ) {
            (Some(path), Some(symbols)) => Some(
                RelevantFileContextView { path, symbols },
            ),
            _ => None,
        }
    }
}

impl RelevantFileContext {
    /// Decodes the record.
    pub fn from_json(json: &Json) -> (r: Option<Self>)
        ensures
            opt_view(r) == relevant_file_context(json@),
    {
        if !is_record(json, 2) {
            return None;
        }
        let path = match text_at(json, 0, "path") {
            Some(v) => v,
            None => {
                return None;
            },
        };
        let symbols = match text_at(json, 1, "symbols") {
            Some(v) => v,
            None => {
                return None;
            },
        };
        Some(RelevantFileContext { path, symbols })
    }
}

/// What a JSON value says as a list of [`RelevantFileContext`].
pub open spec fn relevant_file_context_list(
    json: JsonView
) -> Option<Seq<RelevantFileContextView>> {
    list_value(json, |item: JsonView| relevant_file_context(item))
}

/// Decodes a list of records.
fn read_relevant_file_context_list(json: &Json) -> (r: Option<Vec<RelevantFileContext>>)
    ensures
        views_opt(r) == relevant_file_context_list(json@),
{
    match json.as_array() {
        Some(items) => {
            let ghost models = views(items@);
            let mut r: Vec<RelevantFileContext> = Vec::new();
            let mut i: usize = 0;
            while i < items.len()
                invariant
                    i <= items.len(),
                    models == views(items@),
                    json@ == JsonView::Array(models),
                    r.len() == i,
                    forall|k: int|
                        0 <= k < i ==>
                            (#[trigger] relevant_file_context(models[k])) == Some(r@[k]@),
                decreases items.len() - i,
            {
                match RelevantFileContext::from_json(&items[i]) {
                    Some(v) => {
                        assert(relevant_file_context(models[i as int]) == Some(v@));
                        r.push(v);
                    },
                    None => {
                        let ghost decode = |item: JsonView| relevant_file_context(item);
                        assert(decode(models[i as int]) is None);
                        return None;
                    },
                }
                i += 1;
            }
            assert(relevant_file_context_list(json@)->0 =~= views(r@));
            Some(r)
        },
        None => None,
    }
}

/// A question for the files that matter to a query.
#[derive(Debug)]
pub struct GetRelevantFilesRequest {
    pub query: String,
    pub files: Vec<RelevantFileContext>,
}

/// The model of [`GetRelevantFilesRequest`].
#[verifier::ext_equal]
pub struct GetRelevantFilesRequestView {
    pub query: Seq<char>,
    pub files: Seq<RelevantFileContextView>,
}

impl View for GetRelevantFilesRequest {
    type V = GetRelevantFilesRequestView;

    open spec fn view(&self) -> GetRelevantFilesRequestView {
        GetRelevantFilesRequestView {
            query: self.query@,
            files: views(self.files@),
        }
    }
}

/// What a JSON value says as [`GetRelevantFilesRequest`].
pub open spec fn relevant_files_request(json: JsonView) -> Option<GetRelevantFilesRequestView> {
    if !record(json, 2) {
        None
    } else {
        match (
            text_field(json, 0, "query"@),
            defaulted(json, 1, "files"@, |v: JsonView| relevant_file_context_list(v), Seq::empty()),
        ) {
            (Some(query), Some(files)) => Some(
                GetRelevantFilesRequestView { query, files },
            ),
            _ => None,
        }
    }
}

impl GetRelevantFilesRequest {
    /// Decodes the record.
    pub fn from_json(json: &Json) -> (r: Option<Self>)
        ensures
            opt_view(r) == relevant_files_request(json@),
    {
        if !is_record(json, 2) {
            return None;
        }
        let query = match text_at(json, 0, "query") {
            Some(v) => v,
            None => {
                return None;
            },
        };
        let files = match field_of(json, 1, "files") {
            Some(value) => read_relevant_file_context_list(value),
            None => Some(Vec::new()),
        };
        let files = match files {
            Some(v) => v,
            None => {
                return None;
            },
        };
        Some(GetRelevantFilesRequest { query, files })
    }
}

/// A question for the title of a command and its output.
#[derive(Debug)]
pub struct GenerateBlockTitleRequest {
    pub command: String,
    pub output: String,
}

/// The model of [`GenerateBlockTitleRequest`].
#[verifier::ext_equal]
pub struct GenerateBlockTitleRequestView {
    pub command: Seq<char>,
    pub output: Seq<char>,
}

impl View for GenerateBlockTitleRequest {
    type V = GenerateBlockTitleRequestView;

    open spec fn view(&self) -> GenerateBlockTitleRequestView {
        GenerateBlockTitleRequestView {
            command: self.command@,
            output: self.output@,
        }
    }
}

/// What a JSON value says as [`GenerateBlockTitleRequest`].
pub open spec fn block_title_request(json: JsonView) -> Option<GenerateBlockTitleRequestView> {
    if !record(json, 2) {
        None
    } else {
        match (
            text_field(json, 0, "command"@),
            text_field(json, 1, "output"@),
        ) {
            (Some(command), Some(output)) => Some(
                GenerateBlockTitleRequestView { command, output },
            ),
            _ => None,
        }
    }
}

impl GenerateBlockTitleRequest {
    /// Decodes the record.
    pub fn from_json(json: &Json) -> (r: Option<Self>)
        ensures
            opt_view(r) == block_title_request(json@),
    {
        if !is_record(json, 2) {
            return None;
        }
        let command = match text_at(json, 0, "command") {
            Some(v) => v,
            None => {
                return None;
            },
        };
        let output = match text_at(json, 1, "output") {
            Some(v) => v,
            None => {
                return None;
            },
        };
        Some(GenerateBlockTitleRequest { command, output })
    }
}

// ---------------------------------------------------------------------------------------------
// Prompts
// ---------------------------------------------------------------------------------------------
/// How the model is to predict the next command.
pub const NEXT_COMMAND_SYSTEM_PROMPT: &'static str =
    "You predict the next shell command for Warp terminal. Return JSON only, with this exact shape: {\"commands\":[\"command\"],\"ai_queries\":[],\"most_likely_action\":\"command\"}. The command must be a single shell input line, with no markdown, no leading prompt symbol, and no explanation. If no useful next command is likely, return {\"commands\":[],\"ai_queries\":[],\"most_likely_action\":\"\"}.";

/// How the model is to predict the next command.
pub fn next_command_system_prompt() -> (r: &'static str)
    ensures
        r@ == NEXT_COMMAND_SYSTEM_PROMPT@,
{
    NEXT_COMMAND_SYSTEM_PROMPT
}

/// How the model is to suggest a query to the agent.
pub const AGENT_MODE_SUGGESTION_SYSTEM_PROMPT: &'static str =
    "You suggest a useful follow-up Agent Mode query after a terminal command finishes. Return JSON only with this exact shape: {\"query\":\"short user-facing request\",\"should_plan_task\":false}. If there is no useful suggestion, return {\"query\":\"\",\"should_plan_task\":false}. Do not include markdown or explanations.";

/// How the model is to suggest a query to the agent.
pub fn agent_mode_suggestion_system_prompt() -> (r: &'static str)
    ensures
        r@ == AGENT_MODE_SUGGESTION_SYSTEM_PROMPT@,
{
    AGENT_MODE_SUGGESTION_SYSTEM_PROMPT
}

/// How the model is to complete a query to the agent.
pub const PREDICT_QUERY_SYSTEM_PROMPT: &'static str =
    "Complete the user's partial Agent Mode query for a terminal assistant. Return only the completed query text. No markdown, no JSON, no explanation.";

/// How the model is to find a title.
pub const BLOCK_TITLE_SYSTEM_PROMPT: &'static str =
    "Generate a concise terminal block title. Return only the title text. No quotes, no markdown, no trailing punctuation unless it is part of a command.";

/// A message of the context as text.
pub open spec fn payload_text(message: ContextMessagePayloadView) -> Seq<char> {
    match message {
        ContextMessagePayloadView::Text(text) => text,
        ContextMessagePayloadView::Object(value) => json_text(value),
    }
}

/// A message of the context as text.
pub fn context_message_payload_to_string(message: &ContextMessagePayload) -> (r: String)
    ensures
        r@ == payload_text(message@),
{
    match message {
        ContextMessagePayload::Text(text) => text.clone(),
        ContextMessagePayload::Object(value) => value.to_text(),
    }
}

/// Messages of the context, each cut to a length and ended by a line break.
pub open spec fn message_lines(messages: Seq<ContextMessagePayloadView>, max: int) -> Seq<char>
    decreases messages.len(),
{
    if messages.len() == 0 {
        Seq::empty()
    } else {
        message_lines(messages.drop_last(), max) + truncated(payload_text(messages.last()), max)
            + "\n"@
    }
}

/// The last messages of the context, each cut to a length and ended by a line break.
fn format_messages(messages: &Vec<ContextMessagePayload>, count: usize, max: usize) -> (r: String)
    ensures
        r@ == message_lines(last_of(views(messages@), count as int), max as int),
{
    let from: usize = if messages.len() > count {
        messages.len() - count
    } else {
        0
    };
    let ghost shown = last_of(views(messages@), count as int);
    assert(shown =~= views(messages@).skip(from as int));
    let mut text = String::new();
    let mut i: usize = from;
    assert(shown.take(0) == Seq::<ContextMessagePayloadView>::empty());
    while i < messages.len()
        invariant
            from <= i <= messages.len(),
            shown == views(messages@).skip(from as int),
            text@ == message_lines(shown.take(i - from), max as int),
        decreases messages.len() - i,
    {
        assert(shown.take(i - from + 1).drop_last() == shown.take(i - from));
        assert(shown[i - from] == messages@[i as int]@);
        let message = context_message_payload_to_string(&messages[i]);
        let message = truncate(message.as_str(), max);
        text.append(message.as_str());
        text.append("\n");
        i += 1;
    }
    assert(shown.take(shown.len() as int) == shown);
    text
}

/// What the system says of itself, unless that is empty.
pub open spec fn system_part(system_context: Option<Seq<char>>) -> Seq<char> {
    match system_context {
        Some(context) => if context.len() == 0 {
            Seq::empty()
        } else {
            "System context:\n"@ + truncated(context, 3000) + "\n\n"@
        },
        None => Seq::empty(),
    }
}

/// What the system says of itself.
fn format_system_part(system_context: &Option<String>) -> (r: String)
    ensures
        r@ == system_part(opt_view(*system_context)),
{
    match system_context {
        Some(context) => if context.as_str().is_empty() {
            String::new()
        } else {
            let mut text = "System context:\n".to_owned();
            let shown = truncate(context.as_str(), 3000);
            text.append(shown.as_str());
            text.append("\n\n");
            text
        },
        None => String::new(),
    }
}

/// Rejected suggestions, one in a line.
pub open spec fn rejected_lines(rejected: Seq<Seq<char>>) -> Seq<char>
    decreases rejected.len(),
{
    if rejected.len() == 0 {
        Seq::empty()
    } else {
        rejected_lines(rejected.drop_last()) + "- "@ + rejected.last() + "\n"@
    }
}

/// The suggestions that the user has rejected, where there are any.
pub open spec fn rejected_part(rejected: Seq<Seq<char>>) -> Seq<char> {
    if rejected.len() == 0 {
        Seq::empty()
    } else {
        "Do not return these rejected suggestions:\n"@ + rejected_lines(rejected) + "\n"@
    }
}

/// The suggestions that the user has rejected.
fn format_rejected_part(rejected: &Vec<String>) -> (r: String)
    ensures
        r@ == rejected_part(views(rejected@)),
{
    if rejected.len() == 0 {
        return String::new();
    }
    let ghost all = views(rejected@);
    let mut lines = String::new();
    let mut i: usize = 0;
    while i < rejected.len()
        invariant
            i <= rejected.len(),
            all == views(rejected@),
            lines@ == rejected_lines(all.take(i as int)),
        decreases rejected.len() - i,
    {
        assert(all.take(i + 1).drop_last() == all.take(i as int));
        lines.append("- ");
        lines.append(rejected[i].as_str());
        lines.append("\n");
        i += 1;
    }
    assert(all.take(all.len() as int) == all);
    let mut text = "Do not return these rejected suggestions:\n".to_owned();
    text.append(lines.as_str());
    text.append("\n");
    text
}

/// What the user has typed, unless that is empty.
pub open spec fn prefix_part(prefix: Option<Seq<char>>) -> Seq<char> {
    match prefix {
        Some(prefix) => if prefix.len() == 0 {
            Seq::empty()
        } else {
            "User has already typed this prefix. Any command must start with it:\n"@ + prefix
                + "\n\n"@
        },
        None => Seq::empty(),
    }
}

/// What the user has typed.
fn format_prefix_part(prefix: &Option<String>) -> (r: String)
    ensures
        r@ == prefix_part(opt_view(*prefix)),
{
    match prefix {
        Some(prefix) => if prefix.as_str().is_empty() {
            String::new()
        } else {
            let mut text =
                "User has already typed this prefix. Any command must start with it:\n".to_owned();
            text.append(prefix.as_str());
            text.append("\n\n");
            text
        },
        None => String::new(),
    }
}

/// The history of the shell, unless that is blank.
pub open spec fn history_part(history: Seq<char>) -> Seq<char> {
    if blank(history) {
        Seq::empty()
    } else {
        "Relevant shell history:\n"@ + truncated(history, 5000) + "\n\n"@
    }
}

/// The history of the shell.
fn format_history_part(history: &str) -> (r: String)
    ensures
        r@ == history_part(history@),
{
    if is_blank(history) {
        String::new()
    } else {
        let mut text = "Relevant shell history:\n".to_owned();
        let shown = truncate(history, 5000);
        text.append(shown.as_str());
        text.append("\n\n");
        text
    }
}

/// A value with a label, where there is one.
pub open spec fn value_part(label: Seq<char>, value: Option<JsonView>, max: int) -> Seq<char> {
    match value {
        Some(value) => label + truncated(json_text(value), max),
        None => Seq::empty(),
    }
}

/// A value with a label.
fn format_value_part(label: &str, value: &Option<Json>, max: usize) -> (r: String)
    ensures
        r@ == value_part(label@, opt_view(*value), max as int),
{
    match value {
        Some(value) => {
            let mut text = label.to_owned();
            let shown = truncate(value.to_text().as_str(), max);
            text.append(shown.as_str());
            text
        },
        None => String::new(),
    }
}

/// The prompt for the next command.
pub open spec fn input_suggestion_prompt(
    request: GenerateAIInputSuggestionsRequestView
) -> Seq<char> {
    prefix_part(request.prefix) + rejected_part(request.rejected_suggestions) + system_part(
        request.system_context,
    ) + history_part(request.history_context) + "Most recent terminal blocks, oldest to newest:\n"@
        + message_lines(last_of(request.context_messages, 8), 2500) + value_part(
        "\nCurrent block context:\n"@,
        request.block_context,
        2500,
    ) + value_part("\nPrevious autosuggestion result:\n"@, request.previous_result, 1500)
}

/// The prompt for the next command.
pub fn format_input_suggestion_prompt(request: &GenerateAIInputSuggestionsRequest) -> (r: String)
    ensures
        r@ == input_suggestion_prompt(request@),
{
    let mut prompt = format_prefix_part(&request.prefix);
    let part = format_rejected_part(&request.rejected_suggestions);
    prompt.append(part.as_str());
    let part = format_system_part(&request.system_context);
    prompt.append(part.as_str());
    let part = format_history_part(request.history_context.as_str());
    prompt.append(part.as_str());
    prompt.append("Most recent terminal blocks, oldest to newest:\n");
    let part = format_messages(&request.context_messages, 8, 2500);
    prompt.append(part.as_str());
    let part = format_value_part("\nCurrent block context:\n", &request.block_context, 2500);
    prompt.append(part.as_str());
    let part = format_value_part(
        "\nPrevious autosuggestion result:\n",
        &request.previous_result,
        1500,
    );
    prompt.append(part.as_str());
    prompt
}

/// The prompt for a query to the agent.
pub open spec fn am_query_suggestion_prompt(
    request: GenerateAMQuerySuggestionsRequestView
) -> Seq<char> {
    "The last terminal command exit code was "@ + decimal(request.exit_code as int) + ".\n\n"@
        + system_part(request.system_context) + "Recent terminal blocks, oldest to newest:\n"@
        + message_lines(last_of(request.context_messages, 8), 2500)
}

/// The prompt for a query to the agent.
pub fn format_am_query_suggestion_prompt(request: &GenerateAMQuerySuggestionsRequest) -> (r: String)
    ensures
        r@ == am_query_suggestion_prompt(request@),
{
    let mut prompt = "The last terminal command exit code was ".to_owned();
    let part = decimal_of(request.exit_code as i64);
    prompt.append(part.as_str());
    prompt.append(".\n\n");
    let part = format_system_part(&request.system_context);
    prompt.append(part.as_str());
    prompt.append("Recent terminal blocks, oldest to newest:\n");
    let part = format_messages(&request.context_messages, 8, 2500);
    prompt.append(part.as_str());
    prompt
}

/// The prompt for the rest of a query.
pub open spec fn predict_am_queries_prompt(request: PredictAMQueriesRequestView) -> Seq<char> {
    "Partial query:\n"@ + request.partial_query + "\n\n"@ + system_part(request.system_context)
        + "Recent terminal context:\n"@ + message_lines(last_of(request.context_messages, 6), 2000)
}

/// The prompt for the rest of a query.
pub fn format_predict_am_queries_prompt(request: &PredictAMQueriesRequest) -> (r: String)
    ensures
        r@ == predict_am_queries_prompt(request@),
{
    let mut prompt = "Partial query:\n".to_owned();
    prompt.append(request.partial_query.as_str());
    prompt.append("\n\n");
    let part = format_system_part(&request.system_context);
    prompt.append(part.as_str());
    prompt.append("Recent terminal context:\n");
    let part = format_messages(&request.context_messages, 6, 2000);
    prompt.append(part.as_str());
    prompt
}

/// The prompt for a title.
pub open spec fn block_title_prompt(request: GenerateBlockTitleRequestView) -> Seq<char> {
    "Command:\n"@ + truncated(request.command, 1000) + "\n\nOutput:\n"@ + truncated(
        request.output,
        5000,
    )
}

/// The prompt for a title.
fn format_block_title_prompt(request: &GenerateBlockTitleRequest) -> (r: String)
    ensures
        r@ == block_title_prompt(request@),
{
    let mut prompt = "Command:\n".to_owned();
    let part = truncate(request.command.as_str(), 1000);
    prompt.append(part.as_str());
    prompt.append("\n\nOutput:\n");
    let part = truncate(request.output.as_str(), 5000);
    prompt.append(part.as_str());
    prompt
}

// ---------------------------------------------------------------------------------------------
// Requests to a backend
// ---------------------------------------------------------------------------------------------
/// A request to a backend, in the form of its protocol.
#[derive(Debug)]
pub enum BackendRequest {
    Chat(OpenAIChatRequest),
    Responses(OpenAIResponsesRequest),
}

/// The model of [`BackendRequest`].
#[verifier::ext_equal]
pub enum BackendRequestView {
    Chat(OpenAIChatRequestView),
    Responses(OpenAIResponsesRequestView),
}

impl View for BackendRequest {
    type V = BackendRequestView;

    open spec fn view(&self) -> BackendRequestView {
        match self {
            BackendRequest::Chat(x) => BackendRequestView::Chat(x@),
            BackendRequest::Responses(x) => BackendRequestView::Responses(x@),
        }
    }
}

impl BackendRequestView {
    /// Whether the answer is to come as a stream.
    pub open spec fn streams(self) -> bool {
        match self {
            BackendRequestView::Chat(request) => request.stream,
            BackendRequestView::Responses(request) => request.stream,
        }
    }
}

impl BackendRequest {
    /// Whether the answer is to come as a stream.
    pub fn stream(&self) -> (r: bool)
        ensures
            r == self@.streams(),
    {
        match self {
            BackendRequest::Chat(request) => request.stream,
            BackendRequest::Responses(request) => request.stream,
        }
    }
}

/// Whether a request to a backend is a chat in the form of a protocol.
pub open spec fn in_form_of(
    chat: OpenAIChatRequestView,
    wire_api: WireApi,
    request: BackendRequestView,
) -> bool {
    match wire_api {
        WireApi::ChatCompletions => request == BackendRequestView::Chat(chat),
        WireApi::Responses => {
            &&& request matches BackendRequestView::Responses(responses)
            &&& responses.model == chat.model
            &&& input_of_messages(chat.messages, responses.input)
            &&& responses.tools == responses_tools(chat.tools)
            &&& responses.stream == chat.stream
            &&& !responses.store
        },
    }
}

/// A chat in the form of a protocol.
fn to_backend_request(chat: OpenAIChatRequest, wire_api: WireApi) -> (r: BackendRequest)
    ensures
        in_form_of(chat@, wire_api, r@),
{
    match wire_api {
        WireApi::ChatCompletions => BackendRequest::Chat(chat),
        WireApi::Responses => BackendRequest::Responses(
            OpenAIResponsesRequest::from_chat_request(chat),
        ),
    }
}

/// The request to the backend that a request of the client becomes.
pub fn build_backend_request(request: &Request, config: &Config) -> (r: BackendRequest)
    ensures
        in_form_of(chat_request(request@, config@), config.wire_api, r@),
{
    to_backend_request(build_chat_request(request, config), config.wire_api)
}

/// A question to the model: instructions and a prompt, without tools.
pub open spec fn question_chat(
    config: ConfigView,
    instructions: Seq<char>,
    prompt: Seq<char>,
) -> OpenAIChatRequestView {
    OpenAIChatRequestView {
        model: match config.model_override {
            Some(model) => model,
            None => DEFAULT_MODEL@,
        },
        messages: seq![system_message(instructions), user_message(prompt)],
        tools: Seq::empty(),
        stream: true,
    }
}

/// A question to the model.
fn build_question(config: &Config, instructions: &str, prompt: String) -> (r: BackendRequest)
    ensures
        in_form_of(question_chat(config@, instructions@, prompt@), config.wire_api, r@),
{
    let messages = vec![
        OpenAIChatMessage::system(instructions.to_owned()),
        OpenAIChatMessage::user(prompt),
    ];
    let chat = OpenAIChatRequest {
        model: match &config.model_override {
            Some(model) => model.clone(),
            None => DEFAULT_MODEL.to_owned(),
        },
        messages,
        tools: Vec::new(),
        stream: true,
    };
    assert(chat@ =~= question_chat(config@, instructions@, prompt@));
    to_backend_request(chat, config.wire_api)
}

/// The question for the next command.
pub fn build_input_suggestions_backend_request(
    request: &GenerateAIInputSuggestionsRequest,
    config: &Config,
) -> (r: BackendRequest)
    ensures
        in_form_of(
            question_chat(config@, NEXT_COMMAND_SYSTEM_PROMPT@, input_suggestion_prompt(request@)),
            config.wire_api,
            r@,
        ),
{
    build_question(config, next_command_system_prompt(), format_input_suggestion_prompt(request))
}

/// The question for a query to the agent.
pub fn build_am_query_suggestion_backend_request(
    request: &GenerateAMQuerySuggestionsRequest,
    config: &Config,
) -> (r: BackendRequest)
    ensures
        in_form_of(
            question_chat(
                config@,
                AGENT_MODE_SUGGESTION_SYSTEM_PROMPT@,
                am_query_suggestion_prompt(request@),
            ),
            config.wire_api,
            r@,
        ),
{
    build_question(
        config,
        agent_mode_suggestion_system_prompt(),
        format_am_query_suggestion_prompt(request),
    )
}

/// The question for the rest of a query.
pub fn build_predict_am_queries_backend_request(
    request: &PredictAMQueriesRequest,
    config: &Config,
) -> (r: BackendRequest)
    ensures
        in_form_of(
            question_chat(
                config@,
                PREDICT_QUERY_SYSTEM_PROMPT@,
                predict_am_queries_prompt(request@),
            ),
            config.wire_api,
            r@,
        ),
{
    build_question(config, PREDICT_QUERY_SYSTEM_PROMPT, format_predict_am_queries_prompt(request))
}

/// The question for a title.
pub fn build_block_title_backend_request(
    request: &GenerateBlockTitleRequest,
    config: &Config,
) -> (r: BackendRequest)
    ensures
        in_form_of(
            question_chat(config@, BLOCK_TITLE_SYSTEM_PROMPT@, block_title_prompt(request@)),
            config.wire_api,
            r@,
        ),
{
    build_question(config, BLOCK_TITLE_SYSTEM_PROMPT, format_block_title_prompt(request))
}

// ---------------------------------------------------------------------------------------------
// What requests say
// ---------------------------------------------------------------------------------------------
/// Whether a member may be left out, and else is a list of texts.
pub open spec fn texts_or_absent(json: JsonView, name: Seq<char>) -> bool {
    json.get(name) matches Some(value) ==> (value matches JsonView::Array(items) && forall|i: int|
        0 <= i < items.len() ==> (#[trigger] items[i]) is Str)
}

/// Whether terminal blocks are those of a request: texts as they are, other values as values.
pub open spec fn blocks_of(json: JsonView, blocks: Seq<ContextMessagePayloadView>) -> bool {
    let items = listed(json, "context_messages"@);
    blocks.len() == items.len() && forall|i: int|
        0 <= i < items.len() ==> {
            &&& (items[i] is Str ==> (#[trigger] blocks[i]) == ContextMessagePayloadView::Text(
                items[i]->Str_0,
            ))
            &&& (!(items[i] is Str) ==> blocks[i] == ContextMessagePayloadView::Object(items[i]))
        }
}

/// Whether an optional text is that of a member.
pub open spec fn says(json: JsonView, name: Seq<char>, text: Option<Seq<char>>) -> bool {
    match json.get(name) {
        Some(JsonView::Str(said)) => text == Some(said),
        _ => text is None,
    }
}

/// Whether an optional value is that of a member.
pub open spec fn gives(json: JsonView, name: Seq<char>, value: Option<JsonView>) -> bool {
    match json.get(name) {
        Some(JsonView::Null) => value is None,
        given => value == given,
    }
}

proof fn lemma_blocks(json: JsonView)
    requires
        json is Object,
    ensures
        ({
            let read = defaulted(
                json,
                0,
                "context_messages"@,
                |v: JsonView| context_message_payload_list(v),
                Seq::empty(),
            );
            &&& read is Some <==> (json.get("context_messages"@) matches Some(value) ==> value
                is Array)
            &&& read is Some ==> blocks_of(json, read->0)
        }),
{
    if json.get("context_messages"@) is Some {
        let value = json.get("context_messages"@)->0;
        if value is Array {
            let decode = |item: JsonView| context_message_payload(item);
            assert(
                forall|i: int|
                    0 <= i < value->Array_0.len() ==> (#[trigger] decode(value->Array_0[i])) is Some
            );
        }
    }
}

/// What a request for the next command says.
pub proof fn lemma_input_suggestions_are_read(json: JsonView)
    requires
        json is Object,
    ensures
        input_suggestions_request(json) matches Some(request) ==> {
            &&& blocks_of(json, request.context_messages)
            &&& request.history_context == said(json, "history_context"@)
            &&& says(json, "system_context"@, request.system_context)
            &&& lists_texts(json.get("rejected_suggestions"@), request.rejected_suggestions)
            &&& says(json, "prefix"@, request.prefix)
            &&& gives(json, "block_context"@, request.block_context)
            &&& gives(json, "previous_result"@, request.previous_result)
        },
        input_suggestions_request(json) is Some <==> {
            &&& json.get("context_messages"@) matches Some(value) ==> value is Array
            &&& json.get("history_context"@) matches Some(value) ==> value is Str
            &&& text_if_any(json, "system_context"@)
            &&& texts_or_absent(json, "rejected_suggestions"@)
            &&& text_if_any(json, "prefix"@)
        },
{
    lemma_blocks(json);
    if json.get("rejected_suggestions"@) is Some && json.get("rejected_suggestions"@)->0 is Array {
        let items = json.get("rejected_suggestions"@)->0->Array_0;
        let decode = |item: JsonView| item.as_str();
        assert(forall|i: int| 0 <= i < items.len() ==> ((#[trigger] decode(items[i])) is Some
            <==> items[i] is Str));
        if decoded(items, decode) is Some {
            assert forall|i: int| 0 <= i < items.len() implies (#[trigger] items[i]) is Str by {
                assert(decode(items[i]) is Some);
            }
        }
    }
}

/// What a request for a follow-up says.
pub proof fn lemma_query_suggestions_are_read(json: JsonView)
    requires
        json is Object,
    ensures
        am_query_suggestions_request(json) matches Some(request) ==> {
            &&& blocks_of(json, request.context_messages)
            &&& says(json, "system_context"@, request.system_context)
            &&& json.get("exit_code"@) is Some
            &&& counts(json, "exit_code"@, request.exit_code as int)
        },
        am_query_suggestions_request(json) is Some <==> {
            &&& json.get("context_messages"@) matches Some(value) ==> value is Array
            &&& text_if_any(json, "system_context"@)
            &&& json.get("exit_code"@) matches Some(JsonView::Number(n)) && n.signed is Some
                && i32::MIN <= n.signed->0 <= i32::MAX
        },
{
    lemma_blocks(json);
}

/// What a request for predictions says.
pub proof fn lemma_predictions_are_read(json: JsonView)
    requires
        json is Object,
    ensures
        predict_am_queries_request(json) matches Some(request) ==> {
            &&& blocks_of(json, request.context_messages)
            &&& Some(request.partial_query) == json.get_str("partial_query"@)
            &&& says(json, "system_context"@, request.system_context)
        },
        predict_am_queries_request(json) is Some <==> {
            &&& json.get("context_messages"@) matches Some(value) ==> value is Array
            &&& text_if_any(json, "system_context"@)
            &&& json.get_str("partial_query"@) is Some
        },
{
    lemma_blocks(json);
}

/// What a request for a title says.
pub proof fn lemma_titles_are_read(json: JsonView)
    requires
        json is Object,
    ensures
        block_title_request(json) matches Some(request) ==> Some(request.command) == json.get_str(
            "command"@,
        ) && Some(request.output) == json.get_str("output"@),
        block_title_request(json) is Some <==> json.get_str("command"@) is Some && json.get_str(
            "output"@,
        ) is Some,
{
}

/// What a request for files says.
pub proof fn lemma_files_are_read(json: JsonView, i: int)
    requires
        json is Object,
    ensures
        relevant_files_request(json) matches Some(request) ==> {
            &&& Some(request.query) == json.get_str("query"@)
            &&& request.files.len() == listed(json, "files"@).len()
            &&& 0 <= i < request.files.len() && listed(json, "files"@)[i] is Object ==> Some(
                request.files[i].path,
            ) == listed(json, "files"@)[i].get_str("path"@) && Some(request.files[i].symbols)
                == listed(json, "files"@)[i].get_str("symbols"@)
        },
        json.get_str("query"@) is None ==> relevant_files_request(json) is None,
        json.get_str("query"@) is Some && json.get("files"@) is None ==> relevant_files_request(
            json,
        ) is Some,
        json.get_str("query"@) is Some && json.get("files"@) is Some && json.get("files"@)->0
            is Array && (forall|k: int|
            0 <= k < listed(json, "files"@).len() ==> {
                let file = #[trigger] listed(json, "files"@)[k];
                file is Object && file.get_str("path"@) is Some && file.get_str("symbols"@) is Some
            }) ==> relevant_files_request(json) is Some,
{
    let items = listed(json, "files"@);
    let decode = |item: JsonView| relevant_file_context(item);
    if json.get("files"@) is Some && json.get("files"@)->0 is Array {
        if forall|k: int|
            0 <= k < items.len() ==> {
                let file = #[trigger] items[k];
                file is Object && file.get_str("path"@) is Some && file.get_str("symbols"@) is Some
            } {
            assert forall|k: int| 0 <= k < items.len() implies (#[trigger] decode(items[k]))
                is Some by {
                let file = items[k];
                assert(file is Object);
            }
        }
        if decoded(items, decode) is Some && 0 <= i < items.len() {
            assert(decode(items[i]) is Some);
        }
    }
}

/// The values of a record may also come as a list, in the order of its fields.
pub proof fn lemma_records_come_as_lists(a: JsonView, b: JsonView)
    ensures
        block_title_request(JsonView::Array(seq![a, b])) == block_title_request(
            JsonView::Object(seq![("command"@, a), ("output"@, b)]),
        ),
        relevant_file_context(JsonView::Array(seq![a, b])) == relevant_file_context(
            JsonView::Object(seq![("path"@, a), ("symbols"@, b)]),
        ),
        relevant_files_request(JsonView::Array(seq![a, b])) == relevant_files_request(
            JsonView::Object(seq![("query"@, a), ("files"@, b)]),
        ),
        block_title_request(JsonView::Array(seq![a, b, a])) is None,
{
    reveal_strlit("command");
    reveal_strlit("output");
    reveal_strlit("path");
    reveal_strlit("symbols");
    reveal_strlit("query");
    reveal_strlit("files");
    assert("command"@.len() != "output"@.len());
    assert("path"@.len() != "symbols"@.len());
    assert("query"@[0] != "files"@[0]);
    let members = seq![("command"@, a), ("output"@, b)];
    lemma_last_member_counts(members, 0);
    lemma_last_member_counts(members, 1);
    let members = seq![("path"@, a), ("symbols"@, b)];
    lemma_last_member_counts(members, 0);
    lemma_last_member_counts(members, 1);
    let members = seq![("query"@, a), ("files"@, b)];
    lemma_last_member_counts(members, 0);
    lemma_last_member_counts(members, 1);
}

// ---------------------------------------------------------------------------------------------
// What prompts say
// ---------------------------------------------------------------------------------------------
/// Terminal blocks are told line by line, in their order, each cut to its length; values are told
/// as JSON.
pub proof fn lemma_blocks_are_told(
    messages: Seq<ContextMessagePayloadView>,
    text: Seq<char>,
    value: JsonView,
    max: int,
)
    ensures
        message_lines(Seq::empty(), max) == Seq::<char>::empty(),
        message_lines(messages.push(ContextMessagePayloadView::Text(text)), max) == message_lines(
            messages,
            max,
        ) + truncated(text, max) + "\n"@,
        message_lines(messages.push(ContextMessagePayloadView::Object(value)), max)
            == message_lines(messages, max) + truncated(json_text(value), max) + "\n"@,
{
    assert(messages.push(ContextMessagePayloadView::Text(text)).drop_last() =~= messages);
    assert(messages.push(ContextMessagePayloadView::Object(value)).drop_last() =~= messages);
}

/// The prompt for the next command ends with the blocks where nothing else is given, and each thing
/// that is given adds its part.
pub proof fn lemma_prompt_for_next_command(request: GenerateAIInputSuggestionsRequestView)
    ensures
        ({
            let bare = GenerateAIInputSuggestionsRequestView {
                context_messages: request.context_messages,
                history_context: Seq::empty(),
                system_context: None,
                rejected_suggestions: Seq::empty(),
                prefix: None,
                block_context: None,
                previous_result: None,
            };
            let blocks = "Most recent terminal blocks, oldest to newest:\n"@ + message_lines(
                last_of(request.context_messages, 8),
                2500,
            );
            &&& input_suggestion_prompt(bare) == blocks
            &&& request.prefix matches Some(prefix) ==> prefix.len() > 0
                ==> input_suggestion_prompt(
                GenerateAIInputSuggestionsRequestView { prefix: request.prefix, ..bare },
            ) == "User has already typed this prefix. Any command must start with it:\n"@ + prefix
                + "\n\n"@ + blocks
            &&& request.system_context matches Some(context) ==> context.len() > 0
                ==> input_suggestion_prompt(
                GenerateAIInputSuggestionsRequestView {
                    system_context: request.system_context,
                    ..bare
                },
            ) == "System context:\n"@ + truncated(context, 3000) + "\n\n"@ + blocks
            &&& !blank(request.history_context) ==> input_suggestion_prompt(
                GenerateAIInputSuggestionsRequestView {
                    history_context: request.history_context,
                    ..bare
                },
            ) == "Relevant shell history:\n"@ + truncated(request.history_context, 5000) + "\n\n"@
                + blocks
            &&& request.block_context matches Some(value) ==> input_suggestion_prompt(
                GenerateAIInputSuggestionsRequestView {
                    block_context: request.block_context,
                    ..bare
                },
            ) == blocks + ("\nCurrent block context:\n"@ + truncated(json_text(value), 2500))
            &&& request.previous_result matches Some(value) ==> input_suggestion_prompt(
                GenerateAIInputSuggestionsRequestView {
                    previous_result: request.previous_result,
                    ..bare
                },
            ) == blocks + ("\nPrevious autosuggestion result:\n"@ + truncated(
                json_text(value),
                1500,
            ))
        }),
{
    let blocks = "Most recent terminal blocks, oldest to newest:\n"@ + message_lines(
        last_of(request.context_messages, 8),
        2500,
    );
    let none = Seq::<char>::empty();
    let bare = GenerateAIInputSuggestionsRequestView {
        context_messages: request.context_messages,
        history_context: none,
        system_context: None,
        rejected_suggestions: Seq::empty(),
        prefix: None,
        block_context: None,
        previous_result: None,
    };
    assert(input_suggestion_prompt(bare) =~= blocks);
    if request.prefix is Some && request.prefix->0.len() > 0 {
        assert(input_suggestion_prompt(
            GenerateAIInputSuggestionsRequestView { prefix: request.prefix, ..bare },
        ) =~= "User has already typed this prefix. Any command must start with it:\n"@
            + request.prefix->0 + "\n\n"@ + blocks);
    }
    if request.system_context is Some && request.system_context->0.len() > 0 {
        assert(input_suggestion_prompt(
            GenerateAIInputSuggestionsRequestView {
                system_context: request.system_context,
                ..bare
            },
        ) =~= "System context:\n"@ + truncated(request.system_context->0, 3000) + "\n\n"@ + blocks);
    }
    if !blank(request.history_context) {
        assert(input_suggestion_prompt(
            GenerateAIInputSuggestionsRequestView {
                history_context: request.history_context,
                ..bare
            },
        ) =~= "Relevant shell history:\n"@ + truncated(request.history_context, 5000) + "\n\n"@
            + blocks);
    }
    if request.block_context is Some {
        assert(input_suggestion_prompt(
            GenerateAIInputSuggestionsRequestView { block_context: request.block_context, ..bare },
        ) =~= blocks + ("\nCurrent block context:\n"@ + truncated(
            json_text(request.block_context->0),
            2500,
        )));
    }
    if request.previous_result is Some {
        assert(input_suggestion_prompt(
            GenerateAIInputSuggestionsRequestView {
                previous_result: request.previous_result,
                ..bare
            },
        ) =~= blocks + ("\nPrevious autosuggestion result:\n"@ + truncated(
            json_text(request.previous_result->0),
            1500,
        )));
    }
}

/// The parts of the prompt for the next command come in this order, and every part that is given
/// is there.
pub proof fn lemma_order_of_prompt(request: GenerateAIInputSuggestionsRequestView)
    requires
        request.prefix is Some,
        request.prefix->0.len() > 0,
        request.rejected_suggestions.len() > 0,
        request.system_context is Some,
        request.system_context->0.len() > 0,
        !blank(request.history_context),
        request.block_context is Some,
        request.previous_result is Some,
    ensures
        input_suggestion_prompt(request)
            == "User has already typed this prefix. Any command must start with it:\n"@
            + request.prefix->0 + "\n\nDo not return these rejected suggestions:\n"@
            + rejected_lines(request.rejected_suggestions) + "\nSystem context:\n"@ + truncated(
            request.system_context->0,
            3000,
        ) + "\n\nRelevant shell history:\n"@ + truncated(request.history_context, 5000)
            + "\n\nMost recent terminal blocks, oldest to newest:\n"@ + message_lines(
            last_of(request.context_messages, 8),
            2500,
        ) + "\nCurrent block context:\n"@ + truncated(json_text(request.block_context->0), 2500)
            + "\nPrevious autosuggestion result:\n"@ + truncated(
            json_text(request.previous_result->0),
            1500,
        ),
{
    reveal_strlit("\n\n");
    reveal_strlit("\n");
    reveal_strlit("Do not return these rejected suggestions:\n");
    reveal_strlit("\n\nDo not return these rejected suggestions:\n");
    assert("\n\nDo not return these rejected suggestions:\n"@ =~= "\n\n"@
        + "Do not return these rejected suggestions:\n"@);
    reveal_strlit("System context:\n");
    reveal_strlit("\nSystem context:\n");
    assert("\nSystem context:\n"@ =~= "\n"@ + "System context:\n"@);
    reveal_strlit("Relevant shell history:\n");
    reveal_strlit("\n\nRelevant shell history:\n");
    assert("\n\nRelevant shell history:\n"@ =~= "\n\n"@ + "Relevant shell history:\n"@);
    reveal_strlit("Most recent terminal blocks, oldest to newest:\n");
    reveal_strlit("\n\nMost recent terminal blocks, oldest to newest:\n");
    assert("\n\nMost recent terminal blocks, oldest to newest:\n"@ =~= "\n\n"@
        + "Most recent terminal blocks, oldest to newest:\n"@);
    lemma_order_of_parts(
        "User has already typed this prefix. Any command must start with it:\n"@ + request.prefix->0,
        "Do not return these rejected suggestions:\n"@,
        rejected_lines(request.rejected_suggestions),
        "System context:\n"@,
        truncated(request.system_context->0, 3000),
        "Relevant shell history:\n"@,
        truncated(request.history_context, 5000),
        "Most recent terminal blocks, oldest to newest:\n"@,
        message_lines(last_of(request.context_messages, 8), 2500),
        "\nCurrent block context:\n"@,
        truncated(json_text(request.block_context->0), 2500),
        "\nPrevious autosuggestion result:\n"@,
        truncated(json_text(request.previous_result->0), 1500),
    );
}

proof fn lemma_order_of_parts(
    a: Seq<char>,
    b: Seq<char>,
    c: Seq<char>,
    d: Seq<char>,
    e: Seq<char>,
    f: Seq<char>,
    g: Seq<char>,
    h: Seq<char>,
    i: Seq<char>,
    j: Seq<char>,
    k: Seq<char>,
    l: Seq<char>,
    m: Seq<char>,
)
    ensures
        (a + "\n\n"@) + (b + c + "\n"@) + (d + e + "\n\n"@) + (f + g + "\n\n"@) + h + i + (j + k)
            + (l + m) == a + ("\n\n"@ + b) + c + ("\n"@ + d) + e + ("\n\n"@ + f) + g + ("\n\n"@ + h)
            + i + j + k + l + m,
{
    let x = (a + "\n\n"@) + (b + c + "\n"@);
    assert(x =~= a + ("\n\n"@ + b) + c + "\n"@);
    let y = a + ("\n\n"@ + b) + c;
    assert((y + "\n"@) + (d + e + "\n\n"@) =~= y + ("\n"@ + d) + e + "\n\n"@);
    let y = y + ("\n"@ + d) + e;
    assert((y + "\n\n"@) + (f + g + "\n\n"@) =~= y + ("\n\n"@ + f) + g + "\n\n"@);
    let y = y + ("\n\n"@ + f) + g;
    assert((y + "\n\n"@) + h =~= y + ("\n\n"@ + h));
    let y = y + ("\n\n"@ + h) + i;
    assert(y + (j + k) =~= y + j + k);
    let y = y + j + k;
    assert(y + (l + m) =~= y + l + m);
}

/// Rejected suggestions are told one below another.
pub proof fn lemma_rejections_are_told(rejected: Seq<Seq<char>>, last: Seq<char>)
    ensures
        rejected_lines(rejected.push(last)) == rejected_lines(rejected) + ("- "@ + last + "\n"@),
        rejected_part(seq![last]) == "Do not return these rejected suggestions:\n- "@ + last
            + "\n\n"@,
        rejected_part(Seq::empty()).len() == 0,
{
    assert(rejected.push(last).drop_last() =~= rejected);
    assert(rejected_lines(rejected.push(last)) =~= rejected_lines(rejected) + ("- "@ + last
        + "\n"@));
    assert(seq![last].drop_last() =~= Seq::empty());
    reveal_with_fuel(rejected_lines, 2);
    reveal_strlit("\n");
    reveal_strlit("\n\n");
    reveal_strlit("- ");
    reveal_strlit("Do not return these rejected suggestions:\n");
    reveal_strlit("Do not return these rejected suggestions:\n- ");
    assert("Do not return these rejected suggestions:\n- "@
        =~= "Do not return these rejected suggestions:\n"@ + "- "@);
    assert("\n\n"@ =~= "\n"@ + "\n"@);
    assert(rejected_part(seq![last]) =~= "Do not return these rejected suggestions:\n- "@ + last
        + "\n\n"@);
}

/// Only the last blocks count, and of each only its start.
pub proof fn lemma_old_blocks_do_not_count(
    older: Seq<ContextMessagePayloadView>,
    blocks: Seq<ContextMessagePayloadView>,
    request: GenerateAIInputSuggestionsRequestView,
    query: GenerateAMQuerySuggestionsRequestView,
    partial: PredictAMQueriesRequestView,
)
    ensures
        blocks.len() == 8 ==> input_suggestion_prompt(
            GenerateAIInputSuggestionsRequestView { context_messages: older + blocks, ..request },
        ) == input_suggestion_prompt(
            GenerateAIInputSuggestionsRequestView { context_messages: blocks, ..request },
        ),
        blocks.len() == 8 ==> am_query_suggestion_prompt(
            GenerateAMQuerySuggestionsRequestView { context_messages: older + blocks, ..query },
        ) == am_query_suggestion_prompt(
            GenerateAMQuerySuggestionsRequestView { context_messages: blocks, ..query },
        ),
        blocks.len() == 6 ==> predict_am_queries_prompt(
            PredictAMQueriesRequestView { context_messages: older + blocks, ..partial },
        ) == predict_am_queries_prompt(
            PredictAMQueriesRequestView { context_messages: blocks, ..partial },
        ),
{
    assert((older + blocks).skip(older.len() as int) =~= blocks);
    if older.len() == 0 {
        assert(older + blocks =~= blocks);
    }
}

/// The other prompts.
pub proof fn lemma_other_prompts(
    query: GenerateAMQuerySuggestionsRequestView,
    partial: PredictAMQueriesRequestView,
    title: GenerateBlockTitleRequestView,
)
    ensures
        query.context_messages.len() <= 8 && query.system_context is None
            ==> am_query_suggestion_prompt(query) =~= "The last terminal command exit code was "@
            + decimal(query.exit_code as int) + ".\n\n"@
            + "Recent terminal blocks, oldest to newest:\n"@ + message_lines(
            query.context_messages,
            2500,
        ),
        query.context_messages.len() <= 8 && query.system_context is Some
            && query.system_context->0.len() > 0 ==> am_query_suggestion_prompt(query)
            == "The last terminal command exit code was "@ + decimal(query.exit_code as int)
            + ".\n\n"@ + ("System context:\n"@ + truncated(query.system_context->0, 3000) + "\n\n"@)
            + "Recent terminal blocks, oldest to newest:\n"@ + message_lines(
            query.context_messages,
            2500,
        ),
        partial.context_messages.len() <= 6 && partial.system_context is None
            ==> predict_am_queries_prompt(partial) =~= "Partial query:\n"@ + partial.partial_query
            + "\n\n"@ + "Recent terminal context:\n"@ + message_lines(
            partial.context_messages,
            2000,
        ),
        partial.context_messages.len() <= 6 && partial.system_context is Some
            && partial.system_context->0.len() > 0 ==> predict_am_queries_prompt(partial)
            == "Partial query:\n"@ + partial.partial_query + "\n\n"@ + ("System context:\n"@
            + truncated(partial.system_context->0, 3000) + "\n\n"@) + "Recent terminal context:\n"@
            + message_lines(partial.context_messages, 2000),
        title.command.len() <= 1000 && title.output.len() <= 5000 ==> block_title_prompt(title)
            == "Command:\n"@ + title.command + "\n\nOutput:\n"@ + title.output,
        block_title_prompt(title) == block_title_prompt(
            GenerateBlockTitleRequestView {
                command: truncated(title.command, 1000),
                output: truncated(title.output, 5000),
            },
        ),
{
    lemma_cutting_twice(title.command, 1000);
    lemma_cutting_twice(title.output, 5000);
}

/// A question goes to the configured model, with the instructions first and the prompt behind them.
pub proof fn lemma_questions_are_put(
    config: ConfigView,
    instructions: Seq<char>,
    prompt: Seq<char>,
)
    ensures
        ({
            let chat = question_chat(config, instructions, prompt);
            &&& chat.messages.len() == 2
            &&& chat.messages[0].role == "system"@
            &&& chat.messages[0].content == Some(instructions)
            &&& chat.messages[1].role == "user"@
            &&& chat.messages[1].content == Some(prompt)
            &&& chat.messages[0].tool_calls is None && chat.messages[1].tool_calls is None
            &&& chat.messages[0].tool_call_id is None && chat.messages[1].tool_call_id is None
            &&& chat.tools.len() == 0
            &&& chat.stream
            &&& config.model_override matches Some(model) ==> chat.model == model
            &&& config.model_override is None ==> chat.model == "gpt-5.5"@
        }),
{
}

/// A request is put in the form that the backend takes, and says the same in either form.
pub proof fn lemma_forms_of_requests(chat: OpenAIChatRequestView, request: BackendRequestView)
    ensures
        in_form_of(chat, WireApi::ChatCompletions, request) <==> request
            == BackendRequestView::Chat(chat),
        in_form_of(chat, WireApi::Responses, request) ==> request is Responses && ({
            let responses = request->Responses_0;
            &&& responses.model == chat.model
            &&& responses.stream == chat.stream
            &&& responses.tools.len() == chat.tools.len()
            &&& !responses.store
            &&& forall|i: int|
                0 <= i < chat.tools.len() ==> (#[trigger] responses.tools[i]).name
                    == chat.tools[i].function.name
            &&& exists|ids: Seq<Seq<char>>|
                ids.len() == chat.messages.len() && responses.input == paired_items(
                    #[trigger] messages_items(chat.messages, ids),
                )
        }),
        in_form_of(chat, WireApi::ChatCompletions, request) || in_form_of(
            chat,
            WireApi::Responses,
            request,
        ) ==> request.streams() == chat.stream,
{
    if in_form_of(chat, WireApi::Responses, request) {
        let responses = request->Responses_0;
        assert(input_of_messages(chat.messages, responses.input));
        let ids = choose|ids: Seq<Seq<char>>|
            ids.len() == chat.messages.len() && #[trigger] fresh_call_ids(ids)
                && responses.input == paired_items(messages_items(chat.messages, ids));
        assert(responses.input == paired_items(messages_items(chat.messages, ids)));
    }
}

} // verus!
