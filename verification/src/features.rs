//! The features beside the agent: what is answered at once, and what the reply of a backend gives.
use crate::body::{backend_text_from_body, body_text};
use crate::config::{Config, ConfigView, WireApi};
use crate::headers::{pairs, Headers};
use crate::ids::fresh_id;
use crate::json::{
    json_in, lemma_last_member_counts, members_view, texts_json, uint_json, Json, JsonView,
};
use crate::queries::{
    clean_query_suggestion, completed_query, empty_am_query_suggestion_response,
    parse_am_query_suggestion_text, query_response, suggested_query, AMCodingQuery,
    AMCodingQueryView, AMGeneratedFileLocations, AMGeneratedFileLocationsView, AMSuggestion,
    AMSuggestionView, GenerateAMQuerySuggestionsResponse, GenerateAMQuerySuggestionsResponseView,
};
use crate::ranking::{rank_relevant_files, relevant_files};
use crate::requests::{
    GenerateAIInputSuggestionsRequest, GenerateAIInputSuggestionsRequestView,
    GenerateBlockTitleRequest, GenerateBlockTitleRequestView, GetRelevantFilesRequest,
    PredictAMQueriesRequest,
};
use crate::suggest::{
    answer_of, empty_input_suggestion_response, local_next_command_suggestion, local_suggestion,
    nothing_suggested, parse_input_suggestion_text, text_candidates, without_fences,
    AgentModeSuggestionV2, AgentModeSuggestionV2View, GenerateAIInputSuggestionsResponseV2,
    GenerateAIInputSuggestionsResponseV2View,
};
use crate::text::{opt_view, res_view, trimmed, truncate, truncated, views};
use crate::titles::{
    clean_block_title, fallback_block_title, fallback_title, local_block_title, local_title,
    title_of,
};
use crate::asked::lists_texts;
use vstd::prelude::*;

verus! {

// ---------------------------------------------------------------------------------------------
// The reply of a backend
// ---------------------------------------------------------------------------------------------
/// The reply of a backend that is no success.
#[derive(Debug)]
pub struct Refusal {
    /// The status, as it is shown.
    pub status: String,
    pub body: String,
}

/// The model of [`Refusal`].
#[verifier::ext_equal]
pub struct RefusalView {
    pub status: Seq<char>,
    pub body: Seq<char>,
}

impl View for Refusal {
    type V = RefusalView;

    open spec fn view(&self) -> RefusalView {
        RefusalView {
            status: self.status@,
            body: self.body@,
        }
    }
}

/// What became of a request to a backend.
#[derive(Debug)]
pub enum BackendReply {
    /// The backend could not be reached, for that reason.
    Unreachable(String),
    /// The backend refused the request.
    Refused(Refusal),
    /// The backend answered with that body.
    Answered(String),
}

/// The model of [`BackendReply`].
#[verifier::ext_equal]
pub enum BackendReplyView {
    Unreachable(Seq<char>),
    Refused(RefusalView),
    Answered(Seq<char>),
}

impl View for BackendReply {
    type V = BackendReplyView;

    open spec fn view(&self) -> BackendReplyView {
        match self {
            BackendReply::Unreachable(x) => BackendReplyView::Unreachable(x@),
            BackendReply::Refused(x) => BackendReplyView::Refused(x@),
            BackendReply::Answered(x) => BackendReplyView::Answered(x@),
        }
    }
}

/// The text of a reply, or what is said of its lack. The feature is named in messages about the
/// request, and its answer in messages about the answer.
pub open spec fn reply_text(
    wire_api: WireApi,
    reply: BackendReplyView,
    feature: Seq<char>,
    answer: Seq<char>,
) -> Result<Seq<char>, Seq<char>> {
    match reply {
        BackendReplyView::Unreachable(error) => Err(
            "Failed to reach BYOB backend for "@ + feature + ": "@ + error,
        ),
        BackendReplyView::Refused(refusal) => Err(
            "BYOB backend returned HTTP "@ + refusal.status + " for "@ + feature + ": "@
                + truncated(refusal.body, 1200),
        ),
        BackendReplyView::Answered(body) => match body_text(wire_api, body) {
            Ok(text) => Ok(text),
            Err(error) => Err("Unable to parse BYOB "@ + answer + " response: "@ + error),
        },
    }
}

/// The text of a reply, or what is said of its lack.
pub fn backend_text(
    wire_api: WireApi,
    reply: &BackendReply,
    feature: &str,
    answer: &str,
) -> (r: Result<
    String,
    String,
>)
    ensures
        res_view(r) == reply_text(wire_api, reply@, feature@, answer@),
{
    match reply {
        BackendReply::Unreachable(error) => {
            let mut text = "Failed to reach BYOB backend for ".to_owned();
            text.append(feature);
            text.append(": ");
            text.append(error.as_str());
            Err(text)
        },
        BackendReply::Refused(refusal) => {
            let mut text = "BYOB backend returned HTTP ".to_owned();
            text.append(refusal.status.as_str());
            text.append(" for ");
            text.append(feature);
            text.append(": ");
            let shown = truncate(refusal.body.as_str(), 1200);
            text.append(shown.as_str());
            Err(text)
        },
        BackendReply::Answered(body) => match backend_text_from_body(wire_api, body.as_str()) {
            Ok(text) => Ok(text),
            Err(error) => {
                let mut text = "Unable to parse BYOB ".to_owned();
                text.append(answer);
                text.append(" response: ");
                text.append(error.as_str());
                Err(text)
            },
        },
    }
}

// ---------------------------------------------------------------------------------------------
// Next commands
// ---------------------------------------------------------------------------------------------
/// The answer that is given without asking a backend, where there is one: a suggestion of its own,
/// or nothing where there is no key with which to ask.
pub open spec fn command_at_once(
    request: GenerateAIInputSuggestionsRequestView,
    config: ConfigView,
) -> Option<GenerateAIInputSuggestionsResponseV2View> {
    match local_suggestion(request) {
        Some(answer) => Some(answer),
        None => if config.openai_api_key is None {
            Some(nothing_suggested())
        } else {
            None
        },
    }
}

/// The answer that is given without asking a backend, where there is one.
pub fn input_suggestions_at_once(
    request: &GenerateAIInputSuggestionsRequest,
    config: &Config,
) -> (r:
    Option<GenerateAIInputSuggestionsResponseV2>)
    ensures
        opt_view(r) == command_at_once(request@, config@),
{
    match local_next_command_suggestion(request) {
        Some(answer) => Some(answer),
        None => if config.openai_api_key.is_none() {
            Some(empty_input_suggestion_response())
        } else {
            None
        },
    }
}

/// The answer that the reply of a backend gives.
pub open spec fn command_from_reply(
    request: GenerateAIInputSuggestionsRequestView,
    wire_api: WireApi,
    reply: BackendReplyView,
) -> Result<GenerateAIInputSuggestionsResponseV2View, Seq<char>> {
    match reply_text(wire_api, reply, "input suggestions"@, "input suggestion"@) {
        Ok(text) => {
            let said = without_fences(trimmed(text));
            Ok(answer_of(request, text_candidates(said, json_in(said))))
        },
        Err(message) => Err(message),
    }
}

/// The answer that the reply of a backend gives.
pub fn input_suggestions_from_reply(
    request: &GenerateAIInputSuggestionsRequest,
    wire_api: WireApi,
    reply: &BackendReply,
) -> (r: Result<GenerateAIInputSuggestionsResponseV2, String>)
    ensures
        res_view(r) == command_from_reply(request@, wire_api, reply@),
{
    match backend_text(wire_api, reply, "input suggestions", "input suggestion") {
        Ok(text) => Ok(parse_input_suggestion_text(request, text.as_str())),
        Err(message) => Err(message),
    }
}

// ---------------------------------------------------------------------------------------------
// Queries to the agent
// ---------------------------------------------------------------------------------------------
/// The answer that is given without asking a backend, where there is one: nothing where there is no
/// key with which to ask.
pub fn am_query_suggestions_at_once(
    config: &Config
) -> (r: Option<GenerateAMQuerySuggestionsResponse>)
    ensures
        r is Some <==> config@.openai_api_key is None,
        r matches Some(answer) ==> fresh_id("byob-"@, answer@.id) && answer@ == query_response(
            answer@.id,
            None,
        ),
{
    if config.openai_api_key.is_none() {
        Some(empty_am_query_suggestion_response())
    } else {
        None
    }
}

/// The answer that the reply of a backend gives.
pub fn am_query_suggestions_from_reply(wire_api: WireApi, reply: &BackendReply) -> (r: Result<
    GenerateAMQuerySuggestionsResponse,
    String,
>)
    ensures
        match r {
            Ok(answer) => reply_text(
                wire_api,
                reply@,
                "agent mode query suggestions"@,
                "agent mode query suggestions"@,
            ) matches Ok(text) && fresh_id("byob-"@, answer@.id) && answer@ == query_response(
                answer@.id,
                suggested_query(
                    without_fences(trimmed(text)),
                    json_in(without_fences(trimmed(text))),
                ),
            ),
            Err(message) => reply_text(
                wire_api,
                reply@,
                "agent mode query suggestions"@,
                "agent mode query suggestions"@,
            ) == Err::<Seq<char>, _>(message@),
        },
{
    match backend_text(
        wire_api,
        reply,
        "agent mode query suggestions",
        "agent mode query suggestions",
    ) {
        Ok(text) => Ok(parse_am_query_suggestion_text(text.as_str())),
        Err(message) => Err(message),
    }
}

/// The query that is completed to without asking a backend, where there is one: nothing where there
/// is no key with which to ask.
pub fn predicted_query_at_once(config: &Config) -> (r: Option<String>)
    ensures
        r is Some <==> config@.openai_api_key is None,
        r matches Some(query) ==> query@.len() == 0,
{
    if config.openai_api_key.is_none() {
        Some(String::new())
    } else {
        None
    }
}

/// The query that is completed to with the reply of a backend.
pub open spec fn prediction(
    partial_query: Seq<char>,
    wire_api: WireApi,
    reply: BackendReplyView,
) -> Result<Seq<char>, Seq<char>> {
    match reply_text(
        wire_api,
        reply,
        "partial agent query prediction"@,
        "partial agent query prediction"@,
    ) {
        Ok(text) => {
            let said = without_fences(trimmed(text));
            Ok(completed_query(said, json_in(said), partial_query))
        },
        Err(message) => Err(message),
    }
}

/// The query that is completed to with the reply of a backend.
pub fn predicted_query_from_reply(
    request: &PredictAMQueriesRequest,
    wire_api: WireApi,
    reply: &BackendReply,
) -> (r: Result<String, String>)
    ensures
        res_view(r) == prediction(request@.partial_query, wire_api, reply@),
{
    match backend_text(
        wire_api,
        reply,
        "partial agent query prediction",
        "partial agent query prediction",
    ) {
        Ok(text) => Ok(clean_query_suggestion(text.as_str(), request.partial_query.as_str())),
        Err(message) => Err(message),
    }
}

// ---------------------------------------------------------------------------------------------
// Titles
// ---------------------------------------------------------------------------------------------
/// The title that is given without asking a backend, where there is one: one of its own, or one
/// from the command where there is no key with which to ask.
pub open spec fn title_at_once(
    request: GenerateBlockTitleRequestView,
    config: ConfigView,
) -> Option<Seq<char>> {
    match local_title(request.command) {
        Some(title) => Some(title),
        None => if config.openai_api_key is None {
            Some(fallback_title(request.command))
        } else {
            None
        },
    }
}

/// The title that is given without asking a backend, where there is one.
pub fn block_title_at_once(
    request: &GenerateBlockTitleRequest,
    config: &Config,
) -> (r: Option<String>)
    ensures
        opt_view(r) == title_at_once(request@, config@),
{
    match local_block_title(request) {
        Some(title) => Some(title),
        None => if config.openai_api_key.is_none() {
            Some(fallback_block_title(request))
        } else {
            None
        },
    }
}

/// The title that the reply of a backend gives.
pub open spec fn title_from_reply(wire_api: WireApi, reply: BackendReplyView) -> Result<
    Seq<char>,
    Seq<char>,
> {
    match reply_text(wire_api, reply, "block title generation"@, "block title generation"@) {
        Ok(text) => Ok(title_of(text)),
        Err(message) => Err(message),
    }
}

/// The title that the reply of a backend gives.
pub fn block_title_from_reply(
    wire_api: WireApi,
    reply: &BackendReply,
) -> (r: Result<String, String>)
    ensures
        res_view(r) == title_from_reply(wire_api, reply@),
{
    match backend_text(wire_api, reply, "block title generation", "block title generation") {
        Ok(text) => Ok(clean_block_title(text.as_str())),
        Err(message) => Err(message),
    }
}

// ---------------------------------------------------------------------------------------------
// Answers in JSON
// ---------------------------------------------------------------------------------------------
/// An object with one member.
pub open spec fn object_of(name: Seq<char>, value: JsonView) -> JsonView {
    JsonView::Object(seq![(name, value)])
}

fn new_object_of(name: &str, value: Json) -> (r: Json)
    ensures
        r@ == object_of(name@, value@),
{
    let mut members: Vec<(String, Json)> = Vec::new();
    members.push((name.to_owned(), value));
    assert(members_view(members@) =~= seq![(name@, value@)]);
    Json::object(members)
}

/// A text, or null.
pub open spec fn text_or_null(text: Option<Seq<char>>) -> JsonView {
    match text {
        Some(text) => JsonView::Str(text),
        None => JsonView::Null,
    }
}

fn new_text_or_null(text: &Option<String>) -> (r: Json)
    ensures
        r@ == text_or_null(opt_view(*text)),
{
    match text {
        Some(text) => Json::text(text.as_str()),
        None => Json::Null,
    }
}

/// A suggested query to the agent.
pub open spec fn suggestion_json(suggestion: AgentModeSuggestionV2View) -> JsonView {
    JsonView::Object(
        seq![
            ("query"@, JsonView::Str(suggestion.query)),
            ("context_block_ids"@, texts_json(suggestion.context_block_ids)),
        ],
    )
}

fn new_suggestion_json(suggestion: &AgentModeSuggestionV2) -> (r: Json)
    ensures
        r@ == suggestion_json(suggestion@),
{
    let mut members: Vec<(String, Json)> = Vec::new();
    members.push(("query".to_owned(), Json::text(suggestion.query.as_str())));
    members.push(("context_block_ids".to_owned(), Json::texts(&suggestion.context_block_ids)));
    assert(members_view(members@) =~= suggestion_json(suggestion@)->Object_0);
    Json::object(members)
}

/// Suggested commands.
pub open spec fn commands_json(answer: GenerateAIInputSuggestionsResponseV2View) -> JsonView {
    JsonView::Object(
        seq![
            ("commands"@, texts_json(answer.commands)),
            (
                "ai_queries"@,
                JsonView::Array(
                    Seq::new(
                        answer.ai_queries.len(),
                        |i: int| suggestion_json(answer.ai_queries[i]),
                    ),
                ),
            ),
            ("most_likely_action"@, JsonView::Str(answer.most_likely_action)),
        ],
    )
}

impl GenerateAIInputSuggestionsResponseV2 {
    /// The answer in JSON.
    pub fn to_json(&self) -> (r: Json)
        ensures
            r@ == commands_json(self@),
    {
        let mut items: Vec<Json> = Vec::new();
        let mut i: usize = 0;
        while i < self.ai_queries.len()
            invariant
                i <= self.ai_queries.len(),
                items.len() == i,
                forall|k: int|
                    0 <= k < i ==> (#[trigger] items@[k])@ == suggestion_json(
                        self.ai_queries@[k]@,
                    ),
            decreases self.ai_queries.len() - i,
        {
            let item = new_suggestion_json(&self.ai_queries[i]);
            items.push(item);
            i += 1;
        }
        let mut members: Vec<(String, Json)> = Vec::new();
        members.push(("commands".to_owned(), Json::texts(&self.commands)));
        let ghost array = commands_json(self@)->Object_0[1].1;
        assert(views(items@) =~= array->Array_0);
        members.push(("ai_queries".to_owned(), Json::array(items)));
        members.push((
            "most_likely_action".to_owned(),
            Json::text(self.most_likely_action.as_str()),
        ));
        assert(members_view(members@) =~= commands_json(self@)->Object_0);
        Json::object(members)
    }
}

/// Numbers of lines.
pub open spec fn numbers_json(numbers: Seq<usize>) -> JsonView {
    JsonView::Array(Seq::new(numbers.len(), |i: int| uint_json(numbers[i] as u64)))
}

fn new_numbers_json(numbers: &Vec<usize>) -> (r: Json)
    ensures
        r@ == numbers_json(numbers@),
{
    let mut items: Vec<Json> = Vec::new();
    let mut i: usize = 0;
    while i < numbers.len()
        invariant
            i <= numbers.len(),
            items.len() == i,
            forall|k: int|
                0 <= k < i ==> (#[trigger] items@[k])@ == uint_json(numbers@[k] as u64),
        decreases numbers.len() - i,
    {
        items.push(Json::unsigned(numbers[i] as u64));
        i += 1;
    }
    assert(views(items@) =~= numbers_json(numbers@)->Array_0);
    Json::array(items)
}

/// Places in a file.
pub open spec fn locations_json(locations: AMGeneratedFileLocationsView) -> JsonView {
    JsonView::Object(
        seq![
            ("file_name"@, JsonView::Str(locations.file_name)),
            (
                "line_numbers"@,
                match locations.line_numbers {
                    Some(numbers) => numbers_json(numbers),
                    None => JsonView::Null,
                },
            ),
        ],
    )
}

fn new_locations_json(locations: &AMGeneratedFileLocations) -> (r: Json)
    ensures
        r@ == locations_json(locations@),
{
    let numbers = match &locations.line_numbers {
        Some(numbers) => {
            assert(views(numbers@) =~= numbers@);
            new_numbers_json(numbers)
        },
        None => Json::Null,
    };
    let mut members: Vec<(String, Json)> = Vec::new();
    members.push(("file_name".to_owned(), Json::text(locations.file_name.as_str())));
    members.push(("line_numbers".to_owned(), numbers));
    assert(members_view(members@) =~= locations_json(locations@)->Object_0);
    Json::object(members)
}

/// A suggested query about code.
pub open spec fn coding_json(query: AMCodingQueryView) -> JsonView {
    JsonView::Object(
        seq![
            (
                "files"@,
                JsonView::Array(
                    Seq::new(query.files.len(), |i: int| locations_json(query.files[i])),
                ),
            ),
            ("query"@, JsonView::Str(query.query)),
        ],
    )
}

fn new_coding_json(query: &AMCodingQuery) -> (r: Json)
    ensures
        r@ == coding_json(query@),
{
    let mut items: Vec<Json> = Vec::new();
    let mut i: usize = 0;
    while i < query.files.len()
        invariant
            i <= query.files.len(),
            items.len() == i,
            forall|k: int|
                0 <= k < i ==> (#[trigger] items@[k])@ == locations_json(query.files@[k]@),
        decreases query.files.len() - i,
    {
        let item = new_locations_json(&query.files[i]);
        items.push(item);
        i += 1;
    }
    let mut members: Vec<(String, Json)> = Vec::new();
    let ghost array = coding_json(query@)->Object_0[0].1;
    assert(views(items@) =~= array->Array_0);
    members.push(("files".to_owned(), Json::array(items)));
    members.push(("query".to_owned(), Json::text(query.query.as_str())));
    assert(members_view(members@) =~= coding_json(query@)->Object_0);
    Json::object(members)
}

/// A suggestion, under the name of its form.
pub open spec fn am_suggestion_json(suggestion: AMSuggestionView) -> JsonView {
    match suggestion {
        AMSuggestionView::Simple(simple) => object_of(
            "simple"@,
            JsonView::Object(
                seq![
                    ("query"@, JsonView::Str(simple.query)),
                    ("should_plan_task"@, JsonView::Bool(simple.should_plan_task)),
                ],
            ),
        ),
        AMSuggestionView::Coding(coding) => object_of("coding"@, coding_json(coding)),
    }
}

fn new_am_suggestion_json(suggestion: &AMSuggestion) -> (r: Json)
    ensures
        r@ == am_suggestion_json(suggestion@),
{
    match suggestion {
        AMSuggestion::Simple(simple) => {
            let mut members: Vec<(String, Json)> = Vec::new();
            members.push(("query".to_owned(), Json::text(simple.query.as_str())));
            members.push(("should_plan_task".to_owned(), Json::Bool(simple.should_plan_task)));
            assert(members_view(members@) =~= seq![
                ("query"@, JsonView::Str(simple@.query)),
                ("should_plan_task"@, JsonView::Bool(simple@.should_plan_task)),
            ]);
            new_object_of("simple", Json::object(members))
        },
        AMSuggestion::Coding(coding) => new_object_of("coding", new_coding_json(coding)),
    }
}

/// A suggested query, or null, and the identifier of the answer.
pub open spec fn am_response_json(answer: GenerateAMQuerySuggestionsResponseView) -> JsonView {
    JsonView::Object(
        seq![
            ("id"@, JsonView::Str(answer.id)),
            (
                "suggestion"@,
                match answer.suggestion {
                    Some(suggestion) => am_suggestion_json(suggestion),
                    None => JsonView::Null,
                },
            ),
        ],
    )
}

impl GenerateAMQuerySuggestionsResponse {
    /// The answer in JSON.
    pub fn to_json(&self) -> (r: Json)
        ensures
            r@ == am_response_json(self@),
    {
        let suggestion = match &self.suggestion {
            Some(suggestion) => new_am_suggestion_json(suggestion),
            None => Json::Null,
        };
        let mut members: Vec<(String, Json)> = Vec::new();
        members.push(("id".to_owned(), Json::text(self.id.as_str())));
        members.push(("suggestion".to_owned(), suggestion));
        assert(members_view(members@) =~= am_response_json(self@)->Object_0);
        Json::object(members)
    }
}

/// The answer with the query that is completed to.
pub fn predicted_query_json(suggestion: &str) -> (r: Json)
    ensures
        r@ == object_of("suggestion"@, JsonView::Str(suggestion@)),
{
    new_object_of("suggestion", Json::text(suggestion))
}

/// The answer with a title.
pub fn block_title_json(title: &str) -> (r: Json)
    ensures
        r@ == object_of("title"@, JsonView::Str(title@)),
{
    new_object_of("title", Json::text(title))
}

/// The answer with the relevant files.
pub fn relevant_files_json(request: &GetRelevantFilesRequest) -> (r: Json)
    ensures
        r@ == object_of("relevant_file_paths"@, texts_json(relevant_files(request@))),
{
    let paths = rank_relevant_files(request);
    new_object_of("relevant_file_paths", Json::texts(&paths))
}

/// The names of headers, in their order.
pub open spec fn header_names(headers: Seq<(Seq<char>, Seq<char>)>) -> Seq<Seq<char>> {
    Seq::new(headers.len(), |i: int| headers[i].0)
}

fn names_of(headers: &Headers) -> (r: Vec<String>)
    ensures
        views(r@) == header_names(headers@),
{
    let entries = headers.entries();
    let mut names: Vec<String> = Vec::new();
    let mut i: usize = 0;
    while i < entries.len()
        invariant
            i <= entries.len(),
            names.len() == i,
            pairs(entries@) == headers@,
            forall|k: int| 0 <= k < i ==> (#[trigger] names@[k])@ == entries@[k].0@,
        decreases entries.len() - i,
    {
        names.push(entries[i].0.clone());
        i += 1;
    }
    assert(views(names@) =~= header_names(headers@));
    names
}

/// What the proxy says of itself. The key is not told, only whether there is one.
pub open spec fn health(config: ConfigView) -> JsonView {
    JsonView::Object(
        seq![
            ("auth_configured"@, JsonView::Bool(config.openai_api_key is Some)),
            ("backend"@, JsonView::Str(config.openai_base_url)),
            ("backend_url_override"@, text_or_null(config.backend_url_override)),
            ("extra_header_names"@, texts_json(header_names(config.extra_headers))),
            ("model_override"@, text_or_null(config.model_override)),
            ("ok"@, JsonView::Bool(true)),
            ("wire_api"@, JsonView::Str(config.wire_api.name())),
        ],
    )
}

/// What the proxy says of itself.
pub fn health_json(config: &Config) -> (r: Json)
    ensures
        r@ == health(config@),
{
    let names = names_of(&config.extra_headers);
    let mut members: Vec<(String, Json)> = Vec::new();
    members.push(("auth_configured".to_owned(), Json::Bool(config.openai_api_key.is_some())));
    members.push(("backend".to_owned(), Json::text(config.openai_base_url.as_str())));
    members.push((
        "backend_url_override".to_owned(),
        new_text_or_null(&config.backend_url_override),
    ));
    members.push(("extra_header_names".to_owned(), Json::texts(&names)));
    members.push(("model_override".to_owned(), new_text_or_null(&config.model_override)));
    members.push(("ok".to_owned(), Json::Bool(true)));
    members.push(("wire_api".to_owned(), Json::text(config.wire_api.as_str())));
    assert(members_view(members@) =~= health(config@)->Object_0);
    Json::object(members)
}

/// The secrets of the configuration do not show in its health: the key and the values of headers do
/// not matter to it.
pub proof fn lemma_health_keeps_secrets(config: ConfigView, other: ConfigView)
    requires
        other == (ConfigView {
            openai_api_key: other.openai_api_key,
            extra_headers: other.extra_headers,
            ..config
        }),
        config.openai_api_key is Some <==> other.openai_api_key is Some,
        header_names(config.extra_headers) == header_names(other.extra_headers),
    ensures
        health(config) == health(other),
{
}

proof fn lemma_members_of_suggestion(x: AgentModeSuggestionV2View)
    ensures
        suggestion_json(x).get("query"@) == Some(suggestion_json(x)->Object_0[0].1),
        suggestion_json(x).get("context_block_ids"@) == Some(suggestion_json(x)->Object_0[1].1),
{
    reveal_strlit("query");
    reveal_strlit("context_block_ids");
    assert("query"@.len() != "context_block_ids"@.len());
    let members = suggestion_json(x)->Object_0;
    assert(members[0].0 == "query"@);
    assert(members[1].0 == "context_block_ids"@);
    lemma_last_member_counts(members, 0);
    lemma_last_member_counts(members, 1);
}

proof fn lemma_members_of_commands(x: GenerateAIInputSuggestionsResponseV2View)
    ensures
        commands_json(x).get("commands"@) == Some(commands_json(x)->Object_0[0].1),
        commands_json(x).get("ai_queries"@) == Some(commands_json(x)->Object_0[1].1),
        commands_json(x).get("most_likely_action"@) == Some(commands_json(x)->Object_0[2].1),
{
    reveal_strlit("commands");
    reveal_strlit("ai_queries");
    reveal_strlit("most_likely_action");
    assert("commands"@.len() != "ai_queries"@.len());
    assert("commands"@.len() != "most_likely_action"@.len());
    assert("ai_queries"@.len() != "most_likely_action"@.len());
    let members = commands_json(x)->Object_0;
    assert(members[0].0 == "commands"@);
    assert(members[1].0 == "ai_queries"@);
    assert(members[2].0 == "most_likely_action"@);
    lemma_last_member_counts(members, 0);
    lemma_last_member_counts(members, 1);
    lemma_last_member_counts(members, 2);
}

proof fn lemma_members_of_locations(x: AMGeneratedFileLocationsView)
    ensures
        locations_json(x).get("file_name"@) == Some(locations_json(x)->Object_0[0].1),
        locations_json(x).get("line_numbers"@) == Some(locations_json(x)->Object_0[1].1),
{
    reveal_strlit("file_name");
    reveal_strlit("line_numbers");
    assert("file_name"@.len() != "line_numbers"@.len());
    let members = locations_json(x)->Object_0;
    assert(members[0].0 == "file_name"@);
    assert(members[1].0 == "line_numbers"@);
    lemma_last_member_counts(members, 0);
    lemma_last_member_counts(members, 1);
}

proof fn lemma_members_of_coding(x: AMCodingQueryView)
    ensures
        coding_json(x).get("files"@) == Some(coding_json(x)->Object_0[0].1),
        coding_json(x).get("query"@) == Some(coding_json(x)->Object_0[1].1),
{
    reveal_strlit("files");
    reveal_strlit("query");
    assert("files"@[0] != "query"@[0]);
    let members = coding_json(x)->Object_0;
    assert(members[0].0 == "files"@);
    assert(members[1].0 == "query"@);
    lemma_last_member_counts(members, 0);
    lemma_last_member_counts(members, 1);
}

proof fn lemma_members_of_am_response(x: GenerateAMQuerySuggestionsResponseView)
    ensures
        am_response_json(x).get("id"@) == Some(am_response_json(x)->Object_0[0].1),
        am_response_json(x).get("suggestion"@) == Some(am_response_json(x)->Object_0[1].1),
{
    reveal_strlit("id");
    reveal_strlit("suggestion");
    assert("id"@.len() != "suggestion"@.len());
    let members = am_response_json(x)->Object_0;
    assert(members[0].0 == "id"@);
    assert(members[1].0 == "suggestion"@);
    lemma_last_member_counts(members, 0);
    lemma_last_member_counts(members, 1);
}

proof fn lemma_members_of_health(x: ConfigView)
    ensures
        health(x).get("auth_configured"@) == Some(health(x)->Object_0[0].1),
        health(x).get("backend"@) == Some(health(x)->Object_0[1].1),
        health(x).get("backend_url_override"@) == Some(health(x)->Object_0[2].1),
        health(x).get("extra_header_names"@) == Some(health(x)->Object_0[3].1),
        health(x).get("model_override"@) == Some(health(x)->Object_0[4].1),
        health(x).get("ok"@) == Some(health(x)->Object_0[5].1),
        health(x).get("wire_api"@) == Some(health(x)->Object_0[6].1),
{
    reveal_strlit("auth_configured");
    reveal_strlit("backend");
    reveal_strlit("backend_url_override");
    reveal_strlit("extra_header_names");
    reveal_strlit("model_override");
    reveal_strlit("ok");
    reveal_strlit("wire_api");
    assert("auth_configured"@.len() != "backend"@.len());
    assert("auth_configured"@.len() != "backend_url_override"@.len());
    assert("auth_configured"@.len() != "extra_header_names"@.len());
    assert("auth_configured"@.len() != "model_override"@.len());
    assert("auth_configured"@.len() != "ok"@.len());
    assert("auth_configured"@.len() != "wire_api"@.len());
    assert("backend"@.len() != "backend_url_override"@.len());
    assert("backend"@.len() != "extra_header_names"@.len());
    assert("backend"@.len() != "model_override"@.len());
    assert("backend"@.len() != "ok"@.len());
    assert("backend"@.len() != "wire_api"@.len());
    assert("backend_url_override"@.len() != "extra_header_names"@.len());
    assert("backend_url_override"@.len() != "model_override"@.len());
    assert("backend_url_override"@.len() != "ok"@.len());
    assert("backend_url_override"@.len() != "wire_api"@.len());
    assert("extra_header_names"@.len() != "model_override"@.len());
    assert("extra_header_names"@.len() != "ok"@.len());
    assert("extra_header_names"@.len() != "wire_api"@.len());
    assert("model_override"@.len() != "ok"@.len());
    assert("model_override"@.len() != "wire_api"@.len());
    assert("ok"@.len() != "wire_api"@.len());
    let members = health(x)->Object_0;
    assert(members[0].0 == "auth_configured"@);
    assert(members[1].0 == "backend"@);
    assert(members[2].0 == "backend_url_override"@);
    assert(members[3].0 == "extra_header_names"@);
    assert(members[4].0 == "model_override"@);
    assert(members[5].0 == "ok"@);
    assert(members[6].0 == "wire_api"@);
    lemma_last_member_counts(members, 0);
    lemma_last_member_counts(members, 1);
    lemma_last_member_counts(members, 2);
    lemma_last_member_counts(members, 3);
    lemma_last_member_counts(members, 4);
    lemma_last_member_counts(members, 5);
    lemma_last_member_counts(members, 6);
}

/// Suggested commands are answered as JSON: the commands in their order, the queries, and the most
/// likely command.
pub proof fn lemma_commands_are_answered(answer: GenerateAIInputSuggestionsResponseV2View, i: int)
    ensures
        ({
            let json = commands_json(answer);
            &&& json.get("most_likely_action"@) == Some(JsonView::Str(answer.most_likely_action))
            &&& json.get("commands"@) is Some
            &&& lists_texts(json.get("commands"@), answer.commands)
            &&& json.get_array("ai_queries"@) is Some
            &&& json.get_array("ai_queries"@)->0.len() == answer.ai_queries.len()
            &&& 0 <= i < answer.ai_queries.len() ==> ({
                let query = json.get_array("ai_queries"@)->0[i];
                &&& query.get("query"@) == Some(JsonView::Str(answer.ai_queries[i].query))
                &&& query.get("context_block_ids"@) is Some
                &&& lists_texts(
                    query.get("context_block_ids"@),
                    answer.ai_queries[i].context_block_ids,
                )
            })
        }),
{
    lemma_members_of_commands(answer);
    if 0 <= i < answer.ai_queries.len() {
        lemma_members_of_suggestion(answer.ai_queries[i]);
    }
}

/// A suggested query is answered as JSON, under the name of its kind; no suggestion is null.
pub proof fn lemma_queries_are_answered(answer: GenerateAMQuerySuggestionsResponseView, i: int)
    ensures
        ({
            let json = am_response_json(answer);
            &&& json.get("id"@) == Some(JsonView::Str(answer.id))
            &&& json.get("suggestion"@) is Some
            &&& answer.suggestion is None ==> json.get("suggestion"@) == Some(JsonView::Null)
            &&& answer.suggestion matches Some(AMSuggestionView::Simple(simple)) ==> ({
                let said = json.get("suggestion"@)->0.get("simple"@);
                &&& said is Some
                &&& said->0.get("query"@) == Some(JsonView::Str(simple.query))
                &&& said->0.get("should_plan_task"@) == Some(
                    JsonView::Bool(simple.should_plan_task),
                )
            })
            &&& answer.suggestion matches Some(AMSuggestionView::Coding(coding)) ==> ({
                let said = json.get("suggestion"@)->0.get("coding"@);
                &&& said is Some
                &&& said->0.get("query"@) == Some(JsonView::Str(coding.query))
                &&& said->0.get_array("files"@) is Some
                &&& said->0.get_array("files"@)->0.len() == coding.files.len()
                &&& 0 <= i < coding.files.len() ==> ({
                    let file = said->0.get_array("files"@)->0[i];
                    &&& file.get("file_name"@) == Some(JsonView::Str(coding.files[i].file_name))
                    &&& coding.files[i].line_numbers is None ==> file.get("line_numbers"@) == Some(
                        JsonView::Null,
                    )
                    &&& coding.files[i].line_numbers matches Some(numbers) ==> file.get_array(
                        "line_numbers"@,
                    ) is Some && file.get_array("line_numbers"@)->0.len() == numbers.len() && (
                    forall|k: int|
                        0 <= k < numbers.len() ==> (#[trigger] file.get_array(
                            "line_numbers"@,
                        )->0[k]).as_u64() == Some(numbers[k] as u64))
                })
            })
        }),
{
    lemma_members_of_am_response(answer);
    if answer.suggestion is Some {
        match answer.suggestion->0 {
            AMSuggestionView::Simple(simple) => {
                reveal_strlit("query");
                reveal_strlit("should_plan_task");
                assert("query"@.len() != "should_plan_task"@.len());
                let inner = seq![
                    ("query"@, JsonView::Str(simple.query)),
                    ("should_plan_task"@, JsonView::Bool(simple.should_plan_task)),
                ];
                lemma_last_member_counts(seq![("simple"@, JsonView::Object(inner))], 0);
                lemma_last_member_counts(inner, 0);
                lemma_last_member_counts(inner, 1);
            },
            AMSuggestionView::Coding(coding) => {
                lemma_last_member_counts(seq![("coding"@, coding_json(coding))], 0);
                lemma_members_of_coding(coding);
                if 0 <= i < coding.files.len() {
                    lemma_members_of_locations(coding.files[i]);
                }
            },
        }
    }
}

/// The health of the proxy says where requests go and how; the key and the values of headers are
/// not in it.
pub proof fn lemma_health_says(config: ConfigView, i: int)
    ensures
        ({
            let json = health(config);
            &&& json.get("ok"@) == Some(JsonView::Bool(true))
            &&& json.get("backend"@) == Some(JsonView::Str(config.openai_base_url))
            &&& json.get("auth_configured"@) == Some(
                JsonView::Bool(config.openai_api_key is Some),
            )
            &&& config.backend_url_override matches Some(url) ==> json.get("backend_url_override"@)
                == Some(JsonView::Str(url))
            &&& config.backend_url_override is None ==> json.get("backend_url_override"@) == Some(
                JsonView::Null,
            )
            &&& config.model_override matches Some(model) ==> json.get("model_override"@) == Some(
                JsonView::Str(model),
            )
            &&& config.model_override is None ==> json.get("model_override"@) == Some(
                JsonView::Null,
            )
            &&& config.wire_api == WireApi::ChatCompletions ==> json.get("wire_api"@) == Some(
                JsonView::Str("chat_completions"@),
            )
            &&& config.wire_api == WireApi::Responses ==> json.get("wire_api"@) == Some(
                JsonView::Str("responses"@),
            )
            &&& json.get_array("extra_header_names"@) is Some
            &&& json.get_array("extra_header_names"@)->0.len() == config.extra_headers.len()
            &&& 0 <= i < config.extra_headers.len() ==> json.get_array("extra_header_names"@)->0[i]
                == JsonView::Str(config.extra_headers[i].0)
        }),
{
    lemma_members_of_health(config);
}

/// What came of a question: the text of the answer, or what went wrong.
pub proof fn lemma_replies_are_read(
    wire_api: WireApi,
    error: Seq<char>,
    status: Seq<char>,
    body: Seq<char>,
    feature: Seq<char>,
    answer: Seq<char>,
)
    ensures
        reply_text(wire_api, BackendReplyView::Unreachable(error), feature, answer) == Err::<
            Seq<char>,
            Seq<char>,
        >("Failed to reach BYOB backend for "@ + feature + ": "@ + error),
        body.len() <= 1200 ==> reply_text(
            wire_api,
            BackendReplyView::Refused(RefusalView { status, body }),
            feature,
            answer,
        ) == Err::<Seq<char>, Seq<char>>(
            "BYOB backend returned HTTP "@ + status + " for "@ + feature + ": "@ + body,
        ),
        body_text(wire_api, body) matches Ok(text) ==> reply_text(
            wire_api,
            BackendReplyView::Answered(body),
            feature,
            answer,
        ) == Ok::<Seq<char>, Seq<char>>(text),
        body_text(wire_api, body) matches Err(message) ==> reply_text(
            wire_api,
            BackendReplyView::Answered(body),
            feature,
            answer,
        ) == Err::<Seq<char>, Seq<char>>(
            "Unable to parse BYOB "@ + answer + " response: "@ + message
        ),
{
}

/// A question is answered at once where that can be done without a backend, and has to be where no
/// key is configured.
pub proof fn lemma_what_is_answered_at_once(
    request: GenerateAIInputSuggestionsRequestView,
    title: GenerateBlockTitleRequestView,
    config: ConfigView,
)
    ensures
        local_suggestion(request) is Some ==> command_at_once(request, config) == local_suggestion(
            request,
        ),
        local_suggestion(request) is None && config.openai_api_key is Some ==> command_at_once(
            request,
            config,
        ) is None,
        local_suggestion(request) is None && config.openai_api_key is None ==> (command_at_once(
            request,
            config,
        ) matches Some(answer) && answer.commands.len() == 0 && answer.ai_queries.len() == 0
            && answer.most_likely_action.len() == 0),
        local_title(title.command) is Some ==> title_at_once(title, config) == local_title(
            title.command,
        ),
        local_title(title.command) is None && config.openai_api_key is Some ==> title_at_once(
            title,
            config,
        ) is None,
        local_title(title.command) is None && config.openai_api_key is None ==> title_at_once(
            title,
            config,
        ) == Some(fallback_title(title.command)),
{
}

/// What the client is told of the reply to each question.
pub proof fn lemma_what_replies_become(
    request: GenerateAIInputSuggestionsRequestView,
    partial_query: Seq<char>,
    wire_api: WireApi,
    body: Seq<char>,
    error: Seq<char>,
)
    ensures
        command_from_reply(request, wire_api, BackendReplyView::Unreachable(error)) == Err::<
            GenerateAIInputSuggestionsResponseV2View,
            Seq<char>,
        >("Failed to reach BYOB backend for "@ + "input suggestions"@ + ": "@ + error),
        prediction(partial_query, wire_api, BackendReplyView::Unreachable(error)) == Err::<
            Seq<char>,
            Seq<char>,
        >("Failed to reach BYOB backend for "@ + "partial agent query prediction"@ + ": "@ + error),
        title_from_reply(wire_api, BackendReplyView::Unreachable(error)) == Err::<
            Seq<char>,
            Seq<char>,
        >("Failed to reach BYOB backend for "@ + "block title generation"@ + ": "@ + error),
        body_text(wire_api, body) matches Ok(text) ==> title_from_reply(
            wire_api,
            BackendReplyView::Answered(body),
        ) == Ok::<Seq<char>, Seq<char>>(title_of(text)),
        body_text(wire_api, body) matches Ok(text) ==> command_from_reply(
            request,
            wire_api,
            BackendReplyView::Answered(body),
        ) == Ok::<GenerateAIInputSuggestionsResponseV2View, Seq<char>>(
            answer_of(
                request,
                text_candidates(
                    without_fences(trimmed(text)),
                    json_in(without_fences(trimmed(text))),
                ),
            ),
        ),
        body_text(wire_api, body) matches Ok(text) ==> prediction(
            partial_query,
            wire_api,
            BackendReplyView::Answered(body),
        ) == Ok::<Seq<char>, Seq<char>>(
            completed_query(
                without_fences(trimmed(text)),
                json_in(without_fences(trimmed(text))),
                partial_query,
            ),
        ),
        body_text(wire_api, body) is Err ==> command_from_reply(
            request,
            wire_api,
            BackendReplyView::Answered(body),
        ) is Err && prediction(partial_query, wire_api, BackendReplyView::Answered(body)) is Err
            && title_from_reply(wire_api, BackendReplyView::Answered(body)) is Err,
{
}

} // verus!
