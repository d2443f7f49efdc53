//! How a request is sent to a backend: where to, with which headers, and as which JSON.
use crate::chat::{
    OpenAIChatMessage, OpenAIChatMessageView, OpenAIChatRequest, OpenAIChatRequestView,
    OpenAIResponsesRequest, OpenAIResponsesRequestView, OpenAIResponsesTool,
    OpenAIResponsesToolView, OpenAITool, OpenAIToolView,
};
use crate::config::{Config, ConfigView, WireApi};
use crate::headers::{pairs, Headers};
use crate::ids::{fresh_id, new_id};
use crate::json::{lemma_last_member_counts, lemma_no_such_member, member_named, Json, JsonView};
use crate::json::members_view;
use crate::requests::{BackendRequest, BackendRequestView};
use crate::text::{
    contains, ends_with, has_suffix, holds_text, lemma_lower_case, lowered, opt_view,
    same_ignoring_case, trim_end_class, trim_end_of, views, CharClass,
};
use crate::wire::{OpenAIMessageToolCall, OpenAIMessageToolCallView};
use vstd::prelude::*;

verus! {

// ---------------------------------------------------------------------------------------------
// Where to
// ---------------------------------------------------------------------------------------------
/// The URL of an endpoint below a base URL; a base URL that ends with the endpoint is that URL.
pub open spec fn endpoint_url(base_url: Seq<char>, endpoint: Seq<char>) -> Seq<char> {
    let base = trim_end_of(base_url, CharClass::Is('/'));
    if has_suffix(base, endpoint) {
        base
    } else {
        base + "/"@ + endpoint
    }
}

/// The URL of an endpoint below a base URL.
pub fn join_endpoint(base_url: &str, endpoint: &str) -> (r: String)
    ensures
        r@ == endpoint_url(base_url@, endpoint@),
{
    let base = trim_end_class(base_url, CharClass::Is('/'));
    if ends_with(base, endpoint) {
        base.to_owned()
    } else {
        let mut url = base.to_owned();
        url.append("/");
        url.append(endpoint);
        url
    }
}

/// What does not end with a character of the class is not trimmed at its end.
proof fn lemma_trim_end_stops(s: Seq<char>, class: CharClass)
    ensures
        trim_end_of(s, class).len() > 0 ==> !class.has(trim_end_of(s, class).last()),
        trim_end_of(trim_end_of(s, class), class) == trim_end_of(s, class),
    decreases s.len(),
{
    if s.len() > 0 && class.has(s.last()) {
        lemma_trim_end_stops(s.drop_last(), class);
    }
}

/// Adding the endpoint to a URL that has it changes nothing.
pub proof fn lemma_endpoint_is_added_once(base_url: Seq<char>, endpoint: Seq<char>)
    requires
        endpoint.len() > 0,
        endpoint.last() != '/',
    ensures
        endpoint_url(
            endpoint_url(base_url, endpoint),
            endpoint,
        ) == endpoint_url(base_url, endpoint),
{
    let class = CharClass::Is('/');
    let base = trim_end_of(base_url, class);
    let url = endpoint_url(base_url, endpoint);
    lemma_trim_end_stops(base_url, class);
    if !has_suffix(base, endpoint) {
        assert(url.last() == endpoint.last());
        assert(url.skip(url.len() - endpoint.len()) =~= endpoint);
    }
}

/// The URL that requests are sent to.
pub open spec fn backend_url(config: ConfigView) -> Seq<char> {
    match config.backend_url_override {
        Some(url) => url,
        None => endpoint_url(config.openai_base_url, config.wire_api.path()),
    }
}

/// Whether the backend is Oracle Code Assist.
pub open spec fn oracle_backend(base_url: Seq<char>) -> bool {
    holds_text(base_url, "oraclecloud.com"@) || holds_text(base_url, "aiservice"@)
}

/// Whether the backend is Oracle Code Assist.
pub fn is_oracle_code_assist_backend(base_url: &str) -> (r: bool)
    ensures
        r == oracle_backend(base_url@),
{
    contains(base_url, "oraclecloud.com") || contains(base_url, "aiservice")
}

// ---------------------------------------------------------------------------------------------
// With which headers
// ---------------------------------------------------------------------------------------------
/// Whether a header is configured under a name, in any case of the letters.
pub open spec fn configured(headers: Seq<(Seq<char>, Seq<char>)>, name: Seq<char>) -> bool {
    exists|i: int| 0 <= i < headers.len() && lowered((#[trigger] headers[i]).0) == lowered(name)
}

/// The headers without those named `authorization`, in any case of the letters.
pub open spec fn without_authorization(headers: Seq<(Seq<char>, Seq<char>)>) -> Seq<
    (Seq<char>, Seq<char>),
>
    decreases headers.len(),
{
    if headers.len() == 0 {
        Seq::empty()
    } else {
        let before = without_authorization(headers.drop_last());
        if lowered(headers.last().0) == lowered("authorization"@) {
            before
        } else {
            before.push(headers.last())
        }
    }
}

/// A header, unless one of its name is configured.
pub open spec fn unless_configured(
    headers: Seq<(Seq<char>, Seq<char>)>,
    name: Seq<char>,
    value: Seq<char>,
) -> Seq<(Seq<char>, Seq<char>)> {
    if configured(headers, name) {
        Seq::empty()
    } else {
        seq![(name, value)]
    }
}

/// The headers of a request: that a stream is accepted, where one is asked for; those that are
/// configured; and those that Oracle Code Assist asks for.
pub open spec fn request_headers(
    config: ConfigView,
    streams: bool,
    request_id: Seq<char>,
) -> Seq<(Seq<char>, Seq<char>)> {
    let accept = if config.wire_api == WireApi::Responses && streams {
        seq![("Accept"@, "text/event-stream"@)]
    } else {
        Seq::empty()
    };
    let sent = accept + without_authorization(config.extra_headers);
    if oracle_backend(config.openai_base_url) {
        sent + unless_configured(config.extra_headers, "opc-request-id"@, request_id)
            + unless_configured(config.extra_headers, "client-ide"@, "codex"@) + unless_configured(
            config.extra_headers,
            "client-ide-version"@,
            "0"@,
        )
    } else {
        sent
    }
}

/// A call of a backend: where to, with which key, and with which headers.
#[derive(Debug)]
pub struct BackendCall {
    pub url: String,
    pub bearer: Option<String>,
    pub headers: Vec<(String, String)>,
}

/// The model of [`BackendCall`].
#[verifier::ext_equal]
pub struct BackendCallView {
    pub url: Seq<char>,
    pub bearer: Option<Seq<char>>,
    pub headers: Seq<(Seq<char>, Seq<char>)>,
}

impl View for BackendCall {
    type V = BackendCallView;

    open spec fn view(&self) -> BackendCallView {
        BackendCallView {
            url: self.url@,
            bearer: opt_view(self.bearer),
            headers: pairs(self.headers@),
        }
    }
}

/// The call of the backend.
pub open spec fn backend_call(
    config: ConfigView,
    streams: bool,
    request_id: Seq<char>,
) -> BackendCallView {
    BackendCallView {
        url: backend_url(config),
        bearer: config.openai_api_key,
        headers: request_headers(config, streams, request_id),
    }
}

/// Whether a header is configured under a name.
fn is_configured(headers: &Headers, name: &str) -> (r: bool)
    ensures
        r == configured(headers@, name@),
{
    let entries = headers.entries();
    let mut i: usize = 0;
    while i < entries.len()
        invariant
            i <= entries.len(),
            pairs(entries@) == headers@,
            forall|k: int| 0 <= k < i ==> lowered((#[trigger] headers@[k]).0) != lowered(name@),
        decreases entries.len() - i,
    {
        assert(headers@[i as int].0 == entries@[i as int].0@);
        if same_ignoring_case(entries[i].0.as_str(), name) {
            return true;
        }
        i += 1;
    }
    false
}

/// Adds a header, unless one of its name is configured.
fn add_header_if_absent(
    sent: &mut Vec<(String, String)>,
    headers: &Headers,
    name: &str,
    value: String,
)
    ensures
        pairs(final(sent)@) == pairs(old(sent)@) + unless_configured(headers@, name@, value@),
{
    let ghost before = pairs(sent@);
    if !is_configured(headers, name) {
        sent.push((name.to_owned(), value));
    }
    assert(pairs(sent@) =~= before + unless_configured(headers@, name@, value@));
}

/// Adds the configured headers without those named `authorization`.
fn add_configured(sent: &mut Vec<(String, String)>, headers: &Headers)
    ensures
        pairs(final(sent)@) == pairs(old(sent)@) + without_authorization(headers@),
{
    let entries = headers.entries();
    let ghost start = pairs(sent@);
    let ghost all = headers@;
    let mut i: usize = 0;
    assert(all.take(0) == Seq::<(Seq<char>, Seq<char>)>::empty());
    assert(start + without_authorization(all.take(0)) =~= start);
    while i < entries.len()
        invariant
            i <= entries.len(),
            pairs(entries@) == all,
            pairs(sent@) == start + without_authorization(all.take(i as int)),
        decreases entries.len() - i,
    {
        assert(all.take(i + 1).drop_last() == all.take(i as int));
        let ghost before = pairs(sent@);
        assert(all[i as int] == (entries@[i as int].0@, entries@[i as int].1@));
        if !same_ignoring_case(entries[i].0.as_str(), "authorization") {
            sent.push((entries[i].0.clone(), entries[i].1.clone()));
            assert(pairs(sent@) =~= before.push(all[i as int]));
            assert(before.push(all[i as int]) =~= start + without_authorization(
                all.take(i as int),
            ).push(all[i as int]));
        }
        i += 1;
    }
    assert(all.take(all.len() as int) == all);
}

/// The call of the backend, under the given identifier.
pub fn plan_backend_call(config: &Config, streams: bool, request_id: String) -> (r: BackendCall)
    ensures
        r@ == backend_call(config@, streams, request_id@),
{
    let url = match &config.backend_url_override {
        Some(url) => url.clone(),
        None => join_endpoint(config.openai_base_url.as_str(), config.wire_api.endpoint()),
    };
    let bearer = match &config.openai_api_key {
        Some(key) => Some(key.clone()),
        None => None,
    };
    let mut headers: Vec<(String, String)> = Vec::new();
    if config.wire_api == WireApi::Responses && streams {
        headers.push(("Accept".to_owned(), "text/event-stream".to_owned()));
        assert(pairs(headers@) =~= seq![("Accept"@, "text/event-stream"@)]);
    } else {
        assert(pairs(headers@) =~= Seq::<(Seq<char>, Seq<char>)>::empty());
    }
    add_configured(&mut headers, &config.extra_headers);
    if is_oracle_code_assist_backend(config.openai_base_url.as_str()) {
        add_header_if_absent(&mut headers, &config.extra_headers, "opc-request-id", request_id);
        add_header_if_absent(
            &mut headers,
            &config.extra_headers,
            "client-ide",
            "codex".to_owned(),
        );
        add_header_if_absent(
            &mut headers,
            &config.extra_headers,
            "client-ide-version",
            "0".to_owned(),
        );
    }
    BackendCall { url, bearer, headers }
}

/// The call of the backend for a request, under a fresh identifier.
pub fn prepare_backend_call(config: &Config, request: &BackendRequest) -> (r: BackendCall)
    ensures
        exists|request_id: Seq<char>|
            #[trigger] fresh_id("byob-"@, request_id) && r@ == backend_call(
                config@,
                request@.streams(),
                request_id,
            ),
{
    plan_backend_call(config, request.stream(), new_id("byob-"))
}

proof fn lemma_without_authorization(headers: Seq<(Seq<char>, Seq<char>)>)
    ensures
        !configured(without_authorization(headers), "authorization"@),
        forall|i: int|
            0 <= i < headers.len() && lowered((#[trigger] headers[i]).0) != lowered(
                "authorization"@,
            ) ==> without_authorization(headers).contains(headers[i]),
    decreases headers.len(),
{
    if headers.len() > 0 {
        let before = without_authorization(headers.drop_last());
        let all = without_authorization(headers);
        lemma_without_authorization(headers.drop_last());
        assert forall|i: int|
            0 <= i < headers.len() && lowered((#[trigger] headers[i]).0) != lowered(
                "authorization"@,
            ) implies all.contains(headers[i]) by {
            if i < headers.len() - 1 {
                assert(headers.drop_last()[i] == headers[i]);
                assert(before.contains(headers[i]));
                let k = choose|k: int| 0 <= k < before.len() && before[k] == headers[i];
                assert(all[k] == headers[i]);
            } else {
                assert(all[all.len() - 1] == headers[i]);
            }
        }
        assert forall|i: int| 0 <= i < all.len() implies lowered((#[trigger] all[i]).0) != lowered(
            "authorization"@,
        ) by {
            if i < before.len() {
                assert(all[i] == before[i]);
            }
        }
    }
}

/// The configuration cannot replace the key: no header that is sent is named `authorization`. Every
/// other configured header is sent.
pub proof fn lemma_configured_headers_are_sent(
    config: ConfigView,
    streams: bool,
    request_id: Seq<char>,
)
    ensures
        !configured(request_headers(config, streams, request_id), "authorization"@),
        forall|i: int|
            0 <= i < config.extra_headers.len() && lowered((#[trigger] config.extra_headers[i]).0)
                != lowered("authorization"@) ==> request_headers(
                config,
                streams,
                request_id,
            ).contains(config.extra_headers[i]),
{
    reveal_strlit("authorization");
    reveal_strlit("Accept");
    reveal_strlit("opc-request-id");
    reveal_strlit("client-ide");
    reveal_strlit("client-ide-version");
    let kept = without_authorization(config.extra_headers);
    lemma_without_authorization(config.extra_headers);
    let sent = request_headers(config, streams, request_id);
    let accept = if config.wire_api == WireApi::Responses && streams {
        seq![("Accept"@, "text/event-stream"@)]
    } else {
        Seq::empty()
    };
    assert forall|i: int|
        0 <= i < config.extra_headers.len() && lowered((#[trigger] config.extra_headers[i]).0)
            != lowered("authorization"@) implies sent.contains(config.extra_headers[i]) by {
        assert(kept.contains(config.extra_headers[i]));
        let k = choose|k: int| 0 <= k < kept.len() && kept[k] == config.extra_headers[i];
        assert(sent[accept.len() + k] == kept[k]);
    }
    assert forall|i: int| 0 <= i < sent.len() implies lowered((#[trigger] sent[i]).0) != lowered(
        "authorization"@,
    ) by {
        if i < accept.len() {
            assert(lowered(sent[i].0).len() == "Accept"@.len());
            assert(lowered("authorization"@).len() == "authorization"@.len());
        } else if i < accept.len() + kept.len() {
            assert(sent[i] == kept[i - accept.len()]);
        } else {
            assert(sent[i].0 == "opc-request-id"@ || sent[i].0 == "client-ide"@ || sent[i].0
                == "client-ide-version"@);
            assert(lowered(sent[i].0).len() == sent[i].0.len());
            assert(lowered("authorization"@).len() == "authorization"@.len());
        }
    }
}

// ---------------------------------------------------------------------------------------------
// As which JSON
// ---------------------------------------------------------------------------------------------
/// A member, where it is there.
pub open spec fn opt_member(name: Seq<char>, value: Option<JsonView>) -> Seq<
    (Seq<char>, JsonView),
> {
    match value {
        Some(value) => seq![(name, value)],
        None => Seq::empty(),
    }
}

/// A tool call of a message.
pub open spec fn tool_call_json(call: OpenAIMessageToolCallView) -> JsonView {
    JsonView::Object(
        seq![
            ("id"@, JsonView::Str(call.id)),
            ("type"@, JsonView::Str(call.kind)),
            (
                "function"@,
                JsonView::Object(
                    seq![
                        ("name"@, JsonView::Str(call.function.name)),
                        ("arguments"@, JsonView::Str(call.function.arguments)),
                    ],
                ),
            ),
        ],
    )
}

fn new_tool_call_json(call: &OpenAIMessageToolCall) -> (r: Json)
    ensures
        r@ == tool_call_json(call@),
{
    let function = vec![
        ("name".to_owned(), Json::text(call.function.name.as_str())),
        ("arguments".to_owned(), Json::text(call.function.arguments.as_str())),
    ];
    let members = vec![
        ("id".to_owned(), Json::text(call.id.as_str())),
        ("type".to_owned(), Json::text(call.kind.as_str())),
        ("function".to_owned(), Json::object(function)),
    ];
    proof {
        let model = tool_call_json(call@)->Object_0;
        assert(members_view(function@) =~= model[2].1->Object_0);
        assert(members_view(members@) =~= model);
    }
    Json::object(members)
}

/// The tool calls of a message.
pub open spec fn tool_calls_json(calls: Seq<OpenAIMessageToolCallView>) -> JsonView {
    JsonView::Array(Seq::new(calls.len(), |i: int| tool_call_json(calls[i])))
}

fn new_tool_calls_json(calls: &Vec<OpenAIMessageToolCall>) -> (r: Json)
    ensures
        r@ == tool_calls_json(views(calls@)),
{
    let mut items: Vec<Json> = Vec::new();
    let mut i: usize = 0;
    while i < calls.len()
        invariant
            i <= calls.len(),
            items.len() == i,
            forall|k: int| 0 <= k < i ==> (#[trigger] items@[k])@ == tool_call_json(calls@[k]@),
        decreases calls.len() - i,
    {
        let item = new_tool_call_json(&calls[i]);
        items.push(item);
        i += 1;
    }
    assert(views(items@) =~= tool_calls_json(views(calls@))->Array_0);
    Json::array(items)
}

/// A text, where it is there.
pub open spec fn opt_text_json(text: Option<Seq<char>>) -> Option<JsonView> {
    match text {
        Some(text) => Some(JsonView::Str(text)),
        None => None,
    }
}

/// A message of a chat; what it does not have is left out.
pub open spec fn message_json(message: OpenAIChatMessageView) -> JsonView {
    JsonView::Object(
        seq![("role"@, JsonView::Str(message.role))] + opt_member(
            "content"@,
            opt_text_json(message.content),
        ) + opt_member("tool_call_id"@, opt_text_json(message.tool_call_id)) + opt_member(
            "tool_calls"@,
            match message.tool_calls {
                Some(calls) => Some(tool_calls_json(calls)),
                None => None,
            },
        ),
    )
}

/// Adds a text, where it is there.
fn push_opt_text(members: &mut Vec<(String, Json)>, name: &str, text: &Option<String>)
    ensures
        members_view(final(members)@) == members_view(old(members)@) + opt_member(
            name@,
            opt_text_json(opt_view(*text)),
        ),
{
    let ghost before = members_view(members@);
    match text {
        Some(text) => {
            members.push((name.to_owned(), Json::text(text.as_str())));
        },
        None => {},
    }
    assert(members_view(members@) =~= before + opt_member(name@, opt_text_json(opt_view(*text))));
}

fn new_message_json(message: &OpenAIChatMessage) -> (r: Json)
    ensures
        r@ == message_json(message@),
{
    let mut members: Vec<(String, Json)> = Vec::new();
    members.push(("role".to_owned(), Json::text(message.role.as_str())));
    assert(members_view(members@) =~= seq![("role"@, JsonView::Str(message@.role))]);
    push_opt_text(&mut members, "content", &message.content);
    push_opt_text(&mut members, "tool_call_id", &message.tool_call_id);
    match &message.tool_calls {
        Some(calls) => {
            members.push(("tool_calls".to_owned(), new_tool_calls_json(calls)));
        },
        None => {},
    }
    assert(members_view(members@) =~= message_json(message@)->Object_0);
    Json::object(members)
}

/// Messages of a chat.
pub open spec fn messages_json(messages: Seq<OpenAIChatMessageView>) -> JsonView {
    JsonView::Array(Seq::new(messages.len(), |i: int| message_json(messages[i])))
}

fn new_messages_json(messages: &Vec<OpenAIChatMessage>) -> (r: Json)
    ensures
        r@ == messages_json(views(messages@)),
{
    let mut items: Vec<Json> = Vec::new();
    let mut i: usize = 0;
    while i < messages.len()
        invariant
            i <= messages.len(),
            items.len() == i,
            forall|k: int| 0 <= k < i ==> (#[trigger] items@[k])@ == message_json(messages@[k]@),
        decreases messages.len() - i,
    {
        let item = new_message_json(&messages[i]);
        items.push(item);
        i += 1;
    }
    assert(views(items@) =~= messages_json(views(messages@))->Array_0);
    Json::array(items)
}

/// A tool in the form of chat completions.
pub open spec fn tool_json(tool: OpenAIToolView) -> JsonView {
    JsonView::Object(
        seq![
            ("type"@, JsonView::Str(tool.kind)),
            (
                "function"@,
                JsonView::Object(
                    seq![
                        ("name"@, JsonView::Str(tool.function.name)),
                        ("description"@, JsonView::Str(tool.function.description)),
                        ("parameters"@, tool.function.parameters),
                    ],
                ),
            ),
        ],
    )
}

fn new_tool_json(tool: &OpenAITool) -> (r: Json)
    ensures
        r@ == tool_json(tool@),
{
    let function = vec![
        ("name".to_owned(), Json::text(tool.function.name.as_str())),
        ("description".to_owned(), Json::text(tool.function.description.as_str())),
        ("parameters".to_owned(), tool.function.parameters.copy()),
    ];
    let members = vec![
        ("type".to_owned(), Json::text(tool.kind.as_str())),
        ("function".to_owned(), Json::object(function)),
    ];
    proof {
        let model = tool_json(tool@)->Object_0;
        assert(members_view(function@) =~= model[1].1->Object_0);
        assert(members_view(members@) =~= model);
    }
    Json::object(members)
}

/// Tools in the form of chat completions, where there are any.
pub open spec fn tools_json(tools: Seq<OpenAIToolView>) -> Option<JsonView> {
    if tools.len() == 0 {
        None
    } else {
        Some(JsonView::Array(Seq::new(tools.len(), |i: int| tool_json(tools[i]))))
    }
}

fn new_tools_json(tools: &Vec<OpenAITool>) -> (r: Option<Json>)
    ensures
        opt_view(r) == tools_json(views(tools@)),
{
    if tools.len() == 0 {
        return None;
    }
    let mut items: Vec<Json> = Vec::new();
    let mut i: usize = 0;
    while i < tools.len()
        invariant
            i <= tools.len(),
            items.len() == i,
            forall|k: int| 0 <= k < i ==> (#[trigger] items@[k])@ == tool_json(tools@[k]@),
        decreases tools.len() - i,
    {
        let item = new_tool_json(&tools[i]);
        items.push(item);
        i += 1;
    }
    assert(views(items@) =~= tools_json(views(tools@))->0->Array_0);
    Some(Json::array(items))
}

/// A tool in the form of responses.
pub open spec fn responses_tool_json(tool: OpenAIResponsesToolView) -> JsonView {
    JsonView::Object(
        seq![
            ("type"@, JsonView::Str(tool.kind)),
            ("name"@, JsonView::Str(tool.name)),
            ("description"@, JsonView::Str(tool.description)),
            ("parameters"@, tool.parameters),
        ],
    )
}

fn new_responses_tool_json(tool: &OpenAIResponsesTool) -> (r: Json)
    ensures
        r@ == responses_tool_json(tool@),
{
    let members = vec![
        ("type".to_owned(), Json::text(tool.kind.as_str())),
        ("name".to_owned(), Json::text(tool.name.as_str())),
        ("description".to_owned(), Json::text(tool.description.as_str())),
        ("parameters".to_owned(), tool.parameters.copy()),
    ];
    assert(members_view(members@) =~= responses_tool_json(tool@)->Object_0);
    Json::object(members)
}

/// Tools in the form of responses, where there are any.
pub open spec fn responses_tools_json(tools: Seq<OpenAIResponsesToolView>) -> Option<JsonView> {
    if tools.len() == 0 {
        None
    } else {
        Some(JsonView::Array(Seq::new(tools.len(), |i: int| responses_tool_json(tools[i]))))
    }
}

fn new_responses_tools_json(tools: &Vec<OpenAIResponsesTool>) -> (r: Option<Json>)
    ensures
        opt_view(r) == responses_tools_json(views(tools@)),
{
    if tools.len() == 0 {
        return None;
    }
    let mut items: Vec<Json> = Vec::new();
    let mut i: usize = 0;
    while i < tools.len()
        invariant
            i <= tools.len(),
            items.len() == i,
            forall|k: int|
                0 <= k < i ==> (#[trigger] items@[k])@ == responses_tool_json(tools@[k]@),
        decreases tools.len() - i,
    {
        let item = new_responses_tool_json(&tools[i]);
        items.push(item);
        i += 1;
    }
    assert(views(items@) =~= responses_tools_json(views(tools@))->0->Array_0);
    Some(Json::array(items))
}

/// The items of an input.
fn copy_items(items: &Vec<Json>) -> (r: Vec<Json>)
    ensures
        views(r@) == views(items@),
{
    let mut r: Vec<Json> = Vec::new();
    let mut i: usize = 0;
    while i < items.len()
        invariant
            i <= items.len(),
            r.len() == i,
            forall|k: int| 0 <= k < i ==> (#[trigger] r@[k])@ == items@[k]@,
        decreases items.len() - i,
    {
        let item = items[i].copy();
        r.push(item);
        i += 1;
    }
    assert(views(r@) =~= views(items@));
    r
}

/// The body of a request for a chat completion.
pub open spec fn chat_request_json(request: OpenAIChatRequestView) -> JsonView {
    JsonView::Object(
        seq![
            ("model"@, JsonView::Str(request.model)),
            ("messages"@, messages_json(request.messages)),
        ] + opt_member("tools"@, tools_json(request.tools)) + seq![
            ("stream"@, JsonView::Bool(request.stream)),
        ],
    )
}

/// The body of a request for a response.
pub open spec fn responses_request_json(request: OpenAIResponsesRequestView) -> JsonView {
    JsonView::Object(
        seq![
            ("model"@, JsonView::Str(request.model)),
            ("input"@, JsonView::Array(request.input)),
        ] + opt_member("tools"@, responses_tools_json(request.tools)) + seq![
            ("stream"@, JsonView::Bool(request.stream)),
            ("store"@, JsonView::Bool(request.store)),
        ],
    )
}

/// The body of a request to a backend.
pub open spec fn request_json(request: BackendRequestView) -> JsonView {
    match request {
        BackendRequestView::Chat(chat) => chat_request_json(chat),
        BackendRequestView::Responses(responses) => responses_request_json(responses),
    }
}

fn new_chat_request_json(request: &OpenAIChatRequest) -> (r: Json)
    ensures
        r@ == chat_request_json(request@),
{
    let mut members: Vec<(String, Json)> = Vec::new();
    members.push(("model".to_owned(), Json::text(request.model.as_str())));
    members.push(("messages".to_owned(), new_messages_json(&request.messages)));
    match new_tools_json(&request.tools) {
        Some(tools) => {
            members.push(("tools".to_owned(), tools));
        },
        None => {},
    }
    members.push(("stream".to_owned(), Json::Bool(request.stream)));
    assert(members_view(members@) =~= chat_request_json(request@)->Object_0);
    Json::object(members)
}

fn new_responses_request_json(request: &OpenAIResponsesRequest) -> (r: Json)
    ensures
        r@ == responses_request_json(request@),
{
    let mut members: Vec<(String, Json)> = Vec::new();
    members.push(("model".to_owned(), Json::text(request.model.as_str())));
    members.push(("input".to_owned(), Json::array(copy_items(&request.input))));
    match new_responses_tools_json(&request.tools) {
        Some(tools) => {
            members.push(("tools".to_owned(), tools));
        },
        None => {},
    }
    members.push(("stream".to_owned(), Json::Bool(request.stream)));
    members.push(("store".to_owned(), Json::Bool(request.store)));
    assert(members_view(members@) =~= responses_request_json(request@)->Object_0);
    Json::object(members)
}

/// The body of a request to a backend.
pub fn backend_request_json(request: &BackendRequest) -> (r: Json)
    ensures
        r@ == request_json(request@),
{
    match request {
        BackendRequest::Chat(chat) => new_chat_request_json(chat),
        BackendRequest::Responses(responses) => new_responses_request_json(responses),
    }
}

// ---------------------------------------------------------------------------------------------
// What is sent where
// ---------------------------------------------------------------------------------------------
/// Requests go to the URL that is given for them; else to the path of the protocol below the base,
/// which is added where the base does not end with it.
pub proof fn lemma_where_requests_go(config: ConfigView, streams: bool, request_id: Seq<char>)
    ensures
        config.backend_url_override matches Some(url) ==> backend_call(
            config,
            streams,
            request_id,
        ).url == url,
        config.backend_url_override is None && config.wire_api == WireApi::ChatCompletions
            && config.openai_base_url.len() > 0 && config.openai_base_url.last() != '/'
            && !has_suffix(config.openai_base_url, "chat/completions"@) ==> backend_call(
            config,
            streams,
            request_id,
        ).url == config.openai_base_url + "/"@ + "chat/completions"@,
        config.backend_url_override is None && config.wire_api == WireApi::Responses
            && config.openai_base_url.len() > 0 && config.openai_base_url.last() != '/'
            && !has_suffix(config.openai_base_url, "responses"@) ==> backend_call(
            config,
            streams,
            request_id,
        ).url == config.openai_base_url + "/"@ + "responses"@,
        config.backend_url_override is None && config.openai_base_url.len() > 0
            && config.openai_base_url.last() != '/' && has_suffix(
            config.openai_base_url,
            config.wire_api.path(),
        ) ==> backend_call(config, streams, request_id).url == config.openai_base_url,
        backend_call(config, streams, request_id).bearer == config.openai_api_key,
{
}

/// Slashes at the end of the base do not matter.
pub proof fn lemma_end_slashes_do_not_matter(base_url: Seq<char>, endpoint: Seq<char>)
    ensures
        endpoint_url(base_url + seq!['/'], endpoint) == endpoint_url(base_url, endpoint),
{
    assert((base_url + seq!['/']).drop_last() =~= base_url);
    assert((base_url + seq!['/']).last() == '/');
}

/// Headers that a backend of Oracle wants are sent to it alone, and only where they are not
/// configured; other backends get the configured headers and nothing else.
pub proof fn lemma_headers_for_oracle(config: ConfigView, streams: bool, request_id: Seq<char>)
    ensures
        ({
            let sent = request_headers(config, streams, request_id);
            let oracle = holds_text(config.openai_base_url, "oraclecloud.com"@) || holds_text(
                config.openai_base_url,
                "aiservice"@,
            );
            &&& oracle && !configured(config.extra_headers, "opc-request-id"@) ==> sent.contains(
                ("opc-request-id"@, request_id),
            )
            &&& oracle && !configured(config.extra_headers, "client-ide"@) ==> sent.contains(
                ("client-ide"@, "codex"@),
            )
            &&& oracle && !configured(
                config.extra_headers,
                "client-ide-version"@,
            ) ==> sent.contains(
                ("client-ide-version"@, "0"@),
            )
            &&& oracle && configured(config.extra_headers, "opc-request-id"@) && configured(
                config.extra_headers,
                "client-ide"@,
            ) && configured(config.extra_headers, "client-ide-version"@) && !streams ==> sent
                == without_authorization(config.extra_headers)
            &&& !oracle && !streams ==> sent == without_authorization(config.extra_headers)
            &&& !oracle && config.wire_api == WireApi::ChatCompletions ==> sent
                == without_authorization(config.extra_headers)
            &&& !oracle && streams && config.wire_api == WireApi::Responses ==> sent == seq![
                ("Accept"@, "text/event-stream"@),
            ] + without_authorization(config.extra_headers)
            &&& streams && config.wire_api == WireApi::Responses ==> sent.len() > 0 && sent[0] == (
                "Accept"@,
                "text/event-stream"@,
            )
        }),
{
    let accept = if config.wire_api == WireApi::Responses && streams {
        seq![("Accept"@, "text/event-stream"@)]
    } else {
        Seq::empty()
    };
    let kept = without_authorization(config.extra_headers);
    let first = accept + kept;
    let headers = config.extra_headers;
    let a = unless_configured(headers, "opc-request-id"@, request_id);
    let b = unless_configured(headers, "client-ide"@, "codex"@);
    let c = unless_configured(headers, "client-ide-version"@, "0"@);
    let sent = request_headers(config, streams, request_id);
    if oracle_backend(config.openai_base_url) {
        assert(sent == first + a + b + c);
        if a.len() > 0 {
            assert(sent[first.len() as int] == ("opc-request-id"@, request_id));
        }
        if b.len() > 0 {
            assert(sent[(first + a).len() as int] == ("client-ide"@, "codex"@));
        }
        if c.len() > 0 {
            assert(sent[(first + a + b).len() as int] == ("client-ide-version"@, "0"@));
        }
        if a.len() == 0 && b.len() == 0 && c.len() == 0 && !streams {
            assert(sent =~= kept);
        }
    } else if accept.len() == 0 {
        assert(sent =~= kept);
    }
}

/// The configured headers are kept in their order, but for the one that would replace the key; its
/// name is found in any case of letters.
pub proof fn lemma_which_headers_are_kept(
    headers: Seq<(Seq<char>, Seq<char>)>,
    name: Seq<char>,
    value: Seq<char>,
)
    ensures
        without_authorization(Seq::empty()) == Seq::<(Seq<char>, Seq<char>)>::empty(),
        lowered(name) == lowered("authorization"@) ==> without_authorization(
            headers.push((name, value)),
        ) == without_authorization(headers),
        lowered(name) != lowered("authorization"@) ==> without_authorization(
            headers.push((name, value)),
        ) == without_authorization(headers).push((name, value)),
        configured(headers.push((name, value)), name),
        configured(headers.push((lowered(name), value)), name),
{
    assert(headers.push((name, value)).drop_last() =~= headers);
    assert(headers.push((name, value))[headers.len() as int].0 == name);
    assert(headers.push((lowered(name), value))[headers.len() as int].0 == lowered(name));
    lemma_lower_case(name, name, 0);
}

// ---------------------------------------------------------------------------------------------
// What is sent
// ---------------------------------------------------------------------------------------------
proof fn lemma_member_names_differ()
    ensures
        "role"@ != "content"@,
        "role"@ != "tool_call_id"@,
        "role"@ != "tool_calls"@,
        "content"@ != "tool_call_id"@,
        "content"@ != "tool_calls"@,
        "tool_call_id"@ != "tool_calls"@,
        "id"@ != "type"@,
        "id"@ != "function"@,
        "type"@ != "function"@,
        "name"@ != "arguments"@,
        "name"@ != "description"@,
        "name"@ != "parameters"@,
        "description"@ != "parameters"@,
        "type"@ != "name"@,
        "type"@ != "description"@,
        "type"@ != "parameters"@,
        "model"@ != "messages"@,
        "model"@ != "tools"@,
        "model"@ != "stream"@,
        "messages"@ != "tools"@,
        "messages"@ != "stream"@,
        "tools"@ != "stream"@,
        "model"@ != "input"@,
        "model"@ != "store"@,
        "input"@ != "tools"@,
        "input"@ != "stream"@,
        "input"@ != "store"@,
        "tools"@ != "store"@,
        "stream"@ != "store"@,
{
    reveal_strlit("arguments");
    reveal_strlit("content");
    reveal_strlit("description");
    reveal_strlit("function");
    reveal_strlit("id");
    reveal_strlit("input");
    reveal_strlit("messages");
    reveal_strlit("model");
    reveal_strlit("name");
    reveal_strlit("parameters");
    reveal_strlit("role");
    reveal_strlit("store");
    reveal_strlit("stream");
    reveal_strlit("tool_call_id");
    reveal_strlit("tool_calls");
    reveal_strlit("tools");
    reveal_strlit("type");
    assert("role"@.len() != "content"@.len());
    assert("role"@.len() != "tool_call_id"@.len());
    assert("role"@.len() != "tool_calls"@.len());
    assert("content"@.len() != "tool_call_id"@.len());
    assert("content"@.len() != "tool_calls"@.len());
    assert("tool_call_id"@.len() != "tool_calls"@.len());
    assert("id"@.len() != "type"@.len());
    assert("id"@.len() != "function"@.len());
    assert("type"@.len() != "function"@.len());
    assert("name"@.len() != "arguments"@.len());
    assert("name"@.len() != "description"@.len());
    assert("name"@.len() != "parameters"@.len());
    assert("description"@.len() != "parameters"@.len());
    assert("type"@[0] != "name"@[0]);
    assert("type"@.len() != "description"@.len());
    assert("type"@.len() != "parameters"@.len());
    assert("model"@.len() != "messages"@.len());
    assert("model"@[0] != "tools"@[0]);
    assert("model"@.len() != "stream"@.len());
    assert("messages"@.len() != "tools"@.len());
    assert("messages"@.len() != "stream"@.len());
    assert("tools"@.len() != "stream"@.len());
    assert("model"@[0] != "input"@[0]);
    assert("model"@[0] != "store"@[0]);
    assert("input"@[0] != "tools"@[0]);
    assert("input"@.len() != "stream"@.len());
    assert("input"@[0] != "store"@[0]);
    assert("tools"@[0] != "store"@[0]);
    assert("stream"@.len() != "store"@.len());
}

/// A member that may be left out is found under its name, and hides no other one.
proof fn lemma_optional_member(
    members: Seq<(Seq<char>, JsonView)>,
    name: Seq<char>,
    value: Option<JsonView>,
    asked: Seq<char>,
)
    ensures
        asked != name ==> member_named(members + opt_member(name, value), asked) == member_named(
            members,
            asked,
        ),
        value is Some ==> member_named(members + opt_member(name, value), name) == value,
        value is None ==> members + opt_member(name, value) == members,
{
    if value is Some {
        let all = members + opt_member(name, value);
        assert(all.drop_last() =~= members);
        assert(all.last() == (name, value->0));
    } else {
        assert(members + opt_member(name, value) =~= members);
    }
}

proof fn lemma_one_more_member(
    members: Seq<(Seq<char>, JsonView)>,
    name: Seq<char>,
    value: JsonView,
    asked: Seq<char>,
)
    ensures
        asked != name ==> member_named(members + seq![(name, value)], asked) == member_named(
            members,
            asked,
        ),
        member_named(members + seq![(name, value)], name) == Some(value),
{
    let all = members + seq![(name, value)];
    assert(all.drop_last() =~= members);
    assert(all.last() == (name, value));
}

/// A message is sent with its role, and with its text, the call that it answers and the calls that
/// it makes where it has them.
pub proof fn lemma_message_is_sent(message: OpenAIChatMessageView, i: int)
    ensures
        message_json(message).get("role"@) == Some(JsonView::Str(message.role)),
        message.content matches Some(text) ==> message_json(message).get("content"@) == Some(
            JsonView::Str(text),
        ),
        message.content is None ==> message_json(message).get("content"@) is None,
        message.tool_call_id matches Some(id) ==> message_json(message).get("tool_call_id"@)
            == Some(JsonView::Str(id)),
        message.tool_call_id is None ==> message_json(message).get("tool_call_id"@) is None,
        message.tool_calls is None ==> message_json(message).get("tool_calls"@) is None,
        message.tool_calls matches Some(calls) ==> ({
            let sent = message_json(message).get_array("tool_calls"@);
            &&& sent is Some
            &&& sent->0.len() == calls.len()
            &&& 0 <= i < calls.len() ==> {
                &&& sent->0[i].get("id"@) == Some(JsonView::Str(calls[i].id))
                &&& sent->0[i].get("type"@) == Some(JsonView::Str(calls[i].kind))
                &&& sent->0[i].get("function"@) is Some
                &&& sent->0[i].get("function"@)->0.get("name"@) == Some(
                    JsonView::Str(calls[i].function.name),
                )
                &&& sent->0[i].get("function"@)->0.get("arguments"@) == Some(
                    JsonView::Str(calls[i].function.arguments),
                )
            }
        }),
{
    lemma_member_names_differ();
    let role = seq![("role"@, JsonView::Str(message.role))];
    lemma_last_member_counts(role, 0);
    lemma_no_such_member(role, "content"@);
    lemma_no_such_member(role, "tool_call_id"@);
    lemma_no_such_member(role, "tool_calls"@);
    let content = opt_text_json(message.content);
    lemma_optional_member(role, "content"@, content, "role"@);
    lemma_optional_member(role, "content"@, content, "tool_call_id"@);
    lemma_optional_member(role, "content"@, content, "tool_calls"@);
    let two = role + opt_member("content"@, content);
    let id = opt_text_json(message.tool_call_id);
    lemma_optional_member(two, "tool_call_id"@, id, "role"@);
    lemma_optional_member(two, "tool_call_id"@, id, "content"@);
    lemma_optional_member(two, "tool_call_id"@, id, "tool_calls"@);
    let three = two + opt_member("tool_call_id"@, id);
    let calls = match message.tool_calls {
        Some(calls) => Some(tool_calls_json(calls)),
        None => None,
    };
    lemma_optional_member(three, "tool_calls"@, calls, "role"@);
    lemma_optional_member(three, "tool_calls"@, calls, "content"@);
    lemma_optional_member(three, "tool_calls"@, calls, "tool_call_id"@);
    if message.tool_calls is Some && 0 <= i < message.tool_calls->0.len() {
        let call = message.tool_calls->0[i];
        let members = tool_call_json(call)->Object_0;
        assert(members[0].0 == "id"@);
        assert(members[1].0 == "type"@);
        assert(members[2].0 == "function"@);
        lemma_last_member_counts(members, 0);
        lemma_last_member_counts(members, 1);
        lemma_last_member_counts(members, 2);
        let members = members[2].1->Object_0;
        assert(members[0].0 == "name"@);
        assert(members[1].0 == "arguments"@);
        lemma_last_member_counts(members, 0);
        lemma_last_member_counts(members, 1);
    }
}

/// A chat is sent with its model, its messages in their order and its tools; no tools are sent
/// where there are none.
pub proof fn lemma_chat_is_sent(request: OpenAIChatRequestView, i: int)
    ensures
        ({
            let sent = request_json(BackendRequestView::Chat(request));
            &&& sent.get("model"@) == Some(JsonView::Str(request.model))
            &&& sent.get("stream"@) == Some(JsonView::Bool(request.stream))
            &&& sent.get_array("messages"@) is Some
            &&& sent.get_array("messages"@)->0.len() == request.messages.len()
            &&& 0 <= i < request.messages.len() ==> sent.get_array("messages"@)->0[i]
                == message_json(request.messages[i])
            &&& request.tools.len() == 0 ==> sent.get("tools"@) is None
            &&& request.tools.len() > 0 ==> sent.get_array("tools"@) is Some && sent.get_array(
                "tools"@,
            )->0.len() == request.tools.len()
            &&& 0 <= i < request.tools.len() ==> ({
                let tool = sent.get_array("tools"@)->0[i];
                &&& tool.get("type"@) == Some(JsonView::Str(request.tools[i].kind))
                &&& tool.get("function"@) is Some
                &&& tool.get("function"@)->0.get("name"@) == Some(
                    JsonView::Str(request.tools[i].function.name),
                )
                &&& tool.get("function"@)->0.get("description"@) == Some(
                    JsonView::Str(request.tools[i].function.description),
                )
                &&& tool.get("function"@)->0.get("parameters"@) == Some(
                    request.tools[i].function.parameters,
                )
            })
        }),
{
    lemma_member_names_differ();
    let first = seq![
        ("model"@, JsonView::Str(request.model)),
        ("messages"@, messages_json(request.messages)),
    ];
    assert(first[0].0 == "model"@);
    assert(first[1].0 == "messages"@);
    lemma_last_member_counts(first, 0);
    lemma_last_member_counts(first, 1);
    lemma_no_such_member(first, "tools"@);
    let tools = tools_json(request.tools);
    lemma_optional_member(first, "tools"@, tools, "model"@);
    lemma_optional_member(first, "tools"@, tools, "messages"@);
    let more = first + opt_member("tools"@, tools);
    let stream = JsonView::Bool(request.stream);
    lemma_one_more_member(more, "stream"@, stream, "model"@);
    lemma_one_more_member(more, "stream"@, stream, "messages"@);
    lemma_one_more_member(more, "stream"@, stream, "tools"@);
    if 0 <= i < request.tools.len() {
        let members = tool_json(request.tools[i])->Object_0;
        assert(members[0].0 == "type"@);
        assert(members[1].0 == "function"@);
        lemma_last_member_counts(members, 0);
        lemma_last_member_counts(members, 1);
        let members = members[1].1->Object_0;
        assert(members[0].0 == "name"@);
        assert(members[1].0 == "description"@);
        assert(members[2].0 == "parameters"@);
        lemma_last_member_counts(members, 0);
        lemma_last_member_counts(members, 1);
        lemma_last_member_counts(members, 2);
    }
}

/// A request in the form of responses is sent with its model, its input and its tools, and asks
/// that nothing be stored where it says so.
pub proof fn lemma_responses_are_asked_for(request: OpenAIResponsesRequestView, i: int)
    ensures
        ({
            let sent = request_json(BackendRequestView::Responses(request));
            &&& sent.get("model"@) == Some(JsonView::Str(request.model))
            &&& sent.get("input"@) == Some(JsonView::Array(request.input))
            &&& sent.get("stream"@) == Some(JsonView::Bool(request.stream))
            &&& sent.get("store"@) == Some(JsonView::Bool(request.store))
            &&& request.tools.len() == 0 ==> sent.get("tools"@) is None
            &&& request.tools.len() > 0 ==> sent.get_array("tools"@) is Some && sent.get_array(
                "tools"@,
            )->0.len() == request.tools.len()
            &&& 0 <= i < request.tools.len() ==> ({
                let tool = sent.get_array("tools"@)->0[i];
                &&& tool.get("type"@) == Some(JsonView::Str(request.tools[i].kind))
                &&& tool.get("name"@) == Some(JsonView::Str(request.tools[i].name))
                &&& tool.get("description"@) == Some(JsonView::Str(request.tools[i].description))
                &&& tool.get("parameters"@) == Some(request.tools[i].parameters)
            })
        }),
{
    lemma_member_names_differ();
    let first = seq![
        ("model"@, JsonView::Str(request.model)),
        ("input"@, JsonView::Array(request.input)),
    ];
    assert(first[0].0 == "model"@);
    assert(first[1].0 == "input"@);
    lemma_last_member_counts(first, 0);
    lemma_last_member_counts(first, 1);
    lemma_no_such_member(first, "tools"@);
    let tools = responses_tools_json(request.tools);
    lemma_optional_member(first, "tools"@, tools, "model"@);
    lemma_optional_member(first, "tools"@, tools, "input"@);
    let more = first + opt_member("tools"@, tools);
    let stream = JsonView::Bool(request.stream);
    let store = JsonView::Bool(request.store);
    let most = more + seq![("stream"@, stream)];
    assert(more + seq![("stream"@, stream), ("store"@, store)] =~= most + seq![("store"@, store)]);
    lemma_one_more_member(more, "stream"@, stream, "model"@);
    lemma_one_more_member(more, "stream"@, stream, "input"@);
    lemma_one_more_member(more, "stream"@, stream, "tools"@);
    lemma_one_more_member(most, "store"@, store, "model"@);
    lemma_one_more_member(most, "store"@, store, "input"@);
    lemma_one_more_member(most, "store"@, store, "tools"@);
    lemma_one_more_member(most, "store"@, store, "stream"@);
    if 0 <= i < request.tools.len() {
        let members = responses_tool_json(request.tools[i])->Object_0;
        assert(members[0].0 == "type"@);
        assert(members[1].0 == "name"@);
        assert(members[2].0 == "description"@);
        assert(members[3].0 == "parameters"@);
        lemma_last_member_counts(members, 0);
        lemma_last_member_counts(members, 1);
        lemma_last_member_counts(members, 2);
        lemma_last_member_counts(members, 3);
    }
}

} // verus!
