//! What a chat completions backend answers: a chunk of a stream, or a whole response.
use crate::json::{Json, JsonView};
use crate::record::{
    defaulted, field_of, index_at, index_field, is_record, list_value, opt_text_at, opt_text_field,
    optional, optional_or_absent, record, required, text_at, text_field,
};
use crate::text::{opt_view, views, views_opt};
use vstd::prelude::*;

verus! {

/// A piece of a function call.
#[derive(Debug)]
pub struct OpenAIFunctionDelta {
    pub name: Option<String>,
    pub arguments: Option<String>,
}

/// The model of [`OpenAIFunctionDelta`].
#[verifier::ext_equal]
pub struct OpenAIFunctionDeltaView {
    pub name: Option<Seq<char>>,
    pub arguments: Option<Seq<char>>,
}

impl View for OpenAIFunctionDelta {
    type V = OpenAIFunctionDeltaView;

    open spec fn view(&self) -> OpenAIFunctionDeltaView {
        OpenAIFunctionDeltaView {
            name: opt_view(self.name),
            arguments: opt_view(self.arguments),
        }
    }
}

/// What a JSON value says as [`OpenAIFunctionDelta`].
pub open spec fn function_delta(json: JsonView) -> Option<OpenAIFunctionDeltaView> {
    if !record(json, 2) {
        None
    } else {
        match (
            opt_text_field(json, 0, "name"@),
            opt_text_field(json, 1, "arguments"@),
        ) {
            (Some(name), Some(arguments)) => Some(
                OpenAIFunctionDeltaView { name, arguments },
            ),
            _ => None,
        }
    }
}

impl OpenAIFunctionDelta {
    /// Decodes the record.
    pub fn from_json(json: &Json) -> (r: Option<Self>)
        ensures
            opt_view(r) == function_delta(json@),
    {
        if !is_record(json, 2) {
            return None;
        }
        let name = match opt_text_at(json, 0, "name") {
            Some(v) => v,
            None => {
                return None;
            },
        };
        let arguments = match opt_text_at(json, 1, "arguments") {
            Some(v) => v,
            None => {
                return None;
            },
        };
        Some(OpenAIFunctionDelta { name, arguments })
    }
}

/// A piece of a tool call.
#[derive(Debug)]
pub struct OpenAIToolCallDelta {
    pub index: usize,
    pub id: Option<String>,
    pub kind: Option<String>,
    pub function: Option<OpenAIFunctionDelta>,
}

/// The model of [`OpenAIToolCallDelta`].
#[verifier::ext_equal]
pub struct OpenAIToolCallDeltaView {
    pub index: usize,
    pub id: Option<Seq<char>>,
    pub kind: Option<Seq<char>>,
    pub function: Option<OpenAIFunctionDeltaView>,
}

impl View for OpenAIToolCallDelta {
    type V = OpenAIToolCallDeltaView;

    open spec fn view(&self) -> OpenAIToolCallDeltaView {
        OpenAIToolCallDeltaView {
            index: self.index,
            id: opt_view(self.id),
            kind: opt_view(self.kind),
            function: opt_view(self.function),
        }
    }
}

/// What a JSON value says as [`OpenAIToolCallDelta`].
pub open spec fn tool_call_delta(json: JsonView) -> Option<OpenAIToolCallDeltaView> {
    if !record(json, 4) {
        None
    } else {
        match (
            index_field(json, 0, "index"@),
            opt_text_field(json, 1, "id"@),
            opt_text_field(json, 2, "type"@),
            optional(json, 3, "function"@, |v: JsonView| function_delta(v)),
        ) {
            (Some(index), Some(id), Some(kind), Some(function)) => Some(
                OpenAIToolCallDeltaView { index, id, kind, function },
            ),
            _ => None,
        }
    }
}

impl OpenAIToolCallDelta {
    /// Decodes the record.
    pub fn from_json(json: &Json) -> (r: Option<Self>)
        ensures
            opt_view(r) == tool_call_delta(json@),
    {
        if !is_record(json, 4) {
            return None;
        }
        let index = match index_at(json, 0, "index") {
            Some(v) => v,
            None => {
                return None;
            },
        };
        let id = match opt_text_at(json, 1, "id") {
            Some(v) => v,
            None => {
                return None;
            },
        };
        let kind = match opt_text_at(json, 2, "type") {
            Some(v) => v,
            None => {
                return None;
            },
        };
        let function = match field_of(json, 3, "function") {
            Some(Json::Null) => Some(None),
            Some(value) => match OpenAIFunctionDelta::from_json(value) {
                Some(v) => Some(Some(v)),
                None => None,
            },
            None => match json {
                Json::Object(_) => Some(None),
                _ => None,
            },
        };
        let function = match function {
            Some(v) => v,
            None => {
                return None;
            },
        };
        Some(OpenAIToolCallDelta { index, id, kind, function })
    }
}

/// What a JSON value says as a list of [`OpenAIToolCallDelta`].
pub open spec fn tool_call_delta_list(json: JsonView) -> Option<Seq<OpenAIToolCallDeltaView>> {
    list_value(json, |item: JsonView| tool_call_delta(item))
}

/// Decodes a list of records.
fn read_tool_call_delta_list(json: &Json) -> (r: Option<Vec<OpenAIToolCallDelta>>)
    ensures
        views_opt(r) == tool_call_delta_list(json@),
{
    match json.as_array() {
        Some(items) => {
            let ghost models = views(items@);
            let mut r: Vec<OpenAIToolCallDelta> = Vec::new();
            let mut i: usize = 0;
            while i < items.len()
                invariant
                    i <= items.len(),
                    models == views(items@),
                    json@ == JsonView::Array(models),
                    r.len() == i,
                    forall|k: int|
                        0 <= k < i ==> (#[trigger] tool_call_delta(models[k])) == Some(r@[k]@),
                decreases items.len() - i,
            {
                match OpenAIToolCallDelta::from_json(&items[i]) {
                    Some(v) => {
                        assert(tool_call_delta(models[i as int]) == Some(v@));
                        r.push(v);
                    },
                    None => {
                        let ghost decode = |item: JsonView| tool_call_delta(item);
                        assert(decode(models[i as int]) is None);
                        return None;
                    },
                }
                i += 1;
            }
            assert(tool_call_delta_list(json@)->0 =~= views(r@));
            Some(r)
        },
        None => None,
    }
}

/// A piece of an answer.
#[derive(Debug)]
pub struct OpenAIChatDelta {
    pub content: Option<String>,
    pub reasoning_content: Option<String>,
    pub tool_calls: Option<Vec<OpenAIToolCallDelta>>,
}

/// The model of [`OpenAIChatDelta`].
#[verifier::ext_equal]
pub struct OpenAIChatDeltaView {
    pub content: Option<Seq<char>>,
    pub reasoning_content: Option<Seq<char>>,
    pub tool_calls: Option<Seq<OpenAIToolCallDeltaView>>,
}

impl View for OpenAIChatDelta {
    type V = OpenAIChatDeltaView;

    open spec fn view(&self) -> OpenAIChatDeltaView {
        OpenAIChatDeltaView {
            content: opt_view(self.content),
            reasoning_content: opt_view(self.reasoning_content),
            tool_calls: views_opt(self.tool_calls),
        }
    }
}

/// What a JSON value says as [`OpenAIChatDelta`].
pub open spec fn chat_delta(json: JsonView) -> Option<OpenAIChatDeltaView> {
    if !record(json, 3) {
        None
    } else {
        match (
            opt_text_field(json, 0, "content"@),
            opt_text_field(json, 1, "reasoning_content"@),
            optional_or_absent(json, 2, "tool_calls"@, |v: JsonView| tool_call_delta_list(v)),
        ) {
            (Some(content), Some(reasoning_content), Some(tool_calls)) => Some(
                OpenAIChatDeltaView { content, reasoning_content, tool_calls },
            ),
            _ => None,
        }
    }
}

impl OpenAIChatDelta {
    /// Decodes the record.
    pub fn from_json(json: &Json) -> (r: Option<Self>)
        ensures
            opt_view(r) == chat_delta(json@),
    {
        if !is_record(json, 3) {
            return None;
        }
        let content = match opt_text_at(json, 0, "content") {
            Some(v) => v,
            None => {
                return None;
            },
        };
        let reasoning_content = match opt_text_at(json, 1, "reasoning_content") {
            Some(v) => v,
            None => {
                return None;
            },
        };
        let tool_calls = match field_of(json, 2, "tool_calls") {
            Some(Json::Null) => Some(None),
            Some(value) => match read_tool_call_delta_list(value) {
                Some(v) => Some(Some(v)),
                None => None,
            },
            None => Some(None),
        };
        let tool_calls = match tool_calls {
            Some(v) => v,
            None => {
                return None;
            },
        };
        Some(OpenAIChatDelta { content, reasoning_content, tool_calls })
    }
}

/// A piece that adds nothing.
pub open spec fn no_chat_delta_view() -> OpenAIChatDeltaView {
    OpenAIChatDeltaView { content: None, reasoning_content: None, tool_calls: None }
}

/// A piece that adds nothing.
fn no_chat_delta() -> (r: OpenAIChatDelta)
    ensures
        r@ == no_chat_delta_view(),
{
    OpenAIChatDelta { content: None, reasoning_content: None, tool_calls: None }
}

/// A choice of a chunk.
#[derive(Debug)]
pub struct OpenAIChatChunkChoice {
    pub delta: OpenAIChatDelta,
}

/// The model of [`OpenAIChatChunkChoice`].
#[verifier::ext_equal]
pub struct OpenAIChatChunkChoiceView {
    pub delta: OpenAIChatDeltaView,
}

impl View for OpenAIChatChunkChoice {
    type V = OpenAIChatChunkChoiceView;

    open spec fn view(&self) -> OpenAIChatChunkChoiceView {
        OpenAIChatChunkChoiceView {
            delta: self.delta@,
        }
    }
}

/// What a JSON value says as [`OpenAIChatChunkChoice`].
pub open spec fn chunk_choice(json: JsonView) -> Option<OpenAIChatChunkChoiceView> {
    if !record(json, 1) {
        None
    } else {
        match defaulted(json, 0, "delta"@, |v: JsonView| chat_delta(v), no_chat_delta_view()) {
            Some(delta) => Some(OpenAIChatChunkChoiceView { delta }),
            None => None,
        }
    }
}

impl OpenAIChatChunkChoice {
    /// Decodes the record.
    pub fn from_json(json: &Json) -> (r: Option<Self>)
        ensures
            opt_view(r) == chunk_choice(json@),
    {
        if !is_record(json, 1) {
            return None;
        }
        let delta = match field_of(json, 0, "delta") {
            Some(value) => OpenAIChatDelta::from_json(value),
            None => Some(no_chat_delta()),
        };
        let delta = match delta {
            Some(v) => v,
            None => {
                return None;
            },
        };
        Some(OpenAIChatChunkChoice { delta })
    }
}

/// What a JSON value says as a list of [`OpenAIChatChunkChoice`].
pub open spec fn chunk_choice_list(json: JsonView) -> Option<Seq<OpenAIChatChunkChoiceView>> {
    list_value(json, |item: JsonView| chunk_choice(item))
}

/// Decodes a list of records.
fn read_chunk_choice_list(json: &Json) -> (r: Option<Vec<OpenAIChatChunkChoice>>)
    ensures
        views_opt(r) == chunk_choice_list(json@),
{
    match json.as_array() {
        Some(items) => {
            let ghost models = views(items@);
            let mut r: Vec<OpenAIChatChunkChoice> = Vec::new();
            let mut i: usize = 0;
            while i < items.len()
                invariant
                    i <= items.len(),
                    models == views(items@),
                    json@ == JsonView::Array(models),
                    r.len() == i,
                    forall|k: int|
                        0 <= k < i ==> (#[trigger] chunk_choice(models[k])) == Some(r@[k]@),
                decreases items.len() - i,
            {
                match OpenAIChatChunkChoice::from_json(&items[i]) {
                    Some(v) => {
                        assert(chunk_choice(models[i as int]) == Some(v@));
                        r.push(v);
                    },
                    None => {
                        let ghost decode = |item: JsonView| chunk_choice(item);
                        assert(decode(models[i as int]) is None);
                        return None;
                    },
                }
                i += 1;
            }
            assert(chunk_choice_list(json@)->0 =~= views(r@));
            Some(r)
        },
        None => None,
    }
}

/// A chunk of a stream.
#[derive(Debug)]
pub struct OpenAIChatChunk {
    pub choices: Vec<OpenAIChatChunkChoice>,
}

/// The model of [`OpenAIChatChunk`].
#[verifier::ext_equal]
pub struct OpenAIChatChunkView {
    pub choices: Seq<OpenAIChatChunkChoiceView>,
}

impl View for OpenAIChatChunk {
    type V = OpenAIChatChunkView;

    open spec fn view(&self) -> OpenAIChatChunkView {
        OpenAIChatChunkView {
            choices: views(self.choices@),
        }
    }
}

/// What a JSON value says as [`OpenAIChatChunk`].
pub open spec fn chat_chunk(json: JsonView) -> Option<OpenAIChatChunkView> {
    if !record(json, 1) {
        None
    } else {
        match defaulted(json, 0, "choices"@, |v: JsonView| chunk_choice_list(v), Seq::empty()) {
            Some(choices) => Some(OpenAIChatChunkView { choices }),
            None => None,
        }
    }
}

impl OpenAIChatChunk {
    /// Decodes the record.
    pub fn from_json(json: &Json) -> (r: Option<Self>)
        ensures
            opt_view(r) == chat_chunk(json@),
    {
        if !is_record(json, 1) {
            return None;
        }
        let choices = match field_of(json, 0, "choices") {
            Some(value) => read_chunk_choice_list(value),
            None => Some(Vec::new()),
        };
        let choices = match choices {
            Some(v) => v,
            None => {
                return None;
            },
        };
        Some(OpenAIChatChunk { choices })
    }
}

/// A call of a function, its arguments as JSON text.
#[derive(Debug)]
pub struct OpenAIFunctionCall {
    pub name: String,
    pub arguments: String,
}

/// The model of [`OpenAIFunctionCall`].
#[verifier::ext_equal]
pub struct OpenAIFunctionCallView {
    pub name: Seq<char>,
    pub arguments: Seq<char>,
}

impl View for OpenAIFunctionCall {
    type V = OpenAIFunctionCallView;

    open spec fn view(&self) -> OpenAIFunctionCallView {
        OpenAIFunctionCallView {
            name: self.name@,
            arguments: self.arguments@,
        }
    }
}

/// What a JSON value says as [`OpenAIFunctionCall`].
pub open spec fn function_call(json: JsonView) -> Option<OpenAIFunctionCallView> {
    if !record(json, 2) {
        None
    } else {
        match (
            text_field(json, 0, "name"@),
            text_field(json, 1, "arguments"@),
        ) {
            (Some(name), Some(arguments)) => Some(
                OpenAIFunctionCallView { name, arguments },
            ),
            _ => None,
        }
    }
}

impl OpenAIFunctionCall {
    /// Decodes the record.
    pub fn from_json(json: &Json) -> (r: Option<Self>)
        ensures
            opt_view(r) == function_call(json@),
    {
        if !is_record(json, 2) {
            return None;
        }
        let name = match text_at(json, 0, "name") {
            Some(v) => v,
            None => {
                return None;
            },
        };
        let arguments = match text_at(json, 1, "arguments") {
            Some(v) => v,
            None => {
                return None;
            },
        };
        Some(OpenAIFunctionCall { name, arguments })
    }
}

/// A tool call of a message.
#[derive(Debug)]
pub struct OpenAIMessageToolCall {
    pub id: String,
    pub kind: String,
    pub function: OpenAIFunctionCall,
}

/// The model of [`OpenAIMessageToolCall`].
#[verifier::ext_equal]
pub struct OpenAIMessageToolCallView {
    pub id: Seq<char>,
    pub kind: Seq<char>,
    pub function: OpenAIFunctionCallView,
}

impl View for OpenAIMessageToolCall {
    type V = OpenAIMessageToolCallView;

    open spec fn view(&self) -> OpenAIMessageToolCallView {
        OpenAIMessageToolCallView {
            id: self.id@,
            kind: self.kind@,
            function: self.function@,
        }
    }
}

/// What a JSON value says as [`OpenAIMessageToolCall`].
pub open spec fn message_tool_call(json: JsonView) -> Option<OpenAIMessageToolCallView> {
    if !record(json, 3) {
        None
    } else {
        match (
            text_field(json, 0, "id"@),
            text_field(json, 1, "type"@),
            required(json, 2, "function"@, |v: JsonView| function_call(v)),
        ) {
            (Some(id), Some(kind), Some(function)) => Some(
                OpenAIMessageToolCallView { id, kind, function },
            ),
            _ => None,
        }
    }
}

impl OpenAIMessageToolCall {
    /// Decodes the record.
    pub fn from_json(json: &Json) -> (r: Option<Self>)
        ensures
            opt_view(r) == message_tool_call(json@),
    {
        if !is_record(json, 3) {
            return None;
        }
        let id = match text_at(json, 0, "id") {
            Some(v) => v,
            None => {
                return None;
            },
        };
        let kind = match text_at(json, 1, "type") {
            Some(v) => v,
            None => {
                return None;
            },
        };
        let function = match field_of(json, 2, "function") {
            Some(value) => OpenAIFunctionCall::from_json(value),
            None => None,
        };
        let function = match function {
            Some(v) => v,
            None => {
                return None;
            },
        };
        Some(OpenAIMessageToolCall { id, kind, function })
    }
}

/// What a JSON value says as a list of [`OpenAIMessageToolCall`].
pub open spec fn message_tool_call_list(json: JsonView) -> Option<Seq<OpenAIMessageToolCallView>> {
    list_value(json, |item: JsonView| message_tool_call(item))
}

/// Decodes a list of records.
fn read_message_tool_call_list(json: &Json) -> (r: Option<Vec<OpenAIMessageToolCall>>)
    ensures
        views_opt(r) == message_tool_call_list(json@),
{
    match json.as_array() {
        Some(items) => {
            let ghost models = views(items@);
            let mut r: Vec<OpenAIMessageToolCall> = Vec::new();
            let mut i: usize = 0;
            while i < items.len()
                invariant
                    i <= items.len(),
                    models == views(items@),
                    json@ == JsonView::Array(models),
                    r.len() == i,
                    forall|k: int|
                        0 <= k < i ==> (#[trigger] message_tool_call(models[k])) == Some(r@[k]@),
                decreases items.len() - i,
            {
                match OpenAIMessageToolCall::from_json(&items[i]) {
                    Some(v) => {
                        assert(message_tool_call(models[i as int]) == Some(v@));
                        r.push(v);
                    },
                    None => {
                        let ghost decode = |item: JsonView| message_tool_call(item);
                        assert(decode(models[i as int]) is None);
                        return None;
                    },
                }
                i += 1;
            }
            assert(message_tool_call_list(json@)->0 =~= views(r@));
            Some(r)
        },
        None => None,
    }
}

/// The message of an answer.
#[derive(Debug)]
pub struct OpenAIChatResponseMessage {
    pub content: Option<String>,
    pub tool_calls: Option<Vec<OpenAIMessageToolCall>>,
}

/// The model of [`OpenAIChatResponseMessage`].
#[verifier::ext_equal]
pub struct OpenAIChatResponseMessageView {
    pub content: Option<Seq<char>>,
    pub tool_calls: Option<Seq<OpenAIMessageToolCallView>>,
}

impl View for OpenAIChatResponseMessage {
    type V = OpenAIChatResponseMessageView;

    open spec fn view(&self) -> OpenAIChatResponseMessageView {
        OpenAIChatResponseMessageView {
            content: opt_view(self.content),
            tool_calls: views_opt(self.tool_calls),
        }
    }
}

/// What a JSON value says as [`OpenAIChatResponseMessage`].
pub open spec fn response_message(json: JsonView) -> Option<OpenAIChatResponseMessageView> {
    if !record(json, 2) {
        None
    } else {
        match (
            opt_text_field(json, 0, "content"@),
            optional_or_absent(json, 1, "tool_calls"@, |v: JsonView| message_tool_call_list(v)),
        ) {
            (Some(content), Some(tool_calls)) => Some(
                OpenAIChatResponseMessageView { content, tool_calls },
            ),
            _ => None,
        }
    }
}

impl OpenAIChatResponseMessage {
    /// Decodes the record.
    pub fn from_json(json: &Json) -> (r: Option<Self>)
        ensures
            opt_view(r) == response_message(json@),
    {
        if !is_record(json, 2) {
            return None;
        }
        let content = match opt_text_at(json, 0, "content") {
            Some(v) => v,
            None => {
                return None;
            },
        };
        let tool_calls = match field_of(json, 1, "tool_calls") {
            Some(Json::Null) => Some(None),
            Some(value) => match read_message_tool_call_list(value) {
                Some(v) => Some(Some(v)),
                None => None,
            },
            None => Some(None),
        };
        let tool_calls = match tool_calls {
            Some(v) => v,
            None => {
                return None;
            },
        };
        Some(OpenAIChatResponseMessage { content, tool_calls })
    }
}

/// A choice of an answer.
#[derive(Debug)]
pub struct OpenAIChatResponseChoice {
    pub message: OpenAIChatResponseMessage,
}

/// The model of [`OpenAIChatResponseChoice`].
#[verifier::ext_equal]
pub struct OpenAIChatResponseChoiceView {
    pub message: OpenAIChatResponseMessageView,
}

impl View for OpenAIChatResponseChoice {
    type V = OpenAIChatResponseChoiceView;

    open spec fn view(&self) -> OpenAIChatResponseChoiceView {
        OpenAIChatResponseChoiceView {
            message: self.message@,
        }
    }
}

/// What a JSON value says as [`OpenAIChatResponseChoice`].
pub open spec fn response_choice(json: JsonView) -> Option<OpenAIChatResponseChoiceView> {
    if !record(json, 1) {
        None
    } else {
        match required(json, 0, "message"@, |v: JsonView| response_message(v)) {
            Some(message) => Some(OpenAIChatResponseChoiceView { message }),
            None => None,
        }
    }
}

impl OpenAIChatResponseChoice {
    /// Decodes the record.
    pub fn from_json(json: &Json) -> (r: Option<Self>)
        ensures
            opt_view(r) == response_choice(json@),
    {
        if !is_record(json, 1) {
            return None;
        }
        let message = match field_of(json, 0, "message") {
            Some(value) => OpenAIChatResponseMessage::from_json(value),
            None => None,
        };
        let message = match message {
            Some(v) => v,
            None => {
                return None;
            },
        };
        Some(OpenAIChatResponseChoice { message })
    }
}

/// What a JSON value says as a list of [`OpenAIChatResponseChoice`].
pub open spec fn response_choice_list(json: JsonView) -> Option<Seq<OpenAIChatResponseChoiceView>> {
    list_value(json, |item: JsonView| response_choice(item))
}

/// Decodes a list of records.
fn read_response_choice_list(json: &Json) -> (r: Option<Vec<OpenAIChatResponseChoice>>)
    ensures
        views_opt(r) == response_choice_list(json@),
{
    match json.as_array() {
        Some(items) => {
            let ghost models = views(items@);
            let mut r: Vec<OpenAIChatResponseChoice> = Vec::new();
            let mut i: usize = 0;
            while i < items.len()
                invariant
                    i <= items.len(),
                    models == views(items@),
                    json@ == JsonView::Array(models),
                    r.len() == i,
                    forall|k: int|
                        0 <= k < i ==> (#[trigger] response_choice(models[k])) == Some(r@[k]@),
                decreases items.len() - i,
            {
                match OpenAIChatResponseChoice::from_json(&items[i]) {
                    Some(v) => {
                        assert(response_choice(models[i as int]) == Some(v@));
                        r.push(v);
                    },
                    None => {
                        let ghost decode = |item: JsonView| response_choice(item);
                        assert(decode(models[i as int]) is None);
                        return None;
                    },
                }
                i += 1;
            }
            assert(response_choice_list(json@)->0 =~= views(r@));
            Some(r)
        },
        None => None,
    }
}

/// A whole answer.
#[derive(Debug)]
pub struct OpenAIChatResponse {
    pub choices: Vec<OpenAIChatResponseChoice>,
}

/// The model of [`OpenAIChatResponse`].
#[verifier::ext_equal]
pub struct OpenAIChatResponseView {
    pub choices: Seq<OpenAIChatResponseChoiceView>,
}

impl View for OpenAIChatResponse {
    type V = OpenAIChatResponseView;

    open spec fn view(&self) -> OpenAIChatResponseView {
        OpenAIChatResponseView {
            choices: views(self.choices@),
        }
    }
}

/// What a JSON value says as [`OpenAIChatResponse`].
pub open spec fn chat_response(json: JsonView) -> Option<OpenAIChatResponseView> {
    if !record(json, 1) {
        None
    } else {
        match defaulted(json, 0, "choices"@, |v: JsonView| response_choice_list(v), Seq::empty()) {
            Some(choices) => Some(OpenAIChatResponseView { choices }),
            None => None,
        }
    }
}

impl OpenAIChatResponse {
    /// Decodes the record.
    pub fn from_json(json: &Json) -> (r: Option<Self>)
        ensures
            opt_view(r) == chat_response(json@),
    {
        if !is_record(json, 1) {
            return None;
        }
        let choices = match field_of(json, 0, "choices") {
            Some(value) => read_response_choice_list(value),
            None => Some(Vec::new()),
        };
        let choices = match choices {
            Some(v) => v,
            None => {
                return None;
            },
        };
        Some(OpenAIChatResponse { choices })
    }
}

} // verus!
