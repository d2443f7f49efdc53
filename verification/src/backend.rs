//! Reading what a backend answers: text for the user, and pieces of tool calls.
use crate::calls::{
    call_at, has_call, increasing, lemma_arguments_go_to_their_call, lemma_calls_are_found,
    lemma_events_find_their_call, lemma_item_can_be_taken_twice, lemma_item_says_what_its_call_is,
    lemma_output_item_keeps_order, lemma_put_reads_back, response_call, with_arguments,
    with_arguments_delta, with_deltas, with_full_calls, with_output_item, with_output_items,
    with_response, ToolCallAccumulatorSet, ToolCallAccumulatorView,
};
use crate::config::WireApi;
use crate::json::{json_reading, parse_json, Json, JsonView};
use crate::lists::{or_empty, reversed};
use crate::record::{usize_of, usize_value};
use crate::text::{blank, is_blank, opt_view, res_view, same, text_or_empty, views};
use crate::wire::{
    chat_chunk, chat_delta, chat_response, chunk_choice, message_tool_call, response_choice,
    response_message, tool_call_delta, tool_call_delta_list, OpenAIChatChunk, OpenAIChatChunkChoice,
    OpenAIChatChunkChoiceView, OpenAIChatResponse, OpenAIChatResponseChoice,
    OpenAIChatResponseChoiceView,
};
use crate::asked::text_if_any;
use vstd::prelude::*;

verus! {

// ---------------------------------------------------------------------------------------------
// What was read
// ---------------------------------------------------------------------------------------------
/// What an answer adds: texts for the user or an error, and the tool calls as they are then known.
#[verifier::ext_equal]
pub struct ReadingView {
    pub texts: Result<Seq<Seq<char>>, Seq<char>>,
    pub calls: Seq<(usize, ToolCallAccumulatorView)>,
}

/// The views of the texts of a result, or of its error.
pub open spec fn texts_view(result: Result<Vec<String>, String>) -> Result<
    Seq<Seq<char>>,
    Seq<char>,
> {
    match result {
        Ok(texts) => Ok(views(texts@)),
        Err(message) => Err(message@),
    }
}

/// A piece of the model's reasoning as text for the user: set off by a blank line, and nothing
/// where it is blank.
pub open spec fn reasoning_text(reasoning: Seq<char>) -> Seq<char> {
    if blank(reasoning) {
        Seq::empty()
    } else {
        "\n\n"@ + reasoning
    }
}

/// A piece of the model's reasoning as text for the user.
pub fn format_reasoning_delta(reasoning: &str) -> (r: String)
    ensures
        r@ == reasoning_text(reasoning@),
{
    if is_blank(reasoning) {
        String::new()
    } else {
        let mut text = "\n\n".to_owned();
        text.append(reasoning);
        text
    }
}

// ---------------------------------------------------------------------------------------------
// Chat completions
// ---------------------------------------------------------------------------------------------
/// The texts of a choice of a chunk: its content, and its reasoning.
pub open spec fn chunk_texts(choice: OpenAIChatChunkChoiceView) -> Seq<Seq<char>> {
    let content = match choice.delta.content {
        Some(text) => seq![text],
        None => Seq::empty(),
    };
    match choice.delta.reasoning_content {
        Some(reasoning) => content.push(reasoning_text(reasoning)),
        None => content,
    }
}

/// What the choices of a chunk add.
pub open spec fn read_chunk(
    choices: Seq<OpenAIChatChunkChoiceView>,
    calls: Seq<(usize, ToolCallAccumulatorView)>,
) -> (Seq<Seq<char>>, Seq<(usize, ToolCallAccumulatorView)>)
    decreases choices.len(),
{
    if choices.len() == 0 {
        (Seq::empty(), calls)
    } else {
        let before = read_chunk(choices.drop_last(), calls);
        (
            before.0 + chunk_texts(choices.last()),
            match choices.last().delta.tool_calls {
                Some(deltas) => with_deltas(before.1, deltas),
                None => before.1,
            },
        )
    }
}

/// The error of an answer that has another form than it should have.
pub open spec fn unexpected_form() -> Seq<char> {
    "the response does not have the form of a chat completion"@
}

/// What a chunk of a stream adds.
pub open spec fn read_chat_chunk(
    parsed: Result<JsonView, Seq<char>>,
    calls: Seq<(usize, ToolCallAccumulatorView)>,
) -> ReadingView {
    match parsed {
        Ok(json) => match chat_chunk(json) {
            Some(chunk) => ReadingView {
                texts: Ok(read_chunk(chunk.choices, calls).0),
                calls: read_chunk(chunk.choices, calls).1,
            },
            None => ReadingView { texts: Err(unexpected_form()), calls },
        },
        Err(message) => ReadingView { texts: Err(message), calls },
    }
}

/// What the choices of a whole answer add.
pub open spec fn read_response(
    choices: Seq<OpenAIChatResponseChoiceView>,
    calls: Seq<(usize, ToolCallAccumulatorView)>,
) -> (Seq<Seq<char>>, Seq<(usize, ToolCallAccumulatorView)>)
    decreases choices.len(),
{
    if choices.len() == 0 {
        (Seq::empty(), calls)
    } else {
        let before = read_response(choices.drop_last(), calls);
        (
            match choices.last().message.content {
                Some(text) => before.0.push(text),
                None => before.0,
            },
            match choices.last().message.tool_calls {
                Some(full) => with_full_calls(before.1, full),
                None => before.1,
            },
        )
    }
}

/// What a whole answer adds.
pub open spec fn read_chat_response(
    parsed: Result<JsonView, Seq<char>>,
    calls: Seq<(usize, ToolCallAccumulatorView)>,
) -> ReadingView {
    match parsed {
        Ok(json) => match chat_response(json) {
            Some(response) => ReadingView {
                texts: Ok(read_response(response.choices, calls).0),
                calls: read_response(response.choices, calls).1,
            },
            None => ReadingView { texts: Err(unexpected_form()), calls },
        },
        Err(message) => ReadingView { texts: Err(message), calls },
    }
}

/// Reads a choice of a chunk.
fn apply_chunk_choice(
    choice: OpenAIChatChunkChoice,
    texts: &mut Vec<String>,
    tool_calls: &mut ToolCallAccumulatorSet,
)
    ensures
        views(final(texts)@) == views(old(texts)@) + chunk_texts(choice@),
        final(tool_calls)@ == match choice@.delta.tool_calls {
            Some(deltas) => with_deltas(old(tool_calls)@, deltas),
            None => old(tool_calls)@,
        },
{
    let ghost before = views(texts@);
    match choice.delta.content {
        Some(content) => {
            texts.push(content);
        },
        None => {},
    }
    match choice.delta.reasoning_content {
        Some(reasoning) => {
            texts.push(format_reasoning_delta(reasoning.as_str()));
        },
        None => {},
    }
    assert(views(texts@) =~= before + chunk_texts(choice@));
    match choice.delta.tool_calls {
        Some(deltas) => {
            tool_calls.apply_deltas(deltas);
        },
        None => {},
    }
}

/// Reads the choices of a chunk, from the first to the last.
fn apply_chunk(chunk: OpenAIChatChunk, tool_calls: &mut ToolCallAccumulatorSet) -> (texts: Vec<
    String,
>)
    ensures
        views(texts@) == read_chunk(chunk@.choices, old(tool_calls)@).0,
        final(tool_calls)@ == read_chunk(chunk@.choices, old(tool_calls)@).1,
{
    let ghost all = chunk@.choices;
    let mut rest: Vec<OpenAIChatChunkChoice> = reversed(chunk.choices);
    let mut texts: Vec<String> = Vec::new();
    let ghost mut n: int = 0;
    assert(all.take(0) == Seq::<OpenAIChatChunkChoiceView>::empty());
    loop
        invariant
            0 <= n,
            n + rest@.len() == all.len(),
            forall|i: int|
                0 <= i < rest@.len() ==> (#[trigger] rest@[i])@ == all[all.len() - 1 - i],
            views(texts@) == read_chunk(all.take(n), old(tool_calls)@).0,
            tool_calls@ == read_chunk(all.take(n), old(tool_calls)@).1,
        ensures
            views(texts@) == read_chunk(all, old(tool_calls)@).0,
            tool_calls@ == read_chunk(all, old(tool_calls)@).1,
        decreases rest@.len(),
    {
        match rest.pop() {
            Some(choice) => {
                assert(all.take(n + 1).drop_last() == all.take(n));
                assert(choice@ == all[n]);
                apply_chunk_choice(choice, &mut texts, tool_calls);
                proof {
                    n = n + 1;
                }
            },
            None => {
                assert(all.take(n) == all);
                break;
            },
        }
    }
    texts
}

/// Reads the choices of a whole answer, from the first to the last.
fn apply_response(response: OpenAIChatResponse, tool_calls: &mut ToolCallAccumulatorSet) -> (texts:
    Vec<String>)
    ensures
        views(texts@) == read_response(response@.choices, old(tool_calls)@).0,
        final(tool_calls)@ == read_response(response@.choices, old(tool_calls)@).1,
{
    let ghost all = response@.choices;
    let mut rest: Vec<OpenAIChatResponseChoice> = reversed(response.choices);
    let mut texts: Vec<String> = Vec::new();
    let ghost mut n: int = 0;
    assert(all.take(0) == Seq::<OpenAIChatResponseChoiceView>::empty());
    loop
        invariant
            0 <= n,
            n + rest@.len() == all.len(),
            forall|i: int|
                0 <= i < rest@.len() ==> (#[trigger] rest@[i])@ == all[all.len() - 1 - i],
            views(texts@) == read_response(all.take(n), old(tool_calls)@).0,
            tool_calls@ == read_response(all.take(n), old(tool_calls)@).1,
        ensures
            views(texts@) == read_response(all, old(tool_calls)@).0,
            tool_calls@ == read_response(all, old(tool_calls)@).1,
        decreases rest@.len(),
    {
        match rest.pop() {
            Some(choice) => {
                assert(all.take(n + 1).drop_last() == all.take(n));
                assert(choice@ == all[n]);
                let ghost before = views(texts@);
                match choice.message.content {
                    Some(content) => {
                        texts.push(content);
                        assert(views(texts@) =~= before.push(content@));
                    },
                    None => {},
                }
                match choice.message.tool_calls {
                    Some(full) => {
                        tool_calls.apply_full_calls(full);
                    },
                    None => {},
                }
                proof {
                    n = n + 1;
                }
            },
            None => {
                assert(all.take(n) == all);
                break;
            },
        }
    }
    texts
}

/// Reads a chunk of a stream that has been parsed.
pub fn read_chat_chunk_json(
    parsed: Result<Json, String>,
    tool_calls: &mut ToolCallAccumulatorSet,
) -> (r: Result<Vec<String>, String>)
    ensures
        texts_view(r) == read_chat_chunk(res_view(parsed), old(tool_calls)@).texts,
        final(tool_calls)@ == read_chat_chunk(res_view(parsed), old(tool_calls)@).calls,
{
    match parsed {
        Ok(json) => match OpenAIChatChunk::from_json(&json) {
            Some(chunk) => Ok(apply_chunk(chunk, tool_calls)),
            None => Err("the response does not have the form of a chat completion".to_owned()),
        },
        Err(message) => Err(message),
    }
}

/// Reads a whole answer that has been parsed.
pub fn read_chat_response_json(
    parsed: Result<Json, String>,
    tool_calls: &mut ToolCallAccumulatorSet,
) -> (r: Result<Vec<String>, String>)
    ensures
        texts_view(r) == read_chat_response(res_view(parsed), old(tool_calls)@).texts,
        final(tool_calls)@ == read_chat_response(res_view(parsed), old(tool_calls)@).calls,
{
    match parsed {
        Ok(json) => match OpenAIChatResponse::from_json(&json) {
            Some(response) => Ok(apply_response(response, tool_calls)),
            None => Err("the response does not have the form of a chat completion".to_owned()),
        },
        Err(message) => Err(message),
    }
}

// ---------------------------------------------------------------------------------------------
// Responses
// ---------------------------------------------------------------------------------------------
/// The index of the output item that an event speaks of, where it gives one.
pub open spec fn output_index(event: JsonView) -> Option<usize> {
    match event.get("output_index"@) {
        Some(value) => usize_value(value),
        None => None,
    }
}

/// The index of the output item that an event speaks of.
pub fn response_output_index(event: &Json) -> (r: Option<usize>)
    ensures
        r == output_index(event@),
{
    match event.get("output_index") {
        Some(value) => usize_of(value),
        None => None,
    }
}

/// The text of a piece of content, where it is a text and not empty.
pub open spec fn content_text(content: JsonView) -> Option<Seq<char>> {
    let kind = content.get_str("type"@);
    if kind == Some("output_text"@) || kind == Some("text"@) {
        let text = match content.get("text"@) {
            Some(value) => value.as_str(),
            None => content.get_str("output_text"@),
        };
        match text {
            Some(t) => if t.len() == 0 {
                None
            } else {
                Some(t)
            },
            None => None,
        }
    } else {
        None
    }
}

/// The texts of pieces of content.
pub open spec fn content_texts(contents: Seq<JsonView>) -> Seq<Seq<char>>
    decreases contents.len(),
{
    if contents.len() == 0 {
        Seq::empty()
    } else {
        let before = content_texts(contents.drop_last());
        match content_text(contents.last()) {
            Some(text) => before.push(text),
            None => before,
        }
    }
}

/// The texts of an output item: those of a message.
pub open spec fn item_texts(item: JsonView) -> Seq<Seq<char>> {
    if item.get_str("type"@) == Some("message"@) {
        match item.get_array("content"@) {
            Some(contents) => content_texts(contents),
            None => Seq::empty(),
        }
    } else {
        Seq::empty()
    }
}

/// The texts of output items.
pub open spec fn items_texts(items: Seq<JsonView>) -> Seq<Seq<char>>
    decreases items.len(),
{
    if items.len() == 0 {
        Seq::empty()
    } else {
        items_texts(items.drop_last()) + item_texts(items.last())
    }
}

/// The texts of a response: its `output_text`, unless that is empty, or else those of its output.
pub open spec fn response_texts(response: JsonView) -> Seq<Seq<char>> {
    match response.get_str("output_text"@) {
        Some(text) => if text.len() > 0 {
            seq![text]
        } else {
            output_texts(response)
        },
        None => output_texts(response),
    }
}

/// The texts of the output of a response.
pub open spec fn output_texts(response: JsonView) -> Seq<Seq<char>> {
    match response.get_array("output"@) {
        Some(items) => items_texts(items),
        None => Seq::empty(),
    }
}

/// The message of an error: its own, or that of the error within it.
pub open spec fn error_message(value: JsonView) -> Option<Seq<char>> {
    match value.get("message"@) {
        Some(message) => message.as_str(),
        None => match value.get("error"@) {
            Some(error) => error.get_str("message"@),
            None => None,
        },
    }
}

/// A text, or another where there is none.
pub open spec fn text_or(text: Option<Seq<char>>, other: Seq<char>) -> Seq<char> {
    match text {
        Some(t) => t,
        None => other,
    }
}

/// What an event of a stream of responses adds.
pub open spec fn read_response_event(
    event: JsonView,
    calls: Seq<(usize, ToolCallAccumulatorView)>,
    include_completed_text: bool,
) -> ReadingView {
    let kind = text_or_empty(event.get_str("type"@));
    let item_id = event.get_str("item_id"@);
    if kind == "response.output_text.delta"@ || kind == "response.reasoning_summary_text.delta"@ {
        ReadingView {
            texts: Ok(
                match event.get_str("delta"@) {
                    Some(delta) => seq![delta],
                    None => Seq::empty(),
                },
            ),
            calls,
        }
    } else if kind == "response.function_call_arguments.delta"@ {
        ReadingView {
            texts: Ok(Seq::empty()),
            calls: with_arguments_delta(
                calls,
                output_index(event),
                item_id,
                text_or_empty(event.get_str("delta"@)),
            ),
        }
    } else if kind == "response.function_call_arguments.done"@ {
        ReadingView {
            texts: Ok(Seq::empty()),
            calls: match event.get_str("arguments"@) {
                Some(arguments) => with_arguments(calls, output_index(event), item_id, arguments),
                None => calls,
            },
        }
    } else if kind == "response.output_item.added"@ || kind == "response.output_item.done"@ {
        ReadingView {
            texts: Ok(Seq::empty()),
            calls: match event.get("item"@) {
                Some(item) => with_output_item(calls, output_index(event), item),
                None => calls,
            },
        }
    } else if kind == "response.completed"@ {
        match event.get("response"@) {
            Some(response) => ReadingView {
                texts: Ok(
                    if include_completed_text {
                        response_texts(response)
                    } else {
                        Seq::empty()
                    },
                ),
                calls: with_response(calls, response),
            },
            None => ReadingView { texts: Ok(Seq::empty()), calls },
        }
    } else if kind == "response.failed"@ {
        let message = match event.get("response"@) {
            Some(response) => match response.get("error"@) {
                Some(error) => error_message(error),
                None => None,
            },
            None => None,
        };
        ReadingView {
            texts: Err(text_or(message, "Responses backend reported failure"@)),
            calls,
        }
    } else if kind == "error"@ {
        ReadingView {
            texts: Err(
                text_or(error_message(event), "Responses backend returned an error event"@),
            ),
            calls,
        }
    } else {
        ReadingView { texts: Ok(Seq::empty()), calls }
    }
}

/// What an event of a stream of responses adds, given by its text.
pub open spec fn read_responses_event(
    parsed: Result<JsonView, Seq<char>>,
    calls: Seq<(usize, ToolCallAccumulatorView)>,
    include_completed_text: bool,
) -> ReadingView {
    match parsed {
        Ok(event) => read_response_event(event, calls, include_completed_text),
        Err(message) => ReadingView { texts: Err(message), calls },
    }
}

/// What a whole response adds.
pub open spec fn read_responses_response(
    parsed: Result<JsonView, Seq<char>>,
    calls: Seq<(usize, ToolCallAccumulatorView)>,
    include_completed_text: bool,
) -> ReadingView {
    match parsed {
        Ok(response) => ReadingView {
            texts: Ok(
                if include_completed_text {
                    response_texts(response)
                } else {
                    Seq::empty()
                },
            ),
            calls: with_response(calls, response),
        },
        Err(message) => ReadingView { texts: Err(message), calls },
    }
}

/// The text of a piece of content.
fn read_content_text<'a>(content: &'a Json) -> (r: Option<&'a str>)
    ensures
        opt_view(r) == content_text(content@),
{
    let kind = match content.get_str("type") {
        Some(kind) => kind,
        None => {
            return None;
        },
    };
    if !same(kind, "output_text") && !same(kind, "text") {
        return None;
    }
    let text = match content.get("text") {
        Some(value) => value.as_str(),
        None => content.get_str("output_text"),
    };
    match text {
        Some(t) => if t.is_empty() {
            None
        } else {
            Some(t)
        },
        None => None,
    }
}

/// Adds the texts of an output item.
fn push_item_texts(item: &Json, texts: &mut Vec<String>)
    ensures
        views(final(texts)@) == views(old(texts)@) + item_texts(item@),
{
    let ghost start = views(texts@);
    match item.get_str("type") {
        Some(kind) => {
            if !same(kind, "message") {
                assert(start + Seq::<Seq<char>>::empty() == start);
                return;
            }
        },
        None => {
            assert(start + Seq::<Seq<char>>::empty() == start);
            return;
        },
    }
    match item.get_array("content") {
        Some(contents) => {
            let ghost all = views(contents@);
            let mut i: usize = 0;
            assert(start + Seq::<Seq<char>>::empty() == start);
            assert(all.take(0) == Seq::<JsonView>::empty());
            while i < contents.len()
                invariant
                    i <= contents.len(),
                    all == views(contents@),
                    views(texts@) == start + content_texts(all.take(i as int)),
                decreases contents.len() - i,
            {
                assert(all.take(i + 1).drop_last() == all.take(i as int));
                let ghost before = views(texts@);
                match read_content_text(&contents[i]) {
                    Some(text) => {
                        texts.push(text.to_owned());
                        assert(views(texts@) =~= before.push(text@));
                        assert(before.push(text@) =~= start + content_texts(
                            all.take(i as int),
                        ).push(text@));
                    },
                    None => {},
                }
                i += 1;
            }
            assert(all.take(all.len() as int) == all);
        },
        None => {
            assert(start + Seq::<Seq<char>>::empty() == start);
        },
    }
}

/// The texts of a response.
pub fn responses_output_text(response: &Json) -> (texts: Vec<String>)
    ensures
        views(texts@) == response_texts(response@),
{
    let mut texts: Vec<String> = Vec::new();
    match response.get_str("output_text") {
        Some(text) => {
            if !text.is_empty() {
                texts.push(text.to_owned());
                assert(views(texts@) =~= seq![text@]);
                return texts;
            }
        },
        None => {},
    }
    match response.get_array("output") {
        Some(items) => {
            let ghost all = views(items@);
            let mut i: usize = 0;
            assert(all.take(0) == Seq::<JsonView>::empty());
            while i < items.len()
                invariant
                    i <= items.len(),
                    all == views(items@),
                    views(texts@) == items_texts(all.take(i as int)),
                decreases items.len() - i,
            {
                assert(all.take(i + 1).drop_last() == all.take(i as int));
                push_item_texts(&items[i], &mut texts);
                i += 1;
            }
            assert(all.take(all.len() as int) == all);
        },
        None => {},
    }
    texts
}

/// The message of an error.
pub fn error_message_from_value(value: &Json) -> (r: Option<String>)
    ensures
        opt_view(r) == error_message(value@),
{
    let message = match value.get("message") {
        Some(message) => message.as_str(),
        None => match value.get("error") {
            Some(error) => error.get_str("message"),
            None => None,
        },
    };
    match message {
        Some(message) => Some(message.to_owned()),
        None => None,
    }
}

/// Reads an event of a stream of responses.
pub fn read_response_event_json(
    event: &Json,
    tool_calls: &mut ToolCallAccumulatorSet,
    include_completed_text: bool,
) -> (r: Result<Vec<String>, String>)
    ensures
        texts_view(r) == read_response_event(
            event@,
            old(tool_calls)@,
            include_completed_text,
        ).texts,
        final(tool_calls)@ == read_response_event(
            event@,
            old(tool_calls)@,
            include_completed_text,
        ).calls,
{
    let kind = or_empty(event.get_str("type"));
    let mut texts: Vec<String> = Vec::new();
    assert(views(texts@) =~= Seq::<Seq<char>>::empty());
    if same(kind, "response.output_text.delta") || same(
        kind,
        "response.reasoning_summary_text.delta",
    ) {
        match event.get_str("delta") {
            Some(delta) => {
                texts.push(delta.to_owned());
                assert(views(texts@) =~= seq![delta@]);
            },
            None => {},
        }
        Ok(texts)
    } else if same(kind, "response.function_call_arguments.delta") {
        tool_calls.apply_response_arguments_delta(
            response_output_index(event),
            event.get_str("item_id"),
            or_empty(event.get_str("delta")),
        );
        Ok(texts)
    } else if same(kind, "response.function_call_arguments.done") {
        match event.get_str("arguments") {
            Some(arguments) => {
                tool_calls.apply_response_arguments_done(
                    response_output_index(event),
                    event.get_str("item_id"),
                    arguments,
                );
            },
            None => {},
        }
        Ok(texts)
    } else if same(kind, "response.output_item.added") || same(kind, "response.output_item.done") {
        match event.get("item") {
            Some(item) => {
                tool_calls.apply_response_output_item(response_output_index(event), item);
            },
            None => {},
        }
        Ok(texts)
    } else if same(kind, "response.completed") {
        match event.get("response") {
            Some(response) => {
                tool_calls.apply_responses_output(response);
                if include_completed_text {
                    return Ok(responses_output_text(response));
                }
            },
            None => {},
        }
        Ok(texts)
    } else if same(kind, "response.failed") {
        let message = match event.get("response") {
            Some(response) => match response.get("error") {
                Some(error) => error_message_from_value(error),
                None => None,
            },
            None => None,
        };
        match message {
            Some(message) => Err(message),
            None => Err("Responses backend reported failure".to_owned()),
        }
    } else if same(kind, "error") {
        match error_message_from_value(event) {
            Some(message) => Err(message),
            None => Err("Responses backend returned an error event".to_owned()),
        }
    } else {
        Ok(texts)
    }
}

/// Reads a whole response that has been parsed.
pub fn read_responses_response_json(
    response: &Json,
    tool_calls: &mut ToolCallAccumulatorSet,
    include_completed_text: bool,
) -> (texts: Vec<String>)
    ensures
        read_responses_response(Ok(response@), old(tool_calls)@, include_completed_text).texts
            == Ok::<_, Seq<char>>(views(texts@)),
        final(tool_calls)@ == read_responses_response(
            Ok(response@),
            old(tool_calls)@,
            include_completed_text,
        ).calls,
{
    tool_calls.apply_responses_output(response);
    if include_completed_text {
        responses_output_text(response)
    } else {
        let texts: Vec<String> = Vec::new();
        assert(views(texts@) =~= Seq::<Seq<char>>::empty());
        texts
    }
}

// ---------------------------------------------------------------------------------------------
// Both protocols
// ---------------------------------------------------------------------------------------------
/// What the data of an event of a stream add.
pub open spec fn read_event(
    wire_api: WireApi,
    parsed: Result<JsonView, Seq<char>>,
    calls: Seq<(usize, ToolCallAccumulatorView)>,
    include_completed_text: bool,
) -> ReadingView {
    match wire_api {
        WireApi::ChatCompletions => read_chat_chunk(parsed, calls),
        WireApi::Responses => read_responses_event(parsed, calls, include_completed_text),
    }
}

/// What a whole answer adds.
pub open spec fn read_answer(
    wire_api: WireApi,
    parsed: Result<JsonView, Seq<char>>,
    calls: Seq<(usize, ToolCallAccumulatorView)>,
    include_completed_text: bool,
) -> ReadingView {
    match wire_api {
        WireApi::ChatCompletions => read_chat_response(parsed, calls),
        WireApi::Responses => read_responses_response(parsed, calls, include_completed_text),
    }
}

/// A completed response adds no text where its text is not asked for, so text that was streamed
/// before is not repeated.
pub proof fn lemma_completed_text_is_not_repeated(
    event: JsonView,
    calls: Seq<(usize, ToolCallAccumulatorView)>,
)
    requires
        event.get_str("type"@) == Some("response.completed"@),
    ensures
        read_response_event(event, calls, false).texts == Ok::<Seq<Seq<char>>, Seq<char>>(
            Seq::empty(),
        ),
        read_response_event(event, calls, false).calls == read_response_event(
            event,
            calls,
            true,
        ).calls,
{
    reveal_strlit("response.completed");
    reveal_strlit("response.output_text.delta");
    reveal_strlit("response.reasoning_summary_text.delta");
    reveal_strlit("response.function_call_arguments.delta");
    reveal_strlit("response.function_call_arguments.done");
    reveal_strlit("response.output_item.added");
    reveal_strlit("response.output_item.done");
    assert("response.completed"@[9] == 'c');
}

/// Reads the data of an event of a stream that have been parsed.
pub fn read_event_json(
    wire_api: WireApi,
    parsed: Result<Json, String>,
    tool_calls: &mut ToolCallAccumulatorSet,
    include_completed_text: bool,
) -> (r: Result<Vec<String>, String>)
    ensures
        texts_view(r) == read_event(
            wire_api,
            res_view(parsed),
            old(tool_calls)@,
            include_completed_text,
        ).texts,
        final(tool_calls)@ == read_event(
            wire_api,
            res_view(parsed),
            old(tool_calls)@,
            include_completed_text,
        ).calls,
{
    match wire_api {
        WireApi::ChatCompletions => read_chat_chunk_json(parsed, tool_calls),
        WireApi::Responses => match parsed {
            Ok(event) => read_response_event_json(&event, tool_calls, include_completed_text),
            Err(message) => Err(message),
        },
    }
}

/// Reads a whole answer that has been parsed.
pub fn read_answer_json(
    wire_api: WireApi,
    parsed: Result<Json, String>,
    tool_calls: &mut ToolCallAccumulatorSet,
    include_completed_text: bool,
) -> (r: Result<Vec<String>, String>)
    ensures
        texts_view(r) == read_answer(
            wire_api,
            res_view(parsed),
            old(tool_calls)@,
            include_completed_text,
        ).texts,
        final(tool_calls)@ == read_answer(
            wire_api,
            res_view(parsed),
            old(tool_calls)@,
            include_completed_text,
        ).calls,
{
    match wire_api {
        WireApi::ChatCompletions => read_chat_response_json(parsed, tool_calls),
        WireApi::Responses => match parsed {
            Ok(response) => Ok(
                read_responses_response_json(&response, tool_calls, include_completed_text),
            ),
            Err(message) => Err(message),
        },
    }
}

/// Reads a chunk of a stream of chat completions.
pub fn parse_chat_sse_data(data: &str, tool_calls: &mut ToolCallAccumulatorSet) -> (r: Result<
    Vec<String>,
    String,
>)
    ensures
        texts_view(r) == read_chat_chunk(json_reading(data@), old(tool_calls)@).texts,
        final(tool_calls)@ == read_chat_chunk(json_reading(data@), old(tool_calls)@).calls,
{
    read_chat_chunk_json(parse_json(data), tool_calls)
}

/// Reads a whole chat completion.
pub fn parse_chat_full_response(body: &str, tool_calls: &mut ToolCallAccumulatorSet) -> (r: Result<
    Vec<String>,
    String,
>)
    ensures
        texts_view(r) == read_chat_response(json_reading(body@), old(tool_calls)@).texts,
        final(tool_calls)@ == read_chat_response(json_reading(body@), old(tool_calls)@).calls,
{
    read_chat_response_json(parse_json(body), tool_calls)
}

/// Reads an event of a stream of responses.
pub fn parse_responses_sse_data(
    data: &str,
    tool_calls: &mut ToolCallAccumulatorSet,
    include_completed_text: bool,
) -> (r: Result<Vec<String>, String>)
    ensures
        texts_view(r) == read_responses_event(
            json_reading(data@),
            old(tool_calls)@,
            include_completed_text,
        ).texts,
        final(tool_calls)@ == read_responses_event(
            json_reading(data@),
            old(tool_calls)@,
            include_completed_text,
        ).calls,
{
    read_event_json(WireApi::Responses, parse_json(data), tool_calls, include_completed_text)
}

/// Reads a whole response.
pub fn parse_responses_full_response(
    body: &str,
    tool_calls: &mut ToolCallAccumulatorSet,
    include_completed_text: bool,
) -> (r: Result<Vec<String>, String>)
    ensures
        texts_view(r) == read_responses_response(
            json_reading(body@),
            old(tool_calls)@,
            include_completed_text,
        ).texts,
        final(tool_calls)@ == read_responses_response(
            json_reading(body@),
            old(tool_calls)@,
            include_completed_text,
        ).calls,
{
    read_answer_json(WireApi::Responses, parse_json(body), tool_calls, include_completed_text)
}

/// Reads the data of an event of a stream.
pub fn parse_backend_sse_data(
    wire_api: WireApi,
    data: &str,
    tool_calls: &mut ToolCallAccumulatorSet,
    include_completed_text: bool,
) -> (r: Result<Vec<String>, String>)
    ensures
        texts_view(r) == read_event(
            wire_api,
            json_reading(data@),
            old(tool_calls)@,
            include_completed_text,
        ).texts,
        final(tool_calls)@ == read_event(
            wire_api,
            json_reading(data@),
            old(tool_calls)@,
            include_completed_text,
        ).calls,
{
    match wire_api {
        WireApi::ChatCompletions => parse_chat_sse_data(data, tool_calls),
        WireApi::Responses => parse_responses_sse_data(data, tool_calls, include_completed_text),
    }
}

/// Reads a whole answer.
pub fn parse_backend_full_response(
    wire_api: WireApi,
    body: &str,
    tool_calls: &mut ToolCallAccumulatorSet,
    include_completed_text: bool,
) -> (r: Result<Vec<String>, String>)
    ensures
        texts_view(r) == read_answer(
            wire_api,
            json_reading(body@),
            old(tool_calls)@,
            include_completed_text,
        ).texts,
        final(tool_calls)@ == read_answer(
            wire_api,
            json_reading(body@),
            old(tool_calls)@,
            include_completed_text,
        ).calls,
{
    match wire_api {
        WireApi::ChatCompletions => parse_chat_full_response(body, tool_calls),
        WireApi::Responses => parse_responses_full_response(
            body,
            tool_calls,
            include_completed_text,
        ),
    }
}

// ---------------------------------------------------------------------------------------------
// What becomes of what a backend sends
// ---------------------------------------------------------------------------------------------
/// Whether an event is of that kind.
pub open spec fn is_event(event: JsonView, kind: Seq<char>) -> bool {
    event.get("type"@) == Some(JsonView::Str(kind))
}

/// Whether an event gives that index.
pub open spec fn gives_index(event: JsonView, index: usize) -> bool {
    event.get("output_index"@) matches Some(JsonView::Number(n)) && n.unsigned == Some(index as u64)
}

proof fn lemma_kinds_differ()
    ensures
        "response.output_text.delta"@ != "response.reasoning_summary_text.delta"@,
        "response.function_call_arguments.delta"@ != "response.output_text.delta"@,
        "response.function_call_arguments.delta"@ != "response.reasoning_summary_text.delta"@,
        "response.function_call_arguments.done"@ != "response.output_text.delta"@,
        "response.function_call_arguments.done"@ != "response.reasoning_summary_text.delta"@,
        "response.function_call_arguments.done"@ != "response.function_call_arguments.delta"@,
        "response.output_item.added"@ != "response.output_text.delta"@,
        "response.output_item.added"@ != "response.reasoning_summary_text.delta"@,
        "response.output_item.added"@ != "response.function_call_arguments.delta"@,
        "response.output_item.added"@ != "response.function_call_arguments.done"@,
        "response.output_item.done"@ != "response.output_text.delta"@,
        "response.output_item.done"@ != "response.reasoning_summary_text.delta"@,
        "response.output_item.done"@ != "response.function_call_arguments.delta"@,
        "response.output_item.done"@ != "response.function_call_arguments.done"@,
        "response.completed"@ != "response.output_text.delta"@,
        "response.completed"@ != "response.reasoning_summary_text.delta"@,
        "response.completed"@ != "response.function_call_arguments.delta"@,
        "response.completed"@ != "response.function_call_arguments.done"@,
        "response.completed"@ != "response.output_item.added"@,
        "response.completed"@ != "response.output_item.done"@,
        "response.failed"@ != "response.output_text.delta"@,
        "response.failed"@ != "response.reasoning_summary_text.delta"@,
        "response.failed"@ != "response.function_call_arguments.delta"@,
        "response.failed"@ != "response.function_call_arguments.done"@,
        "response.failed"@ != "response.output_item.added"@,
        "response.failed"@ != "response.output_item.done"@,
        "response.failed"@ != "response.completed"@,
        "error"@ != "response.output_text.delta"@,
        "error"@ != "response.reasoning_summary_text.delta"@,
        "error"@ != "response.function_call_arguments.delta"@,
        "error"@ != "response.function_call_arguments.done"@,
        "error"@ != "response.output_item.added"@,
        "error"@ != "response.output_item.done"@,
        "error"@ != "response.completed"@,
        "error"@ != "response.failed"@,
{
    reveal_strlit("response.output_text.delta");
    reveal_strlit("response.reasoning_summary_text.delta");
    reveal_strlit("response.function_call_arguments.delta");
    reveal_strlit("response.function_call_arguments.done");
    reveal_strlit("response.output_item.added");
    reveal_strlit("response.output_item.done");
    reveal_strlit("response.completed");
    reveal_strlit("response.failed");
    reveal_strlit("error");
    assert("response.output_text.delta"@.len() != "response.reasoning_summary_text.delta"@.len());
    assert("response.function_call_arguments.delta"@.len() != "response.output_text.delta"@.len());
    assert(
        "response.function_call_arguments.delta"@.len() != "response.reasoning_summary_text.delta"@.len()
    );
    assert("response.function_call_arguments.done"@.len() != "response.output_text.delta"@.len());
    assert(
        "response.function_call_arguments.done"@[9] != "response.reasoning_summary_text.delta"@[9]
    );
    assert(
        "response.function_call_arguments.done"@.len() != "response.function_call_arguments.delta"@.len()
    );
    assert("response.output_item.added"@[16] != "response.output_text.delta"@[16]);
    assert("response.output_item.added"@.len() != "response.reasoning_summary_text.delta"@.len());
    assert("response.output_item.added"@.len() != "response.function_call_arguments.delta"@.len());
    assert("response.output_item.added"@.len() != "response.function_call_arguments.done"@.len());
    assert("response.output_item.done"@.len() != "response.output_text.delta"@.len());
    assert("response.output_item.done"@.len() != "response.reasoning_summary_text.delta"@.len());
    assert("response.output_item.done"@.len() != "response.function_call_arguments.delta"@.len());
    assert("response.output_item.done"@.len() != "response.function_call_arguments.done"@.len());
    assert("response.completed"@.len() != "response.output_text.delta"@.len());
    assert("response.completed"@.len() != "response.reasoning_summary_text.delta"@.len());
    assert("response.completed"@.len() != "response.function_call_arguments.delta"@.len());
    assert("response.completed"@.len() != "response.function_call_arguments.done"@.len());
    assert("response.completed"@.len() != "response.output_item.added"@.len());
    assert("response.completed"@.len() != "response.output_item.done"@.len());
    assert("response.failed"@.len() != "response.output_text.delta"@.len());
    assert("response.failed"@.len() != "response.reasoning_summary_text.delta"@.len());
    assert("response.failed"@.len() != "response.function_call_arguments.delta"@.len());
    assert("response.failed"@.len() != "response.function_call_arguments.done"@.len());
    assert("response.failed"@.len() != "response.output_item.added"@.len());
    assert("response.failed"@.len() != "response.output_item.done"@.len());
    assert("response.failed"@.len() != "response.completed"@.len());
    assert("error"@.len() != "response.output_text.delta"@.len());
    assert("error"@.len() != "response.reasoning_summary_text.delta"@.len());
    assert("error"@.len() != "response.function_call_arguments.delta"@.len());
    assert("error"@.len() != "response.function_call_arguments.done"@.len());
    assert("error"@.len() != "response.output_item.added"@.len());
    assert("error"@.len() != "response.output_item.done"@.len());
    assert("error"@.len() != "response.completed"@.len());
    assert("error"@.len() != "response.failed"@.len());
}

/// Text that a backend streams is text for the user as it is, and leaves the tool calls alone.
pub proof fn lemma_streamed_text_is_told(
    event: JsonView,
    calls: Seq<(usize, ToolCallAccumulatorView)>,
    include_completed_text: bool,
    text: Seq<char>,
)
    requires
        is_event(event, "response.output_text.delta"@) || is_event(
            event,
            "response.reasoning_summary_text.delta"@,
        ),
        event.get("delta"@) == Some(JsonView::Str(text)),
    ensures
        read_responses_event(Ok(event), calls, include_completed_text).texts == Ok::<
            Seq<Seq<char>>,
            Seq<char>,
        >(seq![text]),
        read_responses_event(Ok(event), calls, include_completed_text).calls == calls,
{
    lemma_kinds_differ();
}

/// Arguments that a backend streams are appended to those of the call of their index, and say
/// nothing to the user; whole arguments take the place of what was gathered.
pub proof fn lemma_streamed_arguments_are_gathered(
    event: JsonView,
    calls: Seq<(usize, ToolCallAccumulatorView)>,
    include_completed_text: bool,
    index: usize,
    text: Seq<char>,
    other: usize,
)
    requires
        increasing(calls),
        gives_index(event, index),
    ensures
        is_event(event, "response.function_call_arguments.delta"@) && event.get("delta"@) == Some(
            JsonView::Str(text),
        ) ==> ({
            let read = read_responses_event(Ok(event), calls, include_completed_text);
            &&& read.texts == Ok::<Seq<Seq<char>>, Seq<char>>(Seq::empty())
            &&& increasing(read.calls)
            &&& call_at(read.calls, index).arguments == call_at(calls, index).arguments + text
            &&& call_at(read.calls, index).name == call_at(calls, index).name
            &&& call_at(read.calls, index).id == call_at(calls, index).id
            &&& other != index ==> call_at(read.calls, other) == call_at(calls, other)
        }),
        is_event(event, "response.function_call_arguments.done"@) && event.get("arguments"@)
            == Some(JsonView::Str(text)) ==> ({
            let read = read_responses_event(Ok(event), calls, include_completed_text);
            &&& read.texts == Ok::<Seq<Seq<char>>, Seq<char>>(Seq::empty())
            &&& increasing(read.calls)
            &&& call_at(read.calls, index).arguments == text
            &&& call_at(read.calls, index).name == call_at(calls, index).name
            &&& call_at(read.calls, index).id == call_at(calls, index).id
            &&& other != index ==> call_at(read.calls, other) == call_at(calls, other)
        }),
{
    lemma_kinds_differ();
    lemma_arguments_go_to_their_call(calls, index, event.get_str("item_id"@), text, other);
}

/// An item that a backend adds or finishes says what its call is: its name, its identifier and its
/// arguments, whatever was gathered before.
pub proof fn lemma_streamed_items_are_taken(
    event: JsonView,
    item: JsonView,
    calls: Seq<(usize, ToolCallAccumulatorView)>,
    include_completed_text: bool,
    index: usize,
    other: usize,
)
    requires
        increasing(calls),
        is_event(event, "response.output_item.added"@) || is_event(
            event,
            "response.output_item.done"@,
        ),
        gives_index(event, index),
        event.get("item"@) == Some(item),
        item.get("type"@) == Some(JsonView::Str("function_call"@)),
    ensures
        ({
            let read = read_responses_event(Ok(event), calls, include_completed_text);
            let call = call_at(read.calls, index);
            &&& read.texts == Ok::<Seq<Seq<char>>, Seq<char>>(Seq::empty())
            &&& increasing(read.calls)
            &&& has_call(read.calls, index)
            &&& item.get_str("arguments"@) is Some ==> item.get_str("arguments"@) == Some(
                call.arguments,
            )
            &&& item.get_str("name"@) is Some ==> call.name == item.get_str("name"@)
            &&& item.get_str("call_id"@) is Some && item.get_str("call_id"@)->0.len() > 0
                ==> call.id == item.get_str("call_id"@)
            &&& other != index ==> call_at(read.calls, other) == call_at(calls, other)
        }),
{
    lemma_kinds_differ();
    lemma_item_says_what_its_call_is(calls, index, item, other);
    lemma_output_item_keeps_order(calls, Some(index), item);
}

/// The usual course of a tool call in a stream: whatever pieces were gathered, the finished item
/// says what the arguments are, and a second event with the same item changes nothing.
pub proof fn lemma_finished_item_counts(
    event: JsonView,
    item: JsonView,
    calls: Seq<(usize, ToolCallAccumulatorView)>,
    other_calls: Seq<(usize, ToolCallAccumulatorView)>,
    index: usize,
)
    requires
        increasing(calls),
        increasing(other_calls),
        is_event(event, "response.output_item.done"@),
        gives_index(event, index),
        event.get("item"@) == Some(item),
        item.get("type"@) == Some(JsonView::Str("function_call"@)),
        item.get_str("arguments"@) is Some,
    ensures
        call_at(read_responses_event(Ok(event), calls, false).calls, index).arguments == call_at(
            read_responses_event(Ok(event), other_calls, false).calls,
            index,
        ).arguments,
        read_responses_event(
            Ok(event),
            read_responses_event(Ok(event), calls, false).calls,
            false,
        ).calls == read_responses_event(Ok(event), calls, false).calls,
{
    lemma_kinds_differ();
    lemma_streamed_items_are_taken(event, item, calls, false, index, index);
    lemma_streamed_items_are_taken(event, item, other_calls, false, index, index);
    lemma_item_can_be_taken_twice(calls, index, item);
}

/// A completed response tells its calls again, and its text where that is asked for.
pub proof fn lemma_completed_response_is_told(
    event: JsonView,
    response: JsonView,
    calls: Seq<(usize, ToolCallAccumulatorView)>,
)
    requires
        is_event(event, "response.completed"@),
        event.get("response"@) == Some(response),
    ensures
        read_responses_event(Ok(event), calls, true) == read_responses_response(
            Ok(response),
            calls,
            true,
        ),
        response.get_array("output"@) matches Some(items) ==> read_responses_event(
            Ok(event),
            calls,
            true,
        ).calls == with_output_items(calls, items),
        response.get_array("output"@) is None ==> read_responses_event(Ok(event), calls, true).calls
            == calls,
{
    lemma_kinds_differ();
}

/// The text of a whole response: what it says as `output_text` where that is not empty, and else
/// the texts of the contents of its messages in their order.
pub proof fn lemma_text_of_response(
    response: JsonView,
    calls: Seq<(usize, ToolCallAccumulatorView)>,
)
    ensures
        response.get_str("output_text"@) matches Some(text) ==> text.len() > 0
            ==> read_responses_response(Ok(response), calls, true).texts == Ok::<
            Seq<Seq<char>>,
            Seq<char>,
        >(seq![text]),
        response.get("output_text"@) is None && response.get_array("output"@) is None
            ==> read_responses_response(Ok(response), calls, true).texts == Ok::<
            Seq<Seq<char>>,
            Seq<char>,
        >(Seq::empty()),
        (response.get("output_text"@) is None || response.get("output_text"@) == Some(
            JsonView::Str(Seq::empty()),
        )) ==> (response.get_array("output"@) matches Some(items) ==> read_responses_response(
            Ok(response),
            calls,
            true,
        ).texts == Ok::<Seq<Seq<char>>, Seq<char>>(items_texts(items))),
        read_responses_response(Ok(response), calls, false).texts == Ok::<
            Seq<Seq<char>>,
            Seq<char>,
        >(Seq::empty()),
{
}

/// The texts of output items follow one another as the items do; a message has the texts of its
/// contents, and other items have none.
pub proof fn lemma_texts_follow_the_items(
    first: Seq<JsonView>,
    second: Seq<JsonView>,
    item: JsonView,
    contents: Seq<JsonView>,
)
    ensures
        items_texts(first + second) == items_texts(first) + items_texts(second),
        item.get("type"@) == Some(JsonView::Str("message"@)) && item.get("content"@) == Some(
            JsonView::Array(contents),
        ) ==> items_texts(seq![item]) == content_texts(contents),
        item.get("type"@) != Some(JsonView::Str("message"@)) ==> items_texts(seq![item])
            == Seq::<Seq<char>>::empty(),
        content_texts(first + second) == content_texts(first) + content_texts(second),
        items_texts(Seq::empty()) == Seq::<Seq<char>>::empty(),
        content_texts(Seq::empty()) == Seq::<Seq<char>>::empty(),
    decreases second.len(),
{
    assert(seq![item].drop_last() =~= Seq::<JsonView>::empty());
    assert(items_texts(Seq::empty()) =~= Seq::<Seq<char>>::empty());
    assert(items_texts(seq![item]) == items_texts(seq![item].drop_last()) + item_texts(
        seq![item].last(),
    ));
    assert(items_texts(seq![item]) =~= item_texts(item));
    if second.len() == 0 {
        assert(first + second =~= first);
        assert(items_texts(first) + items_texts(second) =~= items_texts(first));
        assert(content_texts(first) + content_texts(second) =~= content_texts(first));
    } else {
        assert((first + second).drop_last() =~= first + second.drop_last());
        lemma_texts_follow_the_items(first, second.drop_last(), item, contents);
        assert(items_texts(first + second) =~= items_texts(first) + items_texts(second));
        assert(content_texts(first + second) =~= content_texts(first) + content_texts(second));
    }
}

/// A content of a message that is text has that text, unless it is empty; others have none.
pub proof fn lemma_text_of_content(content: JsonView, text: Seq<char>)
    ensures
        (content.get("type"@) == Some(JsonView::Str("output_text"@)) || content.get("type"@)
            == Some(JsonView::Str("text"@))) && content.get("text"@) == Some(JsonView::Str(text))
            && text.len() > 0 ==> content_texts(seq![content]) == seq![text],
        content.get("text"@) == Some(JsonView::Str(text)) && text.len() == 0 ==> content_texts(
            seq![content],
        ) == Seq::<Seq<char>>::empty(),
        content.get("type"@) != Some(JsonView::Str("output_text"@)) && content.get("type"@) != Some(
            JsonView::Str("text"@),
        ) ==> content_texts(seq![content]) == Seq::<Seq<char>>::empty(),
{
    assert(seq![content].drop_last() =~= Seq::<JsonView>::empty());
    assert(content_texts(Seq::empty()) =~= Seq::<Seq<char>>::empty());
    if content_text(content) is Some {
        assert(content_texts(seq![content]) =~= seq![content_text(content)->0]);
    }
}

/// A failure that a backend reports is an error with its message, and leaves the calls alone.
pub proof fn lemma_failures_are_errors(
    event: JsonView,
    calls: Seq<(usize, ToolCallAccumulatorView)>,
    include_completed_text: bool,
    error: JsonView,
    message: Seq<char>,
)
    requires
        error.get("message"@) == Some(JsonView::Str(message)),
    ensures
        is_event(event, "response.failed"@) && (event.get("response"@) matches Some(response)
            && response.get("error"@) == Some(error)) ==> read_responses_event(
            Ok(event),
            calls,
            include_completed_text,
        ) == (ReadingView { texts: Err(message), calls }),
        is_event(event, "error"@) && event.get("message"@) == Some(JsonView::Str(message))
            ==> read_responses_event(Ok(event), calls, include_completed_text) == (ReadingView {
            texts: Err(message),
            calls,
        }),
        is_event(event, "error"@) && event.get("message"@) is None && event.get("error"@) == Some(
            error,
        ) ==> read_responses_event(Ok(event), calls, include_completed_text) == (ReadingView {
            texts: Err(message),
            calls,
        }),
        is_event(event, "response.failed"@) || is_event(event, "error"@) ==> read_responses_event(
            Ok(event),
            calls,
            include_completed_text,
        ).texts is Err && read_responses_event(Ok(event), calls, include_completed_text).calls
            == calls,
{
    lemma_kinds_differ();
}

/// What cannot be read as JSON is an error with the reader's own message, whatever the protocol,
/// and leaves the calls alone.
pub proof fn lemma_unreadable_is_an_error(
    wire_api: WireApi,
    message: Seq<char>,
    calls: Seq<(usize, ToolCallAccumulatorView)>,
    include_completed_text: bool,
)
    ensures
        read_event(wire_api, Err(message), calls, include_completed_text) == (ReadingView {
            texts: Err(message),
            calls,
        }),
        read_answer(wire_api, Err(message), calls, include_completed_text) == (ReadingView {
            texts: Err(message),
            calls,
        }),
{
}

/// Each protocol is read in its own form.
pub proof fn lemma_protocols_are_read(
    parsed: Result<JsonView, Seq<char>>,
    calls: Seq<(usize, ToolCallAccumulatorView)>,
    include_completed_text: bool,
)
    ensures
        read_event(WireApi::Responses, parsed, calls, include_completed_text)
            == read_responses_event(parsed, calls, include_completed_text),
        read_event(WireApi::ChatCompletions, parsed, calls, include_completed_text)
            == read_chat_chunk(parsed, calls),
        read_answer(WireApi::Responses, parsed, calls, include_completed_text)
            == read_responses_response(parsed, calls, include_completed_text),
        read_answer(WireApi::ChatCompletions, parsed, calls, include_completed_text)
            == read_chat_response(parsed, calls),
{
}

/// The choices of a chunk add their texts and their pieces of calls one after another.
pub proof fn lemma_choices_follow_one_another(
    first: Seq<OpenAIChatChunkChoiceView>,
    second: Seq<OpenAIChatChunkChoiceView>,
    calls: Seq<(usize, ToolCallAccumulatorView)>,
)
    ensures
        read_chunk(first + second, calls).0 == read_chunk(first, calls).0 + read_chunk(
            second,
            read_chunk(first, calls).1,
        ).0,
        read_chunk(first + second, calls).1 == read_chunk(second, read_chunk(first, calls).1).1,
    decreases second.len(),
{
    if second.len() == 0 {
        assert(first + second =~= first);
        assert(read_chunk(first + second, calls).0 =~= read_chunk(first, calls).0 + read_chunk(
            second,
            read_chunk(first, calls).1,
        ).0);
    } else {
        assert((first + second).drop_last() =~= first + second.drop_last());
        lemma_choices_follow_one_another(first, second.drop_last(), calls);
        assert(read_chunk(first + second, calls).0 =~= read_chunk(first, calls).0 + read_chunk(
            second,
            read_chunk(first, calls).1,
        ).0);
    }
}

/// A choice of a chunk adds its content as it is, then its reasoning behind an empty line unless it
/// is blank, and its pieces of calls.
pub proof fn lemma_choice_is_told(
    choice: OpenAIChatChunkChoiceView,
    calls: Seq<(usize, ToolCallAccumulatorView)>,
    text: Seq<char>,
    reasoning: Seq<char>,
)
    ensures
        choice.delta.content == Some(text) && choice.delta.reasoning_content is None ==> read_chunk(
            seq![choice],
            calls,
        ).0 == seq![text],
        choice.delta.content is None && choice.delta.reasoning_content is None ==> read_chunk(
            seq![choice],
            calls,
        ).0 == Seq::<Seq<char>>::empty(),
        choice.delta.content is None && choice.delta.reasoning_content == Some(reasoning) && !blank(
            reasoning,
        ) ==> read_chunk(seq![choice], calls).0 == seq![seq!['\n', '\n'] + reasoning],
        choice.delta.content == Some(text) && choice.delta.reasoning_content == Some(reasoning)
            && !blank(reasoning) ==> read_chunk(seq![choice], calls).0 == seq![
            text,
            seq!['\n', '\n'] + reasoning,
        ],
        choice.delta.content is None && choice.delta.reasoning_content == Some(reasoning) && blank(
            reasoning,
        ) ==> read_chunk(seq![choice], calls).0 == seq![Seq::<char>::empty()],
        choice.delta.tool_calls matches Some(deltas) ==> read_chunk(seq![choice], calls).1
            == with_deltas(calls, deltas),
        choice.delta.tool_calls is None ==> read_chunk(seq![choice], calls).1 == calls,
{
    reveal_strlit("\n\n");
    assert("\n\n"@ =~= seq!['\n', '\n']);
    let none = Seq::<OpenAIChatChunkChoiceView>::empty();
    assert(seq![choice].drop_last() =~= none);
    assert(read_chunk(none, calls).0 =~= Seq::<Seq<char>>::empty());
    assert(read_chunk(seq![choice], calls).0 =~= chunk_texts(choice));
    if choice.delta.content == Some(text) {
        assert(seq![text].push(seq!['\n', '\n'] + reasoning) =~= seq![
            text,
            seq!['\n', '\n'] + reasoning,
        ]);
    }
    assert(Seq::<Seq<char>>::empty().push(seq!['\n', '\n'] + reasoning) =~= seq![
        seq!['\n', '\n'] + reasoning,
    ]);
    assert(Seq::<Seq<char>>::empty().push(Seq::empty()) =~= seq![Seq::<char>::empty()]);
}

/// A chunk says what its choices are: the content, the reasoning and the pieces of calls of each.
pub proof fn lemma_chunk_is_read(
    json: JsonView,
    choices: Seq<JsonView>,
    i: int,
    delta: JsonView,
    calls: Seq<(usize, ToolCallAccumulatorView)>,
)
    requires
        json is Object,
        json.get("choices"@) == Some(JsonView::Array(choices)),
        0 <= i < choices.len(),
        choices[i] is Object,
        choices[i].get("delta"@) == Some(delta),
        delta is Object,
        read_chat_chunk(Ok(json), calls).texts is Ok,
    ensures
        chat_chunk(json) is Some,
        ({
            let read = chat_chunk(json)->0.choices;
            &&& read.len() == choices.len()
            &&& read[i].delta.content == delta.get_str("content"@)
            &&& read[i].delta.reasoning_content == delta.get_str("reasoning_content"@)
            &&& delta.get("tool_calls"@) is None ==> read[i].delta.tool_calls is None
            &&& read_chat_chunk(Ok(json), calls).texts == Ok::<Seq<Seq<char>>, Seq<char>>(
                read_chunk(read, calls).0,
            )
            &&& read_chat_chunk(Ok(json), calls).calls == read_chunk(read, calls).1
        }),
{
    let decode = |item: JsonView| chunk_choice(item);
    assert(decode(choices[i]) is Some);
}

/// A chunk without choices adds nothing.
pub proof fn lemma_empty_chunk_adds_nothing(
    json: JsonView,
    calls: Seq<(usize, ToolCallAccumulatorView)>,
)
    requires
        json is Object,
        json.get("choices"@) is None,
    ensures
        read_chat_chunk(Ok(json), calls).texts == Ok::<Seq<Seq<char>>, Seq<char>>(Seq::empty()),
        read_chat_chunk(Ok(json), calls).calls == calls,
{
}

/// A piece of a call says its index, its identifier, its kind, and the name and the arguments of
/// its function.
pub proof fn lemma_piece_of_call_is_read(
    delta: JsonView,
    items: Seq<JsonView>,
    k: int,
)
    requires
        delta is Object,
        delta.get("tool_calls"@) == Some(JsonView::Array(items)),
        chat_delta(delta) is Some,
        0 <= k < items.len(),
        items[k] is Object,
    ensures
        chat_delta(delta)->0.tool_calls is Some,
        ({
            let read = chat_delta(delta)->0.tool_calls->0;
            &&& read.len() == items.len()
            &&& read[k].id == items[k].get_str("id"@)
            &&& read[k].kind == items[k].get_str("type"@)
            &&& items[k].get("index"@) is None ==> read[k].index == 0
            &&& items[k].get("index"@) matches Some(JsonView::Number(n)) ==> n.unsigned == Some(
                read[k].index as u64,
            )
            &&& items[k].get("function"@) is None ==> read[k].function is None
            &&& items[k].get("function"@) matches Some(JsonView::Object(members)) ==> ({
                let function = JsonView::Object(members);
                &&& read[k].function is Some
                &&& read[k].function->0.name == function.get_str("name"@)
                &&& read[k].function->0.arguments == function.get_str("arguments"@)
            })
        }),
{
    let decode = |item: JsonView| tool_call_delta(item);
    assert(decode(items[k]) is Some);
}

/// A whole chat completion says the content of its messages as it is, one after another, and its
/// tool calls.
pub proof fn lemma_answer_is_told(
    first: Seq<OpenAIChatResponseChoiceView>,
    choice: OpenAIChatResponseChoiceView,
    calls: Seq<(usize, ToolCallAccumulatorView)>,
)
    ensures
        read_response(Seq::empty(), calls).0 == Seq::<Seq<char>>::empty(),
        read_response(Seq::empty(), calls).1 == calls,
        choice.message.content matches Some(text) ==> read_response(first.push(choice), calls).0
            == read_response(first, calls).0.push(text),
        choice.message.content is None ==> read_response(first.push(choice), calls).0
            == read_response(first, calls).0,
        choice.message.tool_calls matches Some(full) ==> read_response(first.push(choice), calls).1
            == with_full_calls(read_response(first, calls).1, full),
        choice.message.tool_calls is None ==> read_response(first.push(choice), calls).1
            == read_response(first, calls).1,
{
    assert(first.push(choice).drop_last() =~= first);
    assert(read_response(Seq::empty(), calls).0 =~= Seq::<Seq<char>>::empty());
}

/// A chat completion says what its choices are: the content and the tool calls of each message.
pub proof fn lemma_answer_is_read(
    json: JsonView,
    choices: Seq<JsonView>,
    i: int,
    message: JsonView,
    items: Seq<JsonView>,
    k: int,
    calls: Seq<(usize, ToolCallAccumulatorView)>,
)
    requires
        json is Object,
        json.get("choices"@) == Some(JsonView::Array(choices)),
        0 <= i < choices.len(),
        choices[i] is Object,
        choices[i].get("message"@) == Some(message),
        message is Object,
        read_chat_response(Ok(json), calls).texts is Ok,
    ensures
        chat_response(json) is Some,
        ({
            let read = chat_response(json)->0.choices;
            &&& read.len() == choices.len()
            &&& read[i].message.content == message.get_str("content"@)
            &&& message.get("tool_calls"@) is None ==> read[i].message.tool_calls is None
            &&& message.get("tool_calls"@) == Some(JsonView::Array(items)) && 0 <= k < items.len()
                && items[k] is Object ==> ({
                let full = read[i].message.tool_calls->0;
                &&& read[i].message.tool_calls is Some
                &&& full.len() == items.len()
                &&& items[k].get_str("id"@) == Some(full[k].id)
                &&& items[k].get_str("type"@) == Some(full[k].kind)
                &&& items[k].get("function"@) matches Some(JsonView::Object(members)) ==> ({
                    let function = JsonView::Object(members);
                    &&& function.get_str("name"@) == Some(full[k].function.name)
                    &&& function.get_str("arguments"@) == Some(full[k].function.arguments)
                })
            })
            &&& read_chat_response(Ok(json), calls).texts == Ok::<Seq<Seq<char>>, Seq<char>>(
                read_response(read, calls).0,
            )
            &&& read_chat_response(Ok(json), calls).calls == read_response(read, calls).1
        }),
{
    let decode = |item: JsonView| response_choice(item);
    assert(decode(choices[i]) is Some);
    if message.get("tool_calls"@) == Some(JsonView::Array(items)) && 0 <= k < items.len() {
        let inner = |item: JsonView| message_tool_call(item);
        assert(response_message(message) is Some);
        assert(inner(items[k]) is Some);
    }
}

/// Arguments that come without an index go to the call of their item.
pub proof fn lemma_streamed_arguments_find_their_item(
    event: JsonView,
    calls: Seq<(usize, ToolCallAccumulatorView)>,
    include_completed_text: bool,
    item_id: Seq<char>,
    text: Seq<char>,
    k: int,
)
    requires
        increasing(calls),
        event.get("output_index"@) is None,
        event.get("item_id"@) == Some(JsonView::Str(item_id)),
        0 <= k < calls.len(),
        calls[k].1.response_item_id == Some(item_id),
        forall|j: int| 0 <= j < k ==> (#[trigger] calls[j]).1.response_item_id != Some(item_id),
    ensures
        is_event(event, "response.function_call_arguments.delta"@) && event.get("delta"@) == Some(
            JsonView::Str(text),
        ) ==> call_at(
            read_responses_event(Ok(event), calls, include_completed_text).calls,
            calls[k].0,
        ).arguments == calls[k].1.arguments + text,
        is_event(event, "response.function_call_arguments.done"@) && event.get("arguments"@)
            == Some(JsonView::Str(text)) ==> call_at(
            read_responses_event(Ok(event), calls, include_completed_text).calls,
            calls[k].0,
        ).arguments == text,
{
    lemma_kinds_differ();
    lemma_events_find_their_call(calls, item_id, k);
    lemma_calls_are_found(calls, calls[k].0, k);
    let index = calls[k].0;
    let call = response_call(calls, None, Some(item_id));
    assert(call.arguments == calls[k].1.arguments);
    lemma_put_reads_back(
        calls,
        index,
        ToolCallAccumulatorView { arguments: call.arguments + text, ..call },
        index,
    );
    lemma_put_reads_back(calls, index, ToolCallAccumulatorView { arguments: text, ..call }, index);
}

/// A failure without words is told in words of its own.
pub proof fn lemma_silent_failures(
    event: JsonView,
    calls: Seq<(usize, ToolCallAccumulatorView)>,
    include_completed_text: bool,
)
    ensures
        is_event(event, "response.failed"@) && event.get("response"@) is None
            ==> read_responses_event(Ok(event), calls, include_completed_text).texts == Err::<
            Seq<Seq<char>>,
            Seq<char>,
        >("Responses backend reported failure"@),
        is_event(event, "error"@) && event.get("message"@) is None && event.get("error"@) is None
            ==> read_responses_event(Ok(event), calls, include_completed_text).texts == Err::<
            Seq<Seq<char>>,
            Seq<char>,
        >("Responses backend returned an error event"@),
{
    lemma_kinds_differ();
}

/// Whether a piece of a call can be read: its index is a number, and its words are texts, where
/// they are there.
pub open spec fn is_piece(json: JsonView) -> bool {
    &&& json is Object
    &&& (json.get("index"@) is Some ==> json.get("index"@)->0.as_u64() is Some && json.get(
        "index"@,
    )->0.as_u64()->0 <= u32::MAX)
    &&& text_if_any(json, "id"@)
    &&& text_if_any(json, "type"@)
    &&& (json.get("function"@) is Some && !(json.get("function"@)->0 is Null) ==> {
        let function = json.get("function"@)->0;
        function is Object && text_if_any(function, "name"@) && text_if_any(
            function,
            "arguments"@,
        )
    })
}

/// Whether a choice of a chunk can be read.
pub open spec fn is_choice(json: JsonView) -> bool {
    &&& json is Object
    &&& (json.get("delta"@) is Some ==> {
        let delta = json.get("delta"@)->0;
        &&& delta is Object
        &&& text_if_any(delta, "content"@)
        &&& text_if_any(delta, "reasoning_content"@)
        &&& (delta.get("tool_calls"@) is Some ==> delta.get("tool_calls"@)->0 is Array && (
        forall|k: int|
            0 <= k < delta.get("tool_calls"@)->0->Array_0.len() ==> is_piece(
                #[trigger] delta.get("tool_calls"@)->0->Array_0[k],
            )))
    })
}

proof fn lemma_piece_is_accepted(json: JsonView)
    requires
        is_piece(json),
    ensures
        tool_call_delta(json) is Some,
{
}

proof fn lemma_choice_is_accepted(json: JsonView)
    requires
        is_choice(json),
    ensures
        chunk_choice(json) is Some,
{
    if json.get("delta"@) is Some {
        let delta = json.get("delta"@)->0;
        if delta.get("tool_calls"@) is Some {
            let items = delta.get("tool_calls"@)->0->Array_0;
            let decode = |item: JsonView| tool_call_delta(item);
            assert forall|k: int| 0 <= k < items.len() implies (#[trigger] decode(items[k]))
                is Some by {
                assert(is_piece(delta.get("tool_calls"@)->0->Array_0[k]));
                lemma_piece_is_accepted(items[k]);
            }
            assert(tool_call_delta_list(delta.get("tool_calls"@)->0) is Some);
        }
        assert(chat_delta(delta) is Some);
    }
}

/// A chunk whose choices can be read is read.
pub proof fn lemma_chunks_are_accepted(
    json: JsonView,
    choices: Seq<JsonView>,
    calls: Seq<(usize, ToolCallAccumulatorView)>,
)
    requires
        json is Object,
        json.get("choices"@) == Some(JsonView::Array(choices)),
        forall|i: int| 0 <= i < choices.len() ==> is_choice(#[trigger] choices[i]),
    ensures
        read_chat_chunk(Ok(json), calls).texts is Ok,
{
    let decode = |item: JsonView| chunk_choice(item);
    assert forall|i: int| 0 <= i < choices.len() implies (#[trigger] decode(choices[i]))
        is Some by {
        assert(is_choice(choices[i]));
        lemma_choice_is_accepted(choices[i]);
    }
}

/// An answer of texts is read: each of its choices holds a message, whose text may be left out.
pub proof fn lemma_answers_are_accepted(
    json: JsonView,
    choices: Seq<JsonView>,
    calls: Seq<(usize, ToolCallAccumulatorView)>,
)
    requires
        json is Object,
        json.get("choices"@) == Some(JsonView::Array(choices)),
        forall|i: int|
            0 <= i < choices.len() ==> {
                let message = (#[trigger] choices[i]).get("message"@);
                &&& choices[i] is Object
                &&& message is Some
                &&& message->0 is Object
                &&& text_if_any(message->0, "content"@)
                &&& message->0.get("tool_calls"@) is None
            },
    ensures
        read_chat_response(Ok(json), calls).texts is Ok,
{
    let decode = |item: JsonView| response_choice(item);
    assert forall|i: int| 0 <= i < choices.len() implies (#[trigger] decode(choices[i]))
        is Some by {
        assert(choices[i] is Object);
        assert(response_message(choices[i].get("message"@)->0) is Some);
    }
}

/// What has another form is refused.
pub proof fn lemma_other_forms_are_refused(
    json: JsonView,
    choices: Seq<JsonView>,
    i: int,
    calls: Seq<(usize, ToolCallAccumulatorView)>,
)
    ensures
        !(json is Object) && !(json is Array) ==> read_chat_chunk(Ok(json), calls).texts is Err
            && read_chat_response(Ok(json), calls).texts is Err,
        json is Object && json.get("choices"@) == Some(JsonView::Array(choices)) && 0 <= i
            < choices.len() && !(
                choices[i] is Object
            ) && !(choices[i] is Array) ==> read_chat_chunk(
            Ok(json),
            calls,
        ).texts is Err && read_chat_response(Ok(json), calls).texts is Err,
        json is Object && json.get("choices"@) == Some(JsonView::Array(choices)) && 0 <= i
            < choices.len() && choices[i] is Object && choices[i].get("message"@) is None
            ==> read_chat_response(Ok(json), calls).texts is Err,
        read_chat_chunk(Ok(json), calls).texts is Err ==> read_chat_chunk(Ok(json), calls).calls
            == calls,
{
    let decode = |item: JsonView| chunk_choice(item);
    let inner = |item: JsonView| response_choice(item);
    if 0 <= i < choices.len() {
        assert(decode(choices[i]) == chunk_choice(choices[i]));
        assert(inner(choices[i]) == response_choice(choices[i]));
    }
}

/// A part of a message whose text stands under its other name is read there, and only where the
/// first one is not there.
pub proof fn lemma_other_place_of_text(content: JsonView, text: Seq<char>)
    requires
        content.get("type"@) == Some(JsonView::Str("output_text"@)) || content.get("type"@) == Some(
            JsonView::Str("text"@),
        ),
    ensures
        content.get("text"@) is None && content.get("output_text"@) == Some(JsonView::Str(text))
            && text.len() > 0 ==> content_text(content) == Some(text),
        content.get("text"@) == Some(JsonView::Str(text)) && text.len() > 0 ==> content_text(
            content,
        ) == Some(text),
        content.get("text"@) is None && content.get("output_text"@) is None ==> content_text(
            content,
        ) is None,
        content.get("text"@) is Some && !(content.get("text"@)->0 is Str) ==> content_text(content)
            is None,
        content.get("text"@) == Some(JsonView::Str(Seq::empty())) ==> content_text(content) is None,
{
}

} // verus!
