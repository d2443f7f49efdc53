//! Answering a request of the client: from what a backend sends to the steps of a response stream.
//!
//! A session is told what happens: pieces of the stream of the backend arrive, the stream ends, or
//! something fails. It says which steps follow. Each step becomes one event of the response stream.
use crate::backend::{
    lemma_completed_text_is_not_repeated, read_answer, read_answer_json, read_event,
    read_event_json,
};
use crate::body::{any_text, has_text, lemma_texts_are_put_together, read_events};
use crate::bytes::{text_in, text_of_bytes};
use crate::calls::{ToolCallAccumulatorSet, ToolCallAccumulatorView};
use crate::config::{Config, WireApi};
use crate::events::{
    add_agent_output, add_agent_output_event, add_tool_calls_event, adds_tool_calls,
    append_agent_output, append_agent_output_event, create_root_task, create_root_task_event,
    finished_event_done, finished_event_internal_error, init, init_event, one_action,
    show_suggestions_event, WarpIds, WarpIdsView,
};
use crate::ids::{fresh_id, new_id, shown_by_clock};
use crate::json::{json_reading, parse_json, Json, JsonView};
use crate::lists::reversed;
use crate::outputs::{all_complete, calls_with_content, WarpClientOutput, WarpClientOutputView};
use crate::paths::{auth_hint, codex_auth_hint, Platform};
use crate::sse::{sse_events, SseDecoder};
use crate::sse::lemma_events_in_pieces;
use crate::text::{
    blank, is_blank, join, joined, res_view, same, trim, trimmed, truncate, truncated, views,
};
use crate::warp::{
    ClientActionView, FinishReason, FinishReasonView, MessageContentView, Request, RequestView,
    ResponseEvent, ResponseEventView, SuggestedRule, SuggestedRuleView, Suggestions,
    SuggestionsView, TimestampView, ToolCall, ToolCallView,
};
use vstd::prelude::*;

verus! {

// ---------------------------------------------------------------------------------------------
// Steps
// ---------------------------------------------------------------------------------------------
/// Text of the agent for a message.
#[derive(Debug)]
pub struct OutputText {
    pub message_id: String,
    pub text: String,
}

/// The model of [`OutputText`].
#[verifier::ext_equal]
pub struct OutputTextView {
    pub message_id: Seq<char>,
    pub text: Seq<char>,
}

impl View for OutputText {
    type V = OutputTextView;

    open spec fn view(&self) -> OutputTextView {
        OutputTextView {
            message_id: self.message_id@,
            text: self.text@,
        }
    }
}

/// A step of a response stream.
#[derive(Debug)]
pub enum StreamStep {
    /// The stream starts.
    Init,
    /// The task of the stream is created.
    CreateRootTask,
    /// A message with text of the agent is added.
    AddOutput(OutputText),
    /// Text is appended to the message of the agent.
    AppendOutput(OutputText),
    /// Messages with tool calls are added.
    AddToolCalls(Vec<ToolCall>),
    /// Suggestions are shown.
    ShowSuggestions(Suggestions),
    /// The stream ends.
    Finish(FinishReason),
}

/// The model of [`StreamStep`].
#[verifier::ext_equal]
pub enum StreamStepView {
    Init,
    CreateRootTask,
    AddOutput(OutputTextView),
    AppendOutput(OutputTextView),
    AddToolCalls(Seq<ToolCallView>),
    ShowSuggestions(SuggestionsView),
    Finish(FinishReasonView),
}

impl View for StreamStep {
    type V = StreamStepView;

    open spec fn view(&self) -> StreamStepView {
        match self {
            StreamStep::Init => StreamStepView::Init,
            StreamStep::CreateRootTask => StreamStepView::CreateRootTask,
            StreamStep::AddOutput(x) => StreamStepView::AddOutput(x@),
            StreamStep::AppendOutput(x) => StreamStepView::AppendOutput(x@),
            StreamStep::AddToolCalls(x) => StreamStepView::AddToolCalls(views(x@)),
            StreamStep::ShowSuggestions(x) => StreamStepView::ShowSuggestions(x@),
            StreamStep::Finish(x) => StreamStepView::Finish(x@),
        }
    }
}

/// Whether an event is that of a step.
pub open spec fn shows(ids: WarpIdsView, step: StreamStepView, event: ResponseEventView) -> bool {
    match step {
        StreamStepView::Init => event == init(ids),
        StreamStepView::CreateRootTask => event == create_root_task(ids),
        StreamStepView::AddOutput(output) => exists|timestamp: Option<TimestampView>|
            shown_by_clock(timestamp) && event == #[trigger] add_agent_output(
                ids,
                output.message_id,
                output.text,
                timestamp,
            ),
        StreamStepView::AppendOutput(output) => exists|timestamp: Option<TimestampView>|
            shown_by_clock(timestamp) && event == #[trigger] append_agent_output(
                ids,
                output.message_id,
                output.text,
                timestamp,
            ),
        StreamStepView::AddToolCalls(calls) => adds_tool_calls(ids, calls, event),
        StreamStepView::ShowSuggestions(suggestions) => event == one_action(
            ClientActionView::ShowSuggestions(suggestions),
        ),
        StreamStepView::Finish(reason) => event == ResponseEventView::Finished(reason),
    }
}

/// The event of a step.
pub fn event_of_step(ids: &WarpIds, step: StreamStep) -> (r: ResponseEvent)
    ensures
        shows(ids@, step@, r@),
{
    match step {
        StreamStep::Init => init_event(ids),
        StreamStep::CreateRootTask => create_root_task_event(ids),
        StreamStep::AddOutput(output) => add_agent_output_event(
            ids,
            output.message_id.as_str(),
            output.text.as_str(),
        ),
        StreamStep::AppendOutput(output) => append_agent_output_event(
            ids,
            output.message_id.as_str(),
            output.text.as_str(),
        ),
        StreamStep::AddToolCalls(calls) => add_tool_calls_event(ids, calls),
        StreamStep::ShowSuggestions(suggestions) => show_suggestions_event(suggestions),
        StreamStep::Finish(reason) => match reason {
            FinishReason::Done => finished_event_done(),
            FinishReason::InternalError(message) => finished_event_internal_error(message),
        },
    }
}

/// The steps with which the answer to a request starts: the task is created where the request has
/// none.
pub open spec fn first_steps(request: RequestView) -> Seq<StreamStepView> {
    let has_task = request.task_context matches Some(tasks) && tasks.len() > 0;
    if has_task {
        seq![StreamStepView::Init]
    } else {
        seq![StreamStepView::Init, StreamStepView::CreateRootTask]
    }
}

/// The steps with which the answer to a request starts.
pub fn start_steps(request: &Request) -> (r: Vec<StreamStep>)
    ensures
        views(r@) == first_steps(request@),
{
    let has_task = match &request.task_context {
        Some(tasks) => tasks.len() > 0,
        None => false,
    };
    let mut steps: Vec<StreamStep> = Vec::new();
    steps.push(StreamStep::Init);
    if !has_task {
        steps.push(StreamStep::CreateRootTask);
    }
    assert(views(steps@) =~= first_steps(request@));
    steps
}

// ---------------------------------------------------------------------------------------------
// The state of a session
// ---------------------------------------------------------------------------------------------
/// The model of a session.
#[verifier::ext_equal]
pub struct SessionView {
    /// The protocol of the backend.
    pub wire_api: WireApi,
    /// The identifier of the message with the text of the agent.
    pub message_id: Seq<char>,
    /// Whether that message has been added.
    pub message_added: bool,
    /// The tool calls, as far as they are known.
    pub calls: Seq<(usize, ToolCallAccumulatorView)>,
    /// Whether the backend has sent an event.
    pub seen_event: bool,
    /// Whether the backend has sent text.
    pub seen_text: bool,
    /// What belongs to no complete event yet.
    pub buffer: Seq<char>,
}

/// A session and the steps that followed so far.
#[verifier::ext_equal]
pub struct TurnView {
    pub session: SessionView,
    pub steps: Seq<StreamStepView>,
}

/// A session before anything has happened.
pub open spec fn new_session(wire_api: WireApi, message_id: Seq<char>) -> SessionView {
    SessionView {
        wire_api,
        message_id,
        message_added: false,
        calls: Seq::empty(),
        seen_event: false,
        seen_text: false,
        buffer: Seq::empty(),
    }
}

/// Text for the user: nothing where it is empty; the first text adds the message, and later text is
/// appended to it.
pub open spec fn say(turn: TurnView, text: Seq<char>) -> TurnView {
    if text.len() == 0 {
        turn
    } else {
        let output = OutputTextView { message_id: turn.session.message_id, text };
        TurnView {
            session: SessionView { message_added: true, ..turn.session },
            steps: turn.steps.push(
                if turn.session.message_added {
                    StreamStepView::AppendOutput(output)
                } else {
                    StreamStepView::AddOutput(output)
                },
            ),
        }
    }
}

/// Texts for the user.
pub open spec fn say_all(turn: TurnView, texts: Seq<Seq<char>>) -> TurnView
    decreases texts.len(),
{
    if texts.len() == 0 {
        turn
    } else {
        say(say_all(turn, texts.drop_last()), texts.last())
    }
}

/// What is said of an event that cannot be read.
pub open spec fn unreadable_event(wire_api: WireApi, error: Seq<char>) -> Seq<char> {
    "Unable to parse backend SSE chunk as "@ + wire_api.name() + " delta: "@ + error
}

/// The data of an event arrive, which are that in JSON.
pub open spec fn with_data(
    turn: TurnView,
    data: Seq<char>,
    parsed: Result<JsonView, Seq<char>>,
) -> TurnView {
    let seen = TurnView { session: SessionView { seen_event: true, ..turn.session }, ..turn };
    if trimmed(data) == "[DONE]"@ {
        seen
    } else {
        let session = turn.session;
        let reading = read_event(session.wire_api, parsed, session.calls, !session.seen_text);
        match reading.texts {
            Ok(texts) => say_all(
                TurnView {
                    session: SessionView {
                        calls: reading.calls,
                        seen_text: session.seen_text || any_text(texts),
                        ..seen.session
                    },
                    ..turn
                },
                texts,
            ),
            Err(error) => say(
                TurnView {
                    session: SessionView { calls: reading.calls, ..seen.session },
                    ..turn
                },
                unreadable_event(session.wire_api, error),
            ),
        }
    }
}

/// The data of events arrive.
pub open spec fn with_events(turn: TurnView, events: Seq<Seq<char>>) -> TurnView
    decreases events.len(),
{
    if events.len() == 0 {
        turn
    } else {
        with_data(
            with_events(turn, events.drop_last()),
            events.last(),
            json_reading(events.last()),
        )
    }
}

/// A piece of the stream of the backend arrives.
pub open spec fn with_chunk(turn: TurnView, text: Seq<char>) -> TurnView {
    let (events, rest) = sse_events(turn.session.buffer + text);
    let after = with_events(turn, events);
    TurnView { session: SessionView { buffer: rest, ..after.session }, ..after }
}

/// What is said of an answer that is neither a stream of events nor a response.
pub open spec fn unreadable_body(
    wire_api: WireApi,
    error: Seq<char>,
    body: Seq<char>,
) -> Seq<char> {
    "Backend did not return "@ + wire_api.name() + " SSE or JSON response: "@ + error
        + ". Raw body: "@ + truncated(body, 1200)
}

/// The stream of the backend ends. Where it held no event, what was sent is read as one response,
/// which is that in JSON.
pub open spec fn with_end(turn: TurnView, parsed: Result<JsonView, Seq<char>>) -> TurnView {
    let session = turn.session;
    if session.seen_event || blank(session.buffer) {
        turn
    } else {
        let reading = read_answer(session.wire_api, parsed, session.calls, !session.seen_text);
        let read = TurnView { session: SessionView { calls: reading.calls, ..session }, ..turn };
        match reading.texts {
            Ok(texts) => say_all(read, texts),
            Err(error) => say(read, unreadable_body(session.wire_api, error, session.buffer)),
        }
    }
}

/// The tool calls among some outputs.
pub open spec fn tool_calls_in(outputs: Seq<Result<WarpClientOutputView, Seq<char>>>) -> Seq<
    ToolCallView,
>
    decreases outputs.len(),
{
    if outputs.len() == 0 {
        Seq::empty()
    } else {
        let before = tool_calls_in(outputs.drop_last());
        match outputs.last() {
            Ok(WarpClientOutputView::ToolCall(call)) => before.push(call),
            _ => before,
        }
    }
}

/// The suggested rules among some outputs.
pub open spec fn rules_in(outputs: Seq<Result<WarpClientOutputView, Seq<char>>>) -> Seq<
    SuggestedRuleView,
>
    decreases outputs.len(),
{
    if outputs.len() == 0 {
        Seq::empty()
    } else {
        let before = rules_in(outputs.drop_last());
        match outputs.last() {
            Ok(WarpClientOutputView::Suggestions(suggestions)) => before + suggestions.rules,
            _ => before,
        }
    }
}

/// The errors among some outputs.
pub open spec fn errors_in(outputs: Seq<Result<WarpClientOutputView, Seq<char>>>) -> Seq<Seq<char>>
    decreases outputs.len(),
{
    if outputs.len() == 0 {
        Seq::empty()
    } else {
        let before = errors_in(outputs.drop_last());
        match outputs.last() {
            Err(message) => before.push(message),
            _ => before,
        }
    }
}

/// A step, where there is reason for it.
pub open spec fn step_if(reason: bool, step: StreamStepView) -> Seq<StreamStepView> {
    if reason {
        seq![step]
    } else {
        Seq::empty()
    }
}

/// The session ends well, with what the tool calls ask the client to do: errors are told to the
/// user, then come the tool calls, the suggestions, and the end.
pub open spec fn concluded(
    turn: TurnView,
    outputs: Seq<Result<WarpClientOutputView, Seq<char>>>,
) -> TurnView {
    let errors = errors_in(outputs);
    let told = if errors.len() == 0 {
        turn
    } else {
        say(
            turn,
            "Unsupported or malformed backend tool call: "@ + joined(errors, "; "@),
        )
    };
    TurnView {
        steps: told.steps + step_if(
            tool_calls_in(outputs).len() > 0,
            StreamStepView::AddToolCalls(tool_calls_in(outputs)),
        ) + step_if(
            rules_in(outputs).len() > 0,
            StreamStepView::ShowSuggestions(SuggestionsView { rules: rules_in(outputs) }),
        ) + seq![StreamStepView::Finish(FinishReasonView::Done)],
        ..told
    }
}

/// The session ends with an error, which is told to the user.
pub open spec fn failed(turn: TurnView, message: Seq<char>) -> TurnView {
    let told = say(turn, message);
    TurnView {
        steps: told.steps.push(StreamStepView::Finish(FinishReasonView::InternalError(message))),
        ..told
    }
}

// ---------------------------------------------------------------------------------------------
// Messages of failures
// ---------------------------------------------------------------------------------------------
/// The backend cannot be asked without a key.
pub open spec fn missing_auth(platform: Platform) -> Seq<char> {
    "WarpOCA could not find Codex CLI authentication. Run `codex login`, confirm `"@
        + auth_hint(platform) + "` exists, then relaunch WarpOCA."@
}

/// The backend cannot be asked without a key.
pub fn missing_auth_message(platform: Platform) -> (r: String)
    ensures
        r@ == missing_auth(platform),
{
    let mut text =
        "WarpOCA could not find Codex CLI authentication. Run `codex login`, confirm `".to_owned();
    text.append(codex_auth_hint(platform));
    text.append("` exists, then relaunch WarpOCA.");
    text
}

/// The backend refused a request.
pub open spec fn refused(status: Seq<char>, body: Seq<char>) -> Seq<char> {
    "BYOB backend returned HTTP "@ + status + ": "@ + truncated(body, 1200)
}

/// The backend refused a request.
pub fn refused_message(status: &str, body: &str) -> (r: String)
    ensures
        r@ == refused(status@, body@),
{
    let mut text = "BYOB backend returned HTTP ".to_owned();
    text.append(status);
    text.append(": ");
    let part0 = truncate(body, 1200);
    text.append(part0.as_str());
    text
}

/// The stream of the backend broke off.
pub open spec fn broken_stream(error: Seq<char>) -> Seq<char> {
    "BYOB backend stream failed: "@ + error
}

/// The stream of the backend broke off.
pub fn broken_stream_message(error: &str) -> (r: String)
    ensures
        r@ == broken_stream(error@),
{
    let mut text = "BYOB backend stream failed: ".to_owned();
    text.append(error);
    text
}

/// The backend could not be reached.
pub open spec fn unreachable(path: Seq<char>, error: Seq<char>) -> Seq<char> {
    "Failed to reach BYOB backend for "@ + path + ": "@ + error
}

/// The backend could not be reached.
pub fn unreachable_message(path: &str, error: &str) -> (r: String)
    ensures
        r@ == unreachable(path@, error@),
{
    let mut text = "Failed to reach BYOB backend for ".to_owned();
    text.append(path);
    text.append(": ");
    text.append(error);
    text
}

// ---------------------------------------------------------------------------------------------
// Sessions
// ---------------------------------------------------------------------------------------------
/// A session: the answer to one request, while it is given.
#[derive(Debug)]
pub struct Session {
    wire_api: WireApi,
    message_id: String,
    message_added: bool,
    tool_calls: ToolCallAccumulatorSet,
    seen_event: bool,
    seen_text: bool,
    decoder: SseDecoder,
}

impl View for Session {
    type V = SessionView;

    closed spec fn view(&self) -> SessionView {
        SessionView {
            wire_api: self.wire_api,
            message_id: self.message_id@,
            message_added: self.message_added,
            calls: self.tool_calls@,
            seen_event: self.seen_event,
            seen_text: self.seen_text,
            buffer: self.decoder@,
        }
    }
}

/// A session with no steps behind it.
pub open spec fn turn_of(session: SessionView) -> TurnView {
    TurnView { session, steps: Seq::empty() }
}

impl Session {
    /// A session whose text goes to the message of the given identifier.
    pub fn with_message_id(wire_api: WireApi, message_id: String) -> (r: Self)
        ensures
            r@ == new_session(wire_api, message_id@),
    {
        Session {
            wire_api,
            message_id,
            message_added: false,
            tool_calls: ToolCallAccumulatorSet::default(),
            seen_event: false,
            seen_text: false,
            decoder: SseDecoder::default(),
        }
    }

    /// A session.
    pub fn new(wire_api: WireApi) -> (r: Self)
        ensures
            fresh_id("msg_"@, r@.message_id),
            r@ == new_session(wire_api, r@.message_id),
    {
        Session::with_message_id(wire_api, new_id("msg_"))
    }

    /// Adds the step for text to the user.
    fn push_text(&mut self, steps: &mut Vec<StreamStep>, text: &str)
        ensures
            (TurnView { session: final(self)@, steps: views(final(steps)@) }) == say(
                TurnView { session: old(self)@, steps: views(old(steps)@) },
                text@,
            ),
    {
        if text.is_empty() {
            return;
        }
        let ghost before = views(steps@);
        let output = OutputText { message_id: self.message_id.clone(), text: text.to_owned() };
        let step = if self.message_added {
            StreamStep::AppendOutput(output)
        } else {
            StreamStep::AddOutput(output)
        };
        self.message_added = true;
        steps.push(step);
        assert(views(steps@) =~= before.push(step@));
    }

    /// Adds the steps for texts to the user.
    fn push_texts(&mut self, steps: &mut Vec<StreamStep>, texts: &Vec<String>)
        ensures
            (TurnView { session: final(self)@, steps: views(final(steps)@) }) == say_all(
                TurnView { session: old(self)@, steps: views(old(steps)@) },
                views(texts@),
            ),
    {
        let ghost start = TurnView { session: self@, steps: views(steps@) };
        let ghost all = views(texts@);
        let mut i: usize = 0;
        while i < texts.len()
            invariant
                i <= texts.len(),
                all == views(texts@),
                (TurnView { session: self@, steps: views(steps@) }) == say_all(
                    start,
                    all.take(i as int),
                ),
            decreases texts.len() - i,
        {
            assert(all.take(i + 1).drop_last() == all.take(i as int));
            self.push_text(steps, texts[i].as_str());
            i += 1;
        }
        assert(all.take(all.len() as int) == all);
    }

    /// Adds the steps for the data of an event, which are that in JSON.
    fn push_data(&mut self, steps: &mut Vec<StreamStep>, data: &str, parsed: Result<Json, String>)
        ensures
            (TurnView { session: final(self)@, steps: views(final(steps)@) }) == with_data(
                TurnView { session: old(self)@, steps: views(old(steps)@) },
                data@,
                res_view(parsed),
            ),
    {
        self.seen_event = true;
        if same(trim(data), "[DONE]") {
            return;
        }
        let first_text = !self.seen_text;
        match read_event_json(self.wire_api, parsed, &mut self.tool_calls, first_text) {
            Ok(texts) => {
                if has_text(&texts) {
                    self.seen_text = true;
                }
                self.push_texts(steps, &texts);
            },
            Err(error) => {
                let mut message = "Unable to parse backend SSE chunk as ".to_owned();
                message.append(self.wire_api.as_str());
                message.append(" delta: ");
                message.append(error.as_str());
                self.push_text(steps, message.as_str());
            },
        }
    }

    /// The data of an event arrive, which are that in JSON: the steps that follow.
    pub fn on_data(&mut self, data: &str, parsed: Result<Json, String>) -> (steps: Vec<StreamStep>)
        ensures
            (TurnView { session: final(self)@, steps: views(steps@) }) == with_data(
                turn_of(old(self)@),
                data@,
                res_view(parsed),
            ),
    {
        let mut steps: Vec<StreamStep> = Vec::new();
        assert(views(steps@) =~= Seq::<StreamStepView>::empty());
        self.push_data(&mut steps, data, parsed);
        steps
    }

    /// A piece of the stream of the backend arrives: the steps that follow.
    pub fn on_chunk(&mut self, text: &str) -> (steps: Vec<StreamStep>)
        ensures
            (TurnView { session: final(self)@, steps: views(steps@) }) == with_chunk(
                turn_of(old(self)@),
                text@,
            ),
    {
        let ghost start = self@;
        let events = self.decoder.push(text);
        let ghost all = views(events@);
        let ghost rest = self@.buffer;
        let ghost moved = SessionView { buffer: rest, ..start };
        let mut steps: Vec<StreamStep> = Vec::new();
        assert(views(steps@) =~= Seq::<StreamStepView>::empty());
        let mut i: usize = 0;
        while i < events.len()
            invariant
                i <= events.len(),
                all == views(events@),
                (TurnView { session: self@, steps: views(steps@) }) == with_events(
                    turn_of(moved),
                    all.take(i as int),
                ),
            decreases events.len() - i,
        {
            assert(all.take(i + 1).drop_last() == all.take(i as int));
            let data = events[i].as_str();
            self.push_data(&mut steps, data, parse_json(data));
            i += 1;
        }
        proof {
            assert(all.take(all.len() as int) == all);
            lemma_buffer_stays(turn_of(start), all, rest);
        }
        steps
    }

    /// Bytes of the stream of the backend arrive: the steps that follow.
    pub fn on_bytes(&mut self, bytes: &Vec<u8>) -> (steps: Vec<StreamStep>)
        ensures
            (TurnView { session: final(self)@, steps: views(steps@) }) == with_chunk(
                turn_of(old(self)@),
                text_in(bytes@),
            ),
    {
        let text = text_of_bytes(bytes);
        self.on_chunk(text.as_str())
    }

    /// What belongs to no complete event, where it is to be read as one response.
    pub fn unread_body(&self) -> (r: Option<String>)
        ensures
            r is Some <==> !(self@.seen_event || blank(self@.buffer)),
            r matches Some(body) ==> body@ == self@.buffer,
    {
        if self.seen_event {
            return None;
        }
        let rest = self.decoder.remaining();
        if is_blank(rest) {
            None
        } else {
            Some(rest.to_owned())
        }
    }

    /// The stream of the backend ends; what belongs to no complete event is that in JSON. Gives the
    /// steps that follow.
    pub fn on_end(&mut self, parsed: Result<Json, String>) -> (steps: Vec<StreamStep>)
        ensures
            (TurnView { session: final(self)@, steps: views(steps@) }) == with_end(
                turn_of(old(self)@),
                res_view(parsed),
            ),
    {
        let mut steps: Vec<StreamStep> = Vec::new();
        assert(views(steps@) =~= Seq::<StreamStepView>::empty());
        match self.unread_body() {
            Some(body) => {
                let first_text = !self.seen_text;
                match read_answer_json(self.wire_api, parsed, &mut self.tool_calls, first_text) {
                    Ok(texts) => {
                        self.push_texts(&mut steps, &texts);
                    },
                    Err(error) => {
                        let mut message = "Backend did not return ".to_owned();
                        message.append(self.wire_api.as_str());
                        message.append(" SSE or JSON response: ");
                        message.append(error.as_str());
                        message.append(". Raw body: ");
                        let shown = truncate(body.as_str(), 1200);
                        message.append(shown.as_str());
                        self.push_text(&mut steps, message.as_str());
                    },
                }
            },
            None => {},
        }
        steps
    }

    /// The session ends well, with what the tool calls ask the client to do: the steps that follow.
    pub fn conclude(
        self,
        outputs: Vec<Result<WarpClientOutput, String>>,
    ) -> (steps: Vec<StreamStep>)
        ensures
            views(steps@) == concluded(turn_of(self@), outputs_view(outputs@)).steps,
    {
        let ghost all = outputs_view(outputs@);
        let mut session = self;
        let mut rest = reversed(outputs);
        let mut errors: Vec<String> = Vec::new();
        let mut calls: Vec<ToolCall> = Vec::new();
        let mut rules: Vec<SuggestedRule> = Vec::new();
        let ghost mut n: int = 0;
        assert(all.take(0) == Seq::<Result<WarpClientOutputView, Seq<char>>>::empty());
        assert(views(errors@) =~= errors_in(all.take(0)));
        assert(views(calls@) =~= tool_calls_in(all.take(0)));
        assert(views(rules@) =~= rules_in(all.take(0)));
        loop
            invariant
                0 <= n,
                n + rest@.len() == all.len(),
                forall|i: int|
                    0 <= i < rest@.len() ==> res_view(#[trigger] rest@[i]) == all[all.len() - 1
                        - i],
                views(errors@) == errors_in(all.take(n)),
                views(calls@) == tool_calls_in(all.take(n)),
                views(rules@) == rules_in(all.take(n)),
            ensures
                views(errors@) == errors_in(all),
                views(calls@) == tool_calls_in(all),
                views(rules@) == rules_in(all),
            decreases rest@.len(),
        {
            match rest.pop() {
                Some(result) => {
                    assert(res_view(result) == all[n]);
                    assert(all.take(n + 1).drop_last() == all.take(n));
                    match result {
                        Ok(WarpClientOutput::ToolCall(call)) => {
                            let ghost before = views(calls@);
                            calls.push(call);
                            assert(views(calls@) =~= before.push(call@));
                        },
                        Ok(WarpClientOutput::Suggestions(suggestions)) => {
                            let ghost before = views(rules@);
                            let mut more = suggestions.rules;
                            let ghost added = views(more@);
                            rules.append(&mut more);
                            assert(views(rules@) =~= before + added);
                        },
                        Err(message) => {
                            let ghost before = views(errors@);
                            errors.push(message);
                            assert(views(errors@) =~= before.push(message@));
                        },
                    }
                    proof {
                        n = n + 1;
                    }
                },
                None => {
                    assert(all.take(n) == all);
                    break;
                },
            }
        }
        let mut steps: Vec<StreamStep> = Vec::new();
        assert(views(steps@) =~= Seq::<StreamStepView>::empty());
        assert(views(errors@).len() == errors@.len());
        if errors.len() > 0 {
            let mut message = "Unsupported or malformed backend tool call: ".to_owned();
            let shown = join(&errors, "; ");
            message.append(shown.as_str());
            session.push_text(&mut steps, message.as_str());
        }
        let ghost told = views(steps@);
        let ghost has_calls = tool_calls_in(all).len() > 0;
        let ghost has_rules = rules_in(all).len() > 0;
        assert(views(calls@).len() == calls@.len());
        assert(views(rules@).len() == rules@.len());
        if calls.len() > 0 {
            steps.push(StreamStep::AddToolCalls(calls));
        }
        assert(views(steps@) =~= told + step_if(
            has_calls,
            StreamStepView::AddToolCalls(tool_calls_in(all)),
        ));
        if rules.len() > 0 {
            steps.push(StreamStep::ShowSuggestions(Suggestions { rules }));
        }
        assert(views(steps@) =~= told + step_if(
            has_calls,
            StreamStepView::AddToolCalls(tool_calls_in(all)),
        ) + step_if(
            has_rules,
            StreamStepView::ShowSuggestions(SuggestionsView { rules: rules_in(all) }),
        ));
        steps.push(StreamStep::Finish(FinishReason::Done));
        assert(views(steps@) =~= concluded(turn_of(self@), all).steps);
        steps
    }

    /// The session ends with an error: the steps that follow.
    pub fn fail(self, message: String) -> (steps: Vec<StreamStep>)
        ensures
            views(steps@) == failed(turn_of(self@), message@).steps,
    {
        let mut session = self;
        let mut steps: Vec<StreamStep> = Vec::new();
        assert(views(steps@) =~= Seq::<StreamStepView>::empty());
        session.push_text(&mut steps, message.as_str());
        let ghost told = views(steps@);
        let step = StreamStep::Finish(FinishReason::InternalError(message));
        steps.push(step);
        assert(views(steps@) =~= told.push(step@));
        steps
    }

    /// The answer to a request begins: its first steps, and the session, unless there is no key
    /// with which to ask the backend, which ends it.
    pub fn open(request: &Request, config: &Config, platform: Platform) -> (r: (
        Vec<StreamStep>,
        Option<Session>,
    ))
        ensures
            r.1 is Some <==> config@.openai_api_key is Some,
            r.1 matches Some(session) ==> views(r.0@) == first_steps(request@) && fresh_id(
                "msg_"@,
                session@.message_id,
            ) && session@ == new_session(config@.wire_api, session@.message_id),
            r.1 is None ==> exists|id: Seq<char>| #[trigger]
                fresh_id("msg_"@, id) && views(r.0@) == failed(
                    TurnView {
                        session: new_session(config@.wire_api, id),
                        steps: first_steps(request@),
                    },
                    missing_auth(platform),
                ).steps,
    {
        let mut steps = start_steps(request);
        let session = Session::new(config.wire_api);
        if config.openai_api_key.is_some() {
            return (steps, Some(session));
        }
        let ghost first = views(steps@);
        let ghost state = session@;
        let mut rest = session.fail(missing_auth_message(platform));
        let ghost added = views(rest@);
        steps.append(&mut rest);
        proof {
            assert(views(steps@) =~= first + added);
            lemma_steps_before_failure_stay(
                TurnView { session: state, steps: first },
                missing_auth(platform),
            );
            assert(fresh_id("msg_"@, state.message_id));
        }
        (steps, None)
    }

    /// The backend could not be reached: the steps to the end of the session.
    pub fn fail_unreachable(self, path: &str, error: &str) -> (steps: Vec<StreamStep>)
        ensures
            views(steps@) == failed(turn_of(self@), unreachable(path@, error@)).steps,
    {
        self.fail(unreachable_message(path, error))
    }

    /// The backend refused the request: the steps to the end of the session.
    pub fn fail_refused(self, status: &str, body: &str) -> (steps: Vec<StreamStep>)
        ensures
            views(steps@) == failed(turn_of(self@), refused(status@, body@)).steps,
    {
        self.fail(refused_message(status, body))
    }

    /// The stream of the backend broke off: the steps to the end of the session.
    pub fn fail_broken(self, error: &str) -> (steps: Vec<StreamStep>)
        ensures
            views(steps@) == failed(turn_of(self@), broken_stream(error@)).steps,
    {
        self.fail(broken_stream_message(error))
    }

    /// The stream of the backend ends: the steps to the end of the session.
    pub fn finish(self) -> (steps: Vec<StreamStep>)
        ensures
            exists|outputs: Seq<Result<WarpClientOutput, String>>|
                #[trigger] all_complete(
                    calls_with_content(
                        with_end(turn_of(self@), json_reading(self@.buffer)).session.calls,
                    ),
                    outputs,
                ) && views(steps@) == concluded(
                    with_end(turn_of(self@), json_reading(self@.buffer)),
                    outputs_view(outputs),
                ).steps,
    {
        let mut session = self;
        let parsed = parse_json(session.decoder.remaining());
        let mut steps = session.on_end(parsed);
        let ghost ended = with_end(turn_of(self@), json_reading(self@.buffer));
        assert(ended == (TurnView { session: session@, steps: views(steps@) }));
        let mut calls = ToolCallAccumulatorSet::default();
        std::mem::swap(&mut calls, &mut session.tool_calls);
        let outputs = calls.into_warp_client_outputs();
        let ghost all = outputs@;
        let ghost before = views(steps@);
        let mut last = session.conclude(outputs);
        let ghost added = views(last@);
        steps.append(&mut last);
        proof {
            assert(views(steps@) =~= before + added);
            lemma_steps_before_stay(ended, session@, outputs_view(all));
            assert(all_complete(calls_with_content(ended.session.calls), all));
        }
        steps
    }
}

/// The views of some results.
pub open spec fn outputs_view(outputs: Seq<Result<WarpClientOutput, String>>) -> Seq<
    Result<WarpClientOutputView, Seq<char>>,
> {
    Seq::new(outputs.len(), |i: int| res_view(outputs[i]))
}

// ---------------------------------------------------------------------------------------------
// Laws
// ---------------------------------------------------------------------------------------------
/// The steps that went before stay before those that a conclusion adds, and the tool calls that
/// were already turned into outputs do not matter.
proof fn lemma_steps_before_stay(
    turn: TurnView,
    session: SessionView,
    outputs: Seq<Result<WarpClientOutputView, Seq<char>>>,
)
    requires
        session.message_id == turn.session.message_id,
        session.message_added == turn.session.message_added,
    ensures
        concluded(turn, outputs).steps == turn.steps + concluded(turn_of(session), outputs).steps,
{
    let errors = errors_in(outputs);
    let message = "Unsupported or malformed backend tool call: "@ + joined(errors, "; "@);
    let empty = Seq::<StreamStepView>::empty();
    if errors.len() > 0 {
        assert(say(turn, message).steps =~= turn.steps + say(turn_of(session), message).steps);
    } else {
        assert(turn.steps =~= turn.steps + empty);
    }
    assert(concluded(turn, outputs).steps =~= turn.steps + concluded(
        turn_of(session),
        outputs,
    ).steps);
}

/// The steps that went before stay before those that a failure adds.
proof fn lemma_steps_before_failure_stay(turn: TurnView, message: Seq<char>)
    ensures
        failed(turn, message).steps == turn.steps + failed(turn_of(turn.session), message).steps,
{
    assert(say(turn, message).steps =~= turn.steps + say(turn_of(turn.session), message).steps);
    assert(failed(turn, message).steps =~= turn.steps + failed(
        turn_of(turn.session),
        message,
    ).steps);
}

/// What belongs to no complete event does not matter to the data of events.
proof fn lemma_buffer_stays(turn: TurnView, events: Seq<Seq<char>>, buffer: Seq<char>)
    ensures
        with_events(
            TurnView { session: SessionView { buffer, ..turn.session }, ..turn },
            events,
        ) == (TurnView {
            session: SessionView { buffer, ..with_events(turn, events).session },
            ..with_events(turn, events)
        }),
    decreases events.len(),
{
    if events.len() > 0 {
        lemma_buffer_stays(turn, events.drop_last(), buffer);
        let before = with_events(turn, events.drop_last());
        let data = events.last();
        let parsed = json_reading(data);
        let session = before.session;
        let reading = read_event(session.wire_api, parsed, session.calls, !session.seen_text);
        match reading.texts {
            Ok(texts) => {
                lemma_buffer_stays_in_texts(
                    TurnView {
                        session: SessionView {
                            calls: reading.calls,
                            seen_event: true,
                            seen_text: session.seen_text || any_text(texts),
                            ..session
                        },
                        ..before
                    },
                    texts,
                    buffer,
                );
            },
            Err(_) => {},
        }
    }
}

proof fn lemma_buffer_stays_in_texts(turn: TurnView, texts: Seq<Seq<char>>, buffer: Seq<char>)
    ensures
        say_all(TurnView { session: SessionView { buffer, ..turn.session }, ..turn }, texts) == (
        TurnView {
            session: SessionView { buffer, ..say_all(turn, texts).session },
            ..say_all(turn, texts)
        }),
    decreases texts.len(),
{
    if texts.len() > 0 {
        lemma_buffer_stays_in_texts(turn, texts.drop_last(), buffer);
    }
}

proof fn lemma_events_in_order(turn: TurnView, first: Seq<Seq<char>>, second: Seq<Seq<char>>)
    ensures
        with_events(turn, first + second) == with_events(with_events(turn, first), second),
    decreases second.len(),
{
    if second.len() == 0 {
        assert(first + second == first);
    } else {
        assert((first + second).drop_last() == first + second.drop_last());
        lemma_events_in_order(turn, first, second.drop_last());
    }
}

/// It does not matter how the stream of the backend is cut into pieces: the steps are the same.
pub proof fn lemma_pieces_do_not_matter(turn: TurnView, first: Seq<char>, second: Seq<char>)
    ensures
        with_chunk(with_chunk(turn, first), second) == with_chunk(turn, first + second),
{
    let text = turn.session.buffer + first;
    lemma_events_in_pieces(text, second);
    assert(turn.session.buffer + (first + second) == text + second);
    let (events, rest) = sse_events(text);
    let (more, left) = sse_events(rest + second);
    let after = with_events(turn, events);
    lemma_events_in_order(turn, events, more);
    lemma_buffer_stays(after, more, rest);
}

/// The same session, with steps that went before.
pub open spec fn behind(before: Seq<StreamStepView>, turn: TurnView) -> TurnView {
    TurnView { steps: before + turn.steps, ..turn }
}

proof fn lemma_text_behind(before: Seq<StreamStepView>, turn: TurnView, text: Seq<char>)
    ensures
        say(behind(before, turn), text) == behind(before, say(turn, text)),
{
    assert(say(behind(before, turn), text).steps =~= before + say(turn, text).steps);
}

proof fn lemma_texts_behind(before: Seq<StreamStepView>, turn: TurnView, texts: Seq<Seq<char>>)
    ensures
        say_all(behind(before, turn), texts) == behind(before, say_all(turn, texts)),
    decreases texts.len(),
{
    if texts.len() > 0 {
        lemma_texts_behind(before, turn, texts.drop_last());
        lemma_text_behind(before, say_all(turn, texts.drop_last()), texts.last());
    }
}

proof fn lemma_data_behind(
    before: Seq<StreamStepView>,
    turn: TurnView,
    data: Seq<char>,
    parsed: Result<JsonView, Seq<char>>,
)
    ensures
        with_data(behind(before, turn), data, parsed) == behind(
            before,
            with_data(turn, data, parsed),
        ),
{
    let session = turn.session;
    let reading = read_event(session.wire_api, parsed, session.calls, !session.seen_text);
    match reading.texts {
        Ok(texts) => {
            lemma_texts_behind(
                before,
                TurnView {
                    session: SessionView {
                        calls: reading.calls,
                        seen_event: true,
                        seen_text: session.seen_text || any_text(texts),
                        ..session
                    },
                    ..turn
                },
                texts,
            );
        },
        Err(error) => {
            lemma_text_behind(
                before,
                TurnView {
                    session: SessionView { calls: reading.calls, seen_event: true, ..session },
                    ..turn
                },
                unreadable_event(session.wire_api, error),
            );
        },
    }
}

proof fn lemma_events_behind(before: Seq<StreamStepView>, turn: TurnView, events: Seq<Seq<char>>)
    ensures
        with_events(behind(before, turn), events) == behind(before, with_events(turn, events)),
    decreases events.len(),
{
    if events.len() > 0 {
        lemma_events_behind(before, turn, events.drop_last());
        lemma_data_behind(
            before,
            with_events(turn, events.drop_last()),
            events.last(),
            json_reading(events.last()),
        );
    }
}

/// The steps that follow do not depend on the steps that went before, and come behind them.
pub proof fn lemma_steps_follow(
    before: Seq<StreamStepView>,
    session: SessionView,
    text: Seq<char>,
    parsed: Result<JsonView, Seq<char>>,
    outputs: Seq<Result<WarpClientOutputView, Seq<char>>>,
)
    ensures
        with_chunk(TurnView { session, steps: before }, text) == behind(
            before,
            with_chunk(turn_of(session), text),
        ),
        with_end(TurnView { session, steps: before }, parsed) == behind(
            before,
            with_end(turn_of(session), parsed),
        ),
        concluded(TurnView { session, steps: before }, outputs) == behind(
            before,
            concluded(turn_of(session), outputs),
        ),
        failed(TurnView { session, steps: before }, text) == behind(
            before,
            failed(turn_of(session), text),
        ),
{
    let turn = TurnView { session, steps: before };
    assert(behind(before, turn_of(session)) =~= turn);
    lemma_events_behind(before, turn_of(session), sse_events(session.buffer + text).0);
    let reading = read_answer(session.wire_api, parsed, session.calls, !session.seen_text);
    let read = turn_of(SessionView { calls: reading.calls, ..session });
    assert(behind(before, read) =~= (TurnView {
        session: SessionView { calls: reading.calls, ..session },
        steps: before,
    }));
    match reading.texts {
        Ok(texts) => {
            lemma_texts_behind(before, read, texts);
        },
        Err(error) => {
            lemma_text_behind(
                before,
                read,
                unreadable_body(session.wire_api, error, session.buffer),
            );
        },
    }
    lemma_steps_before_stay(turn, session, outputs);
    lemma_steps_before_failure_stay(turn, text);
}

/// Whether a step starts or ends a stream.
pub open spec fn is_border(step: StreamStepView) -> bool {
    step is Init || step is Finish
}

/// Whether a step shows text of the agent.
pub open spec fn is_output(step: StreamStepView) -> bool {
    step is AddOutput || step is AppendOutput
}

/// Whether one of the first steps shows text of the agent.
pub open spec fn output_before(steps: Seq<StreamStepView>, n: int) -> bool {
    exists|i: int| 0 <= i < n && is_output(#[trigger] steps[i])
}

/// Whether the message of the agent is added once, by the first text, and all text goes to it.
pub open spec fn one_message(steps: Seq<StreamStepView>, message_id: Seq<char>) -> bool {
    forall|i: int|
        0 <= i < steps.len() ==> match #[trigger] steps[i] {
            StreamStepView::AddOutput(output) => output.message_id == message_id
                && !output_before(steps, i),
            StreamStepView::AppendOutput(output) => output.message_id == message_id
                && output_before(steps, i),
            _ => true,
        }
}

/// Whether the steps so far are the beginning of a stream: it starts with the first step and has
/// not ended, and the text goes to one message.
pub open spec fn in_progress(turn: TurnView) -> bool {
    &&& turn.steps.len() > 0
    &&& turn.steps[0] is Init
    &&& forall|i: int| 0 < i < turn.steps.len() ==> !is_border(#[trigger] turn.steps[i])
    &&& one_message(turn.steps, turn.session.message_id)
    &&& turn.session.message_added <==> output_before(turn.steps, turn.steps.len() as int)
}

/// Whether the steps are a whole stream: it starts with the first step and ends with the last, and
/// with no other, and the text goes to one message.
pub open spec fn whole_stream(steps: Seq<StreamStepView>, message_id: Seq<char>) -> bool {
    &&& steps.len() >= 2
    &&& steps[0] is Init
    &&& steps.last() is Finish
    &&& forall|i: int| 0 < i < steps.len() - 1 ==> !is_border(#[trigger] steps[i])
    &&& one_message(steps, message_id)
}

/// The first steps begin a stream.
pub proof fn lemma_stream_begins(request: RequestView, wire_api: WireApi, message_id: Seq<char>)
    ensures
        in_progress(
            TurnView { session: new_session(wire_api, message_id), steps: first_steps(request) },
        ),
{
}

proof fn lemma_text_goes_on(turn: TurnView, text: Seq<char>)
    requires
        in_progress(turn),
    ensures
        in_progress(say(turn, text)),
        say(turn, text).session.message_id == turn.session.message_id,
{
    if text.len() > 0 {
        let after = say(turn, text);
        let n = turn.steps.len() as int;
        lemma_pushed(turn.steps, after.steps[n]);
        assert(is_output(after.steps[n]));
        assert forall|i: int| 0 <= i < after.steps.len() implies match #[trigger] after.steps[i] {
            StreamStepView::AddOutput(output) => output.message_id == turn.session.message_id
                && !output_before(after.steps, i),
            StreamStepView::AppendOutput(output) => output.message_id == turn.session.message_id
                && output_before(after.steps, i),
            _ => true,
        } by {
            if i < n {
                assert(after.steps[i] == turn.steps[i]);
            }
        }
    }
}

/// What a step behind some steps leaves as it is.
proof fn lemma_pushed(steps: Seq<StreamStepView>, step: StreamStepView)
    ensures
        forall|i: int|
            0 <= i <= steps.len() ==> #[trigger] output_before(steps.push(step), i)
                == output_before(steps, i),
        output_before(steps.push(step), steps.len() as int + 1) == (output_before(
            steps,
            steps.len() as int,
        ) || is_output(step)),
{
    let after = steps.push(step);
    let n = steps.len() as int;
    assert forall|i: int| 0 <= i <= n implies #[trigger] output_before(after, i) == output_before(
        steps,
        i,
    ) by {
        if output_before(steps, i) {
            let k = choose|k: int| 0 <= k < i && is_output(#[trigger] steps[k]);
            assert(is_output(after[k]));
        }
        if output_before(after, i) {
            let k = choose|k: int| 0 <= k < i && is_output(#[trigger] after[k]);
            assert(is_output(steps[k]));
        }
    }
    if output_before(steps, n) {
        let k = choose|k: int| 0 <= k < n && is_output(#[trigger] steps[k]);
        assert(is_output(after[k]));
    }
    if is_output(step) {
        assert(is_output(after[n]));
    }
    if output_before(after, n + 1) {
        let k = choose|k: int| 0 <= k < n + 1 && is_output(#[trigger] after[k]);
        if k < n {
            assert(is_output(steps[k]));
        }
    }
}

/// A step that shows no text goes behind a stream in progress.
proof fn lemma_other_step_goes_on(turn: TurnView, step: StreamStepView)
    requires
        in_progress(turn),
        !is_output(step),
    ensures
        !is_border(step) ==> in_progress(TurnView { steps: turn.steps.push(step), ..turn }),
        step is Finish ==> whole_stream(turn.steps.push(step), turn.session.message_id),
{
    let after = turn.steps.push(step);
    lemma_pushed(turn.steps, step);
    assert forall|i: int| 0 <= i < after.len() implies match #[trigger] after[i] {
        StreamStepView::AddOutput(output) => output.message_id == turn.session.message_id
            && !output_before(after, i),
        StreamStepView::AppendOutput(output) => output.message_id == turn.session.message_id
            && output_before(after, i),
        _ => true,
    } by {
        if i < turn.steps.len() {
            assert(after[i] == turn.steps[i]);
        }
    }
}

proof fn lemma_texts_go_on(turn: TurnView, texts: Seq<Seq<char>>)
    requires
        in_progress(turn),
    ensures
        in_progress(say_all(turn, texts)),
        say_all(turn, texts).session.message_id == turn.session.message_id,
    decreases texts.len(),
{
    if texts.len() > 0 {
        lemma_texts_go_on(turn, texts.drop_last());
        lemma_text_goes_on(say_all(turn, texts.drop_last()), texts.last());
    }
}

proof fn lemma_events_go_on(turn: TurnView, events: Seq<Seq<char>>)
    requires
        in_progress(turn),
    ensures
        in_progress(with_events(turn, events)),
        with_events(turn, events).session.message_id == turn.session.message_id,
    decreases events.len(),
{
    if events.len() > 0 {
        lemma_events_go_on(turn, events.drop_last());
        let before = with_events(turn, events.drop_last());
        let session = before.session;
        let reading = read_event(
            session.wire_api,
            json_reading(events.last()),
            session.calls,
            !session.seen_text,
        );
        match reading.texts {
            Ok(texts) => {
                lemma_texts_go_on(
                    TurnView {
                        session: SessionView {
                            calls: reading.calls,
                            seen_event: true,
                            seen_text: session.seen_text || any_text(texts),
                            ..session
                        },
                        ..before
                    },
                    texts,
                );
            },
            Err(error) => {
                lemma_text_goes_on(
                    TurnView {
                        session: SessionView { calls: reading.calls, seen_event: true, ..session },
                        ..before
                    },
                    unreadable_event(session.wire_api, error),
                );
            },
        }
    }
}

/// While the backend sends, the stream goes on: it does not start again, it does not end, and its
/// text goes to one message.
pub proof fn lemma_chunk_goes_on(turn: TurnView, text: Seq<char>)
    requires
        in_progress(turn),
    ensures
        in_progress(with_chunk(turn, text)),
        with_chunk(turn, text).session.message_id == turn.session.message_id,
{
    lemma_events_go_on(turn, sse_events(turn.session.buffer + text).0);
}

/// When the stream of the backend ends, the session completes its own.
pub proof fn lemma_conclusion_completes(
    turn: TurnView,
    parsed: Result<JsonView, Seq<char>>,
    outputs: Seq<Result<WarpClientOutputView, Seq<char>>>,
)
    requires
        in_progress(turn),
    ensures
        whole_stream(
            concluded(with_end(turn, parsed), outputs).steps,
            turn.session.message_id,
        ),
        concluded(with_end(turn, parsed), outputs).steps.last() == StreamStepView::Finish(
            FinishReasonView::Done,
        ),
{
    let session = turn.session;
    let reading = read_answer(session.wire_api, parsed, session.calls, !session.seen_text);
    let read = TurnView { session: SessionView { calls: reading.calls, ..session }, ..turn };
    let ended = with_end(turn, parsed);
    if !(session.seen_event || blank(session.buffer)) {
        match reading.texts {
            Ok(texts) => {
                lemma_texts_go_on(read, texts);
            },
            Err(error) => {
                lemma_text_goes_on(
                    read,
                    unreadable_body(session.wire_api, error, session.buffer),
                );
            },
        }
    }
    let errors = errors_in(outputs);
    let message = "Unsupported or malformed backend tool call: "@ + joined(errors, "; "@);
    let told = if errors.len() == 0 {
        ended
    } else {
        say(ended, message)
    };
    lemma_text_goes_on(ended, message);
    let calls = StreamStepView::AddToolCalls(tool_calls_in(outputs));
    let asked = if tool_calls_in(outputs).len() > 0 {
        lemma_other_step_goes_on(told, calls);
        TurnView { steps: told.steps.push(calls), ..told }
    } else {
        told
    };
    assert(asked.steps =~= told.steps + step_if(tool_calls_in(outputs).len() > 0, calls));
    let rules = StreamStepView::ShowSuggestions(SuggestionsView { rules: rules_in(outputs) });
    let shown = if rules_in(outputs).len() > 0 {
        lemma_other_step_goes_on(asked, rules);
        TurnView { steps: asked.steps.push(rules), ..asked }
    } else {
        asked
    };
    assert(shown.steps =~= asked.steps + step_if(rules_in(outputs).len() > 0, rules));
    let done = StreamStepView::Finish(FinishReasonView::Done);
    lemma_other_step_goes_on(shown, done);
    assert(concluded(ended, outputs).steps =~= shown.steps.push(done));
}

/// When something fails, the session tells the user and completes its stream.
pub proof fn lemma_failure_completes(turn: TurnView, message: Seq<char>)
    requires
        in_progress(turn),
    ensures
        whole_stream(failed(turn, message).steps, turn.session.message_id),
        failed(turn, message).steps.last() == StreamStepView::Finish(
            FinishReasonView::InternalError(message),
        ),
        message.len() > 0 ==> shown_text(
            failed(turn, message).steps[failed(turn, message).steps.len() - 2],
        ) == message,
{
    lemma_text_goes_on(turn, message);
    lemma_other_step_goes_on(
        say(turn, message),
        StreamStepView::Finish(FinishReasonView::InternalError(message)),
    );
}

/// The text that a step shows.
pub open spec fn shown_text(step: StreamStepView) -> Seq<char> {
    match step {
        StreamStepView::AddOutput(output) => output.text,
        StreamStepView::AppendOutput(output) => output.text,
        _ => Seq::empty(),
    }
}

/// The text that steps show.
pub open spec fn shown_texts(steps: Seq<StreamStepView>) -> Seq<char>
    decreases steps.len(),
{
    if steps.len() == 0 {
        Seq::empty()
    } else {
        shown_texts(steps.drop_last()) + shown_text(steps.last())
    }
}

/// Nothing of what the backend says is lost or repeated: the steps for some texts show those texts,
/// one behind the other.
pub proof fn lemma_texts_are_shown(turn: TurnView, texts: Seq<Seq<char>>)
    ensures
        shown_texts(say_all(turn, texts).steps) == shown_texts(turn.steps) + joined(
            texts,
            Seq::empty(),
        ),
    decreases texts.len(),
{
    let none = Seq::<char>::empty();
    if texts.len() == 0 {
        assert(shown_texts(turn.steps) + none =~= shown_texts(turn.steps));
    } else {
        lemma_texts_are_shown(turn, texts.drop_last());
        let before = say_all(turn, texts.drop_last());
        let text = texts.last();
        if text.len() > 0 {
            assert(say(before, text).steps.drop_last() =~= before.steps);
        }
        assert(shown_texts(say(before, text).steps) =~= shown_texts(before.steps) + text);
        if texts.len() == 1 {
            assert(shown_texts(turn.steps) + none + text =~= shown_texts(turn.steps) + texts[0]);
        } else {
            assert(shown_texts(turn.steps) + joined(texts.drop_last(), none) + text
                =~= shown_texts(turn.steps) + (joined(texts.drop_last(), none) + none + text));
        }
    }
}

/// Once there was text, a completed response shows nothing: text that was streamed is not repeated.
pub proof fn lemma_completed_response_is_silent(turn: TurnView, data: Seq<char>, event: JsonView)
    requires
        turn.session.wire_api == WireApi::Responses,
        turn.session.seen_text,
        event.get_str("type"@) == Some("response.completed"@),
    ensures
        with_data(turn, data, Ok(event)).steps == turn.steps,
        with_data(turn, data, Ok(event)).session.message_added == turn.session.message_added,
{
    lemma_completed_text_is_not_repeated(event, turn.session.calls);
}

// ---------------------------------------------------------------------------------------------
// What a stream says
// ---------------------------------------------------------------------------------------------
/// A stream starts with its identifiers; a task is created where the client has none.
pub proof fn lemma_how_streams_start(request: RequestView)
    ensures
        first_steps(request)[0] == StreamStepView::Init,
        request.task_context is None ==> first_steps(request) == seq![
            StreamStepView::Init,
            StreamStepView::CreateRootTask,
        ],
        request.task_context matches Some(tasks) ==> (tasks.len() == 0 ==> first_steps(request)
            == seq![StreamStepView::Init, StreamStepView::CreateRootTask]) && (tasks.len() > 0
            ==> first_steps(request) == seq![StreamStepView::Init]),
{
}

/// A text is shown at once, in the message of the stream: the first one makes it, the later ones
/// are appended. An empty text shows nothing.
pub proof fn lemma_text_is_shown(turn: TurnView, text: Seq<char>)
    ensures
        text.len() == 0 ==> say(turn, text) == turn,
        text.len() > 0 ==> {
            let said = say(turn, text);
            &&& said.steps.len() == turn.steps.len() + 1
            &&& said.steps.drop_last() == turn.steps
            &&& shown_text(said.steps.last()) == text
            &&& turn.session.message_added ==> said.steps.last() == StreamStepView::AppendOutput(
                OutputTextView { message_id: turn.session.message_id, text },
            )
            &&& !turn.session.message_added ==> said.steps.last() == StreamStepView::AddOutput(
                OutputTextView { message_id: turn.session.message_id, text },
            )
            &&& said.session.message_added
            &&& said.session.calls == turn.session.calls
            &&& said.session.message_id == turn.session.message_id
            &&& said.session.buffer == turn.session.buffer
            &&& said.session.seen_event == turn.session.seen_event
            &&& said.session.seen_text == turn.session.seen_text
            &&& said.session.wire_api == turn.session.wire_api
        },
{
    if text.len() > 0 {
        assert(say(turn, text).steps.drop_last() =~= turn.steps);
    }
}

proof fn lemma_sayings_keep_the_rest(turn: TurnView, texts: Seq<Seq<char>>)
    ensures
        ({
            let said = say_all(turn, texts);
            &&& said.session.calls == turn.session.calls
            &&& said.session.seen_event == turn.session.seen_event
            &&& said.session.seen_text == turn.session.seen_text
            &&& said.session.wire_api == turn.session.wire_api
        }),
    decreases texts.len(),
{
    if texts.len() > 0 {
        lemma_sayings_keep_the_rest(turn, texts.drop_last());
    }
}

/// The event that ends a stream shows nothing. Every other event shows the texts that it holds, or
/// what is wrong with it; it is read by the protocol of the backend, and counts as seen.
pub proof fn lemma_event_is_shown(
    turn: TurnView,
    data: Seq<char>,
    parsed: Result<JsonView, Seq<char>>,
)
    ensures
        ({
            let after = with_data(turn, data, parsed);
            let session = turn.session;
            let reading = read_event(session.wire_api, parsed, session.calls, !session.seen_text);
            &&& after.session.seen_event
            &&& trimmed(data) == "[DONE]"@ ==> after.steps == turn.steps && after.session.calls
                == session.calls
            &&& trimmed(data) != "[DONE]"@ ==> after.session.calls == reading.calls
            &&& trimmed(data) != "[DONE]"@ ==> (reading.texts matches Ok(texts) ==> {
                &&& shown_texts(after.steps) == shown_texts(turn.steps) + joined(
                    texts,
                    Seq::empty(),
                )
                &&& session.seen_text ==> after.session.seen_text
                &&& joined(texts, Seq::empty()).len() > 0 ==> after.session.seen_text
                &&& !session.seen_text && joined(texts, Seq::empty()).len() == 0
                    ==> !after.session.seen_text
            })
            &&& trimmed(data) != "[DONE]"@ ==> (reading.texts matches Err(error) ==> shown_texts(
                after.steps,
            ) == shown_texts(turn.steps) + ("Unable to parse backend SSE chunk as "@
                + session.wire_api.name() + " delta: "@ + error))
        }),
{
    let session = turn.session;
    let reading = read_event(session.wire_api, parsed, session.calls, !session.seen_text);
    let seen = SessionView { seen_event: true, ..session };
    match reading.texts {
        Ok(texts) => {
            let start = TurnView {
                session: SessionView {
                    calls: reading.calls,
                    seen_text: session.seen_text || any_text(texts),
                    ..seen
                },
                ..turn
            };
            lemma_texts_are_shown(start, texts);
            lemma_sayings_keep_the_rest(start, texts);
            lemma_joined_shows(texts);
        },
        Err(error) => {
            let start = TurnView { session: SessionView { calls: reading.calls, ..seen }, ..turn };
            let text = unreadable_event(session.wire_api, error);
            lemma_texts_are_shown(start, seq![text]);
            assert(seq![text].drop_last() =~= Seq::empty());
            reveal_with_fuel(say_all, 2);
            assert(say_all(start, seq![text]) == say(start, text));
        },
    }
}

/// Something is shown of texts where one of them is not empty.
proof fn lemma_joined_shows(texts: Seq<Seq<char>>)
    ensures
        joined(texts, Seq::empty()).len() > 0 <==> any_text(texts),
    decreases texts.len(),
{
    if texts.len() == 1 {
        if texts[0].len() > 0 {
            assert(any_text(texts));
        }
    } else if texts.len() > 1 {
        let rest = texts.drop_last();
        lemma_joined_shows(rest);
        if any_text(rest) {
            let i = choose|i: int| 0 <= i < rest.len() && (#[trigger] rest[i]).len() > 0;
            assert(texts[i].len() > 0);
        }
        if texts.last().len() > 0 {
            assert(texts[texts.len() - 1].len() > 0);
        }
        if any_text(texts) && texts.last().len() == 0 {
            let i = choose|i: int| 0 <= i < texts.len() && (#[trigger] texts[i]).len() > 0;
            assert(rest[i].len() > 0);
        }
    }
}

/// Events are shown one after another, and a text that ends in the middle of an event waits for its
/// end.
pub proof fn lemma_events_are_shown_in_order(
    turn: TurnView,
    events: Seq<Seq<char>>,
    last: Seq<char>,
    text: Seq<char>,
)
    ensures
        with_events(turn, Seq::empty()) == turn,
        with_events(turn, events.push(last)) == with_data(
            with_events(turn, events),
            last,
            json_reading(last),
        ),
        sse_events(turn.session.buffer + text).0.len() == 0 ==> with_chunk(turn, text).steps
            == turn.steps && with_chunk(turn, text).session.buffer == sse_events(
            turn.session.buffer + text,
        ).1,
{
    assert(events.push(last).drop_last() =~= events);
}

/// The end of a stream shows nothing where events came, or where there is nothing left. Else what
/// came is read as one answer.
pub proof fn lemma_end_is_shown(turn: TurnView, parsed: Result<JsonView, Seq<char>>)
    ensures
        turn.session.seen_event || blank(turn.session.buffer) ==> with_end(turn, parsed) == turn,
        !turn.session.seen_event && !blank(turn.session.buffer) ==> ({
            let session = turn.session;
            let reading = read_answer(session.wire_api, parsed, session.calls, !session.seen_text);
            let after = with_end(turn, parsed);
            &&& after.session.calls == reading.calls
            &&& reading.texts matches Ok(texts) ==> shown_texts(after.steps) == shown_texts(
                turn.steps,
            ) + joined(texts, Seq::empty())
            &&& reading.texts matches Err(error) ==> shown_texts(after.steps) == shown_texts(
                turn.steps,
            ) + ("Backend did not return "@ + session.wire_api.name()
                + " SSE or JSON response: "@ + error + ". Raw body: "@ + truncated(
                session.buffer,
                1200,
            ))
        }),
{
    let session = turn.session;
    let reading = read_answer(session.wire_api, parsed, session.calls, !session.seen_text);
    let start = TurnView { session: SessionView { calls: reading.calls, ..session }, ..turn };
    match reading.texts {
        Ok(texts) => {
            lemma_texts_are_shown(start, texts);
            lemma_sayings_keep_the_rest(start, texts);
        },
        Err(error) => {
            let text = unreadable_body(session.wire_api, error, session.buffer);
            lemma_texts_are_shown(start, seq![text]);
            assert(seq![text].drop_last() =~= Seq::empty());
            reveal_with_fuel(say_all, 2);
            assert(say_all(start, seq![text]) == say(start, text));
        },
    }
}

/// What came out of the calls is sorted: calls, rules and errors each in their order.
pub proof fn lemma_outputs_are_sorted(
    outputs: Seq<Result<WarpClientOutputView, Seq<char>>>,
    call: ToolCallView,
    suggestions: SuggestionsView,
    error: Seq<char>,
)
    ensures
        ({
            let with_call = outputs.push(Ok(WarpClientOutputView::ToolCall(call)));
            &&& tool_calls_in(with_call) == tool_calls_in(outputs).push(call)
            &&& rules_in(with_call) == rules_in(outputs)
            &&& errors_in(with_call) == errors_in(outputs)
        }),
        ({
            let with_rules = outputs.push(Ok(WarpClientOutputView::Suggestions(suggestions)));
            &&& tool_calls_in(with_rules) == tool_calls_in(outputs)
            &&& rules_in(with_rules) == rules_in(outputs) + suggestions.rules
            &&& errors_in(with_rules) == errors_in(outputs)
        }),
        ({
            let with_error = outputs.push(Err(error));
            &&& tool_calls_in(with_error) == tool_calls_in(outputs)
            &&& rules_in(with_error) == rules_in(outputs)
            &&& errors_in(with_error) == errors_in(outputs).push(error)
        }),
        tool_calls_in(Seq::empty()).len() == 0,
        rules_in(Seq::empty()).len() == 0,
        errors_in(Seq::empty()).len() == 0,
{
    assert(outputs.push(Ok(WarpClientOutputView::ToolCall(call))).drop_last() =~= outputs);
    assert(outputs.push(Ok(WarpClientOutputView::Suggestions(suggestions))).drop_last()
        =~= outputs);
    assert(outputs.push(Err(error)).drop_last() =~= outputs);
}

/// A stream ends with the calls for the client, the suggested rules and the word that it is done;
/// calls that could not be made are told before.
pub proof fn lemma_how_streams_end(
    turn: TurnView,
    outputs: Seq<Result<WarpClientOutputView, Seq<char>>>,
)
    ensures
        ({
            let steps = concluded(turn, outputs).steps;
            let calls = tool_calls_in(outputs);
            let rules = rules_in(outputs);
            let errors = errors_in(outputs);
            &&& steps.last() == StreamStepView::Finish(FinishReasonView::Done)
            &&& calls.len() > 0 ==> steps.contains(StreamStepView::AddToolCalls(calls))
            &&& rules.len() > 0 ==> steps.contains(
                StreamStepView::ShowSuggestions(SuggestionsView { rules }),
            )
            &&& errors.len() > 0 ==> shown_texts(steps) == shown_texts(turn.steps) + (
            "Unsupported or malformed backend tool call: "@ + joined(errors, "; "@))
            &&& errors.len() == 0 ==> shown_texts(steps) == shown_texts(turn.steps)
            &&& errors.len() == 0 && calls.len() == 0 && rules.len() == 0 ==> steps
                == turn.steps.push(StreamStepView::Finish(FinishReasonView::Done))
            &&& errors.len() == 0 && calls.len() > 0 && rules.len() == 0 ==> steps == turn.steps
                + seq![
                StreamStepView::AddToolCalls(calls),
                StreamStepView::Finish(FinishReasonView::Done),
            ]
            &&& errors.len() == 0 && calls.len() > 0 && rules.len() > 0 ==> steps == turn.steps
                + seq![
                StreamStepView::AddToolCalls(calls),
                StreamStepView::ShowSuggestions(SuggestionsView { rules }),
                StreamStepView::Finish(FinishReasonView::Done),
            ]
        }),
{
    let calls = tool_calls_in(outputs);
    let rules = rules_in(outputs);
    let errors = errors_in(outputs);
    let text = "Unsupported or malformed backend tool call: "@ + joined(errors, "; "@);
    let told = if errors.len() == 0 {
        turn
    } else {
        say(turn, text)
    };
    let steps = concluded(turn, outputs).steps;
    let one = step_if(calls.len() > 0, StreamStepView::AddToolCalls(calls));
    let two = step_if(
        rules.len() > 0,
        StreamStepView::ShowSuggestions(SuggestionsView { rules }),
    );
    if calls.len() > 0 {
        assert(steps[told.steps.len() as int] == StreamStepView::AddToolCalls(calls));
    }
    if rules.len() > 0 {
        assert(steps[(told.steps + one).len() as int] == StreamStepView::ShowSuggestions(
            SuggestionsView { rules },
        ));
    }
    if errors.len() > 0 {
        lemma_texts_are_shown(turn, seq![text]);
        assert(seq![text].drop_last() =~= Seq::empty());
        reveal_with_fuel(say_all, 2);
        assert(say_all(turn, seq![text]) == say(turn, text));
    }
    lemma_silent_steps(told.steps, one);
    lemma_silent_steps(told.steps + one, two);
    lemma_silent_steps(
        told.steps + one + two,
        seq![StreamStepView::Finish(FinishReasonView::Done)],
    );
    if errors.len() == 0 {
        if calls.len() == 0 && rules.len() == 0 {
            assert(steps =~= turn.steps.push(StreamStepView::Finish(FinishReasonView::Done)));
        } else if calls.len() > 0 && rules.len() == 0 {
            assert(steps =~= turn.steps + seq![
                StreamStepView::AddToolCalls(calls),
                StreamStepView::Finish(FinishReasonView::Done),
            ]);
        } else if calls.len() > 0 && rules.len() > 0 {
            assert(steps =~= turn.steps + seq![
                StreamStepView::AddToolCalls(calls),
                StreamStepView::ShowSuggestions(SuggestionsView { rules }),
                StreamStepView::Finish(FinishReasonView::Done),
            ]);
        }
    }
}

/// Steps that are no outputs show nothing.
proof fn lemma_silent_steps(before: Seq<StreamStepView>, steps: Seq<StreamStepView>)
    requires
        steps.len() <= 1,
        forall|i: int| 0 <= i < steps.len() ==> !is_output(#[trigger] steps[i]),
    ensures
        shown_texts(before + steps) == shown_texts(before),
{
    if steps.len() == 0 {
        assert(before + steps =~= before);
    } else {
        assert(!is_output(steps[0]));
        assert((before + steps).drop_last() =~= before);
        assert((before + steps).last() == steps[0]);
        assert(shown_texts(before) + Seq::<char>::empty() =~= shown_texts(before));
    }
}

/// A failure is shown, and is the reason with which the stream ends.
pub proof fn lemma_failures_are_shown(turn: TurnView, message: Seq<char>)
    ensures
        failed(turn, message).steps.last() == StreamStepView::Finish(
            FinishReasonView::InternalError(message),
        ),
        shown_texts(failed(turn, message).steps) == shown_texts(turn.steps) + message,
        message.len() > 0 ==> failed(turn, message).steps.len() == turn.steps.len() + 2,
{
    lemma_texts_are_shown(turn, seq![message]);
    assert(seq![message].drop_last() =~= Seq::empty());
    reveal_with_fuel(say_all, 2);
    assert(say_all(turn, seq![message]) == say(turn, message));
    let said = say(turn, message);
    let end = seq![StreamStepView::Finish(FinishReasonView::InternalError(message))];
    lemma_silent_steps(said.steps, end);
    assert(said.steps.push(end[0]) =~= said.steps + end);
}

/// What is said of failures.
pub proof fn lemma_words_of_failures(
    status: Seq<char>,
    body: Seq<char>,
    path: Seq<char>,
    error: Seq<char>,
)
    ensures
        body.len() <= 1200 ==> refused(status, body) == "BYOB backend returned HTTP "@ + status
            + ": "@ + body,
        body.len() > 1200 ==> refused(status, body) == "BYOB backend returned HTTP "@ + status
            + ": "@ + (body.take(1200) + "\n...[truncated]"@),
        broken_stream(error) == "BYOB backend stream failed: "@ + error,
        unreachable(path, error) == "Failed to reach BYOB backend for "@ + path + ": "@ + error,
{
}

/// A stream starts with nothing shown, nothing seen and no calls.
pub proof fn lemma_new_session(wire_api: WireApi, message_id: Seq<char>)
    ensures
        ({
            let session = new_session(wire_api, message_id);
            &&& session.wire_api == wire_api
            &&& session.message_id == message_id
            &&& !session.message_added && !session.seen_event && !session.seen_text
            &&& session.calls.len() == 0
            &&& session.buffer.len() == 0
        }),
{
}

/// A backend says the same, whether its answer is shown as it streams in or read as one body: the
/// same texts in the same order, and the same calls.
pub proof fn lemma_streams_and_bodies_say_the_same(
    wire_api: WireApi,
    message_id: Seq<char>,
    events: Seq<Seq<char>>,
)
    requires
        read_events(wire_api, events) is Ok,
    ensures
        ({
            let read = read_events(wire_api, events)->Ok_0;
            let shown = with_events(turn_of(new_session(wire_api, message_id)), events);
            &&& shown_texts(shown.steps) == joined(read.texts, Seq::empty())
            &&& shown.session.calls == read.calls
            &&& shown.session.seen_text == read.seen_text
            &&& shown.session.wire_api == wire_api
        }),
    decreases events.len(),
{
    if events.len() > 0 {
        let before = events.drop_last();
        let last = events.last();
        lemma_streams_and_bodies_say_the_same(wire_api, message_id, before);
        let read = read_events(wire_api, before)->Ok_0;
        let turn = with_events(turn_of(new_session(wire_api, message_id)), before);
        lemma_event_is_shown(turn, last, json_reading(last));
        let session = turn.session;
        let reading = read_event(wire_api, json_reading(last), read.calls, !read.seen_text);
        if trimmed(last) != "[DONE]"@ {
            let texts = reading.texts->Ok_0;
            lemma_texts_are_put_together(read.texts, texts);
            lemma_joined_shows(texts);
            let start = TurnView {
                session: SessionView {
                    calls: reading.calls,
                    seen_event: true,
                    seen_text: session.seen_text || any_text(texts),
                    ..session
                },
                ..turn
            };
            lemma_sayings_keep_the_rest(start, texts);
        }
    }
}

/// Every step becomes the event that shows it: texts as messages of the agent, calls as calls, the
/// end with its reason.
pub proof fn lemma_steps_become_events(
    ids: WarpIdsView,
    event: ResponseEventView,
    output: OutputTextView,
    calls: Seq<ToolCallView>,
    suggestions: SuggestionsView,
    reason: FinishReasonView,
)
    ensures
        shows(ids, StreamStepView::Init, event) ==> event is Init && event->Init_0.conversation_id
            == ids.conversation_id && event->Init_0.request_id == ids.request_id
            && event->Init_0.run_id == ids.run_id,
        shows(ids, StreamStepView::Finish(reason), event) <==> event == ResponseEventView::Finished(
            reason,
        ),
        shows(ids, StreamStepView::ShowSuggestions(suggestions), event) <==> event
            == ResponseEventView::ClientActions(
            seq![ClientActionView::ShowSuggestions(suggestions)],
        ),
        shows(ids, StreamStepView::AddOutput(output), event) ==> (
        event matches ResponseEventView::ClientActions(actions) && actions.len() == 1 && (
        actions[0] matches ClientActionView::AddMessagesToTask(added) && added.messages.len() == 1
            && added.messages[0].id == output.message_id && added.messages[0].message == Some(
            MessageContentView::AgentOutput(output.text),
        ))),
        shows(ids, StreamStepView::AppendOutput(output), event) ==> (
        event matches ResponseEventView::ClientActions(actions) && actions.len() == 1 && (
        actions[0] matches ClientActionView::AppendToMessageContent(appended)
            && appended.message.id == output.message_id && appended.message.message == Some(
            MessageContentView::AgentOutput(output.text),
        ))),
        shows(ids, StreamStepView::AddToolCalls(calls), event) <==> adds_tool_calls(
            ids,
            calls,
            event,
        ),
        shows(ids, StreamStepView::CreateRootTask, event) ==> (
        event matches ResponseEventView::ClientActions(actions) && actions.len() == 1 && (
        actions[0] matches ClientActionView::CreateTask(task) && task.id == ids.task_id)),
{
}

/// A missing key is told with the place where it is looked for.
pub proof fn lemma_missing_keys_are_told(platform: Platform)
    ensures
        platform == Platform::Windows ==> missing_auth(platform)
            == "WarpOCA could not find Codex CLI authentication. Run `codex login`, confirm `"@
            + "%USERPROFILE%\\.codex\\auth.json"@ + "` exists, then relaunch WarpOCA."@,
        platform != Platform::Windows ==> missing_auth(platform)
            == "WarpOCA could not find Codex CLI authentication. Run `codex login`, confirm `"@
            + "~/.codex/auth.json"@ + "` exists, then relaunch WarpOCA."@,
{
}

/// A piece of the stream shows the events that it ends, and keeps the rest for the next one.
pub proof fn lemma_pieces_are_shown(turn: TurnView, text: Seq<char>)
    ensures
        ({
            let (events, rest) = sse_events(turn.session.buffer + text);
            let after = with_chunk(turn, text);
            let shown = with_events(turn, events);
            &&& after.session.buffer == rest
            &&& after.steps == shown.steps
            &&& after.session.calls == shown.session.calls
            &&& after.session.message_added == shown.session.message_added
            &&& after.session.seen_event == shown.session.seen_event
            &&& after.session.seen_text == shown.session.seen_text
        }),
{
}

} // verus!
