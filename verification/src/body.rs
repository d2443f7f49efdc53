//! Reading the whole text of an answer, whether it came as a stream of events or as one response.
use crate::backend::{
    lemma_completed_text_is_not_repeated, read_answer, read_answer_json, read_event,
    read_event_json, ReadingView,
};
use crate::calls::{ToolCallAccumulatorSet, ToolCallAccumulatorView};
use crate::config::WireApi;
use crate::json::{json_reading, parse_json, Json, JsonView};
use crate::sse::{sse_events, SseDecoder};
use crate::text::{
    blank, has_prefix, is_blank, join, joined, res_view, same, starts_with, trim, trim_start_class,
    trim_start_of, trimmed, views, CharClass,
};
use vstd::prelude::*;

verus! {

/// What has been read of an answer: its texts, its tool calls, and whether a text was not empty.
#[verifier::ext_equal]
pub struct BodyView {
    pub texts: Seq<Seq<char>>,
    pub calls: Seq<(usize, ToolCallAccumulatorView)>,
    pub seen_text: bool,
}

/// Whether one of the texts is not empty.
pub open spec fn any_text(texts: Seq<Seq<char>>) -> bool {
    exists|i: int| 0 <= i < texts.len() && (#[trigger] texts[i]).len() > 0
}

/// Whether one of the texts is not empty.
pub fn has_text(texts: &Vec<String>) -> (r: bool)
    ensures
        r == any_text(views(texts@)),
{
    let mut i: usize = 0;
    while i < texts.len()
        invariant
            i <= texts.len(),
            forall|k: int| 0 <= k < i ==> (#[trigger] views(texts@)[k]).len() == 0,
        decreases texts.len() - i,
    {
        assert(views(texts@)[i as int] == texts@[i as int]@);
        if !texts[i].as_str().is_empty() {
            return true;
        }
        i += 1;
    }
    false
}

/// Nothing read yet.
pub open spec fn nothing_read() -> BodyView {
    BodyView { texts: Seq::empty(), calls: Seq::empty(), seen_text: false }
}

/// What has been read together with what was read next, or its error.
pub open spec fn extended(body: BodyView, reading: ReadingView) -> Result<BodyView, Seq<char>> {
    match reading.texts {
        Ok(texts) => Ok(
            BodyView {
                texts: body.texts + texts,
                calls: reading.calls,
                seen_text: body.seen_text || any_text(texts),
            },
        ),
        Err(message) => Err(message),
    }
}

/// What has been read with the data of one more event; once there was text, the text of a completed
/// response is not read again.
pub open spec fn with_event(
    wire_api: WireApi,
    body: BodyView,
    parsed: Result<JsonView, Seq<char>>,
) -> Result<BodyView, Seq<char>> {
    extended(body, read_event(wire_api, parsed, body.calls, !body.seen_text))
}

/// What has been read with a whole response.
pub open spec fn with_answer(
    wire_api: WireApi,
    body: BodyView,
    parsed: Result<JsonView, Seq<char>>,
) -> Result<BodyView, Seq<char>> {
    extended(body, read_answer(wire_api, parsed, body.calls, !body.seen_text))
}

/// What the data of some events say.
pub open spec fn read_events(wire_api: WireApi, events: Seq<Seq<char>>) -> Result<
    BodyView,
    Seq<char>,
>
    decreases events.len(),
{
    if events.len() == 0 {
        Ok(nothing_read())
    } else {
        match read_events(wire_api, events.drop_last()) {
            Ok(body) => if trimmed(events.last()) == "[DONE]"@ {
                Ok(body)
            } else {
                with_event(wire_api, body, json_reading(events.last()))
            },
            Err(message) => Err(message),
        }
    }
}

/// Whether a text starts as a stream of events does.
pub open spec fn sse_like(body: Seq<char>) -> bool {
    let start = trim_start_of(body, CharClass::White);
    has_prefix(start, "data:"@) || has_prefix(start, "event:"@)
}

/// What the body of an answer says.
pub open spec fn read_body(wire_api: WireApi, body: Seq<char>) -> Result<BodyView, Seq<char>> {
    if sse_like(body) {
        let (events, rest) = sse_events(body);
        match read_events(wire_api, events) {
            Ok(read) => if blank(rest) || has_prefix(
                trim_start_of(rest, CharClass::White),
                "data:"@,
            ) {
                Ok(read)
            } else {
                with_answer(wire_api, read, json_reading(rest))
            },
            Err(message) => Err(message),
        }
    } else {
        with_answer(wire_api, nothing_read(), json_reading(body))
    }
}

/// The text of the body of an answer, or why it has none.
pub open spec fn body_text(wire_api: WireApi, body: Seq<char>) -> Result<Seq<char>, Seq<char>> {
    match read_body(wire_api, body) {
        Ok(read) => Ok(joined(read.texts, Seq::empty())),
        Err(message) => Err(message),
    }
}

/// Whether a text starts as a stream of events does.
pub fn looks_like_sse(body: &str) -> (r: bool)
    ensures
        r == sse_like(body@),
{
    let start = trim_start_class(body, CharClass::White);
    starts_with(start, "data:") || starts_with(start, "event:")
}

/// A reader of the body of an answer.
#[derive(Debug)]
pub struct BodyReader {
    texts: Vec<String>,
    tool_calls: ToolCallAccumulatorSet,
    seen_text: bool,
}

impl View for BodyReader {
    type V = BodyView;

    closed spec fn view(&self) -> BodyView {
        BodyView {
            texts: views(self.texts@),
            calls: self.tool_calls@,
            seen_text: self.seen_text,
        }
    }
}

impl BodyReader {
    /// A reader that has read nothing.
    pub fn new() -> (r: Self)
        ensures
            r@ == nothing_read(),
    {
        let r = BodyReader {
            texts: Vec::new(),
            tool_calls: ToolCallAccumulatorSet::default(),
            seen_text: false,
        };
        assert(r@ =~= nothing_read());
        r
    }

    /// Takes texts, or hands their error on.
    fn take_texts(&mut self, texts: Result<Vec<String>, String>) -> (r: Result<(), String>)
        ensures
            final(self)@.calls == old(self)@.calls,
            r is Ok <==> texts is Ok,
            r matches Ok(_) ==> texts matches Ok(new) && final(self)@.texts == old(self)@.texts
                + views(new@) && final(self)@.seen_text == (old(self)@.seen_text || any_text(
                views(new@),
            )),
            r matches Err(message) ==> texts matches Err(error) && message@ == error@,
            r is Err ==> final(self)@ == old(self)@,
    {
        match texts {
            Ok(new) => {
                let ghost before = views(self.texts@);
                let ghost added = views(new@);
                let mut new = new;
                let found = has_text(&new);
                self.texts.append(&mut new);
                assert(views(self.texts@) =~= before + added);
                if found {
                    self.seen_text = true;
                }
                Ok(())
            },
            Err(message) => Err(message),
        }
    }

    /// Reads the data of an event that have been parsed.
    pub fn read_event(&mut self, wire_api: WireApi, parsed: Result<Json, String>) -> (r: Result<
        (),
        String,
    >)
        ensures
            r is Ok ==> with_event(wire_api, old(self)@, res_view(parsed)) == Ok::<_, Seq<char>>(
                final(self)@,
            ),
            r matches Err(message) ==> with_event(wire_api, old(self)@, res_view(parsed)) == Err::<
                BodyView,
                _,
            >(message@),
    {
        let texts = read_event_json(wire_api, parsed, &mut self.tool_calls, !self.seen_text);
        self.take_texts(texts)
    }

    /// Reads a whole response that has been parsed.
    pub fn read_answer(&mut self, wire_api: WireApi, parsed: Result<Json, String>) -> (r: Result<
        (),
        String,
    >)
        ensures
            r is Ok ==> with_answer(wire_api, old(self)@, res_view(parsed)) == Ok::<_, Seq<char>>(
                final(self)@,
            ),
            r matches Err(message) ==> with_answer(wire_api, old(self)@, res_view(parsed)) == Err::<
                BodyView,
                _,
            >(message@),
    {
        let texts = read_answer_json(wire_api, parsed, &mut self.tool_calls, !self.seen_text);
        self.take_texts(texts)
    }

    /// Reads the data of events, from the first to the last.
    fn read_all(&mut self, wire_api: WireApi, events: &Vec<String>) -> (r: Result<(), String>)
        requires
            old(self)@ == nothing_read(),
        ensures
            r is Ok ==> read_events(wire_api, views(events@)) == Ok::<_, Seq<char>>(final(self)@),
            r matches Err(message) ==> read_events(wire_api, views(events@)) == Err::<BodyView, _>(
                message@,
            ),
    {
        let ghost all = views(events@);
        let mut i: usize = 0;
        assert(all.take(0) == Seq::<Seq<char>>::empty());
        while i < events.len()
            invariant
                i <= events.len(),
                all == views(events@),
                read_events(wire_api, all.take(i as int)) == Ok::<_, Seq<char>>(self@),
            decreases events.len() - i,
        {
            assert(all.take(i + 1).drop_last() == all.take(i as int));
            let data = events[i].as_str();
            if !same(trim(data), "[DONE]") {
                match self.read_event(wire_api, parse_json(data)) {
                    Ok(_) => {},
                    Err(message) => {
                        proof {
                            lemma_error_stays(wire_api, all, i + 1);
                        }
                        return Err(message);
                    },
                }
            }
            i += 1;
        }
        assert(all.take(all.len() as int) == all);
        Ok(())
    }

    /// The texts, one behind the other.
    fn into_text(self) -> (r: String)
        ensures
            r@ == joined(self@.texts, Seq::empty()),
    {
        proof {
            reveal_strlit("");
            assert(""@ =~= Seq::<char>::empty());
        }
        join(&self.texts, "")
    }
}

/// Once there was text, a completed response adds none: text that was streamed is not repeated.
pub proof fn lemma_completed_response_adds_no_text(body: BodyView, event: JsonView)
    requires
        body.seen_text,
        event.get_str("type"@) == Some("response.completed"@),
    ensures
        with_event(WireApi::Responses, body, Ok(event)) matches Ok(after) && after.texts
            == body.texts,
{
    lemma_completed_text_is_not_repeated(event, body.calls);
    assert(body.texts + Seq::<Seq<char>>::empty() =~= body.texts);
}

/// An error stays when more events follow.
proof fn lemma_error_stays(wire_api: WireApi, events: Seq<Seq<char>>, n: int)
    requires
        0 <= n <= events.len(),
        read_events(wire_api, events.take(n)) is Err,
    ensures
        read_events(wire_api, events) == read_events(wire_api, events.take(n)),
    decreases events.len() - n,
{
    if n == events.len() {
        assert(events.take(n) == events);
    } else {
        assert(events.take(n + 1).drop_last() == events.take(n));
        lemma_error_stays(wire_api, events, n + 1);
    }
}

/// The text of the body of an answer, or why it has none.
pub fn backend_text_from_body(wire_api: WireApi, body: &str) -> (r: Result<String, String>)
    ensures
        res_view(r) == body_text(wire_api, body@),
{
    let mut reader = BodyReader::new();
    if looks_like_sse(body) {
        let mut decoder = SseDecoder::default();
        let events = decoder.push(body);
        assert(Seq::<char>::empty() + body@ =~= body@);
        match reader.read_all(wire_api, &events) {
            Ok(_) => {},
            Err(message) => {
                return Err(message);
            },
        }
        let rest = decoder.into_remaining();
        let rest = rest.as_str();
        if !is_blank(rest) && !starts_with(trim_start_class(rest, CharClass::White), "data:") {
            match reader.read_answer(wire_api, parse_json(rest)) {
                Ok(_) => {},
                Err(message) => {
                    return Err(message);
                },
            }
        }
    } else {
        match reader.read_answer(wire_api, parse_json(body)) {
            Ok(_) => {},
            Err(message) => {
                return Err(message);
            },
        }
    }
    Ok(reader.into_text())
}

/// What is read of a body is gathered: texts behind texts, and the calls as they stand after the
/// last piece. What cannot be read stops the reading.
pub proof fn lemma_reading_goes_on(
    wire_api: WireApi,
    events: Seq<Seq<char>>,
    last: Seq<char>,
    body: BodyView,
)
    requires
        read_events(wire_api, events) == Ok::<BodyView, Seq<char>>(body),
    ensures
        trimmed(last) == "[DONE]"@ ==> read_events(wire_api, events.push(last)) == Ok::<
            BodyView,
            Seq<char>,
        >(body),
        trimmed(last) != "[DONE]"@ ==> ({
            let reading = read_event(
                wire_api,
                json_reading(last),
                body.calls,
                !body.seen_text,
            );
            &&& reading.texts matches Ok(texts) ==> (read_events(
                wire_api,
                events.push(last),
            ) matches Ok(read) && read.texts == body.texts + texts && read.calls == reading.calls
                && (read.seen_text <==> body.seen_text || any_text(texts)))
            &&& reading.texts matches Err(message) ==> read_events(wire_api, events.push(last))
                == Err::<BodyView, Seq<char>>(message)
        }),
        read_events(wire_api, Seq::empty()) matches Ok(start) && start.texts.len() == 0
            && start.calls.len() == 0 && !start.seen_text,
{
    assert(events.push(last).drop_last() =~= events);
}

/// A body that does not look like a stream is read as one answer.
pub proof fn lemma_answers_are_read_whole(wire_api: WireApi, body: Seq<char>)
    ensures
        ({
            let start = trim_start_of(body, CharClass::White);
            let reading = read_answer(wire_api, json_reading(body), Seq::empty(), true);
            !has_prefix(start, "data:"@) && !has_prefix(start, "event:"@) ==> {
                &&& reading.texts matches Ok(texts) ==> body_text(wire_api, body) == Ok::<
                    Seq<char>,
                    Seq<char>,
                >(joined(texts, Seq::empty()))
                &&& reading.texts matches Err(message) ==> body_text(wire_api, body) == Err::<
                    Seq<char>,
                    Seq<char>,
                >(message)
            }
        }),
{
    let reading = read_answer(wire_api, json_reading(body), Seq::empty(), true);
    if reading.texts is Ok {
        assert(Seq::<Seq<char>>::empty() + reading.texts->Ok_0 =~= reading.texts->Ok_0);
    }
}

/// A body that looks like a stream is read event by event; what is left at its end is read as an
/// answer, unless there is nothing of it or it is the start of an event.
pub proof fn lemma_streams_are_read(wire_api: WireApi, body: Seq<char>, read: BodyView)
    requires
        has_prefix(trim_start_of(body, CharClass::White), "data:"@) || has_prefix(
            trim_start_of(body, CharClass::White),
            "event:"@,
        ),
        read_events(wire_api, sse_events(body).0) == Ok::<BodyView, Seq<char>>(read),
    ensures
        ({
            let rest = sse_events(body).1;
            let reading = read_answer(wire_api, json_reading(rest), read.calls, !read.seen_text);
            &&& blank(rest) || has_prefix(trim_start_of(rest, CharClass::White), "data:"@)
                ==> body_text(wire_api, body) == Ok::<Seq<char>, Seq<char>>(
                joined(read.texts, Seq::empty()),
            )
            &&& !blank(rest) && !has_prefix(trim_start_of(rest, CharClass::White), "data:"@) ==> {
                &&& reading.texts matches Ok(texts) ==> body_text(wire_api, body) == Ok::<
                    Seq<char>,
                    Seq<char>,
                >(joined(read.texts + texts, Seq::empty()))
                &&& reading.texts matches Err(message) ==> body_text(wire_api, body) == Err::<
                    Seq<char>,
                    Seq<char>,
                >(message)
            }
        }),
{
}

/// The texts of a body are put one behind another.
pub proof fn lemma_texts_are_put_together(first: Seq<Seq<char>>, second: Seq<Seq<char>>)
    ensures
        joined(first + second, Seq::empty()) == joined(first, Seq::empty()) + joined(
            second,
            Seq::empty(),
        ),
    decreases second.len(),
{
    let none = Seq::<char>::empty();
    if second.len() == 0 {
        assert(first + second =~= first);
        assert(joined(first, none) + none =~= joined(first, none));
    } else {
        let rest = second.drop_last();
        lemma_texts_are_put_together(first, rest);
        assert((first + second).drop_last() =~= first + rest);
        assert((first + second).last() == second.last());
        let text = second.last();
        if first.len() + rest.len() == 0 {
            assert(first + second =~= second);
            assert(none + joined(second, none) =~= joined(second, none));
        } else if rest.len() == 0 {
            assert(second =~= seq![text]);
            assert(joined(first + rest, none) + none + text =~= joined(first, none) + text);
        } else {
            assert(joined(first + rest, none) + none + text =~= joined(first, none) + (joined(
                rest,
                none,
            ) + none + text));
        }
    }
}

} // verus!
