//! Server-sent events: a stream of text is cut into events at blank lines, and the data of an
//! event are what stands behind `data:` on its lines.
use crate::text::{
    find, found, has_prefix, holds_text, join, joined, lemma_find_from, lemma_found,
    lemma_lines_follow, lines, lines_of, stands_at, strip_prefix, trim_end_class, trim_end_of,
    trim_start_class, trim_start_of, views, CharClass,
};
use vstd::prelude::*;

verus! {

/// Where the first event of a text ends, and how long the blank line behind it is.
pub open spec fn sse_boundary(text: Seq<char>) -> Option<(int, int)> {
    match (found(text, "\r\n\r\n"@), found(text, "\n\n"@)) {
        (Some(crlf), Some(lf)) => if crlf < lf {
            Some((crlf, 4))
        } else {
            Some((lf, 2))
        },
        (Some(crlf), None) => Some((crlf, 4)),
        (None, Some(lf)) => Some((lf, 2)),
        (None, None) => None,
    }
}

/// What a line says behind `data:`, where it starts with that.
pub open spec fn data_of_line(line: Seq<char>) -> Option<Seq<char>> {
    let line = trim_end_of(line, CharClass::Is('\r'));
    if has_prefix(line, "data:"@) {
        Some(trim_start_of(line.skip("data:"@.len() as int), CharClass::White))
    } else {
        None
    }
}

/// What some lines say behind `data:`.
pub open spec fn data_lines(lines: Seq<Seq<char>>) -> Seq<Seq<char>>
    decreases lines.len(),
{
    if lines.len() == 0 {
        Seq::empty()
    } else {
        let before = data_lines(lines.drop_last());
        match data_of_line(lines.last()) {
            Some(data) => before.push(data),
            None => before,
        }
    }
}

/// The data of an event.
pub open spec fn event_data(event: Seq<char>) -> Seq<char> {
    joined(data_lines(lines_of(event)), "\n"@)
}

/// The data of the events of a text that are complete, and what is left behind the last of them.
/// An event without data is passed over.
pub open spec fn sse_events(text: Seq<char>) -> (Seq<Seq<char>>, Seq<char>)
    decreases text.len(),
    via sse_events_decreases
{
    match sse_boundary(text) {
        Some((index, len)) => {
            let rest = sse_events(text.skip(index + len));
            let data = event_data(text.take(index));
            if data.len() == 0 {
                rest
            } else {
                (seq![data] + rest.0, rest.1)
            }
        },
        None => (Seq::empty(), text),
    }
}

#[via_fn]
proof fn sse_events_decreases(text: Seq<char>) {
    lemma_boundary(text);
}

/// A boundary lies within the text.
proof fn lemma_boundary(text: Seq<char>)
    ensures
        sse_boundary(text) matches Some((index, len)) ==> 0 <= index && len > 0 && index + len
            <= text.len(),
{
    reveal_strlit("\r\n\r\n");
    reveal_strlit("\n\n");
    lemma_find_from(text, "\r\n\r\n"@, 0);
    lemma_find_from(text, "\n\n"@, 0);
}

/// What is found in a text is found at the same place when the text goes on.
proof fn lemma_found_goes_on(text: Seq<char>, more: Seq<char>, part: Seq<char>)
    ensures
        found(text, part) matches Some(i) ==> found(text + more, part) == Some(i),
        found(text, part) is None ==> (found(text + more, part) matches Some(i) ==> i + part.len()
            > text.len()),
{
    let all = text + more;
    lemma_find_from(text, part, 0);
    lemma_find_from(all, part, 0);
    assert forall|j: int| 0 <= j && j + part.len() <= text.len() implies #[trigger] stands_at(
        all,
        part,
        j,
    ) == stands_at(text, part, j) by {
        assert(all.subrange(j, j + part.len()) =~= text.subrange(j, j + part.len()));
    }
    match (found(text, part), found(all, part)) {
        (Some(i), Some(k)) => {
            assert(stands_at(all, part, i));
            assert(k < i ==> stands_at(text, part, k));
        },
        (Some(i), None) => {
            assert(stands_at(all, part, i));
        },
        _ => {},
    }
}

/// The first boundary of a text is that of every longer text.
proof fn lemma_boundary_goes_on(text: Seq<char>, more: Seq<char>)
    requires
        sse_boundary(text) is Some,
    ensures
        sse_boundary(text + more) == sse_boundary(text),
{
    let all = text + more;
    let crlf = "\r\n\r\n"@;
    let lf = "\n\n"@;
    reveal_strlit("\r\n\r\n");
    reveal_strlit("\n\n");
    lemma_found_goes_on(text, more, crlf);
    lemma_found_goes_on(text, more, lf);
    lemma_find_from(text, crlf, 0);
    lemma_find_from(text, lf, 0);
    lemma_find_from(all, crlf, 0);
    lemma_find_from(all, lf, 0);
    match (found(text, crlf), found(text, lf), found(all, crlf)) {
        (None, Some(i), Some(j)) => {
            if j < i {
                assert(j == i - 1);
                assert(all.subrange(j, j + 4)[2] == crlf[2]);
                assert(all.subrange(i, i + 2)[1] == lf[1]);
                assert(all[i + 1] == '\r' && all[i + 1] == '\n');
            }
        },
        _ => {},
    }
}

/// The events of a stream do not depend on how it is cut: decoding what is left of a text together
/// with more text continues where decoding the text stopped.
pub proof fn lemma_events_in_pieces(text: Seq<char>, more: Seq<char>)
    ensures
        sse_events(text + more).0 == sse_events(text).0 + sse_events(sse_events(text).1 + more).0,
        sse_events(text + more).1 == sse_events(sse_events(text).1 + more).1,
    decreases text.len(),
{
    match sse_boundary(text) {
        Some((index, len)) => {
            lemma_boundary(text);
            lemma_boundary_goes_on(text, more);
            let rest = text.skip(index + len);
            assert((text + more).skip(index + len) == rest + more);
            assert((text + more).take(index) == text.take(index));
            lemma_events_in_pieces(rest, more);
            let data = event_data(text.take(index));
            if data.len() != 0 {
                assert(seq![data] + (sse_events(rest).0 + sse_events(sse_events(rest).1 + more).0)
                    == (seq![data] + sse_events(rest).0) + sse_events(
                    sse_events(rest).1 + more,
                ).0);
            }
        },
        None => {
            assert(Seq::<Seq<char>>::empty() + sse_events(text + more).0 == sse_events(
                text + more,
            ).0);
        },
    }
}

/// What is left of a stream holds no complete event.
pub proof fn lemma_rest_is_incomplete(text: Seq<char>)
    ensures
        sse_boundary(sse_events(text).1) is None,
    decreases text.len(),
{
    match sse_boundary(text) {
        Some((index, len)) => {
            lemma_boundary(text);
            lemma_rest_is_incomplete(text.skip(index + len));
        },
        None => {},
    }
}

/// A decoder of server-sent events. Its model is the text that it has not decoded yet.
#[derive(Debug)]
pub struct SseDecoder {
    buffer: String,
}

impl View for SseDecoder {
    type V = Seq<char>;

    closed spec fn view(&self) -> Seq<char> {
        self.buffer@
    }
}

impl Default for SseDecoder {
    /// A decoder at the start of a stream.
    fn default() -> (r: Self)
        ensures
            r@ == Seq::<char>::empty(),
    {
        SseDecoder { buffer: String::new() }
    }
}

impl SseDecoder {
    /// Takes the next piece of the stream, and gives the data of the events that it completes.
    pub fn push(&mut self, text: &str) -> (events: Vec<String>)
        ensures
            views(events@) == sse_events(old(self)@ + text@).0,
            final(self)@ == sse_events(old(self)@ + text@).1,
    {
        self.buffer.append(text);
        let ghost all = self.buffer@;
        let mut events: Vec<String> = Vec::new();
        loop
            invariant
                views(events@) + sse_events(self.buffer@).0 == sse_events(all).0,
                sse_events(self.buffer@).1 == sse_events(all).1,
                all == old(self)@ + text@,
            ensures
                views(events@) == sse_events(all).0,
                self.buffer@ == sse_events(all).1,
            decreases self.buffer@.len(),
        {
            match find_sse_boundary(self.buffer.as_str()) {
                Some((index, len)) => {
                    proof {
                        lemma_boundary(self.buffer@);
                    }
                    let ghost whole = self.buffer@;
                    let ghost before = views(events@);
                    let end = self.buffer.as_str().unicode_len();
                    let raw_event = self.buffer.as_str().substring_char(0, index).to_owned();
                    let rest = self.buffer.as_str().substring_char(index + len, end).to_owned();
                    assert(raw_event@ == whole.take(index as int));
                    assert(rest@ == whole.skip(index + len));
                    self.buffer = rest;
                    let data = read_event_data(raw_event.as_str());
                    if !data.as_str().is_empty() {
                        events.push(data);
                        assert(views(events@) == before.push(data@));
                        assert(before + (seq![data@] + sse_events(self.buffer@).0) == views(events@)
                            + sse_events(self.buffer@).0);
                    }
                },
                None => {
                    assert(views(events@) + Seq::<Seq<char>>::empty() == views(events@));
                    break;
                },
            }
        }
        events
    }

    /// The text of the stream that belongs to no complete event.
    pub fn remaining<'a>(&'a self) -> (r: &'a str)
        ensures
            r@ == self@,
    {
        self.buffer.as_str()
    }

    /// The text of the stream that belongs to no complete event.
    pub fn into_remaining(self) -> (r: String)
        ensures
            r@ == self@,
    {
        self.buffer
    }
}

/// The data of an event.
fn read_event_data(event: &str) -> (r: String)
    ensures
        r@ == event_data(event@),
{
    let lines = lines(event);
    let ghost all = views(lines@);
    let mut data: Vec<String> = Vec::new();
    let mut i: usize = 0;
    while i < lines.len()
        invariant
            i <= lines.len(),
            all == views(lines@),
            views(data@) == data_lines(all.take(i as int)),
        decreases lines.len() - i,
    {
        assert(all.take(i + 1).drop_last() == all.take(i as int));
        let line = trim_end_class(lines[i].as_str(), CharClass::Is('\r'));
        let ghost before = views(data@);
        match strip_prefix(line, "data:") {
            Some(rest) => {
                let rest = trim_start_class(rest, CharClass::White).to_owned();
                data.push(rest);
                assert(views(data@) == before.push(rest@));
            },
            None => {},
        }
        i += 1;
    }
    assert(all.take(all.len() as int) == all);
    join(&data, "\n")
}

/// Where the first event of a text ends, and how long the blank line behind it is, in characters.
pub fn find_sse_boundary(buffer: &str) -> (r: Option<(usize, usize)>)
    ensures
        r matches Some((index, len)) ==> sse_boundary(buffer@) == Some((index as int, len as int))
            && index + len <= buffer@.len(),
        r is None ==> sse_boundary(buffer@) is None,
{
    proof {
        lemma_boundary(buffer@);
    }
    match (find(buffer, "\r\n\r\n"), find(buffer, "\n\n")) {
        (Some(crlf), Some(lf)) => if crlf < lf {
            Some((crlf, 4))
        } else {
            Some((lf, 2))
        },
        (Some(crlf), None) => Some((crlf, 4)),
        (None, Some(lf)) => Some((lf, 2)),
        (None, None) => None,
    }
}

/// A line of data gives what stands behind its name, without the white space before it; a carriage
/// return at its end does not count, and other lines give nothing.
pub proof fn lemma_which_lines_are_data(text: Seq<char>, line: Seq<char>)
    requires
        text.len() == 0 || text.last() != '\r',
        line.len() == 0 || line.last() != '\r',
    ensures
        data_of_line("data:"@ + text) == Some(trim_start_of(text, CharClass::White)),
        data_of_line("data:"@ + text + seq!['\r']) == Some(trim_start_of(text, CharClass::White)),
        !has_prefix(line, "data:"@) ==> data_of_line(line) is None,
{
    reveal_strlit("data:");
    let all = "data:"@ + text;
    assert(all.last() != '\r');
    assert((all + seq!['\r']).drop_last() =~= all);
    assert(all.take(5) =~= "data:"@);
    assert(all.skip(5) =~= text);
}

/// The data of lines follow one another as the lines do.
pub proof fn lemma_data_follow_the_lines(lines: Seq<Seq<char>>, line: Seq<char>)
    ensures
        data_lines(Seq::empty()) == Seq::<Seq<char>>::empty(),
        data_of_line(line) matches Some(data) ==> data_lines(lines.push(line)) == data_lines(
            lines,
        ).push(data),
        data_of_line(line) is None ==> data_lines(lines.push(line)) == data_lines(lines),
{
    assert(lines.push(line).drop_last() =~= lines);
}

proof fn lemma_data_of_one_line(line: Seq<char>)
    requires
        line.len() > 0,
        forall|i: int| 0 <= i < line.len() ==> #[trigger] line[i] != '\n',
    ensures
        data_of_line(line) matches Some(data) ==> event_data(line) == data,
        data_of_line(line) is None ==> event_data(line).len() == 0,
{
    lemma_lines_follow(line, Seq::empty());
    lemma_data_follow_the_lines(Seq::empty(), line);
    assert(Seq::<Seq<char>>::empty().push(line) =~= seq![line]);
}

proof fn lemma_first_event_ends(line: Seq<char>, rest: Seq<char>)
    requires
        forall|i: int| 0 <= i < line.len() ==> #[trigger] line[i] != '\n',
    ensures
        sse_boundary(line + "\n\n"@ + rest) == Some((line.len() as int, 2int)),
        sse_boundary(line + "\r\n\r\n"@ + rest) == Some((line.len() as int, 4int)),
{
    reveal_strlit("\n\n");
    reveal_strlit("\r\n\r\n");
    let n = line.len() as int;
    let text = line + "\n\n"@ + rest;
    lemma_found(text, "\n\n"@);
    lemma_found(text, "\r\n\r\n"@);
    assert(stands_at(text, "\n\n"@, n)) by {
        assert(text.subrange(n, n + 2) =~= "\n\n"@);
    }
    assert forall|j: int| 0 <= j < n implies !stands_at(text, "\n\n"@, j) by {
        if stands_at(text, "\n\n"@, j) {
            assert(text.subrange(j, j + 2)[0] == "\n\n"@[0]);
            assert(text[j] == line[j]);
        }
    }
    assert forall|j: int| 0 <= j <= n implies !stands_at(text, "\r\n\r\n"@, j) by {
        if stands_at(text, "\r\n\r\n"@, j) {
            assert(text.subrange(j, j + 4)[1] == "\r\n\r\n"@[1]);
            assert(text.subrange(j, j + 4)[2] == "\r\n\r\n"@[2]);
            assert(text.subrange(j, j + 4)[0] == "\r\n\r\n"@[0]);
            if j + 1 < n {
                assert(text[j + 1] == line[j + 1]);
            } else if j + 1 == n {
                assert(text[j + 2] == '\n');
            } else {
                assert(text[j] == '\n');
            }
        }
    }
    let text = line + "\r\n\r\n"@ + rest;
    lemma_found(text, "\n\n"@);
    lemma_found(text, "\r\n\r\n"@);
    assert(stands_at(text, "\r\n\r\n"@, n)) by {
        assert(text.subrange(n, n + 4) =~= "\r\n\r\n"@);
    }
    assert forall|j: int| 0 <= j <= n implies !stands_at(text, "\n\n"@, j) by {
        if stands_at(text, "\n\n"@, j) {
            assert(text.subrange(j, j + 2)[0] == "\n\n"@[0]);
            if j < n {
                assert(text[j] == line[j]);
            } else {
                assert(text[j] == '\r');
            }
        }
    }
    assert forall|j: int| 0 <= j < n implies !stands_at(text, "\r\n\r\n"@, j) by {
        if stands_at(text, "\r\n\r\n"@, j) {
            assert(text.subrange(j, j + 4)[1] == "\r\n\r\n"@[1]);
            if j + 1 < n {
                assert(text[j + 1] == line[j + 1]);
            } else {
                assert(text[j + 1] == '\r');
            }
        }
    }
}

/// A line of data and an empty line behind it are one event, with either kind of line ends; what
/// comes behind is read on its own. Events without data are passed over.
pub proof fn lemma_events_come_out(text: Seq<char>, rest: Seq<char>)
    requires
        forall|i: int| 0 <= i < text.len() ==> #[trigger] text[i] != '\n',
        text.len() == 0 || text.last() != '\r',
    ensures
        ({
            let data = trim_start_of(text, CharClass::White);
            let (events, left) = sse_events(rest);
            &&& data.len() > 0 ==> sse_events("data:"@ + text + "\n\n"@ + rest) == (
                seq![data] + events,
                left,
            )
            &&& data.len() > 0 ==> sse_events("data:"@ + text + "\r\n\r\n"@ + rest) == (
                seq![data] + events,
                left,
            )
            &&& data.len() == 0 ==> sse_events("data:"@ + text + "\n\n"@ + rest) == (events, left)
            &&& text.len() > 0 && !has_prefix(text, "data:"@) ==> sse_events(text + "\n\n"@ + rest)
                == (events, left)
        }),
{
    reveal_strlit("data:");
    reveal_strlit("\n\n");
    reveal_strlit("\r\n\r\n");
    let line = "data:"@ + text;
    assert forall|i: int| 0 <= i < line.len() implies #[trigger] line[i] != '\n' by {
        if i >= 5 {
            assert(line[i] == text[i - 5]);
        }
    }
    lemma_which_lines_are_data(text, text);
    lemma_data_of_one_line(line);
    lemma_first_event_ends(line, rest);
    let all = line + "\n\n"@ + rest;
    assert(all.take(line.len() as int) =~= line);
    assert(all.skip(line.len() as int + 2) =~= rest);
    let all = line + "\r\n\r\n"@ + rest;
    assert(all.take(line.len() as int) =~= line);
    assert(all.skip(line.len() as int + 4) =~= rest);
    if text.len() > 0 && !has_prefix(text, "data:"@) {
        lemma_data_of_one_line(text);
        lemma_first_event_ends(text, rest);
        let all = text + "\n\n"@ + rest;
        assert(all.take(text.len() as int) =~= text);
        assert(all.skip(text.len() as int + 2) =~= rest);
    }
}

/// Several lines of data in one event are one text, with line feeds between them.
pub proof fn lemma_data_of_two_lines(first: Seq<char>, second: Seq<char>)
    requires
        forall|i: int| 0 <= i < first.len() ==> #[trigger] first[i] != '\n',
        forall|i: int| 0 <= i < second.len() ==> #[trigger] second[i] != '\n',
        first.len() == 0 || first.last() != '\r',
        second.len() == 0 || second.last() != '\r',
    ensures
        event_data("data:"@ + first + seq!['\n'] + ("data:"@ + second)) == trim_start_of(
            first,
            CharClass::White,
        ) + "\n"@ + trim_start_of(second, CharClass::White),
{
    reveal_strlit("data:");
    let a = "data:"@ + first;
    let b = "data:"@ + second;
    assert forall|i: int| 0 <= i < a.len() implies #[trigger] a[i] != '\n' by {
        if i >= 5 {
            assert(a[i] == first[i - 5]);
        }
    }
    assert forall|i: int| 0 <= i < b.len() implies #[trigger] b[i] != '\n' by {
        if i >= 5 {
            assert(b[i] == second[i - 5]);
        }
    }
    assert(a.last() != '\r');
    lemma_lines_follow(a, b);
    lemma_lines_follow(b, b);
    lemma_which_lines_are_data(first, first);
    lemma_which_lines_are_data(second, second);
    lemma_data_follow_the_lines(Seq::empty(), a);
    lemma_data_follow_the_lines(seq![a], b);
    assert(Seq::<Seq<char>>::empty().push(a) =~= seq![a]);
    assert(seq![a].push(b) =~= seq![a] + seq![b]);
    let x = trim_start_of(first, CharClass::White);
    let y = trim_start_of(second, CharClass::White);
    assert(data_lines(seq![a] + seq![b]) =~= seq![x, y]);
    assert(seq![x, y].drop_last() =~= seq![x]);
    reveal_with_fuel(joined, 2);
    assert(lines_of(a + seq!['\n'] + b) == seq![a] + seq![b]);
}

/// Where nothing ends an event, the text is kept for later.
pub proof fn lemma_unended_text_is_kept(text: Seq<char>)
    requires
        !holds_text(text, "\n\n"@),
        !holds_text(text, "\r\n\r\n"@),
    ensures
        sse_events(text) == (Seq::<Seq<char>>::empty(), text),
{
    lemma_found(text, "\n\n"@);
    lemma_found(text, "\r\n\r\n"@);
}

} // verus!
